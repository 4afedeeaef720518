//! The fixed script payload each action hands to the scripting bridge.
//!
//! Every action is one externally-executed script body targeting the media
//! player.  The payloads are compiled-in constants; the functions below are
//! the compute half of the original side-effecting operations, with the
//! bridge invocation itself left to the process around the library.

use vstd::prelude::*;

use crate::registry::Action;

verus! {

/// Payload of the play/pause toggle.
pub open spec fn spec_playpause_script() -> Seq<char> {
    "Application('Music').playpause()"@
}

/// Payload of the volume-down step, clamped at the bottom of the range.
pub open spec fn spec_volume_down_script() -> Seq<char> {
    "
    var app = Application('Music');
    var volume = app.soundVolume();
    app.soundVolume = volume - 10 > 0 ? volume - 10 : 0;
    "@
}

/// Payload of the volume-up step, clamped at the top of the range.
pub open spec fn spec_volume_up_script() -> Seq<char> {
    "
    var app = Application('Music');
    var volume = app.soundVolume();
    app.soundVolume = volume + 10 < 100 ? volume + 10 : 100;
    "@
}

/// Payload of the next-track skip.
pub open spec fn spec_next_track_script() -> Seq<char> {
    "Application('Music').nextTrack();"@
}

/// Payload of the previous-track skip.
pub open spec fn spec_previous_track_script() -> Seq<char> {
    "Application('Music').previousTrack();"@
}

/// The payload dispatched for each action.
pub open spec fn spec_script(a: Action) -> Seq<char> {
    match a {
        Action::VolumeUp => spec_volume_up_script(),
        Action::VolumeDown => spec_volume_down_script(),
        Action::PreviousTrack => spec_previous_track_script(),
        Action::NextTrack => spec_next_track_script(),
        Action::PlayPause => spec_playpause_script(),
    }
}

/// The play/pause toggle's script body.
pub fn playpause() -> (s: &'static str)
    ensures
        s@ == spec_playpause_script(),
{
    "Application('Music').playpause()"
}

/// The volume-down step's script body.
pub fn volume_down() -> (s: &'static str)
    ensures
        s@ == spec_volume_down_script(),
{
    "
    var app = Application('Music');
    var volume = app.soundVolume();
    app.soundVolume = volume - 10 > 0 ? volume - 10 : 0;
    "
}

/// The volume-up step's script body.
pub fn volume_up() -> (s: &'static str)
    ensures
        s@ == spec_volume_up_script(),
{
    "
    var app = Application('Music');
    var volume = app.soundVolume();
    app.soundVolume = volume + 10 < 100 ? volume + 10 : 100;
    "
}

/// The next-track skip's script body.
pub fn next_track() -> (s: &'static str)
    ensures
        s@ == spec_next_track_script(),
{
    "Application('Music').nextTrack();"
}

/// The previous-track skip's script body.
pub fn previous_track() -> (s: &'static str)
    ensures
        s@ == spec_previous_track_script(),
{
    "Application('Music').previousTrack();"
}

/// The script body to execute for `a`.
pub fn script_for(a: Action) -> (s: &'static str)
    ensures
        s@ == spec_script(a),
{
    match a {
        Action::VolumeUp => volume_up(),
        Action::VolumeDown => volume_down(),
        Action::PreviousTrack => previous_track(),
        Action::NextTrack => next_track(),
        Action::PlayPause => playpause(),
    }
}

} // verus!
