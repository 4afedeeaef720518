use media_chords::registry::Action;
use media_chords::scripts::{
    next_track, playpause, previous_track, script_for, volume_down, volume_up,
};
use media_chords::volume::{volume_down_step, volume_up_step};

#[test]
fn script_bodies_are_the_fixed_payloads() {
    assert_eq!(playpause(), "Application('Music').playpause()");
    assert_eq!(next_track(), "Application('Music').nextTrack();");
    assert_eq!(previous_track(), "Application('Music').previousTrack();");
    assert_eq!(
        volume_up(),
        "\n    var app = Application('Music');\n    var volume = app.soundVolume();\n    app.soundVolume = volume + 10 < 100 ? volume + 10 : 100;\n    "
    );
    assert_eq!(
        volume_down(),
        "\n    var app = Application('Music');\n    var volume = app.soundVolume();\n    app.soundVolume = volume - 10 > 0 ? volume - 10 : 0;\n    "
    );
}

#[test]
fn script_for_picks_each_actions_payload() {
    assert_eq!(script_for(Action::PlayPause), playpause());
    assert_eq!(script_for(Action::VolumeUp), volume_up());
    assert_eq!(script_for(Action::VolumeDown), volume_down());
    assert_eq!(script_for(Action::NextTrack), next_track());
    assert_eq!(script_for(Action::PreviousTrack), previous_track());
}

#[test]
fn volume_up_settles_at_the_top() {
    let mut v: u8 = 95;
    v = volume_up_step(v);
    assert_eq!(v, 100);
    for _ in 0..5 {
        v = volume_up_step(v);
        assert_eq!(v, 100);
    }
}

#[test]
fn volume_down_settles_at_the_bottom() {
    let mut v: u8 = 5;
    v = volume_down_step(v);
    assert_eq!(v, 0);
    for _ in 0..5 {
        v = volume_down_step(v);
        assert_eq!(v, 0);
    }
}

#[test]
fn volume_steps_move_by_ten_in_the_middle() {
    assert_eq!(volume_up_step(50), 60);
    assert_eq!(volume_down_step(50), 40);
    assert_eq!(volume_up_step(0), 10);
    assert_eq!(volume_down_step(100), 90);
    assert_eq!(volume_up_step(89), 99);
    assert_eq!(volume_up_step(90), 100);
    assert_eq!(volume_down_step(11), 1);
    assert_eq!(volume_down_step(10), 0);
}

#[test]
fn debug_level_marker_exists() {
    let level = media_chords::DebugLevel;
    let copy = level;
    let _ = format!("{:?}", copy);
}
