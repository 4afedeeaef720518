//! The set of currently-held keys and the canonical signature encoder.
//!
//! A chord signature must be byte-identical for two held sets containing the
//! same keys, whatever order the keys were pressed or added in, and distinct
//! held sets must encode to distinct signatures.  Both facts are proved here:
//! the set is kept as a listing in strictly increasing rank order, so the
//! listing — and with it the signature text — is a function of the set alone.

use vstd::prelude::*;
use vstd::string::StringExecFns;

use crate::keys::Key;
use crate::keys::key_char;
use crate::keys::key_code;
use crate::keys::key_rank;
use crate::keys::key_token;
use crate::keys::lemma_key_char_injective;
use crate::keys::lemma_key_code_injective;

verus! {

/// A listing of keys in strictly increasing rank order: the canonical way
/// to write a key set down.
pub open spec fn sorted_unique(s: Seq<Key>) -> bool {
    forall|i: int, j: int| 0 <= i < j < s.len() ==> key_code(s[i]) < key_code(s[j])
}

/// The signature text of a canonical listing: one character per key.
pub open spec fn sig_chars(s: Seq<Key>) -> Seq<char> {
    s.map(|i: int, k: Key| key_char(k))
}

/// The keys reported as pressed at one moment, kept in canonical order.
///
/// This is both the builder that registers a chord (start empty, `add` each
/// key) and the live tracker a source adapter feeds with press and release
/// notifications.
pub struct HeldKeySet {
    keys: Vec<Key>,
}

impl HeldKeySet {
    /// The listing is in canonical order.
    pub closed spec fn wf(self) -> bool {
        sorted_unique(self.keys@)
    }

    /// The set of keys this value holds.
    pub closed spec fn key_set(self) -> Set<Key> {
        self.keys@.to_set()
    }

    /// The signature text `encode` produces.
    pub closed spec fn signature(self) -> Seq<char> {
        sig_chars(self.keys@)
    }

    /// An empty held set.
    pub fn new() -> (r: HeldKeySet)
        ensures
            r.wf(),
            r.key_set() == Set::<Key>::empty(),
            r.signature() == Seq::<char>::empty(),
    {
        let r = HeldKeySet { keys: Vec::new() };
        proof {
            assert(r.keys@.to_set() =~= Set::<Key>::empty());
            assert(sig_chars(r.keys@) =~= Seq::<char>::empty());
        }
        r
    }

    /// Record `k` as held.  Adding a key already present changes nothing.
    pub fn add(&mut self, k: Key)
        requires
            old(self).wf(),
        ensures
            final(self).wf(),
            final(self).key_set() == old(self).key_set().insert(k),
    {
        let mut i: usize = 0;
        while i < self.keys.len() && key_rank(self.keys[i]) < key_rank(k)
            invariant
                self.keys@ == old(self).keys@,
                sorted_unique(self.keys@),
                i <= self.keys@.len(),
                forall|j: int| 0 <= j < i ==> key_code(self.keys@[j]) < key_code(k),
            decreases self.keys@.len() - i,
        {
            i += 1;
        }
        if i < self.keys.len() && key_rank(self.keys[i]) == key_rank(k) {
            proof {
                lemma_key_code_injective(self.keys@[i as int], k);
                assert(self.keys@.contains(k));
                assert(self.keys@.to_set() =~= old(self).keys@.to_set().insert(k));
            }
            return ;
        }
        proof {
            assert(forall|j: int| i <= j < self.keys@.len() ==> key_code(k) < key_code(
                #[trigger] self.keys@[j],
            )) by {
                if i < self.keys@.len() {
                    assert(key_code(self.keys@[i as int]) != key_code(k)) by {
                        lemma_key_code_injective(self.keys@[i as int], k);
                    }
                }
            }
        }
        let ghost pre = self.keys@;
        self.keys.insert(i, k);
        proof {
            let s = self.keys@;
            assert forall|a: int, b: int| 0 <= a < b < s.len() implies key_code(s[a]) < key_code(
                s[b],
            ) by {
                if a < i && b > i {
                    assert(s[a] == pre[a] && s[b] == pre[b - 1]);
                }
            }
            assert(s.to_set() =~= pre.to_set().insert(k)) by {
                assert forall|x: Key| s.to_set().contains(x) implies pre.to_set().insert(
                    k,
                ).contains(x) by {
                    let w = choose|w: int| 0 <= w < s.len() && s[w] == x;
                    if w < i {
                        assert(pre[w] == x);
                    } else if w > i {
                        assert(pre[w - 1] == x);
                    }
                }
                assert forall|x: Key| pre.to_set().insert(k).contains(x) implies s.to_set().contains(
                    x,
                ) by {
                    if x == k {
                        assert(s[i as int] == x);
                    } else {
                        let w = choose|w: int| 0 <= w < pre.len() && pre[w] == x;
                        if w < i {
                            assert(s[w] == x);
                        } else {
                            assert(s[w + 1] == x);
                        }
                    }
                }
            }
        }
    }

    /// Record `k` as released.  Releasing a key not held changes nothing.
    pub fn remove(&mut self, k: Key)
        requires
            old(self).wf(),
        ensures
            final(self).wf(),
            final(self).key_set() == old(self).key_set().remove(k),
    {
        let mut i: usize = 0;
        while i < self.keys.len() && key_rank(self.keys[i]) != key_rank(k)
            invariant
                self.keys@ == old(self).keys@,
                sorted_unique(self.keys@),
                i <= self.keys@.len(),
                forall|j: int| 0 <= j < i ==> key_code(#[trigger] self.keys@[j]) != key_code(k),
            decreases self.keys@.len() - i,
        {
            i += 1;
        }
        if i == self.keys.len() {
            proof {
                assert forall|x: Key| self.keys@.to_set().contains(x) implies x != k by {
                    let w = choose|w: int| 0 <= w < self.keys@.len() && self.keys@[w] == x;
                    lemma_key_code_injective(self.keys@[w], k);
                }
                assert(self.keys@.to_set() =~= old(self).keys@.to_set().remove(k));
            }
            return ;
        }
        proof {
            lemma_key_code_injective(self.keys@[i as int], k);
            assert(self.keys@[i as int] == k);
        }
        let ghost pre = self.keys@;
        self.keys.remove(i);
        proof {
            let s = self.keys@;
            assert forall|a: int, b: int| 0 <= a < b < s.len() implies key_code(s[a]) < key_code(
                s[b],
            ) by {
                if a < i && b >= i {
                    assert(s[a] == pre[a] && s[b] == pre[b + 1]);
                }
            }
            assert(s.to_set() =~= pre.to_set().remove(k)) by {
                assert forall|x: Key| s.to_set().contains(x) implies pre.to_set().remove(
                    k,
                ).contains(x) by {
                    let w = choose|w: int| 0 <= w < s.len() && s[w] == x;
                    if w < i {
                        assert(pre[w] == x);
                        lemma_key_code_injective(pre[w], k);
                    } else {
                        assert(pre[w + 1] == x);
                        lemma_key_code_injective(pre[w + 1], k);
                    }
                }
                assert forall|x: Key| pre.to_set().remove(k).contains(x) implies s.to_set().contains(
                    x,
                ) by {
                    let w = choose|w: int| 0 <= w < pre.len() && pre[w] == x;
                    if w < i {
                        assert(s[w] == x);
                    } else {
                        assert(w != i);
                        assert(s[w - 1] == x);
                    }
                }
            }
        }
    }

    /// Encode the held set as its canonical signature string.
    ///
    /// Deterministic and order-independent: the result is a function of
    /// `key_set` alone ([`lemma_signature_deterministic`]), and distinct
    /// sets yield distinct results ([`lemma_signature_injective`]).
    pub fn encode(&self) -> (r: String)
        requires
            self.wf(),
        ensures
            r@ == self.signature(),
    {
        let mut r = String::new();
        let mut i: usize = 0;
        while i < self.keys.len()
            invariant
                i <= self.keys@.len(),
                r@ == sig_chars(self.keys@.take(i as int)),
            decreases self.keys@.len() - i,
        {
            let t = key_token(self.keys[i]);
            r.append(t);
            proof {
                assert(sig_chars(self.keys@.take(i + 1)) =~= sig_chars(
                    self.keys@.take(i as int),
                ) + seq![key_char(self.keys@[i as int])]);
            }
            i += 1;
        }
        proof {
            assert(self.keys@.take(self.keys@.len() as int) =~= self.keys@);
        }
        r
    }
}

/// A canonical listing is determined by the set of keys it lists.
pub proof fn lemma_sorted_unique_same_set(s1: Seq<Key>, s2: Seq<Key>)
    requires
        sorted_unique(s1),
        sorted_unique(s2),
        s1.to_set() == s2.to_set(),
    ensures
        s1 == s2,
    decreases s1.len(),
{
    if s1.len() == 0 {
        if s2.len() > 0 {
            assert(s1.to_set().contains(s2[0]));
            assert(false);
        }
        assert(s1 =~= s2);
    } else if s2.len() == 0 {
        assert(s2.to_set().contains(s1[0]));
        assert(false);
    } else {
        assert(s2.to_set().contains(s1[0]));
        let j = choose|j: int| 0 <= j < s2.len() && s2[j] == s1[0];
        assert(key_code(s2[0]) <= key_code(s1[0]));
        assert(s1.to_set().contains(s2[0]));
        let i = choose|i: int| 0 <= i < s1.len() && s1[i] == s2[0];
        assert(key_code(s1[0]) <= key_code(s2[0]));
        lemma_key_code_injective(s1[0], s2[0]);
        let t1 = s1.subrange(1, s1.len() as int);
        let t2 = s2.subrange(1, s2.len() as int);
        assert(t1.to_set() =~= s1.to_set().remove(s1[0])) by {
            lemma_tail_to_set(s1);
        }
        assert(t2.to_set() =~= s2.to_set().remove(s2[0])) by {
            lemma_tail_to_set(s2);
        }
        lemma_sorted_unique_same_set(t1, t2);
        assert forall|w: int| 0 <= w < s1.len() implies s1[w] == s2[w] by {
            if w > 0 {
                assert(s1[w] == t1[w - 1] && s2[w] == t2[w - 1]);
            }
        }
        assert(s1 =~= s2);
    }
}

/// Dropping the head of a canonical listing drops exactly the head key from
/// the listed set.
proof fn lemma_tail_to_set(s: Seq<Key>)
    requires
        sorted_unique(s),
        s.len() > 0,
    ensures
        s.subrange(1, s.len() as int).to_set() == s.to_set().remove(s[0]),
{
    let t = s.subrange(1, s.len() as int);
    assert forall|x: Key| t.to_set().contains(x) implies s.to_set().remove(s[0]).contains(x) by {
        let w = choose|w: int| 0 <= w < t.len() && t[w] == x;
        assert(s[w + 1] == x);
        lemma_key_code_injective(s[w + 1], s[0]);
    }
    assert forall|x: Key| s.to_set().remove(s[0]).contains(x) implies t.to_set().contains(x) by {
        let w = choose|w: int| 0 <= w < s.len() && s[w] == x;
        assert(w != 0);
        assert(t[w - 1] == x);
    }
    assert(t.to_set() =~= s.to_set().remove(s[0]));
}

/// Signature texts are injective over canonical listings.
pub proof fn lemma_sig_chars_injective(s1: Seq<Key>, s2: Seq<Key>)
    requires
        sig_chars(s1) == sig_chars(s2),
    ensures
        s1 == s2,
{
    assert(sig_chars(s1).len() == s1.len());
    assert(sig_chars(s2).len() == s2.len());
    assert(s1.len() == s2.len());
    assert forall|i: int| 0 <= i < s1.len() implies s1[i] == s2[i] by {
        assert(sig_chars(s1)[i] == key_char(s1[i]));
        assert(sig_chars(s2)[i] == key_char(s2[i]));
        lemma_key_char_injective(s1[i], s2[i]);
    }
    assert(s1 =~= s2);
}

/// Determinism: the signature depends only on which keys are held, never on
/// the order they were added to the set.
pub proof fn lemma_signature_deterministic(h1: HeldKeySet, h2: HeldKeySet)
    requires
        h1.wf(),
        h2.wf(),
        h1.key_set() == h2.key_set(),
    ensures
        h1.signature() == h2.signature(),
{
    lemma_sorted_unique_same_set(h1.keys@, h2.keys@);
}

/// Collision freedom: held sets with equal signatures hold equal keys.
pub proof fn lemma_signature_injective(h1: HeldKeySet, h2: HeldKeySet)
    requires
        h1.wf(),
        h2.wf(),
        h1.signature() == h2.signature(),
    ensures
        h1.key_set() == h2.key_set(),
{
    lemma_sig_chars_injective(h1.keys@, h2.keys@);
}

/// The signature of a well-formed held set that holds exactly the keys of a
/// canonical listing is that listing's signature text.
pub proof fn lemma_signature_of_listing(h: HeldKeySet, s: Seq<Key>)
    requires
        h.wf(),
        sorted_unique(s),
        h.key_set() == s.to_set(),
    ensures
        h.signature() == sig_chars(s),
{
    lemma_sorted_unique_same_set(h.keys@, s);
}

} // verus!
