//! `WOW_PHASE` — what did the renderer actually do with this batch, frame by frame?
//!
//! `WOW_PHASE=<uniqueId>` watches every model batch of one placed object and reports, per frame,
//! which render phase each batch landed in and where in the draw order it sits; absent from every
//! phase means it was never submitted. `WOW_PHASE=particles[:<bone>,…]` asks the same of every
//! live particle emitter and ribbon trail, and the bone list is the arming key: the watch list is
//! held only once every named bone is live.
//!
//! This module holds the knob's reading and the draw-order arithmetic over the render phases: a
//! binned phase is its bins in draw order, each bin its entities; the main view is the phase map
//! with the most entities.
use crate::pixels::bones_of;
use crate::pixels::bones_in;
use crate::text::{chars_of, parse_unsigned, parse_unsigned_at, split, trim, trim_bounds};
use vstd::prelude::*;

verus! {

/// What `WOW_PHASE` asks for.
pub struct PhaseTarget {
    /// The placement `uniqueId` whose batches to follow (0 in particles mode when the value is not
    /// also a number).
    pub object: u32,
    /// Follow every live particle emitter and ribbon trail instead.
    pub particles: bool,
    /// The arming key: every one of these emitter bones must be live.
    pub bones: Vec<u16>,
}

/// `"particles"`.
pub open spec fn particles_word() -> Seq<char> {
    seq!['p', 'a', 'r', 't', 'i', 'c', 'l', 'e', 's']
}

/// `"particles:"`.
pub open spec fn particles_prefix() -> Seq<char> {
    particles_word().push(':')
}

/// The `WOW_PHASE` value, trimmed, asks for particles.
pub open spec fn asks_particles(v: Seq<char>) -> bool {
    v == particles_word() || (v.len() >= particles_prefix().len() && v.take(
        particles_prefix().len() as int,
    ) == particles_prefix())
}

/// The arming bones named after `particles:`.
pub open spec fn bones_named(v: Seq<char>) -> Seq<u16> {
    if v.len() >= particles_prefix().len() && v.take(particles_prefix().len() as int)
        == particles_prefix() {
        bones_of(split(v.skip(particles_prefix().len() as int), ','))
    } else {
        Seq::empty()
    }
}

/// What a `WOW_PHASE` value asks for: a placement id, or particles (with its arming bones), or
/// nothing — the probe is inert.
pub open spec fn phase_target_of(value: Option<&str>) -> Option<(u32, bool, Seq<u16>)> {
    match value {
        None => None,
        Some(s) => {
            let v = trim(s@);
            let object = parse_unsigned(v, u32::MAX as nat);
            if !asks_particles(v) && object is None {
                None
            } else {
                Some(
                    (
                        match object {
                            Some(o) => o as u32,
                            None => 0,
                        },
                        asks_particles(v),
                        bones_named(v),
                    ),
                )
            }
        },
    }
}

/// Whether `v[lo..hi]` starts with `word`.
fn starts_with_at(v: &Vec<char>, lo: usize, hi: usize, word: &Vec<char>) -> (r: bool)
    requires
        lo <= hi <= v@.len(),
    ensures
        r == (hi - lo >= word@.len() && v@.subrange(lo as int, hi as int).take(word@.len() as int)
            == word@),
{
    if hi - lo < word.len() {
        return false;
    }
    let mut i = 0usize;
    while i < word.len()
        invariant
            lo <= hi <= v@.len(),
            hi - lo >= word@.len(),
            i <= word@.len(),
            forall|j: int| 0 <= j < i ==> v@[lo + j] == word@[j],
        decreases word@.len() - i,
    {
        if v[lo + i] != word[i] {
            assert(v@.subrange(lo as int, hi as int).take(word@.len() as int)[i as int]
                != word@[i as int]);
            return false;
        }
        i += 1;
    }
    assert(v@.subrange(lo as int, hi as int).take(word@.len() as int) =~= word@);
    true
}

/// Read `WOW_PHASE`: `None` when unset or when it names neither a placement nor particles.
pub fn parse_phase_target(value: Option<&str>) -> (r: Option<PhaseTarget>)
    ensures
        match phase_target_of(value) {
            None => r is None,
            Some((object, particles, bones)) => r matches Some(t) && t.object == object
                && t.particles == particles && t.bones@ == bones,
        },
{
    let s = match value {
        None => return None,
        Some(s) => s,
    };
    let v = chars_of(s);
    proof {
        assert(v@.subrange(0, v@.len() as int) =~= s@);
    }
    let (a, b) = trim_bounds(&v, 0, v.len());
    let ghost t = v@.subrange(a as int, b as int);
    let word = vec!['p', 'a', 'r', 't', 'i', 'c', 'l', 'e', 's'];
    let prefix = vec!['p', 'a', 'r', 't', 'i', 'c', 'l', 'e', 's', ':'];
    assert(word@ =~= particles_word());
    assert(prefix@ =~= particles_prefix());
    let has_prefix = starts_with_at(&v, a, b, &prefix);
    let is_word = b - a == word.len() && starts_with_at(&v, a, b, &word);
    proof {
        if b - a == word@.len() {
            assert(t.take(word@.len() as int) =~= t);
        }
        if t == particles_word() {
            assert(t.take(word@.len() as int) =~= t);
        }
    }
    let particles = is_word || has_prefix;
    let object = parse_unsigned_at(&v, a, b, u32::MAX as u64);
    if !particles && object.is_none() {
        return None;
    }
    let bones = if has_prefix {
        let r = bones_in(&v, a + prefix.len(), b);
        proof {
            assert(v@.subrange(a + prefix@.len(), b as int) =~= t.skip(particles_prefix().len() as int));
        }
        r
    } else {
        Vec::new()
    };
    Some(
        PhaseTarget {
            object: match object {
                Some(o) => o as u32,
                None => 0,
            },
            particles,
            bones,
        },
    )
}

/// A binned phase: its bins in the order the pass draws them, each bin's entities in order.
pub open spec fn total(bins: Seq<Vec<u64>>) -> nat
    decreases bins.len(),
{
    if bins.len() == 0 {
        0
    } else {
        total(bins.drop_last()) + bins.last()@.len()
    }
}

/// The main view's phase: the one holding the most entities, the last of equals (what
/// `Iterator::max_by_key` picks).
pub open spec fn main_phase(phases: Seq<Vec<Vec<u64>>>) -> Option<int>
    decreases phases.len(),
{
    if phases.len() == 0 {
        None
    } else {
        match main_phase(phases.drop_last()) {
            None => Some(phases.len() - 1),
            Some(m) => if total(phases.last()@) >= total(phases[m]@) {
                Some(phases.len() - 1)
            } else {
                Some(m)
            },
        }
    }
}

/// The first index of `e` in `s`.
pub open spec fn index_of(s: Seq<u64>, e: u64) -> Option<int>
    decreases s.len(),
{
    if s.len() == 0 {
        None
    } else if s[0] == e {
        Some(0)
    } else {
        match index_of(s.drop_first(), e) {
            Some(i) => Some(i + 1),
            None => None,
        }
    }
}

/// `e`'s draw position in a binned phase: its index in the first bin that holds it, after every
/// entity of the bins before.
pub open spec fn draw_position(bins: Seq<Vec<u64>>, e: u64) -> Option<int>
    decreases bins.len(),
{
    if bins.len() == 0 {
        None
    } else {
        match index_of(bins[0]@, e) {
            Some(i) => Some(i),
            None => match draw_position(bins.drop_first(), e) {
                Some(p) => Some(p + bins[0]@.len()),
                None => None,
            },
        }
    }
}

/// The entities of every phase fit a `usize` count.
pub open spec fn phases_fit(phases: Seq<Vec<Vec<u64>>>) -> bool {
    forall|k: int| 0 <= k < phases.len() ==> total(#[trigger] phases[k]@) <= usize::MAX
}

proof fn lemma_total_prefix(bins: Seq<Vec<u64>>, i: int)
    requires
        0 <= i <= bins.len(),
    ensures
        total(bins.take(i)) <= total(bins),
    decreases bins.len() - i,
{
    if i < bins.len() {
        lemma_total_prefix(bins, i + 1);
        assert(bins.take(i + 1).drop_last() =~= bins.take(i));
    } else {
        assert(bins.take(i) =~= bins);
    }
}

/// How many entities a binned phase holds.
pub fn phase_total(bins: &Vec<Vec<u64>>) -> (r: usize)
    requires
        total(bins@) <= usize::MAX,
    ensures
        r == total(bins@),
{
    let mut n = 0usize;
    let mut i = 0usize;
    while i < bins.len()
        invariant
            i <= bins@.len(),
            n == total(bins@.take(i as int)),
            total(bins@) <= usize::MAX,
        decreases bins@.len() - i,
    {
        proof {
            assert(bins@.take(i + 1).drop_last() =~= bins@.take(i as int));
            lemma_total_prefix(bins@, i + 1);
        }
        n = n + bins[i].len();
        i += 1;
    }
    proof {
        assert(bins@.take(bins@.len() as int) =~= bins@);
    }
    n
}

proof fn lemma_main_phase(phases: Seq<Vec<Vec<u64>>>)
    ensures
        main_phase(phases) matches Some(m) ==> 0 <= m < phases.len(),
        phases.len() > 0 ==> main_phase(phases) is Some,
    decreases phases.len(),
{
    if phases.len() > 0 {
        lemma_main_phase(phases.drop_last());
    }
}

/// Which phase map is the main view's.
pub fn find_main_phase(phases: &Vec<Vec<Vec<u64>>>) -> (r: Option<usize>)
    requires
        phases_fit(phases@),
    ensures
        r matches Some(m) ==> main_phase(phases@) == Some(m as int) && m < phases@.len(),
        r is None ==> main_phase(phases@) is None,
{
    let mut best: Option<usize> = None;
    let mut best_total = 0usize;
    let mut i = 0usize;
    while i < phases.len()
        invariant
            i <= phases@.len(),
            phases_fit(phases@),
            best == match main_phase(phases@.take(i as int)) {
                Some(m) => Some(m as usize),
                None => None,
            },
            best matches Some(m) ==> m < i && best_total == total(phases@[m as int]@),
            main_phase(phases@.take(i as int)) matches Some(m) ==> 0 <= m < i,
            i > 0 ==> best is Some,
        decreases phases@.len() - i,
    {
        proof {
            assert(phases@.take(i + 1).drop_last() =~= phases@.take(i as int));
            lemma_main_phase(phases@.take(i as int));
            lemma_main_phase(phases@.take(i + 1));
            assert(total(phases@[i as int]@) <= usize::MAX);
        }
        let t = phase_total(&phases[i]);
        match best {
            None => {
                best = Some(i);
                best_total = t;
            },
            Some(_) => {
                if t >= best_total {
                    best = Some(i);
                    best_total = t;
                }
            },
        }
        i += 1;
    }
    proof {
        assert(phases@.take(phases@.len() as int) =~= phases@);
        lemma_main_phase(phases@);
    }
    best
}

/// How many entities the main binned phase holds — 0 when there is none.
pub fn binned_total(phases: &Vec<Vec<Vec<u64>>>) -> (r: usize)
    requires
        phases_fit(phases@),
    ensures
        r == match main_phase(phases@) {
            Some(m) => total(phases@[m]@),
            None => 0,
        },
{
    match find_main_phase(phases) {
        Some(m) => phase_total(&phases[m]),
        None => 0,
    }
}

proof fn lemma_index_of(s: Seq<u64>, e: u64)
    ensures
        index_of(s, e) matches Some(i) ==> 0 <= i < s.len() && s[i] == e,
    decreases s.len(),
{
    if s.len() > 0 && s[0] != e {
        lemma_index_of(s.drop_first(), e);
    }
}

/// The first index of `e` in `s`.
pub fn position_of(s: &Vec<u64>, e: u64) -> (r: Option<usize>)
    ensures
        r matches Some(i) ==> index_of(s@, e) == Some(i as int) && i < s@.len(),
        r is None ==> index_of(s@, e) is None,
{
    proof {
        assert(s@.skip(0) =~= s@);
        lemma_index_of(s@, e);
    }
    let mut i = 0usize;
    while i < s.len()
        invariant
            i <= s@.len(),
            index_of(s@, e) == match index_of(s@.skip(i as int), e) {
                Some(j) => Some(j + i),
                None => None,
            },
        decreases s@.len() - i,
    {
        let ghost rest = s@.skip(i as int);
        proof {
            assert(rest.drop_first() =~= s@.skip(i + 1));
            assert(rest[0] == s@[i as int]);
        }
        if s[i] == e {
            return Some(i);
        }
        i += 1;
    }
    proof {
        assert(s@.skip(i as int).len() == 0);
    }
    None
}

proof fn lemma_draw_position_bound(bins: Seq<Vec<u64>>, e: u64)
    ensures
        draw_position(bins, e) matches Some(p) ==> 0 <= p < total(bins),
    decreases bins.len(),
{
    if bins.len() > 0 {
        lemma_index_of(bins[0]@, e);
        lemma_draw_position_bound(bins.drop_first(), e);
        lemma_total_front(bins);
    }
}

proof fn lemma_total_front(bins: Seq<Vec<u64>>)
    requires
        bins.len() > 0,
    ensures
        total(bins) == bins[0]@.len() + total(bins.drop_first()),
    decreases bins.len(),
{
    if bins.len() > 1 {
        lemma_total_front(bins.drop_last());
        let d = bins.drop_first();
        assert(d.drop_last() =~= bins.drop_last().drop_first());
        assert(d.last() == bins.last());
        assert(total(d) == total(d.drop_last()) + d.last()@.len());
    } else {
        assert(bins.drop_first().len() == 0);
        assert(bins.drop_last().len() == 0);
        assert(total(bins.drop_last()) == 0);
        assert(total(bins.drop_first()) == 0);
        assert(bins.last() == bins[0]);
    }
}

/// `e`'s draw position in the main binned phase, walking bins in draw order.
pub fn binned_position(phases: &Vec<Vec<Vec<u64>>>, e: u64) -> (r: Option<usize>)
    requires
        phases_fit(phases@),
    ensures
        r == match main_phase(phases@) {
            Some(m) => match draw_position(phases@[m]@, e) {
                Some(p) => Some(p as usize),
                None => None,
            },
            None => None,
        },
{
    let m = match find_main_phase(phases) {
        Some(m) => m,
        None => return None,
    };
    let bins = &phases[m];
    proof {
        assert(total(bins@) <= usize::MAX);
        assert(bins@.skip(0) =~= bins@);
    }
    let mut n = 0usize;
    let mut k = 0usize;
    while k < bins.len()
        invariant
            k <= bins@.len(),
            m < phases@.len(),
            main_phase(phases@) == Some(m as int),
            bins@ == phases@[m as int]@,
            total(bins@) <= usize::MAX,
            n == total(bins@.take(k as int)),
            draw_position(bins@, e) == match draw_position(bins@.skip(k as int), e) {
                Some(p) => Some(p + n),
                None => None,
            },
        decreases bins@.len() - k,
    {
        let ghost rest = bins@.skip(k as int);
        proof {
            assert(rest.drop_first() =~= bins@.skip(k + 1));
            assert(rest[0] == bins@[k as int]);
            assert(bins@.take(k + 1).drop_last() =~= bins@.take(k as int));
            lemma_total_prefix(bins@, k + 1);
            lemma_draw_position_bound(bins@, e);
        }
        match position_of(&bins[k], e) {
            Some(i) => {
                proof {
                    assert(index_of(rest[0]@, e) == Some(i as int));
                    assert(draw_position(rest, e) == Some(i as int));
                    assert(draw_position(bins@, e) == Some(i + n));
                    assert(i + n < total(bins@));
                }
                return Some(n + i);
            },
            None => {},
        }
        n = n + bins[k].len();
        k += 1;
    }
    None
}

/// The particles mode's arming key: every named bone is among the live ones.
pub open spec fn armed_by(bones: Seq<u16>, live: Seq<i32>) -> bool {
    forall|i: int| 0 <= i < bones.len() ==> live.contains(#[trigger] bones[i] as i32)
}

/// Whether every named bone is live — an empty key arms at once.
pub fn all_bones_live(bones: &Vec<u16>, live: &Vec<i32>) -> (r: bool)
    ensures
        r == armed_by(bones@, live@),
{
    let mut i = 0usize;
    while i < bones.len()
        invariant
            i <= bones@.len(),
            forall|j: int| 0 <= j < i ==> live@.contains(#[trigger] bones@[j] as i32),
        decreases bones@.len() - i,
    {
        let b = bones[i] as i32;
        let mut found = false;
        let mut k = 0usize;
        while k < live.len()
            invariant
                k <= live@.len(),
                found == live@.take(k as int).contains(b),
            decreases live@.len() - k,
        {
            proof {
                let t = live@.take(k as int);
                let t1 = live@.take(k + 1);
                assert(t1 =~= t.push(live@[k as int]));
                if t.contains(b) {
                    let j = choose|j: int| 0 <= j < t.len() && t[j] == b;
                    assert(t1[j] == b);
                }
                if live@[k as int] == b {
                    assert(t1[k as int] == b);
                }
                if t1.contains(b) {
                    let j = choose|j: int| 0 <= j < t1.len() && t1[j] == b;
                    if j < k {
                        assert(t[j] == b);
                    }
                }
            }
            if live[k] == b {
                found = true;
            }
            k += 1;
        }
        proof {
            assert(live@.take(live@.len() as int) =~= live@);
        }
        if !found {
            return false;
        }
        i += 1;
    }
    true
}

/// Whether the particles watch arms this frame: something is live at all (an emitter with a live
/// pool, or a trail with an edge — the bones of `live`), and every named bone is among them.
/// An empty frame never arms, even with an empty key: the watch list would freeze around nothing.
pub fn emitters_arm(bones: &Vec<u16>, live: &Vec<i32>) -> (r: bool)
    ensures
        r == (live@.len() > 0 && armed_by(bones@, live@)),
{
    if live.len() == 0 {
        return false;
    }
    all_bones_live(bones, live)
}

} // verus!
