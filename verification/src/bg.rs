//! The inside-a-battleground live probe (`WOW_PROBE_BG=wsg|ab|av`) — the instrument that turns
//! "does a battleground work?" into a census anyone can read.
//!
//! It walks the real player road — level, greet the arena's battlemaster on the wire, queue, take
//! the port through the stock Lua verb — and then, from inside, prints a census every twelve
//! seconds until its samples are in; then the flag leg (Warsong Gulch), the graveyard leg, the
//! report, and the way home.
//!
//! **The one server-side lever.** A battleground does not start with one player, so the probe
//! flips the realm's `.debug bg` toggle to queue. The lever is tracked by **parity, not state**:
//! every send is counted, and every road to `Done` — failures included — sends one more when the
//! count is odd, so the realm is left as found. It is put back the moment the probe is inside,
//! because it is needed to form the match, not to run one.
use crate::bg_queue::QueueStatus;
use crate::charcreate::eq_ignore_ascii_case;
use crate::charcreate::names_match;
use crate::probe_clock::{waited, waited_exec, within, within_exec};
use crate::text::{chars_of, last_occurrence, rfind_word, same_text, string_of, trim, trim_bounds};
use vstd::prelude::*;

verus! {

/// One battleground's fixtures: `(WOW_PROBE_BG key, map, battlemaster entry, flag entry)`. The
/// flag is the game object a flag leg goes for — the Warsong Flag an Alliance body carries; `0`
/// for a battleground whose objective is not one clickable flag.
pub const ARENAS: [(&'static str, u32, u32, u32); 3] = [
    ("wsg", 489, 14981, 179831),
    ("ab", 529, 15008, 0),
    ("av", 30, 7410, 0),
];

/// The level the body is raised to: past Alterac Valley's floor on every patch.
pub const QUEUE_LEVEL: u32 = 60;
/// How many times the queue is dropped and re-taken before giving up.
pub const MAX_REJOINS: u32 = 3;
/// `PLAYER_FLAGS_GM`: the body still carries GM mode.
pub const PLAYER_FLAGS_GM: u32 = 0x8;
/// `UNIT_NPC_FLAG_BATTLEMASTER` and `UNIT_NPC_FLAG_SPIRITGUIDE`.
pub const NPC_FLAG_BATTLEMASTER: u32 = 0x800;
pub const NPC_FLAG_SPIRITGUIDE: u32 = 0x40;
/// The queue status "your battleground is ready".
pub const STATUS_READY: u32 = 2;
/// How many census samples a run takes by default.
pub const CENSUS_SAMPLES_DEFAULT: u32 = 12;
pub const GHOST_SAMPLES: u32 = 11;
pub const FLAG_SAMPLES: u32 = 5;

pub const LEAVE_GRACE_MS: u64 = 5000;
pub const GM_DROP_WAIT_MS: u64 = 20000;
pub const TOGGLE_REPLY_WINDOW_MS: u64 = 6000;
pub const CENSUS_EVERY_MS: u64 = 12000;
pub const GHOST_SAMPLE_EVERY_MS: u64 = 4000;
pub const FLAG_SAMPLE_EVERY_MS: u64 = 3000;
pub const HOP_SETTLE_MS: u64 = 3000;
pub const SCAN_TIMEOUT_MS: u64 = 15000;
pub const LIST_TIMEOUT_MS: u64 = 8000;
pub const REJOIN_AFTER_MS: u64 = 12000;
pub const READY_TIMEOUT_MS: u64 = 30000;
pub const PORT_TIMEOUT_MS: u64 = 30000;
pub const REJOIN_SETTLE_MS: u64 = 2000;
pub const FLAG_HOP_SETTLE_MS: u64 = 4000;
pub const FLAG_TIMEOUT_MS: u64 = 20000;
pub const DEATH_TIMEOUT_MS: u64 = 15000;

/// The arena a `WOW_PROBE_BG` value names, by key ignoring ASCII case; Warsong Gulch otherwise.
pub open spec fn arena_of(want: Seq<char>) -> int {
    if eq_ignore_ascii_case(ARENAS@[0].0@, want) {
        0
    } else if eq_ignore_ascii_case(ARENAS@[1].0@, want) {
        1
    } else if eq_ignore_ascii_case(ARENAS@[2].0@, want) {
        2
    } else {
        0
    }
}

/// Which battleground the run is for.
pub fn arena(want: &str) -> (r: usize)
    ensures
        r == arena_of(want@),
        r < 3,
{
    if names_match(ARENAS[0].0, want) {
        0
    } else if names_match(ARENAS[1].0, want) {
        1
    } else if names_match(ARENAS[2].0, want) {
        2
    } else {
        0
    }
}

/// The integer a text spells, as a signed `str::parse` reads it: one optional `+` or `-`, then one
/// or more decimal digits; unbounded.
pub open spec fn signed_value(s: Seq<char>) -> Option<int> {
    let neg = s.len() > 0 && s[0] == '-';
    let body = if neg {
        s.drop_first()
    } else {
        crate::text::unsigned_body(s)
    };
    if body.len() > 0 && crate::text::all_digits(body) {
        Some(
            if neg {
                -(crate::text::digits_value(body) as int)
            } else {
                crate::text::digits_value(body) as int
            },
        )
    } else {
        None
    }
}

/// The census sample count: `WOW_PROBE_BG_SAMPLES` read as an integer, the default when unset or
/// not a number; a value below one is clamped to one (the first sample is where the lever goes
/// back, and a run that never censuses never restores it); a count past `u32::MAX` is no count
/// and gives the default too.
pub open spec fn samples_of(value: Option<&str>) -> u32 {
    match value {
        Some(s) => match signed_value(s@) {
            Some(v) => if v < 1 {
                1
            } else if v > u32::MAX {
                CENSUS_SAMPLES_DEFAULT
            } else {
                v as u32
            },
            None => CENSUS_SAMPLES_DEFAULT,
        },
        None => CENSUS_SAMPLES_DEFAULT,
    }
}

/// `min(digits_value(s[lo..hi]), cap)` when `s[lo..hi]` is one or more digits, else `None`.
fn digits_capped(s: &Vec<char>, lo: usize, hi: usize, cap: u64) -> (r: Option<u64>)
    requires
        lo <= hi <= s@.len(),
        cap <= 0xffff_ffff_ffff,
    ensures
        ({
            let t = s@.subrange(lo as int, hi as int);
            match r {
                Some(m) => t.len() > 0 && crate::text::all_digits(t) && m == (if crate::text::digits_value(t) < cap {
                    crate::text::digits_value(t)
                } else {
                    cap as nat
                }),
                None => !(t.len() > 0 && crate::text::all_digits(t)),
            }
        }),
{
    let ghost t = s@.subrange(lo as int, hi as int);
    if lo == hi {
        return None;
    }
    let mut acc: u64 = 0;
    let mut k = lo;
    while k < hi
        invariant
            lo <= k <= hi <= s@.len(),
            cap <= 0xffff_ffff_ffff,
            t == s@.subrange(lo as int, hi as int),
            crate::text::all_digits(t.take(k - lo)),
            acc == (if crate::text::digits_value(t.take(k - lo)) < cap {
                crate::text::digits_value(t.take(k - lo))
            } else {
                cap as nat
            }),
        decreases hi - k,
    {
        let c = s[k];
        if !('0' <= c && c <= '9') {
            proof {
                assert(t[k - lo] == c);
                assert(!crate::text::is_digit(t[k - lo]));
            }
            return None;
        }
        let ghost before = t.take(k - lo);
        proof {
            assert(t.take(k - lo + 1).drop_last() =~= before);
            assert(t.take(k - lo + 1).last() == c);
            assert(crate::text::all_digits(t.take(k - lo + 1)));
        }
        let d = (c as u32 - '0' as u32) as u64;
        if acc < cap {
            let x = acc * 10 + d;
            acc = if x < cap {
                x
            } else {
                cap
            };
        }
        k += 1;
    }
    proof {
        assert(t.take(hi - lo) =~= t);
    }
    Some(acc)
}

/// How many census samples to take.
pub fn census_samples(value: Option<&str>) -> (r: u32)
    ensures
        r == samples_of(value),
{
    let s = match value {
        Some(s) => s,
        None => return CENSUS_SAMPLES_DEFAULT,
    };
    let v = chars_of(s);
    let n = v.len();
    let neg = n > 0 && v[0] == '-';
    let plus = n > 0 && v[0] == '+';
    let lo: usize = if neg || plus {
        1
    } else {
        0
    };
    proof {
        if neg || plus {
            assert(s@.drop_first() =~= v@.subrange(1, n as int));
        } else {
            assert(s@ =~= v@.subrange(0, n as int));
        }
    }
    match digits_capped(&v, lo, n, u32::MAX as u64 + 1) {
        None => CENSUS_SAMPLES_DEFAULT,
        Some(m) => {
            if neg || m == 0 {
                1
            } else if m > u32::MAX as u64 {
                CENSUS_SAMPLES_DEFAULT
            } else {
                m as u32
            }
        },
    }
}

/// The entity kinds the census counts.
#[derive(Clone, Copy, Debug, PartialEq, Eq, Structural)]
pub enum EntityKind {
    Unit,
    Player,
    GameObject,
    Dynamic,
    Corpse,
    Other,
}

/// An entity mirrored into the world near the body.
#[derive(Clone, Copy, Debug)]
pub struct BgEntity {
    pub guid: u64,
    pub kind: EntityKind,
    /// The creature or game object entry the guid carries.
    pub entry: Option<u32>,
    pub npc_flags: u32,
    /// Within the hop's settle radius (20 yd) of the body.
    pub near: bool,
    /// Within reach of a flag use (15 yd).
    pub in_reach: bool,
}

/// The arena's battlemaster: a unit with the flag and the arena's entry, near the body. By entry,
/// not by "nearest battlemaster": all three stand in one alcove.
pub open spec fn is_master(e: BgEntity, entry: u32) -> bool {
    e.kind == EntityKind::Unit && e.npc_flags & NPC_FLAG_BATTLEMASTER != 0 && e.entry == Some(
        entry,
    ) && e.near
}

/// The flag: a game object with the flag's entry, within reach.
pub open spec fn is_flag(e: BgEntity, entry: u32) -> bool {
    e.kind == EntityKind::GameObject && e.entry == Some(entry) && e.in_reach
}

/// The first entity satisfying `is_master` (or `is_flag`, `flag == true`).
pub open spec fn first_match(es: Seq<BgEntity>, entry: u32, flag: bool) -> Option<int>
    decreases es.len(),
{
    if es.len() == 0 {
        None
    } else if (if flag {
        is_flag(es[0], entry)
    } else {
        is_master(es[0], entry)
    }) {
        Some(0)
    } else {
        match first_match(es.drop_first(), entry, flag) {
            Some(i) => Some(i + 1),
            None => None,
        }
    }
}

pub proof fn lemma_first_match(es: Seq<BgEntity>, entry: u32, flag: bool)
    ensures
        first_match(es, entry, flag) matches Some(i) ==> 0 <= i < es.len() && (if flag {
            is_flag(es[i], entry)
        } else {
            is_master(es[i], entry)
        }),
    decreases es.len(),
{
    if es.len() > 0 {
        lemma_first_match(es.drop_first(), entry, flag);
    }
}

/// The first battlemaster (or flag) among the entities.
pub fn find_entity(es: &Vec<BgEntity>, entry: u32, flag: bool) -> (r: Option<usize>)
    ensures
        r matches Some(i) ==> i < es@.len() && first_match(es@, entry, flag) == Some(i as int),
        r is None ==> first_match(es@, entry, flag) is None,
{
    proof {
        assert(es@.skip(0) =~= es@);
        lemma_first_match(es@, entry, flag);
    }
    let mut i = 0usize;
    while i < es.len()
        invariant
            i <= es@.len(),
            first_match(es@, entry, flag) == match first_match(es@.skip(i as int), entry, flag) {
                Some(j) => Some(j + i),
                None => None,
            },
        decreases es@.len() - i,
    {
        let ghost rest = es@.skip(i as int);
        proof {
            assert(rest.drop_first() =~= es@.skip(i + 1));
            assert(rest[0] == es@[i as int]);
        }
        let e = es[i];
        let hit = if flag {
            e.kind == EntityKind::GameObject && e.entry == Some(entry) && e.in_reach
        } else {
            e.kind == EntityKind::Unit && e.npc_flags & NPC_FLAG_BATTLEMASTER != 0 && e.entry
                == Some(entry) && e.near
        };
        if hit {
            return Some(i);
        }
        i += 1;
    }
    proof {
        assert(es@.skip(i as int).len() == 0);
    }
    None
}

/// The first queue slot ready for this map.
pub open spec fn ready_slot(slots: Seq<Option<QueueStatus>>, map: u32) -> Option<int>
    decreases slots.len(),
{
    if slots.len() == 0 {
        None
    } else if slots[0] matches Some(s) && s.status == STATUS_READY && s.map_id == map {
        Some(0)
    } else {
        match ready_slot(slots.drop_first(), map) {
            Some(i) => Some(i + 1),
            None => None,
        }
    }
}

pub proof fn lemma_ready_slot(slots: Seq<Option<QueueStatus>>, map: u32)
    ensures
        ready_slot(slots, map) matches Some(i) ==> 0 <= i < slots.len() && (slots[i] matches Some(
            s,
        ) && s.status == STATUS_READY && s.map_id == map),
    decreases slots.len(),
{
    if slots.len() > 0 {
        lemma_ready_slot(slots.drop_first(), map);
    }
}

/// The first queue slot ready for `map`.
pub fn find_ready_slot(slots: &Vec<Option<QueueStatus>>, map: u32) -> (r: Option<usize>)
    ensures
        r matches Some(i) ==> i < slots@.len() && ready_slot(slots@, map) == Some(i as int),
        r is None ==> ready_slot(slots@, map) is None,
{
    proof {
        assert(slots@.skip(0) =~= slots@);
        lemma_ready_slot(slots@, map);
    }
    let mut i = 0usize;
    while i < slots.len()
        invariant
            i <= slots@.len(),
            ready_slot(slots@, map) == match ready_slot(slots@.skip(i as int), map) {
                Some(j) => Some(j + i),
                None => None,
            },
        decreases slots@.len() - i,
    {
        let ghost rest = slots@.skip(i as int);
        proof {
            assert(rest.drop_first() =~= slots@.skip(i + 1));
            assert(rest[0] == slots@[i as int]);
        }
        match slots[i] {
            Some(s) => {
                if s.status == STATUS_READY && s.map_id == map {
                    return Some(i);
                }
            },
            None => {},
        }
        i += 1;
    }
    proof {
        assert(slots@.skip(i as int).len() == 0);
    }
    None
}

/// The 1-based slot a decline names: the first occupied slot, else the first.
pub open spec fn decline_slot(slots: Seq<Option<QueueStatus>>) -> u32 {
    match crate::bg_queue::first_queued(slots) {
        Some(i) => (i + 1) as u32,
        None => 1,
    }
}

/// `"<tap-gone>"`: the event-drain chunk's answer when the tap's globals are gone.
pub open spec fn tap_gone_word() -> Seq<char> {
    seq!['<', 't', 'a', 'p', '-', 'g', 'o', 'n', 'e', '>']
}

/// The text the tap-gone drain reads as.
pub open spec fn tap_gone_note() -> Seq<char> {
    seq![' ', ' '] + tap_gone_word() + seq![
        ' ', '\u{2014}', ' ', 't', 'h', 'e', ' ', 'V', 'M', ' ', 'w', 'a', 's', ' ', 'r', 'e', 'p', 'l',
        'a', 'c', 'e', 'd', ' ', 'u', 'n', 'd', 'e', 'r', ' ', 't', 'h', 'e', ' ', 't', 'a', 'p',
        ';', ' ', 'r', 'e', '-', 'i', 'n', 's', 't', 'a', 'l', 'l', 'i', 'n', 'g',
    ]
}

/// `"debugging"` and `"normal playercount"`: the markers of `.debug bg`'s on and off replies.
pub open spec fn on_marker() -> Seq<char> {
    seq!['d', 'e', 'b', 'u', 'g', 'g', 'i', 'n', 'g']
}

pub open spec fn off_marker() -> Seq<char> {
    seq!['n', 'o', 'r', 'm', 'a', 'l', ' ', 'p', 'l', 'a', 'y', 'e', 'r', 'c', 'o', 'u', 'n', 't']
}

/// What the event drain chunk answered.
pub enum DrainRead {
    /// The drained events (or the tap-gone sentinel).
    Text(String),
    /// The chunk raised, with this message.
    Raised(String),
}

/// The drain's reading as text: the events; the tap-gone note when the tap is gone; the raise.
pub open spec fn drain_text(d: &DrainRead) -> Seq<char> {
    match d {
        DrainRead::Text(s) => if trim(s@) == tap_gone_word() {
            tap_gone_note()
        } else {
            s@
        },
        DrainRead::Raised(e) => seq![' ', ' ', '<', 'd', 'r', 'a', 'i', 'n', ' ', 'r', 'a', 'i', 's',
            'e', 'd', ':', ' '] + e@ + seq!['>'],
    }
}

/// The drain found the tap gone: the next frame re-installs it.
pub open spec fn drain_tap_gone(d: &DrainRead) -> bool {
    d matches DrainRead::Text(s) && trim(s@) == tap_gone_word()
}

/// What a run of drained text says the lever reads: the last marker wins.
pub open spec fn testing_of(seen: Seq<char>) -> Option<bool> {
    match (last_occurrence(seen, on_marker()), last_occurrence(seen, off_marker())) {
        (Some(a), Some(b)) => Some(a > b),
        (Some(_), None) => Some(true),
        (None, Some(_)) => Some(false),
        (None, None) => None,
    }
}

/// The drained text, and whether the tap is gone.
pub fn read_drain(d: &DrainRead) -> (r: (String, bool))
    ensures
        r.0@ == drain_text(d),
        r.1 == drain_tap_gone(d),
{
    match d {
        DrainRead::Text(s) => {
            let v = chars_of(s.as_str());
            proof {
                assert(v@.subrange(0, v@.len() as int) =~= s@);
            }
            let (a, b) = trim_bounds(&v, 0, v.len());
            let mut t: Vec<char> = Vec::new();
            let mut i = a;
            while i < b
                invariant
                    a <= i <= b <= v@.len(),
                    t@ == v@.subrange(a as int, i as int),
                decreases b - i,
            {
                t.push(v[i]);
                i += 1;
                assert(t@ =~= v@.subrange(a as int, i as int));
            }
            let gone_word = vec!['<', 't', 'a', 'p', '-', 'g', 'o', 'n', 'e', '>'];
            assert(gone_word@ =~= tap_gone_word());
            if same_text(&t, &gone_word) {
                let mut note = vec![' ', ' '];
                let mut k = 0usize;
                while k < gone_word.len()
                    invariant
                        k <= gone_word@.len(),
                        note@ == seq![' ', ' '] + gone_word@.take(k as int),
                    decreases gone_word@.len() - k,
                {
                    note.push(gone_word[k]);
                    k += 1;
                    assert(note@ =~= seq![' ', ' '] + gone_word@.take(k as int));
                }
                let tail = vec![
                    ' ', '\u{2014}', ' ', 't', 'h', 'e', ' ', 'V', 'M', ' ', 'w', 'a', 's', ' ', 'r', 'e',
                    'p', 'l', 'a', 'c', 'e', 'd', ' ', 'u', 'n', 'd', 'e', 'r', ' ', 't', 'h', 'e',
                    ' ', 't', 'a', 'p', ';', ' ', 'r', 'e', '-', 'i', 'n', 's', 't', 'a', 'l', 'l',
                    'i', 'n', 'g',
                ];
                let ghost head = note@;
                let mut j = 0usize;
                while j < tail.len()
                    invariant
                        j <= tail@.len(),
                        note@ == head + tail@.take(j as int),
                    decreases tail@.len() - j,
                {
                    note.push(tail[j]);
                    j += 1;
                    assert(note@ =~= head + tail@.take(j as int));
                }
                proof {
                    assert(gone_word@.take(gone_word@.len() as int) =~= gone_word@);
                    assert(tail@.take(tail@.len() as int) =~= tail@);
                    assert(note@ =~= tap_gone_note());
                }
                (string_of(&note), true)
            } else {
                (string_of(&v), false)
            }
        },
        DrainRead::Raised(e) => {
            let mut out = vec![' ', ' ', '<', 'd', 'r', 'a', 'i', 'n', ' ', 'r', 'a', 'i', 's', 'e', 'd', ':', ' '];
            let ghost head = out@;
            let ev = chars_of(e.as_str());
            let mut j = 0usize;
            while j < ev.len()
                invariant
                    j <= ev@.len(),
                    out@ == head + ev@.take(j as int),
                decreases ev@.len() - j,
            {
                out.push(ev[j]);
                j += 1;
                assert(out@ =~= head + ev@.take(j as int));
            }
            out.push('>');
            proof {
                assert(ev@.take(ev@.len() as int) =~= ev@);
                assert(out@ =~= drain_text(d));
            }
            (string_of(&out), false)
        },
    }
}

/// What the drained text says the lever reads.
pub fn testing_reading(seen: &str) -> (r: Option<bool>)
    ensures
        r == testing_of(seen@),
{
    let v = chars_of(seen);
    let on = vec!['d', 'e', 'b', 'u', 'g', 'g', 'i', 'n', 'g'];
    let off = vec!['n', 'o', 'r', 'm', 'a', 'l', ' ', 'p', 'l', 'a', 'y', 'e', 'r', 'c', 'o', 'u', 'n', 't'];
    assert(on@ =~= on_marker());
    assert(off@ =~= off_marker());
    match (rfind_word(&v, &on), rfind_word(&v, &off)) {
        (Some(a), Some(b)) => Some(a > b),
        (Some(_), None) => Some(true),
        (None, Some(_)) => Some(false),
        (None, None) => None,
    }
}

/// Run-length counts of a sorted list of game-object entries: each distinct entry once, in
/// order, with how many times it occurs.
pub open spec fn runs(es: Seq<u32>) -> Seq<(u32, nat)>
    decreases es.len(),
{
    if es.len() == 0 {
        Seq::empty()
    } else {
        let r = runs(es.drop_last());
        if r.len() > 0 && r.last().0 == es.last() {
            r.update(r.len() - 1, (es.last(), r.last().1 + 1))
        } else {
            r.push((es.last(), 1nat))
        }
    }
}

/// The census's game-object column: how many of each entry, for an entry list already sorted.
pub fn count_runs(es: &Vec<u32>) -> (r: Vec<(u32, usize)>)
    ensures
        r@.len() == runs(es@).len(),
        forall|i: int| 0 <= i < r@.len() ==> r@[i].0 == runs(es@)[i].0 && r@[i].1 == runs(es@)[i].1,
{
    let mut out: Vec<(u32, usize)> = Vec::new();
    let mut i = 0usize;
    while i < es.len()
        invariant
            i <= es@.len(),
            out@.len() == runs(es@.take(i as int)).len(),
            forall|k: int|
                0 <= k < out@.len() ==> out@[k].0 == runs(es@.take(i as int))[k].0 && out@[k].1
                    == runs(es@.take(i as int))[k].1,
            forall|k: int| 0 <= k < out@.len() ==> out@[k].1 <= i,
        decreases es@.len() - i,
    {
        proof {
            assert(es@.take(i + 1).drop_last() =~= es@.take(i as int));
        }
        let e = es[i];
        let n = out.len();
        if n > 0 && out[n - 1].0 == e {
            let c = out[n - 1].1;
            out.set(n - 1, (e, c + 1));
        } else {
            out.push((e, 1));
        }
        i += 1;
    }
    proof {
        assert(es@.take(es@.len() as int) =~= es@);
    }
    out
}

/// A world state's value, distinguishing absent from zero: the first pair with the key.
pub open spec fn state_of(pairs: Seq<(u32, i32)>, key: u32) -> Option<i32>
    decreases pairs.len(),
{
    if pairs.len() == 0 {
        None
    } else if pairs[0].0 == key {
        Some(pairs[0].1)
    } else {
        state_of(pairs.drop_first(), key)
    }
}

/// A world state, `None` when the server never sent the key.
pub fn world_state(pairs: &Vec<(u32, i32)>, key: u32) -> (r: Option<i32>)
    ensures
        r == state_of(pairs@, key),
{
    let mut i = 0usize;
    proof {
        assert(pairs@.skip(0) =~= pairs@);
    }
    while i < pairs.len()
        invariant
            i <= pairs@.len(),
            state_of(pairs@, key) == state_of(pairs@.skip(i as int), key),
        decreases pairs@.len() - i,
    {
        let ghost rest = pairs@.skip(i as int);
        proof {
            assert(rest.drop_first() =~= pairs@.skip(i + 1));
            assert(rest[0] == pairs@[i as int]);
        }
        if pairs[i].0 == key {
            return Some(pairs[i].1);
        }
        i += 1;
    }
    None
}

} // verus!
