//! What the scripted live probes share: their wall clock, read as whole milliseconds since the
//! probe clock started, and the verdict every step reports.
use crate::text::{chars_of, decimal, push_decimal};
use vstd::prelude::*;

verus! {

/// More than `limit` milliseconds have passed between `since` and `now`.
pub open spec fn waited(now: u64, since: u64, limit: u64) -> bool {
    now - since > limit
}

/// Fewer than `limit` milliseconds have passed between `since` and `now`.
pub open spec fn within(now: u64, since: u64, limit: u64) -> bool {
    now - since < limit
}

pub fn waited_exec(now: u64, since: u64, limit: u64) -> (r: bool)
    ensures
        r == waited(now, since, limit),
{
    now >= since && now - since > limit
}

pub fn within_exec(now: u64, since: u64, limit: u64) -> (r: bool)
    ensures
        r == within(now, since, limit),
{
    now < since || now - since < limit
}

/// A step's verdict, as its `PASS`/`FAIL`/`SKIP` trace line says it.
#[derive(Clone, Copy, Debug, PartialEq, Eq, Structural)]
pub enum Outcome {
    Pass,
    Fail,
    Skip,
}

/// A unit streamed in near the player.
#[derive(Clone, Copy, Debug)]
pub struct UnitSighting {
    pub guid: u64,
    /// The entity is a unit (not a game object or a player).
    pub is_unit: bool,
    /// `object_entry()`.
    pub entry: Option<u32>,
    pub npc_flags: u32,
    /// Within the scan range of the player.
    pub in_range: bool,
}

/// How many of `os` are the outcome `o`: the verdict lines of one kind a run of effects prints
/// (`None` stands for an effect that is no verdict).
pub open spec fn tally(os: Seq<Option<Outcome>>, o: Outcome) -> nat
    decreases os.len(),
{
    if os.len() == 0 {
        0
    } else {
        tally(os.drop_last(), o) + if os.last() == Some(o) {
            1nat
        } else {
            0nat
        }
    }
}

/// One effect's share of a tally.
pub open spec fn counts(x: Option<Outcome>, o: Outcome) -> nat {
    if x == Some(o) {
        1
    } else {
        0
    }
}

/// A short run's tally is the sum of its members' shares.
pub proof fn lemma_tally_short(os: Seq<Option<Outcome>>, o: Outcome)
    requires
        os.len() <= 3,
    ensures
        tally(os, o) == (if os.len() > 0 {
            counts(os[0], o)
        } else {
            0nat
        }) + (if os.len() > 1 {
            counts(os[1], o)
        } else {
            0nat
        }) + (if os.len() > 2 {
            counts(os[2], o)
        } else {
            0nat
        }),
{
    reveal_with_fuel(tally, 4);
    if os.len() > 0 {
        let d1 = os.drop_last();
        if d1.len() > 0 {
            let d2 = d1.drop_last();
            if d2.len() > 0 {
                assert(d2.drop_last().len() == 0);
            }
        }
    }
}

/// Whether `text` is the decimal spelling of `n` (what `n.to_string()` gives).
pub fn is_decimal_of(text: &str, n: u64) -> (r: bool)
    ensures
        r == (text@ == decimal(n as nat)),
{
    let t = chars_of(text);
    let mut d: Vec<char> = Vec::new();
    push_decimal(&mut d, n);
    assert(d@ =~= decimal(n as nat));
    if t.len() != d.len() {
        assert(t@.len() != d@.len());
        return false;
    }
    let mut i = 0usize;
    while i < t.len()
        invariant
            t@ == text@,
            t@.len() == d@.len(),
            d@ == decimal(n as nat),
            i <= t@.len(),
            forall|j: int| 0 <= j < i ==> t@[j] == d@[j],
        decreases t@.len() - i,
    {
        if t[i] != d[i] {
            assert(t@[i as int] != d@[i as int]);
            assert(t@ != d@);
            return false;
        }
        i += 1;
    }
    assert(t@ =~= d@);
    true
}

} // verus!
