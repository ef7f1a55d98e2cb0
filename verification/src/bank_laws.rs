//! What every frame of the bank probe keeps, whatever the world reads back.
use crate::bank::{
    next, obs_ok, ready, BankCheck, BankEffect, BankObs, BankProbe, Phase, SLOT_BANK_FIRST,
    SLOT_PACK_FIRST,
};
use crate::probe_clock::{lemma_tally_short, tally, Outcome};
use vstd::prelude::*;

verus! {

/// The verdicts a run of effects prints, in order (`None` for an effect that is no verdict).
pub open spec fn outcomes(e: Seq<BankEffect>) -> Seq<Option<Outcome>> {
    e.map_values(|x: BankEffect| x.outcome())
}

/// The counters moved by exactly the verdicts printed.
pub open spec fn tallied(p: BankProbe, r: (BankProbe, Seq<BankEffect>)) -> bool {
    &&& r.0.passes == p.passes + tally(outcomes(r.1), Outcome::Pass)
    &&& r.0.fails == p.fails + tally(outcomes(r.1), Outcome::Fail)
}

/// The refusal step is a bonus: it passes or skips, and never fails.
pub open spec fn refusal_never_fails(r: (BankProbe, Seq<BankEffect>)) -> bool {
    forall|i: int|
        0 <= i < r.1.len() ==> #[trigger] r.1[i] != BankEffect::Verdict(
            BankCheck::Refusal,
            Outcome::Fail,
        )
}

/// The purse is topped up at most once per buy: a grant goes out only from a buy step that has
/// not granted yet, and leaves it marked as granted, still unsent.
pub open spec fn one_grant(p: BankProbe, r: (BankProbe, Seq<BankEffect>)) -> bool {
    forall|i: int|
        0 <= i < r.1.len() && #[trigger] r.1[i] is GrantMoney ==> {
            &&& p.phase matches Phase::BuySlot { sent: false, funded: false, .. }
            &&& r.0.phase matches Phase::BuySlot { sent: false, funded: true, .. }
        }
}

/// The deposit names the backpack slot of the item it remembers, and the withdraw names the bank
/// slot that holds that same item.
pub open spec fn same_item_both_ways(
    p: BankProbe,
    obs: &BankObs,
    r: (BankProbe, Seq<BankEffect>),
) -> bool {
    forall|i: int|
        0 <= i < r.1.len() ==> (#[trigger] r.1[i] matches BankEffect::AutoBank { slot } ==> {
            &&& SLOT_PACK_FIRST <= slot < SLOT_PACK_FIRST + obs.pack@.len()
            &&& obs.pack@[slot - SLOT_PACK_FIRST] != 0
            &&& r.0.item_guid == Some(obs.pack@[slot - SLOT_PACK_FIRST])
        }) && (r.1[i] matches BankEffect::AutoStore { slot } ==> {
            &&& p.item_guid matches Some(g)
            &&& SLOT_BANK_FIRST <= slot < SLOT_BANK_FIRST + obs.bank@.len()
            &&& obs.bank@[slot - SLOT_BANK_FIRST] == g
        })
}

/// Step (5) buys only with a purse that covers the rung it priced.
pub open spec fn buys_when_funded(
    p: BankProbe,
    obs: &BankObs,
    r: (BankProbe, Seq<BankEffect>),
) -> bool {
    p.phase is BuySlot ==> forall|i: int|
        0 <= i < r.1.len() && #[trigger] r.1[i] is BuySlot ==> obs.money >= r.0.next_cost
}

/// `DONE` is printed from `Done` alone, once.
pub open spec fn done_once(p: BankProbe, r: (BankProbe, Seq<BankEffect>)) -> bool {
    &&& p.exited ==> r.0.exited
    &&& (p.phase is Done && !p.exited) ==> r.1 == seq![
        BankEffect::Finished { passes: p.passes, fails: p.fails },
    ] && r.0.exited
    &&& forall|i: int| 0 <= i < r.1.len() && #[trigger] r.1[i] is Finished ==> p.phase is Done
        && !p.exited
}

/// The bank opening is judged by the window: an `Activate` PASS only on an activating frame
/// where `SMSG_SHOW_BANK` has opened the bank.
pub open spec fn activate_by_window(
    p: BankProbe,
    obs: &BankObs,
    r: (BankProbe, Seq<BankEffect>),
) -> bool {
    forall|i: int|
        0 <= i < r.1.len() && #[trigger] r.1[i] == BankEffect::Verdict(
            BankCheck::Activate,
            Outcome::Pass,
        ) ==> p.phase is Activating && obs.bank_open
}

/// Everything one frame keeps.
pub open spec fn frame_laws(p: BankProbe, now: u64, obs: &BankObs) -> bool {
    let r = next(p, now, obs);
    &&& tallied(p, r)
    &&& refusal_never_fails(r)
    &&& one_grant(p, r)
    &&& same_item_both_ways(p, obs, r)
    &&& buys_when_funded(p, obs, r)
    &&& done_once(p, r)
    &&& activate_by_window(p, obs, r)
}

proof fn lemma_frame_counts(p: BankProbe, now: u64, obs: &BankObs)
    requires
        ready(p),
        obs_ok(obs),
    ensures
        next(p, now, obs).1.len() <= 2,
        tallied(p, next(p, now, obs)),
{
    let e = next(p, now, obs).1;
    let os = outcomes(e);
    assert(os.len() == e.len());
    lemma_tally_short(os, Outcome::Pass);
    lemma_tally_short(os, Outcome::Fail);
}

/// Every law of one frame, whatever the phase.
proof fn lemma_frame(p: BankProbe, now: u64, obs: &BankObs)
    requires
        ready(p),
        obs_ok(obs),
    ensures
        frame_laws(p, now, obs),
{
    lemma_frame_counts(p, now, obs);
    crate::bank::lemma_items(obs.pack@, obs.bank@, p.item_guid);
}

/// Whatever the frame read back, the pass and fail counters grow by exactly the number of
/// `PASS` and `FAIL` lines the frame printed.
pub proof fn bank_counts_its_verdicts(p: BankProbe, now: u64, obs: &BankObs)
    requires
        ready(p),
        obs_ok(obs),
    ensures
        tallied(p, next(p, now, obs)),
{
    lemma_frame(p, now, obs);
}

/// The bonus refusal step is never reported as a failure: a miss is a SKIP.
pub proof fn refusal_is_never_a_failure(p: BankProbe, now: u64, obs: &BankObs)
    requires
        ready(p),
        obs_ok(obs),
    ensures
        refusal_never_fails(next(p, now, obs)),
{
    lemma_frame(p, now, obs);
}

/// The buy step grants itself the fare once: a grant leaves the step marked as granted, and a
/// granted step never grants again.
pub proof fn the_fare_is_granted_once(p: BankProbe, now: u64, obs: &BankObs)
    requires
        ready(p),
        obs_ok(obs),
    ensures
        one_grant(p, next(p, now, obs)),
{
    lemma_frame(p, now, obs);
}

/// Deposit and withdraw move one item: the deposit sends the slot of the item it remembers, the
/// withdraw sends the bank slot holding that item.
pub proof fn deposit_and_withdraw_move_one_item(p: BankProbe, now: u64, obs: &BankObs)
    requires
        ready(p),
        obs_ok(obs),
    ensures
        same_item_both_ways(p, obs, next(p, now, obs)),
{
    lemma_frame(p, now, obs);
}

/// The slot is bought only with a purse that covers its price.
pub proof fn a_slot_is_bought_only_when_funded(p: BankProbe, now: u64, obs: &BankObs)
    requires
        ready(p),
        obs_ok(obs),
    ensures
        buys_when_funded(p, obs, next(p, now, obs)),
{
    lemma_frame(p, now, obs);
}

/// `DONE pass=<n> fail=<m>` is printed once, from `Done`, with the counts as they stand.
pub proof fn bank_done_is_printed_once(p: BankProbe, now: u64, obs: &BankObs)
    requires
        ready(p),
        obs_ok(obs),
    ensures
        done_once(p, next(p, now, obs)),
{
    lemma_frame(p, now, obs);
}

/// The bank opening is judged by the window itself: an `Activate` PASS is printed only on an
/// activating frame where the bank window is open; an activating frame past the activate timeout
/// with the bank still closed prints exactly an `Activate` FAIL, counts one more failure and no
/// pass, and ends the run.
pub proof fn the_bank_passes_activation_only_when_open(p: BankProbe, now: u64, obs: &BankObs)
    requires
        ready(p),
        obs_ok(obs),
    ensures
        activate_by_window(p, obs, next(p, now, obs)),
        (p.phase matches Phase::Activating { sent_at } && !obs.bank_open && now - sent_at
            > crate::bank::ACTIVATE_TIMEOUT_MS) ==> {
            &&& next(p, now, obs).1 == seq![
                BankEffect::Verdict(BankCheck::Activate, Outcome::Fail),
            ]
            &&& next(p, now, obs).0.fails == p.fails + 1
            &&& next(p, now, obs).0.passes == p.passes
            &&& next(p, now, obs).0.phase is Done
        },
{
    lemma_frame(p, now, obs);
}

} // verus!
