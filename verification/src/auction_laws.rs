//! What every frame of the auction probe keeps, whatever the world reads back.
use crate::auction::{
    after_run, lemma_row_of_bound, next, obs_ok, ready, AuctionCheck, AuctionEffect, AuctionObs,
    AuctionProbe, LuaRun, Phase, ACTION_STARTED, ERR_OK,
};
use crate::probe_clock::Outcome;
use vstd::prelude::*;

verus! {

/// How many verdict lines with outcome `o` a run of effects prints.
pub open spec fn verdicts(effects: Seq<AuctionEffect>, o: Outcome) -> nat
    decreases effects.len(),
{
    if effects.len() == 0 {
        0
    } else {
        verdicts(effects.drop_last(), o) + match effects.last() {
            AuctionEffect::Verdict(_, x) => if x == o {
                1nat
            } else {
                0nat
            },
            _ => 0nat,
        }
    }
}

proof fn lemma_verdicts_concat(a: Seq<AuctionEffect>, b: Seq<AuctionEffect>, o: Outcome)
    ensures
        verdicts(a + b, o) == verdicts(a, o) + verdicts(b, o),
    decreases b.len(),
{
    if b.len() == 0 {
        assert(a + b =~= a);
    } else {
        assert((a + b).drop_last() =~= a + b.drop_last());
        lemma_verdicts_concat(a, b.drop_last(), o);
    }
}

/// Whether one effect is a verdict line with outcome `o`.
pub open spec fn is_verdict(x: AuctionEffect, o: Outcome) -> nat {
    match x {
        AuctionEffect::Verdict(_, y) => if y == o {
            1nat
        } else {
            0nat
        },
        _ => 0nat,
    }
}

proof fn lemma_verdicts_short(e: Seq<AuctionEffect>, o: Outcome)
    requires
        e.len() <= 3,
    ensures
        verdicts(e, o) == (if e.len() > 0 {
            is_verdict(e[0], o)
        } else {
            0nat
        }) + (if e.len() > 1 {
            is_verdict(e[1], o)
        } else {
            0nat
        }) + (if e.len() > 2 {
            is_verdict(e[2], o)
        } else {
            0nat
        }),
{
    reveal_with_fuel(verdicts, 4);
    if e.len() > 0 {
        let d1 = e.drop_last();
        if d1.len() > 0 {
            let d2 = d1.drop_last();
            if d2.len() > 0 {
                assert(d2.drop_last().len() == 0);
            }
        }
    }
}

/// The counters moved by exactly the verdicts printed.
pub open spec fn tallied(p: AuctionProbe, r: (AuctionProbe, Seq<AuctionEffect>)) -> bool {
    &&& r.0.passes == p.passes + verdicts(r.1, Outcome::Pass)
    &&& r.0.fails == p.fails + verdicts(r.1, Outcome::Fail)
}

/// `DONE` is printed from `Done` alone, once: the frame that prints it latches `exited`, and the
/// latch never comes undone.
pub open spec fn done_once(p: AuctionProbe, r: (AuctionProbe, Seq<AuctionEffect>)) -> bool {
    &&& p.exited ==> r.0.exited
    &&& (p.phase is Done && !p.exited) ==> r.1 == seq![
        AuctionEffect::Finished { passes: p.passes, fails: p.fails },
    ] && r.0.exited
    &&& forall|i: int| 0 <= i < r.1.len() && #[trigger] r.1[i] is Finished ==> p.phase is Done
        && !p.exited
}

/// The auction id is learnt from the server's own `STARTED` result and from nothing else.
pub open spec fn id_from_started(
    p: AuctionProbe,
    obs: &AuctionObs,
    r: (AuctionProbe, Seq<AuctionEffect>),
) -> bool {
    r.0.auction_id != p.auction_id ==> {
        &&& p.phase is Sell
        &&& obs.last_command matches Some((id, action, error))
        &&& action == ACTION_STARTED
        &&& error == ERR_OK
        &&& r.0.auction_id == Some(id)
    }
}

/// The greeting passes only on the hello *reply*: a session the server opened, with the
/// auctioneer we greeted.
pub open spec fn greet_by_reply(
    p: AuctionProbe,
    obs: &AuctionObs,
    r: (AuctionProbe, Seq<AuctionEffect>),
) -> bool {
    forall|i: int|
        0 <= i < r.1.len() && #[trigger] r.1[i] == AuctionEffect::Verdict(
            AuctionCheck::Greet,
            Outcome::Pass,
        ) ==> obs.session_auctioneer is Some && obs.session_auctioneer == p.auctioneer
}

/// A cancel names the owner-page row that carries our own auction id.
pub open spec fn cancels_our_row(
    p: AuctionProbe,
    obs: &AuctionObs,
    r: (AuctionProbe, Seq<AuctionEffect>),
) -> bool {
    forall|i: int|
        0 <= i < r.1.len() ==> (#[trigger] r.1[i] matches AuctionEffect::Run(
            LuaRun::CancelRow { index },
        ) ==> {
            &&& p.auction_id matches Some(id)
            &&& 1 <= index <= obs.owner_entries@.len()
            &&& obs.owner_entries@[index - 1].auction_id == id
        })
}

/// The list event is judged by the event: a `ListEvent` PASS only on a browse-event frame where
/// `AUCTION_ITEM_LIST_UPDATE` has fired past its baseline.
pub open spec fn list_event_by_event(
    p: AuctionProbe,
    obs: &AuctionObs,
    r: (AuctionProbe, Seq<AuctionEffect>),
) -> bool {
    forall|i: int|
        0 <= i < r.1.len() && #[trigger] r.1[i] == AuctionEffect::Verdict(
            AuctionCheck::ListEvent,
            Outcome::Pass,
        ) ==> (p.phase matches Phase::BrowseEvent { event_baseline, .. } && obs.list_events
            > event_baseline)
}

/// Everything one frame keeps.
pub open spec fn frame_laws(p: AuctionProbe, now: u64, obs: &AuctionObs) -> bool {
    let r = next(p, now, obs);
    &&& tallied(p, r)
    &&& done_once(p, r)
    &&& id_from_started(p, obs, r)
    &&& greet_by_reply(p, obs, r)
    &&& cancels_our_row(p, obs, r)
    &&& list_event_by_event(p, obs, r)
}

proof fn lemma_frame_greet(p: AuctionProbe, now: u64, obs: &AuctionObs)
    requires
        ready(p),
        obs_ok(obs),
        p.phase is Wait || p.phase is Settling || p.phase is Greet,
    ensures
        frame_laws(p, now, obs),
{
    let e = next(p, now, obs).1;
    assert(e.len() <= 3);
    lemma_verdicts_short(e, Outcome::Pass);
    lemma_verdicts_short(e, Outcome::Fail);
}

proof fn lemma_frame_browse(p: AuctionProbe, now: u64, obs: &AuctionObs)
    requires
        ready(p),
        obs_ok(obs),
        p.phase is Browse || p.phase is BrowseEvent || p.phase is Refuse || p.phase is Recover,
    ensures
        frame_laws(p, now, obs),
{
    let e = next(p, now, obs).1;
    assert(e.len() <= 3);
    lemma_verdicts_short(e, Outcome::Pass);
    lemma_verdicts_short(e, Outcome::Fail);
}

proof fn lemma_frame_sell(p: AuctionProbe, now: u64, obs: &AuctionObs)
    requires
        ready(p),
        obs_ok(obs),
        p.phase is EnsureItem || p.phase is Attach || p.phase is Sell,
    ensures
        frame_laws(p, now, obs),
{
    let e = next(p, now, obs).1;
    assert(e.len() <= 3);
    lemma_verdicts_short(e, Outcome::Pass);
    lemma_verdicts_short(e, Outcome::Fail);
}

proof fn lemma_frame_money(p: AuctionProbe, now: u64, obs: &AuctionObs)
    requires
        ready(p),
        obs_ok(obs),
        p.phase is SellMoney,
    ensures
        frame_laws(p, now, obs),
{
    let e = next(p, now, obs).1;
    assert(e.len() <= 3);
    lemma_verdicts_short(e, Outcome::Pass);
    lemma_verdicts_short(e, Outcome::Fail);
}

proof fn lemma_frame_owner(p: AuctionProbe, now: u64, obs: &AuctionObs)
    requires
        ready(p),
        obs_ok(obs),
        p.phase is OwnerList || p.phase is OwnerEvent,
    ensures
        frame_laws(p, now, obs),
{
    match p.auction_id {
        Some(id) => lemma_row_of_bound(obs.owner_entries@, id),
        None => {},
    }
    let e = next(p, now, obs).1;
    assert(e.len() <= 3);
    lemma_verdicts_short(e, Outcome::Pass);
    lemma_verdicts_short(e, Outcome::Fail);
}

proof fn lemma_frame_cancel(p: AuctionProbe, now: u64, obs: &AuctionObs)
    requires
        ready(p),
        obs_ok(obs),
        p.phase is Cancel || p.phase is Done,
    ensures
        frame_laws(p, now, obs),
{
    match p.auction_id {
        Some(id) => lemma_row_of_bound(obs.owner_entries@, id),
        None => {},
    }
    let e = next(p, now, obs).1;
    assert(e.len() <= 3);
    lemma_verdicts_short(e, Outcome::Pass);
    lemma_verdicts_short(e, Outcome::Fail);
}

proof fn lemma_frame(p: AuctionProbe, now: u64, obs: &AuctionObs)
    requires
        ready(p),
        obs_ok(obs),
    ensures
        frame_laws(p, now, obs),
{
    match p.phase {
        Phase::Wait | Phase::Settling { .. } | Phase::Greet { .. } => lemma_frame_greet(p, now, obs),
        Phase::Browse { .. } | Phase::BrowseEvent { .. } | Phase::Refuse { .. } | Phase::Recover { .. } => lemma_frame_browse(p, now, obs),
        Phase::EnsureItem { .. } | Phase::Attach { .. } | Phase::Sell { .. } => lemma_frame_sell(p, now, obs),
        Phase::SellMoney { .. } => lemma_frame_money(p, now, obs),
        Phase::OwnerList { .. } | Phase::OwnerEvent { .. } => lemma_frame_owner(p, now, obs),
        Phase::Cancel { .. } | Phase::Done => lemma_frame_cancel(p, now, obs),
    }
}

/// Whatever the frame read back, the pass and fail counters grow by exactly the number of
/// `PASS` and `FAIL` lines the frame printed: the closing `DONE pass=<n> fail=<m>` tallies the
/// verdicts it reported, no more and no fewer.
pub proof fn step_counts_its_verdicts(p: AuctionProbe, now: u64, obs: &AuctionObs)
    requires
        ready(p),
        obs_ok(obs),
    ensures
        tallied(p, next(p, now, obs)),
{
    lemma_frame(p, now, obs);
}

/// The same for the outcome of a Lua chunk.
pub proof fn resume_counts_its_verdicts(p: AuctionProbe, now: u64, ok: bool)
    requires
        p.passes < u32::MAX,
        p.fails < u32::MAX,
    ensures
        tallied(p, after_run(p, now, ok)),
{
    let e = after_run(p, now, ok).1;
    assert(e.len() <= 1);
    lemma_verdicts_short(e, Outcome::Pass);
    lemma_verdicts_short(e, Outcome::Fail);
}

/// `DONE pass=<n> fail=<m>` is printed once, from `Done`, with the counts as they stand; the
/// outcome of a chunk never prints it and never clears the latch.
pub proof fn done_is_printed_once(p: AuctionProbe, now: u64, obs: &AuctionObs, ok: bool)
    requires
        ready(p),
        obs_ok(obs),
    ensures
        done_once(p, next(p, now, obs)),
        after_run(p, now, ok).0.exited == p.exited,
        forall|i: int|
            0 <= i < after_run(p, now, ok).1.len() ==> !(#[trigger] after_run(p, now, ok).1[i] is Finished),
{
    lemma_frame(p, now, obs);
}

/// The listing is remembered by the id the server's `STARTED` result carried, learnt once in
/// step (5): no other frame, and no chunk outcome, ever changes it.
pub proof fn auction_id_comes_from_started(p: AuctionProbe, now: u64, obs: &AuctionObs, ok: bool)
    requires
        ready(p),
        obs_ok(obs),
    ensures
        id_from_started(p, obs, next(p, now, obs)),
        after_run(p, now, ok).0.auction_id == p.auction_id,
{
    lemma_frame(p, now, obs);
}

/// The window is opened by the server, not by the click: the greeting passes only when the
/// hello reply opened a session with the auctioneer that was greeted.
pub proof fn greeting_passes_only_on_reply(p: AuctionProbe, now: u64, obs: &AuctionObs)
    requires
        ready(p),
        obs_ok(obs),
    ensures
        greet_by_reply(p, obs, next(p, now, obs)),
{
    lemma_frame(p, now, obs);
}

/// Every `CancelAuction(index)` names the owner row that carries the remembered auction id.
pub proof fn cancel_targets_our_auction(p: AuctionProbe, now: u64, obs: &AuctionObs)
    requires
        ready(p),
        obs_ok(obs),
    ensures
        cancels_our_row(p, obs, next(p, now, obs)),
{
    lemma_frame(p, now, obs);
}

/// A listing this run created is never left up by the owner check: a frame of steps (6) with a
/// known auction id stays in them or moves on to the cancel, entered afresh and with the id kept —
/// whether the assertions about the listing passed or failed.
pub proof fn the_owner_check_always_ends_in_the_cancel(p: AuctionProbe, now: u64, obs: &AuctionObs)
    requires
        ready(p),
        obs_ok(obs),
        p.auction_id is Some,
        p.phase is OwnerList || p.phase is OwnerEvent,
    ensures
        next(p, now, obs).0.auction_id == p.auction_id,
        next(p, now, obs).0.phase is OwnerList || next(p, now, obs).0.phase is OwnerEvent
            || next(p, now, obs).0.phase == crate::auction::cancel_at(now),
{
}

/// The list event is judged by the event itself: a `ListEvent` PASS is printed only on a
/// browse-event frame where `AUCTION_ITEM_LIST_UPDATE` has fired since the browse (the count past
/// its baseline); a browse-event frame whose grace has run out with no such event prints exactly a
/// `ListEvent` FAIL, counts one more failure and no pass, and moves on to the refusal step.
pub proof fn the_list_event_passes_only_when_it_fired(p: AuctionProbe, now: u64, obs: &AuctionObs)
    requires
        ready(p),
        obs_ok(obs),
    ensures
        list_event_by_event(p, obs, next(p, now, obs)),
        (p.phase matches Phase::BrowseEvent { since, event_baseline } && obs.list_events
            <= event_baseline && now - since > crate::auction::EVENT_GRACE_MS) ==> {
            &&& next(p, now, obs).1 == seq![
                AuctionEffect::Verdict(AuctionCheck::ListEvent, Outcome::Fail),
            ]
            &&& next(p, now, obs).0.fails == p.fails + 1
            &&& next(p, now, obs).0.passes == p.passes
            &&& next(p, now, obs).0.phase is Refuse
        },
{
    lemma_frame(p, now, obs);
}

} // verus!
