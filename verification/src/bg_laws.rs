//! What every frame of the battleground probe keeps, whatever the world reads back: the testing
//! lever is tracked by the sends themselves and put back as found on every road to the end and
//! from the first census on; every verb names the arena's own map, battlemaster, flag and slot.
use crate::bg::{is_flag, is_master, lemma_first_match, lemma_ready_slot, STATUS_READY};
use crate::bg_run::{
    after_port, arena_flag, arena_map, arena_master, exit_next, next, obs_ok, ready, BgEffect,
    BgFailure, BgObs, BgView, Gm, Phase,
};
use vstd::prelude::*;

verus! {

/// One effect's `.debug bg` sends.
pub open spec fn sends(x: BgEffect) -> nat {
    if x == BgEffect::Gm(Gm::DebugBg) {
        1
    } else {
        0
    }
}

/// How many `.debug bg` sends a run of effects holds.
pub open spec fn debug_sends(e: Seq<BgEffect>) -> nat
    decreases e.len(),
{
    if e.len() == 0 {
        0
    } else {
        debug_sends(e.drop_last()) + sends(e.last())
    }
}

proof fn lemma_debug_sends_concat(a: Seq<BgEffect>, b: Seq<BgEffect>)
    ensures
        debug_sends(a + b) == debug_sends(a) + debug_sends(b),
    decreases b.len(),
{
    if b.len() == 0 {
        assert(a + b =~= a);
    } else {
        assert((a + b).drop_last() =~= a + b.drop_last());
        lemma_debug_sends_concat(a, b.drop_last());
    }
}

pub broadcast proof fn lemma_debug_sends_add(a: Seq<BgEffect>, b: Seq<BgEffect>)
    ensures
        #[trigger] debug_sends(a + b) == debug_sends(a) + debug_sends(b),
{
    lemma_debug_sends_concat(a, b);
}

pub broadcast proof fn lemma_debug_sends_one(x: BgEffect)
    ensures
        #[trigger] debug_sends(seq![x]) == sends(x),
{
    reveal_with_fuel(debug_sends, 2);
    assert(seq![x].drop_last() =~= Seq::<BgEffect>::empty());
    assert(seq![x].last() == x);
}

/// Inside the arena or past it: the lever has done its job.
pub open spec fn past_the_port(ph: Phase) -> bool {
    ph is Inside || ph is FlagHop || ph is FlagUsed || ph is Dying || ph is Graveyard || ph is Done
}

/// The lever across one frame: counted by the sends, as found at every end and from the first
/// census on, and left alone past the port once it is.
pub open spec fn lever_laws(p: BgView, now: u64, obs: &BgObs) -> bool {
    let r = next(p, now, obs);
    &&& r.0.toggles_sent == p.toggles_sent + debug_sends(r.1)
    &&& (!(p.phase is Done) && r.0.phase is Done) ==> r.0.toggles_sent % 2 == 0
    &&& (p.phase matches Phase::Inside { samples, next_census, .. } && samples == 0 && now
        >= next_census) ==> r.0.toggles_sent % 2 == 0
    &&& past_the_port(p.phase) ==> past_the_port(r.0.phase)
    &&& (past_the_port(p.phase) && p.toggles_sent % 2 == 0) ==> r.0.toggles_sent
        == p.toggles_sent
    &&& p.phase is Done ==> r.0 == p && r.1.len() == 0
}

/// How the run ends: a frame that takes the run to `Done` opens with a `FAILURE` line, unless it
/// is the graveyard leg's own end or the flag hop of an arena with no flag. In particular the
/// `.die` leg ends only on a body still alive past the death timeout, and says so.
pub open spec fn end_laws(p: BgView, now: u64, obs: &BgObs) -> bool {
    let r = next(p, now, obs);
    &&& (!(p.phase is Done) && r.0.phase is Done && !(p.phase is Graveyard) && !(p.phase is FlagHop
        && arena_flag(p) == 0)) ==> r.1.len() > 0 && r.1[0] is Failure
    &&& (p.phase is Dying && r.0.phase is Done) ==> !obs.dead && r.1[0] == BgEffect::Failure(
        BgFailure::StillAlive,
    )
    &&& (p.phase matches Phase::Dying { sent_at } && !obs.dead && now - sent_at
        > crate::bg::DEATH_TIMEOUT_MS) ==> r.0.phase is Done && r.1.len() > 0 && r.1[0]
        == BgEffect::Failure(BgFailure::StillAlive)
}

/// What one effect names, checked against the probe and the frame's reading.
pub open spec fn names_the_arena(p: BgView, obs: &BgObs, x: BgEffect) -> bool {
    &&& x matches BgEffect::Join { battlemaster, map_id } ==> map_id == arena_map(p)
        && obs.list_from == Some(battlemaster)
    &&& x matches BgEffect::Hello(g) ==> exists|k: int|
        0 <= k < obs.entities@.len() && #[trigger] obs.entities@[k].guid == g && is_master(
            obs.entities@[k],
            arena_master(p),
        )
    &&& x matches BgEffect::UseFlag(g) ==> exists|k: int|
        0 <= k < obs.entities@.len() && #[trigger] obs.entities@[k].guid == g && is_flag(
            obs.entities@[k],
            arena_flag(p),
        )
    &&& x matches BgEffect::AcceptPort(n) ==> 1 <= n <= obs.slots@.len() && (obs.slots@[n
        - 1] matches Some(s) && s.status == STATUS_READY && s.map_id == arena_map(p))
}

/// Every verb of one frame names the arena's own map, the battlemaster whose list landed, the
/// battlemaster and flag found by entry, and a slot ready for the arena's map.
pub open spec fn target_laws(p: BgView, now: u64, obs: &BgObs) -> bool {
    let r = next(p, now, obs);
    forall|i: int| 0 <= i < r.1.len() ==> names_the_arena(p, obs, #[trigger] r.1[i])
}

proof fn lemma_road(p: BgView, now: u64, obs: &BgObs)
    requires
        ready(p, now),
        obs_ok(obs),
        p.phase is Wait || p.phase is Hopped || p.phase is Toggled || p.phase is Scanning
            || p.phase is Greeted,
    ensures
        lever_laws(p, now, obs),
        target_laws(p, now, obs),
        end_laws(p, now, obs),
{
    broadcast use lemma_debug_sends_add, lemma_debug_sends_one;

    lemma_first_match(obs.entities@, arena_master(p), false);
}

proof fn lemma_queue(p: BgView, now: u64, obs: &BgObs)
    requires
        ready(p, now),
        obs_ok(obs),
        p.phase is Joined || p.phase is Rejoining || p.phase is Ported,
    ensures
        lever_laws(p, now, obs),
        target_laws(p, now, obs),
        end_laws(p, now, obs),
{
    broadcast use lemma_debug_sends_add, lemma_debug_sends_one;

    lemma_ready_slot(obs.slots@, arena_map(p));
}

proof fn lemma_inside(p: BgView, now: u64, obs: &BgObs)
    requires
        ready(p, now),
        obs_ok(obs),
        p.phase is Inside || p.phase is FlagHop || p.phase is FlagUsed,
    ensures
        lever_laws(p, now, obs),
        target_laws(p, now, obs),
        end_laws(p, now, obs),
{
    broadcast use lemma_debug_sends_add, lemma_debug_sends_one;

    lemma_first_match(obs.entities@, arena_flag(p), true);
}

proof fn lemma_end(p: BgView, now: u64, obs: &BgObs)
    requires
        ready(p, now),
        obs_ok(obs),
        p.phase is Dying || p.phase is Graveyard || p.phase is Done,
    ensures
        lever_laws(p, now, obs),
        target_laws(p, now, obs),
        end_laws(p, now, obs),
{
    broadcast use lemma_debug_sends_add, lemma_debug_sends_one;

}

/// The testing lever, frame by frame: `toggles_sent` grows by exactly the `.debug bg` sends the
/// frame hands out; a frame that ends the run leaves the count even, failures included; the first
/// census leaves it even; past the port the phase never goes back, and an even count stays put;
/// and `Done` is still.
pub proof fn the_lever_is_tracked_by_its_sends(p: BgView, now: u64, obs: &BgObs)
    requires
        ready(p, now),
        obs_ok(obs),
    ensures
        lever_laws(p, now, obs),
{
    match p.phase {
        Phase::Wait | Phase::Hopped { .. } | Phase::Toggled { .. } | Phase::Scanning { .. }
        | Phase::Greeted { .. } => lemma_road(p, now, obs),
        Phase::Joined { .. } | Phase::Rejoining { .. } | Phase::Ported { .. } => lemma_queue(
            p,
            now,
            obs,
        ),
        Phase::Inside { .. } | Phase::FlagHop { .. } | Phase::FlagUsed { .. } => lemma_inside(
            p,
            now,
            obs,
        ),
        _ => lemma_end(p, now, obs),
    }
}

/// Every verb a frame hands out is aimed at this run's arena: a join carries the arena's map and
/// the battlemaster whose list landed; the hello goes to an entity with the arena's battlemaster
/// entry; the flag used is the arena's flag; the port taken is a slot ready for the arena's map.
pub proof fn every_verb_names_the_arena(p: BgView, now: u64, obs: &BgObs)
    requires
        ready(p, now),
        obs_ok(obs),
    ensures
        target_laws(p, now, obs),
{
    match p.phase {
        Phase::Wait | Phase::Hopped { .. } | Phase::Toggled { .. } | Phase::Scanning { .. }
        | Phase::Greeted { .. } => lemma_road(p, now, obs),
        Phase::Joined { .. } | Phase::Rejoining { .. } | Phase::Ported { .. } => lemma_queue(
            p,
            now,
            obs,
        ),
        Phase::Inside { .. } | Phase::FlagHop { .. } | Phase::FlagUsed { .. } => lemma_inside(
            p,
            now,
            obs,
        ),
        _ => lemma_end(p, now, obs),
    }
}

/// The port's outcome: taken, the probe waits for the map with the lever untouched; raised, the
/// run ends with the lever back as found, counted by the sends.
pub proof fn a_raised_port_leaves_the_lever_as_found(p: BgView, now: u64, ok: bool)
    requires
        p.toggles_sent < u32::MAX,
    ensures
        after_port(p, now, ok).0.toggles_sent == p.toggles_sent + debug_sends(
            after_port(p, now, ok).1,
        ),
        ok ==> after_port(p, now, ok).0.phase == (Phase::Ported { sent_at: now }),
        !ok ==> after_port(p, now, ok).0.phase is Done && after_port(p, now, ok).0.toggles_sent % 2
            == 0,
{
    broadcast use lemma_debug_sends_add, lemma_debug_sends_one;

}

/// The exit is printed once, from `Done` alone, and says `stranded` exactly when the map was
/// still the arena's; a landed leave exits at once.
pub proof fn the_exit_is_printed_once(p: BgView, now: u64, map: Option<u32>)
    ensures
        p.exited ==> exit_next(p, now, map).0 == p && exit_next(p, now, map).1.len() == 0,
        !(p.phase is Done) ==> exit_next(p, now, map).1.len() == 0,
        exit_next(p, now, map).1.len() > 0 ==> exit_next(p, now, map).0.exited
            && exit_next(p, now, map).1 == seq![
            BgEffect::Exit { stranded: map == Some(arena_map(p)) },
        ],
        (p.phase is Done && !p.exited && map != Some(arena_map(p))) ==> exit_next(
            p,
            now,
            map,
        ).1.len() == 1,
{
}

/// No run ends in silence: a frame that takes the run to `Done` opens with a `FAILURE` line that
/// says why, unless it is the graveyard leg's own end (the report and the way home, or the VM gone
/// under it) or the flag hop of an arena with no flag. A `.die` that did not kill — the body still
/// alive past the death timeout — ends the run with `FAILURE StillAlive` first, and the `.die` leg
/// ends in no other way.
pub proof fn no_run_ends_in_silence(p: BgView, now: u64, obs: &BgObs)
    requires
        ready(p, now),
        obs_ok(obs),
    ensures
        end_laws(p, now, obs),
{
    match p.phase {
        Phase::Wait | Phase::Hopped { .. } | Phase::Toggled { .. } | Phase::Scanning { .. }
        | Phase::Greeted { .. } => lemma_road(p, now, obs),
        Phase::Joined { .. } | Phase::Rejoining { .. } | Phase::Ported { .. } => lemma_queue(
            p,
            now,
            obs,
        ),
        Phase::Inside { .. } | Phase::FlagHop { .. } | Phase::FlagUsed { .. } => lemma_inside(
            p,
            now,
            obs,
        ),
        _ => lemma_end(p, now, obs),
    }
}

} // verus!
