//! The deterministic capture lifecycle (`WOW_CAPTURE=<scenario>`) — the decisions of the harness
//! that builds a scene, waits for the rendered image to stop changing, ages the sims a fixed
//! number of frozen-clock steps, shoots, and exits on what is on disk.
//!
//! Two mechanisms make a capture reproducible, and this module is both of them:
//!
//! 1. **The shutter waits for the IMAGE to stop changing** ([`FrameWatch`], decision 0815): the
//!    framebuffer is read back and compared byte for byte, and only [`STABLE_FRAMES`] consecutive
//!    identical readbacks count as "built".
//! 2. **The game clock is frozen** while the scene is being built, released for exactly
//!    `age_frames` fixed steps, and held again while the shutter is open — so the shot's sim age
//!    is the same duration on any machine (decision 0723).
//!
//! The frame loop itself (readbacks, screenshots, window, clock, process exit) is the caller's:
//! each frame it reads a [`FrameInput`], calls [`CaptureRun::step`], and performs the returned
//! [`CaptureAction`]s in order.
use vstd::prelude::*;

verus! {

/// Consecutive byte-identical framebuffer readbacks that mean "the scene is built" (decision 0815).
pub const STABLE_FRAMES: u32 = 30;

/// Hard cap on held frames spent waiting for [`STABLE_FRAMES`], so a scene whose image never
/// settles shoots anyway rather than hanging — forfeiting the guarantee, loudly.
pub const BUILD_CAP_FRAMES: u32 = 1800;

/// Wall-clock ceiling on a whole capture run, in seconds (decision 1637): every other bound here
/// counts frames, and that is only a bound while frames keep arriving.
pub const DEADLINE_SECS: u64 = 300;

/// Steps of the frozen frame step the sims run, clock released, once the scene is built — the
/// shot's *sim age* (150 ≈ 2.5 s).
pub const AGE_FRAMES: u32 = 150;

/// Hard cap on how long to wait for the screenshot save to land.
pub const SAVE_TIMEOUT_FRAMES: u32 = 120;

/// Grace frames after the save completes before exiting, so the file is flushed.
pub const EXIT_GRACE_FRAMES: u32 = 3;

/// Frames the perf probe discards after uncapping vsync.
pub const PROBE_WARMUP_FRAMES: u32 = 60;

/// The image-stability tracker: the previous framebuffer, and how many consecutive readbacks have
/// matched it byte for byte. Bytes, not a hash — an exact compare needs no collision argument.
pub struct FrameWatch {
    /// The last framebuffer read back, or `None` before the first one lands.
    pub prev: Option<Vec<u8>>,
    /// Consecutive readbacks identical to their predecessor. Reset to 0 by any change.
    pub stable: u32,
    /// A readback is outstanding. Only ever one at a time, so `stable` counts *distinct* frames.
    pub in_flight: bool,
}

/// Whether two byte runs are identical.
pub fn bytes_equal(a: &[u8], b: &[u8]) -> (r: bool)
    ensures
        r == (a@ == b@),
{
    if a.len() != b.len() {
        return false;
    }
    let mut i = 0usize;
    while i < a.len()
        invariant
            a@.len() == b@.len(),
            i <= a@.len(),
            forall|j: int| 0 <= j < i ==> a@[j] == b@[j],
        decreases a@.len() - i,
    {
        if a[i] != b[i] {
            return false;
        }
        i += 1;
    }
    assert(a@ =~= b@);
    true
}

/// Pixel `k` of an RGBA run has all three color channels zero.
pub open spec fn pixel_black(px: Seq<u8>, k: int) -> bool {
    px[4 * k] == 0 && px[4 * k + 1] == 0 && px[4 * k + 2] == 0
}

/// Every color channel of every whole RGBA pixel is zero (alpha is opaque even on a black frame,
/// and a trailing partial pixel is not a pixel).
pub open spec fn is_blank_spec(px: Seq<u8>) -> bool {
    forall|k: int| 0 <= k < px.len() / 4 ==> #[trigger] pixel_black(px, k)
}

/// The emptiness tripwire (decision 1373): stability proves the image stopped changing, not that
/// it contains anything — a lane that renders nothing is perfectly stable.
pub fn is_blank(px: &[u8]) -> (r: bool)
    ensures
        r == is_blank_spec(px@),
{
    let len = px.len();
    let n = len / 4;
    let mut k = 0usize;
    while k < n
        invariant
            len == px@.len(),
            n == len / 4,
            k <= n,
            forall|j: int| 0 <= j < k ==> #[trigger] pixel_black(px@, j),
        decreases n - k,
    {
        proof {
            assert(4 * k + 3 < len) by (nonlinear_arith)
                requires
                    k < n,
                    n == len / 4,
            ;
        }
        let i = 4 * k;
        if px[i] != 0 || px[i + 1] != 0 || px[i + 2] != 0 {
            assert(!pixel_black(px@, k as int));
            return false;
        }
        assert(pixel_black(px@, k as int));
        k += 1;
    }
    true
}

impl FrameWatch {
    /// The previous framebuffer, as bytes.
    pub open spec fn prev_bytes(&self) -> Option<Seq<u8>> {
        match self.prev {
            Some(p) => Some(p@),
            None => None,
        }
    }

    /// Whether the previous readback is a frame whose every color channel is zero.
    pub open spec fn prev_blank(&self) -> bool {
        self.prev matches Some(p) && is_blank_spec(p@)
    }

    pub fn new() -> (w: FrameWatch)
        ensures
            w.prev is None,
            w.stable == 0,
            !w.in_flight,
    {
        FrameWatch { prev: None, stable: 0, in_flight: false }
    }

    /// A stability readback landed: compare against the previous frame, count, and free the slot.
    /// A readback with no payload (a zero-sized or unavailable target) is no evidence either way.
    pub fn observe(&mut self, bytes: Option<&[u8]>)
        requires
            old(self).stable < u32::MAX,
        ensures
            !final(self).in_flight,
            bytes is None ==> final(self).prev_bytes() == old(self).prev_bytes() && final(self).stable == old(self).stable,
            bytes matches Some(b) ==> final(self).prev_bytes() == Some(b@) && final(self).stable
                == if old(self).prev_bytes() == Some(b@) {
                old(self).stable + 1
            } else {
                0
            },
    {
        self.in_flight = false;
        let b = match bytes {
            Some(b) => b,
            None => return,
        };
        let same = match &self.prev {
            Some(p) => bytes_equal(p.as_slice(), b),
            None => false,
        };
        self.stable = if same {
            self.stable + 1
        } else {
            0
        };
        self.prev = Some(vstd::slice::slice_to_vec(b));
    }

    /// The emptiness tripwire on the previous readback.
    pub fn prev_is_blank(&self) -> (r: bool)
        ensures
            r == self.prev_blank(),
    {
        match &self.prev {
            Some(p) => is_blank(p.as_slice()),
            None => false,
        }
    }
}

/// Capture lifecycle. Advances one step per frame.
#[derive(Clone, Copy, Debug, PartialEq, Eq, Structural)]
pub enum Phase {
    /// Clock held; waiting for the rendered image to stop changing ([`STABLE_FRAMES`]).
    Building(u32),
    /// Scene built, clock released: running exactly `age_frames` fixed steps.
    Aging(u32),
    /// fxview only: scene settled, fixture armed; waiting for the effect to attach and run its
    /// requested age before the shot.
    FxAging,
    /// Perf-probe mode: vsync off, discarding warm-up frames.
    ProbeWarmup(u32),
    /// Perf-probe mode: sampling frame times until the target count, then print + exit.
    Probing(u32),
    /// Screenshot requested; waiting for the async save to appear and clear.
    Saving { frames: u32, seen: bool },
    /// Save done; a few grace frames, then exit on what is on disk.
    Done(u32),
}

/// What the frame loop does this frame, in order.
#[derive(Clone, Copy, Debug, PartialEq, Eq, Structural)]
pub enum CaptureAction {
    /// The wall-clock deadline passed: report the frames and the rate, write no image, exit
    /// with failure.
    Deadline,
    /// Request one stability readback of the primary window (marked, so the real shot's save wait
    /// cannot mistake it for the screenshot), whose bytes go to [`FrameWatch::observe`].
    RequestStabilityShot,
    /// Warn that the image never settled within the cap: the shot is not reproducible.
    Unsettled { frames: u32, stable: u32 },
    /// Report that the settled image is empty — every color channel zero.
    EmptyImage,
    /// Resize the window to this many logical pixels, then re-settle.
    Resize { width: u32, height: u32 },
    /// Arm the fixture: the scene is ready, it spawns now with a clean age clock.
    ArmFixture,
    /// The image settled after this many frames; aging begins.
    Settled { frames: u32 },
    /// Take the real screenshot and save it to the output path.
    Shoot,
    /// Hand the clock back to real time before any frame is sampled (automatic time update,
    /// re-anchored to now), and uncap presentation unless vsync is kept.
    ReleaseClockForProbe { uncap: bool },
    /// Record the process CPU baseline for the probe window.
    RecordCpuBaseline,
    /// Record this frame's time as a probe sample.
    SampleFrame,
    /// Print the probe's frame-time and scene-count line.
    ReportProbe,
    /// Exit successfully.
    ExitSuccess,
    /// Exit with failure: no file at the output path after the save window.
    ExitFailure,
    /// Hold the game clock.
    PauseClock,
    /// Run the game clock.
    UnpauseClock,
}

/// What the frame loop read this frame.
#[derive(Clone, Copy, Debug)]
pub struct FrameInput {
    /// Wall-clock nanoseconds since the run started (a real instant, never the frozen clock).
    pub elapsed_ns: u64,
    /// The effective stability window (`$WOW_CAPTURE_STABLE`, default [`STABLE_FRAMES`]).
    pub stable_frames: u32,
    /// The effective aging window (`$WOW_CAPTURE_AGE`, default [`AGE_FRAMES`]).
    pub age_frames: u32,
    /// `$WOW_RESIZE=WxH`, when set and well formed.
    pub resize: Option<(u32, u32)>,
    /// A fixture viewer (fxview / waterfx) is in this run.
    pub has_fixture: bool,
    /// The fixture has attached and run its requested age on the game clock (`true` when there
    /// is no fixture to wait on).
    pub fixture_aged: bool,
    /// `$WOW_PROBE_VSYNC=1`: the probe keeps vsync on.
    pub keep_vsync: bool,
    /// A screenshot save (not a stability readback) is in flight.
    pub capturing: bool,
    /// The output path is a file on disk.
    pub saved: bool,
    /// The game clock is currently paused.
    pub clock_paused: bool,
}

/// The run's lifecycle state.
#[derive(Clone, Copy, Debug)]
pub struct CaptureRun {
    pub phase: Phase,
    /// `$WOW_FPS_PROBE` — sample this many frames instead of screenshotting; 0 = normal capture.
    pub probe_frames: u32,
    /// The frozen clock is still in force. True for every run that ends in a screenshot; a perf
    /// probe drops it the moment the scene is built and aged (decision 1637).
    pub frozen_clock: bool,
    /// `$WOW_RESIZE` already applied (once, at first settle).
    pub resized: bool,
    /// How long the run may take, in seconds; `None` disables the ceiling.
    pub deadline_secs: Option<u64>,
    /// Frames run so far, all phases.
    pub frames: u32,
    /// The deadline already fired; no phase advances again.
    pub bailed: bool,
}

/// The clock is held in these phases: while the scene is still being built, and while the shutter
/// is open (a pipelined renderer may serve the shot a frame later, and a running clock would make
/// that a different image).
pub open spec fn clock_held(phase: Phase) -> bool {
    phase is Building || phase is Saving || phase is Done
}

/// The wall-clock deadline has passed.
pub open spec fn past_deadline(deadline_secs: Option<u64>, elapsed_ns: u64) -> bool {
    deadline_secs matches Some(s) && elapsed_ns > s * 1_000_000_000
}

/// The `Building` phase may end: the image has held still long enough, or the cap is reached.
pub open spec fn build_over(n: u32, stable: u32, input: FrameInput) -> bool {
    stable >= input.stable_frames || n + 1 >= BUILD_CAP_FRAMES
}

/// The clock action that makes the clock's state match `held`.
pub open spec fn clock_fix(held: bool, paused: bool) -> Seq<CaptureAction> {
    if held && !paused {
        seq![CaptureAction::PauseClock]
    } else if !held && paused {
        seq![CaptureAction::UnpauseClock]
    } else {
        Seq::empty()
    }
}

/// One `Building` frame: the readback request and the warnings, then where it goes.
/// Returns the next phase, whether the resize was applied, and the phase's actions.
pub open spec fn building_step(
    n: u32,
    stable: u32,
    in_flight: bool,
    blank: bool,
    resized: bool,
    input: FrameInput,
) -> (Phase, bool, Seq<CaptureAction>) {
    let capped = n + 1 >= BUILD_CAP_FRAMES;
    let pre = (if !in_flight {
        seq![CaptureAction::RequestStabilityShot]
    } else {
        Seq::empty()
    }) + (if capped {
        seq![CaptureAction::Unsettled { frames: (n + 1) as u32, stable }]
    } else {
        Seq::empty()
    }) + (if build_over(n, stable, input) && blank {
        seq![CaptureAction::EmptyImage]
    } else {
        Seq::empty()
    });
    if !build_over(n, stable, input) {
        (Phase::Building((n + 1) as u32), resized, pre)
    } else if input.resize is Some && !resized {
        let (w, h) = input.resize.unwrap();
        (Phase::Building(0), true, pre.push(CaptureAction::Resize { width: w, height: h }))
    } else if input.has_fixture {
        (Phase::FxAging, resized, pre.push(CaptureAction::ArmFixture))
    } else {
        (Phase::Aging(0), resized, pre.push(CaptureAction::Settled { frames: (n + 1) as u32 }))
    }
}

impl CaptureRun {
    /// A fresh run: building, clock frozen.
    pub fn new(probe_frames: u32, deadline_secs: Option<u64>) -> (r: CaptureRun)
        ensures
            r.phase == Phase::Building(0),
            r.probe_frames == probe_frames,
            r.frozen_clock,
            !r.resized,
            r.deadline_secs == deadline_secs,
            r.frames == 0,
            !r.bailed,
    {
        CaptureRun {
            phase: Phase::Building(0),
            probe_frames,
            frozen_clock: true,
            resized: false,
            deadline_secs,
            frames: 0,
            bailed: false,
        }
    }

    /// Every counter can still be advanced by one.
    pub open spec fn counters_fit(&self) -> bool {
        &&& self.frames < u32::MAX
        &&& match self.phase {
            Phase::Building(n) => n < BUILD_CAP_FRAMES,
            Phase::Aging(n) => n < u32::MAX,
            Phase::ProbeWarmup(n) => n < PROBE_WARMUP_FRAMES,
            Phase::Probing(n) => n < u32::MAX,
            Phase::Saving { frames, .. } => frames < SAVE_TIMEOUT_FRAMES,
            Phase::Done(n) => n < EXIT_GRACE_FRAMES,
            Phase::FxAging => true,
        }
    }

    /// The phase after this frame (before the clock is reconciled), and its actions.
    pub open spec fn phase_step(&self, watch: &FrameWatch, input: FrameInput) -> (
        Phase,
        Seq<CaptureAction>,
    ) {
        match self.phase {
            Phase::Building(n) => {
                let (p, _, a) = building_step(
                    n,
                    watch.stable,
                    watch.in_flight,
                    watch.prev_blank(),
                    self.resized,
                    input,
                );
                (p, a)
            },
            Phase::FxAging => if input.fixture_aged {
                (Phase::Saving { frames: 0, seen: false }, seq![CaptureAction::Shoot])
            } else {
                (Phase::FxAging, Seq::empty())
            },
            Phase::Aging(n) => if n + 1 < input.age_frames {
                (Phase::Aging((n + 1) as u32), Seq::empty())
            } else if self.probe_frames > 0 {
                (
                    Phase::ProbeWarmup(0),
                    seq![CaptureAction::ReleaseClockForProbe { uncap: !input.keep_vsync }],
                )
            } else {
                (Phase::Saving { frames: 0, seen: false }, seq![CaptureAction::Shoot])
            },
            Phase::ProbeWarmup(n) => if n + 1 >= PROBE_WARMUP_FRAMES {
                (Phase::Probing(0), seq![CaptureAction::RecordCpuBaseline])
            } else {
                (Phase::ProbeWarmup((n + 1) as u32), Seq::empty())
            },
            Phase::Probing(n) => (
                Phase::Probing((n + 1) as u32),
                if n + 1 == self.probe_frames {
                    seq![
                        CaptureAction::SampleFrame,
                        CaptureAction::ReportProbe,
                        CaptureAction::ExitSuccess,
                    ]
                } else {
                    seq![CaptureAction::SampleFrame]
                },
            ),
            Phase::Saving { frames, seen } => {
                let seen2 = seen || input.capturing;
                if (seen2 && !input.capturing) || frames + 1 >= SAVE_TIMEOUT_FRAMES {
                    (Phase::Done(0), Seq::empty())
                } else {
                    (Phase::Saving { frames: (frames + 1) as u32, seen: seen2 }, Seq::empty())
                }
            },
            Phase::Done(n) => if n + 1 >= EXIT_GRACE_FRAMES {
                (
                    Phase::Done(n),
                    if input.saved {
                        seq![CaptureAction::ExitSuccess]
                    } else {
                        seq![CaptureAction::ExitFailure]
                    },
                )
            } else {
                (Phase::Done((n + 1) as u32), Seq::empty())
            },
        }
    }

    /// One frame of the lifecycle.
    ///
    /// The deadline is checked before anything else and in every phase; once it fires nothing
    /// advances again. Otherwise the phase advances by [`CaptureRun::phase_step`], and then, while
    /// the frozen clock is in force, the clock is paused or run so that **the clock runs only once
    /// the image has stopped changing** and stands still again while the shutter is open.
    pub fn step(&mut self, watch: &mut FrameWatch, input: FrameInput) -> (actions: Vec<
        CaptureAction,
    >)
        requires
            old(self).counters_fit(),
        ensures
            old(self).bailed ==> *final(self) == *old(self) && actions@.len() == 0 && *final(watch) == *old(watch),
            !old(self).bailed && past_deadline(old(self).deadline_secs, input.elapsed_ns) ==> {
                &&& final(self).bailed
                &&& final(self).phase == old(self).phase
                &&& final(self).frames == old(self).frames + 1
                &&& actions@ == seq![CaptureAction::Deadline]
                &&& *final(watch) == *old(watch)
            },
            !old(self).bailed && !past_deadline(old(self).deadline_secs, input.elapsed_ns) ==> {
                let (p, a) = old(self).phase_step(old(watch), input);
                let frozen = old(self).frozen_clock && !(old(self).phase is Aging && p is ProbeWarmup);
                &&& !final(self).bailed
                &&& final(self).frames == old(self).frames + 1
                &&& final(self).phase == p
                &&& final(self).probe_frames == old(self).probe_frames
                &&& final(self).deadline_secs == old(self).deadline_secs
                &&& final(self).frozen_clock == frozen
                &&& actions@ == a + if frozen {
                    clock_fix(clock_held(p), input.clock_paused)
                } else {
                    Seq::empty()
                }
                &&& final(watch).prev_bytes() == old(watch).prev_bytes()
                &&& (old(self).phase matches Phase::Building(n) ==> {
                    let (_, resized, _) = building_step(
                        n,
                        old(watch).stable,
                        old(watch).in_flight,
                        old(watch).prev_blank(),
                        old(self).resized,
                        input,
                    );
                    &&& final(self).resized == resized
                    &&& final(watch).in_flight
                    &&& final(watch).stable == if resized && !old(self).resized {
                        0
                    } else {
                        old(watch).stable
                    }
                })
                &&& (!(old(self).phase is Building) ==> final(self).resized == old(self).resized
                    && *final(watch) == *old(watch))
            },
    {
        if self.bailed {
            return Vec::new();
        }
        self.frames = self.frames + 1;
        let mut actions: Vec<CaptureAction> = Vec::new();
        match self.deadline_secs {
            Some(s) => {
                if (input.elapsed_ns as u128) > (s as u128) * 1_000_000_000u128 {
                    self.bailed = true;
                    actions.push(CaptureAction::Deadline);
                    return actions;
                }
            },
            None => {},
        }
        let ghost old_phase = self.phase;
        let ghost expected = self.phase_step(watch, input);
        let next = match self.phase {
            Phase::Building(n) => {
                if !watch.in_flight {
                    watch.in_flight = true;
                    actions.push(CaptureAction::RequestStabilityShot);
                }
                let capped = n + 1 >= BUILD_CAP_FRAMES;
                if capped {
                    actions.push(CaptureAction::Unsettled { frames: n + 1, stable: watch.stable });
                }
                let over = watch.stable >= input.stable_frames || capped;
                if over && watch.prev_is_blank() {
                    actions.push(CaptureAction::EmptyImage);
                }
                if !over {
                    Phase::Building(n + 1)
                } else if input.resize.is_some() && !self.resized {
                    let (w, h) = input.resize.unwrap();
                    self.resized = true;
                    watch.stable = 0;
                    actions.push(CaptureAction::Resize { width: w, height: h });
                    Phase::Building(0)
                } else if input.has_fixture {
                    actions.push(CaptureAction::ArmFixture);
                    Phase::FxAging
                } else {
                    actions.push(CaptureAction::Settled { frames: n + 1 });
                    Phase::Aging(0)
                }
            },
            Phase::FxAging => {
                if input.fixture_aged {
                    actions.push(CaptureAction::Shoot);
                    Phase::Saving { frames: 0, seen: false }
                } else {
                    Phase::FxAging
                }
            },
            Phase::Aging(n) => {
                if n + 1 < input.age_frames {
                    Phase::Aging(n + 1)
                } else if self.probe_frames > 0 {
                    self.frozen_clock = false;
                    actions.push(CaptureAction::ReleaseClockForProbe { uncap: !input.keep_vsync });
                    Phase::ProbeWarmup(0)
                } else {
                    actions.push(CaptureAction::Shoot);
                    Phase::Saving { frames: 0, seen: false }
                }
            },
            Phase::ProbeWarmup(n) => {
                if n + 1 >= PROBE_WARMUP_FRAMES {
                    actions.push(CaptureAction::RecordCpuBaseline);
                    Phase::Probing(0)
                } else {
                    Phase::ProbeWarmup(n + 1)
                }
            },
            Phase::Probing(n) => {
                actions.push(CaptureAction::SampleFrame);
                if n + 1 == self.probe_frames {
                    actions.push(CaptureAction::ReportProbe);
                    actions.push(CaptureAction::ExitSuccess);
                }
                Phase::Probing(n + 1)
            },
            Phase::Saving { frames, seen } => {
                let busy = input.capturing;
                let seen = seen || busy;
                if (seen && !busy) || frames + 1 >= SAVE_TIMEOUT_FRAMES {
                    Phase::Done(0)
                } else {
                    Phase::Saving { frames: frames + 1, seen }
                }
            },
            Phase::Done(n) => {
                if n + 1 >= EXIT_GRACE_FRAMES {
                    if input.saved {
                        actions.push(CaptureAction::ExitSuccess);
                    } else {
                        actions.push(CaptureAction::ExitFailure);
                    }
                    Phase::Done(n)
                } else {
                    Phase::Done(n + 1)
                }
            },
        };
        self.phase = next;
        proof {
            assert(next == expected.0);
            assert(actions@ =~= expected.1);
        }
        let ghost before_clock = actions@;
        if self.frozen_clock {
            let held = match self.phase {
                Phase::Building(_) => true,
                Phase::Saving { .. } | Phase::Done(_) => true,
                _ => false,
            };
            if held && !input.clock_paused {
                actions.push(CaptureAction::PauseClock);
            } else if !held && input.clock_paused {
                actions.push(CaptureAction::UnpauseClock);
            }
        }
        proof {
            if self.frozen_clock {
                assert(actions@ =~= before_clock + clock_fix(clock_held(next), input.clock_paused));
            } else {
                assert(actions@ =~= before_clock + Seq::<CaptureAction>::empty());
            }
        }
        actions
    }
}

/// Whether the game clock is paused after the frame loop performs `actions`, starting from `paused`.
pub open spec fn paused_after(paused: bool, actions: Seq<CaptureAction>) -> bool
    decreases actions.len(),
{
    if actions.len() == 0 {
        paused
    } else {
        let p = paused_after(paused, actions.drop_last());
        match actions.last() {
            CaptureAction::PauseClock => true,
            CaptureAction::UnpauseClock => false,
            _ => p,
        }
    }
}

/// No action in `a` touches the clock.
pub open spec fn leaves_clock(a: Seq<CaptureAction>) -> bool {
    forall|i: int|
        0 <= i < a.len() ==> !(#[trigger] a[i] is PauseClock) && !(a[i] is UnpauseClock)
}

proof fn lemma_paused_after_concat(paused: bool, a: Seq<CaptureAction>, b: Seq<CaptureAction>)
    ensures
        paused_after(paused, a + b) == paused_after(paused_after(paused, a), b),
    decreases b.len(),
{
    if b.len() == 0 {
        assert(a + b =~= a);
    } else {
        assert((a + b).drop_last() =~= a + b.drop_last());
        assert((a + b).last() == b.last());
        lemma_paused_after_concat(paused, a, b.drop_last());
    }
}

proof fn lemma_paused_after_leaves(paused: bool, a: Seq<CaptureAction>)
    requires
        leaves_clock(a),
    ensures
        paused_after(paused, a) == paused,
    decreases a.len(),
{
    if a.len() > 0 {
        assert(leaves_clock(a.drop_last()));
        lemma_paused_after_leaves(paused, a.drop_last());
        assert(a.last() == a[a.len() - 1]);
    }
}

proof fn lemma_phase_step_leaves_clock(run: CaptureRun, watch: FrameWatch, input: FrameInput)
    ensures
        leaves_clock(run.phase_step(&watch, input).1),
{
    let a = run.phase_step(&watch, input).1;
    assert forall|i: int| 0 <= i < a.len() implies !(#[trigger] a[i] is PauseClock) && !(
    a[i] is UnpauseClock) by {
        match run.phase {
            Phase::Building(n) => {
                let capped = n + 1 >= BUILD_CAP_FRAMES;
                let x: Seq<CaptureAction> = if !watch.in_flight {
                    seq![CaptureAction::RequestStabilityShot]
                } else {
                    Seq::empty()
                };
                let y: Seq<CaptureAction> = if capped {
                    seq![CaptureAction::Unsettled { frames: (n + 1) as u32, stable: watch.stable }]
                } else {
                    Seq::empty()
                };
                let z: Seq<CaptureAction> = if build_over(n, watch.stable, input)
                    && watch.prev_blank() {
                    seq![CaptureAction::EmptyImage]
                } else {
                    Seq::empty()
                };
                let pre = x + y + z;
                assert(leaves_clock(pre)) by {
                    assert forall|j: int| 0 <= j < pre.len() implies !(#[trigger] pre[j] is PauseClock)
                        && !(pre[j] is UnpauseClock) by {
                        if j < x.len() {
                            assert(pre[j] == x[j]);
                        } else if j < x.len() + y.len() {
                            assert(pre[j] == y[j - x.len()]);
                        } else {
                            assert(pre[j] == z[j - x.len() - y.len()]);
                        }
                    }
                }
                if i < pre.len() {
                    assert(a[i] == pre[i]);
                }
            },
            _ => {},
        }
    }
}

/// **The clock runs only once the image has stopped changing** (decision 0723/0815): while the
/// frozen clock is in force, after the frame loop performs a step's actions the game clock is
/// paused exactly in the phases that hold it — building, and with the shutter open.
pub proof fn lemma_frozen_clock_follows_phase(
    run: CaptureRun,
    watch: FrameWatch,
    input: FrameInput,
)
    ensures
        ({
            let (p, a) = run.phase_step(&watch, input);
            paused_after(input.clock_paused, a + clock_fix(clock_held(p), input.clock_paused))
                == clock_held(p)
        }),
{
    let (p, a) = run.phase_step(&watch, input);
    lemma_phase_step_leaves_clock(run, watch, input);
    lemma_paused_after_concat(input.clock_paused, a, clock_fix(clock_held(p), input.clock_paused));
    lemma_paused_after_leaves(input.clock_paused, a);
    let f = clock_fix(clock_held(p), input.clock_paused);
    if f.len() > 0 {
        assert(f.drop_last() =~= Seq::<CaptureAction>::empty());
    }
}

/// The build ends into the aging or the fixture wait only once the image has held still for the
/// whole stability window, or the build cap is reached.
pub proof fn lemma_build_ends_only_when_settled(
    run: CaptureRun,
    watch: FrameWatch,
    input: FrameInput,
)
    requires
        run.phase is Building,
    ensures
        ({
            let p = run.phase_step(&watch, input).0;
            (p is Aging || p is FxAging) ==> watch.stable >= input.stable_frames || run.phase->Building_0
                + 1 >= BUILD_CAP_FRAMES
        }),
{
}

/// At most one stability readback is ever outstanding: one is requested only when none is.
pub proof fn lemma_one_readback_in_flight(run: CaptureRun, watch: FrameWatch, input: FrameInput)
    ensures
        run.phase_step(&watch, input).1.contains(CaptureAction::RequestStabilityShot)
            ==> run.phase is Building && !watch.in_flight,
{
    let a = run.phase_step(&watch, input).1;
    if a.contains(CaptureAction::RequestStabilityShot) {
        let i = choose|i: int| 0 <= i < a.len() && a[i] == CaptureAction::RequestStabilityShot;
        match run.phase {
            Phase::Building(n) => {
                if watch.in_flight {
                    let capped = n + 1 >= BUILD_CAP_FRAMES;
                    let y: Seq<CaptureAction> = if capped {
                        seq![CaptureAction::Unsettled { frames: (n + 1) as u32, stable: watch.stable }]
                    } else {
                        Seq::empty()
                    };
                    let z: Seq<CaptureAction> = if build_over(n, watch.stable, input)
                        && watch.prev_blank() {
                        seq![CaptureAction::EmptyImage]
                    } else {
                        Seq::empty()
                    };
                    let pre = Seq::<CaptureAction>::empty() + y + z;
                    if i < pre.len() {
                        assert(a[i] == pre[i]);
                        if i < y.len() {
                            assert(pre[i] == y[i]);
                        } else {
                            assert(pre[i] == z[i - y.len()]);
                        }
                    }
                }
            },
            _ => {},
        }
    }
}

/// A capture that writes nothing fails: outside the perf probe, the run exits successfully only
/// when the output path is a file on disk.
pub proof fn lemma_success_only_with_file(run: CaptureRun, watch: FrameWatch, input: FrameInput)
    requires
        !(run.phase is Probing),
    ensures
        run.phase_step(&watch, input).1.contains(CaptureAction::ExitSuccess) ==> input.saved,
{
    let a = run.phase_step(&watch, input).1;
    if a.contains(CaptureAction::ExitSuccess) {
        let i = choose|i: int| 0 <= i < a.len() && a[i] == CaptureAction::ExitSuccess;
        match run.phase {
            Phase::Building(n) => {
                let capped = n + 1 >= BUILD_CAP_FRAMES;
                let x: Seq<CaptureAction> = if !watch.in_flight {
                    seq![CaptureAction::RequestStabilityShot]
                } else {
                    Seq::empty()
                };
                let y: Seq<CaptureAction> = if capped {
                    seq![CaptureAction::Unsettled { frames: (n + 1) as u32, stable: watch.stable }]
                } else {
                    Seq::empty()
                };
                let z: Seq<CaptureAction> = if build_over(n, watch.stable, input)
                    && watch.prev_blank() {
                    seq![CaptureAction::EmptyImage]
                } else {
                    Seq::empty()
                };
                let pre = x + y + z;
                if i < pre.len() {
                    assert(a[i] == pre[i]);
                    if i < x.len() {
                        assert(pre[i] == x[i]);
                    } else if i < x.len() + y.len() {
                        assert(pre[i] == y[i - x.len()]);
                    } else {
                        assert(pre[i] == z[i - x.len() - y.len()]);
                    }
                }
            },
            _ => {},
        }
    }
}

/// The shot's sim age is a fixed number of frames: an aging frame leaves aging exactly when it
/// is the `age_frames`-th.
pub proof fn lemma_aging_lasts_age_frames(run: CaptureRun, watch: FrameWatch, input: FrameInput)
    requires
        run.phase is Aging,
    ensures
        (run.phase_step(&watch, input).0 is Aging) <==> run.phase->Aging_0 + 1 < input.age_frames,
        run.phase_step(&watch, input).0 is Aging ==> run.phase_step(&watch, input).0->Aging_0
            == run.phase->Aging_0 + 1,
{
}

} // verus!
