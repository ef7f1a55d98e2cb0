//! The probe fleet's **environment registry** — every `WOW_PROBE*` variable the app reads, in one
//! table, with the column that says which of them schedule on the wall clock (decision 2265 §A5).
//!
//! The arming of the un-occludable probe window reads the `wall_clock` column
//! ([`wall_clock_vars`]); `WOW_PROBE=list` prints the table. The variables keep their own read
//! sites and their own shapes — this is a registry, not a dispatcher.
use vstd::prelude::*;

verus! {

/// One probe-fleet environment variable.
pub struct ProbeVar {
    /// The variable, exactly as the read site spells it.
    pub name: &'static str,
    /// One line: the value shape and what setting it does, from the comment at the read site.
    pub purpose: &'static str,
    /// Whether the variable **schedules on elapsed real time** — its script fires at `<secs>`
    /// marks, integrates a rate per frame, or steps a phase machine on real time — so the run is
    /// only right while frames keep arriving at full rate. Every `true` row arms the
    /// un-occludable probe window (decision 0906): a fully covered window drops to ~1 fps, and a
    /// wall-clock probe on it does not measure slowly, it runs the wrong script.
    ///
    /// A `false` row is a flag or a modifier: a `_AT`/`_STEP`/`_KEEP` rides its parent's
    /// arming, a pricing lever changes *what* a run draws rather than *when*, and a state machine
    /// that advances on wire replies has no clock to be robbed of.
    pub wall_clock: bool,
}

/// Every `WOW_PROBE*` variable the app reads, as `(name, purpose, wall_clock)` rows (see
/// [`ProbeVar`] for the columns), grouped by the probe that owns each; the order is the order
/// `WOW_PROBE=list` prints.
pub const PROBE_VARS: [(&'static str, &'static str, bool); 48] = [
    // Five of the six values step a phase machine on `time.elapsed_secs` (melee's 3 s swing
    // cadence, crossing/taxi/guardpoi's phases, castcancel's press-at-t); `partner` answers
    // invites the frame they land, but rides the same variable.
    (
        "WOW_PROBE",
        "<name> — a value-dispatched live probe (see the names below); `list` prints this table",
        true,
    ),
    // Fires on `ProbeClock` at `<secs>`, and it is the one probe variable a trace-only run
    // sets on its own (`WOW_MOVE_TRACE`/`WOW_STREAM_TRACE` legs, method.md) — 0794's
    // throttled camera leg was exactly such a run.
    (
        "WOW_PROBE_EXIT_AT",
        "<secs> — exit the app after N wall seconds; bounds any scripted live probe's lifetime",
        true,
    ),
    // A dial ON the occlusion defence itself, not a schedule.
    (
        "WOW_PROBE_PARK",
        "corner|edge|off — where the un-occludable probe window sits, and whether it is pinned on top",
        false,
    ),
    // Fires on `ProbeClock` at `<secs>`.
    (
        "WOW_PROBE_RESIZE",
        "\"<secs>:<W>x<H>\" — resize the primary window mid-run (the headless fullscreen-toggle stand-in)",
        true,
    ),
    // Line `n` is due at `at + every * n` on `ProbeClock`.
    (
        "WOW_PROBE_CHAT",
        "\"<line>[;<line>…]\" — send each line as chat once in-world; the park-the-probe-anywhere instrument (`.go xyz …`)",
        true,
    ),
    (
        "WOW_PROBE_CHAT_AT",
        "<secs> — when the first chat line goes out (default 8)",
        false,
    ),
    (
        "WOW_PROBE_CHAT_EVERY",
        "<secs> — space the chat lines apart instead of one burst (do X, wait, then do Y)",
        false,
    ),
    // Each tap fires at its `@<secs>` and releases `<hold>` later, on `ProbeClock`.
    (
        "WOW_PROBE_KEY",
        "\"<key>@<secs>[:<hold>][;…]\" — synthesize key presses once in-world (a jump, a mount flourish, a held W)",
        true,
    ),
    // First fire at `_AT` seconds, re-armed `_AGAIN` seconds into every later world entry.
    (
        "WOW_PROBE_LUA",
        "\"<chunk>\" — run a Lua chunk in the live UI VM once per world entry (the press-the-button-headlessly instrument)",
        true,
    ),
    (
        "WOW_PROBE_LUA_AT",
        "<secs> — when the chunk runs after the first world entry (default 10)",
        false,
    ),
    (
        "WOW_PROBE_LUA_AGAIN",
        "<secs> — how long after every LATER world entry (a relog) the chunk runs again (default 4)",
        false,
    ),
    // Starts at `_AT`, one move per `_STEP` seconds, alternating on `_DUTY` — all wall seconds.
    (
        "WOW_PROBE_HOVER",
        "\"<frame>[;<frame>…]\" — sweep the real pointer across the named frames' centres, pressing nothing",
        true,
    ),
    (
        "WOW_PROBE_HOVER_AT",
        "<secs> — when the sweep starts (default 14)",
        false,
    ),
    (
        "WOW_PROBE_HOVER_STEP",
        "<secs> — seconds per pointer move (default 0.25; ~0.016 sweeps at frame rate, the director's gesture)",
        false,
    ),
    (
        "WOW_PROBE_HOVER_JITTER",
        "<px> — walk the pointer inside a px box each step so it moves while the hovered frame stays put",
        false,
    ),
    (
        "WOW_PROBE_HOVER_DUTY",
        "<on>:<off> — sweep for `on` seconds, park over nothing for `off`, repeat (a leg that alternates can be read)",
        false,
    ),
    // Starts at `_AT`, advances one step per `_STEP` seconds, on `ProbeClock`.
    (
        "WOW_PROBE_DRAG",
        "\"<From>><To>[;…]\" — drag one named frame onto another through the real pointer path, one gesture step per frame",
        true,
    ),
    (
        "WOW_PROBE_DRAG_AT",
        "<secs> — when the first drag starts (default 14)",
        false,
    ),
    (
        "WOW_PROBE_DRAG_STEP",
        "<secs> — seconds per gesture step (default 0.1); a press and release in one frame is a click, not a drag",
        false,
    ),
    (
        "WOW_PROBE_DRAG_LUA",
        "\"<chunk>\" — a Lua chunk evaluated after each drag whose string result is logged as the report",
        false,
    ),
    // `90°/s for 6 s` has to produce 540° whatever the frame rate did; integrates rate × dt
    // between `at` and `until` on `ProbeClock`.
    (
        "WOW_PROBE_LOOK",
        "\"<deg_per_sec>@<start_s>:<duration_s>[;…]\" — the scripted mouse-turn: turn the avatar's aim at a rate for a while",
        true,
    ),
    // A dive scripted to reach 30° by second 25 has to reach it at second 25, and it is the
    // one script that can be a run's only actuator (a drifting swimmer needs no keys).
    (
        "WOW_PROBE_PITCH",
        "\"<deg>@<start_s>[:<deg_per_sec>][;…]\" — the scripted dive: aim a swimming avatar's nose up or down (+up)",
        true,
    ),
    // Each pose takes over at its `@<start>` and pans at its rate from then, on `ProbeClock`.
    (
        "WOW_PROBE_CAM",
        "\"<yaw_deg>,<pitch_deg>[,<dist_yd>]@<start_s>[:<pan_deg_per_s>][;…]\" — park the third-person camera at absolute poses",
        true,
    ),
    (
        "WOW_PROBE_UNCAP",
        "immediate|vsync — the FPS probe's present mode instead of the measured-best AutoNoVsync",
        false,
    ),
    (
        "WOW_PROBE_VSYNC",
        "1 — keep vsync ON in the FPS probe: it then measures the present ceiling the display grants this window",
        false,
    ),
    (
        "WOW_PROBE_UI_ONE_TEX",
        "1 — pricing lever: split UI runs on state flags alone, ignoring texture identity (the draw-count ceiling an atlas would reach)",
        false,
    ),
    (
        "WOW_PROBE_SHARED_SKIN",
        "1 — pricing lever: share character-skin materials across bodies (see `char_skin::build_char_skin_materials`)",
        false,
    ),
    (
        "WOW_PROBE_NAME_TRACE",
        "1 — per-frame NAME_TRACE lines for the self player's plate seat (a smoothness question is measured, never eyeballed)",
        false,
    ),
    (
        "WOW_PROBE_BG_SAMPLES",
        "n — how many 12 s census samples WOW_PROBE_BG takes inside the battleground (default 12; ~30 reaches vmangos's 5-minute premature finish, i.e. the end of a match)",
        false,
    ),
    (
        "WOW_PROBE_BG",
        "wsg|ab|av — queue for that battleground, take the port through the stock verb and census the instance from inside",
        true,
    ),
    (
        "WOW_PROBE_BGQUEUE",
        "1 — level past the bracket floor, greet Stormwind's Warsong Gulch battlemaster and queue through his list",
        true,
    ),
    (
        "WOW_PROBE_MAIL",
        "1 — GM-mail the probe's own character, open the Goldshire mailbox and drive inbox/take/send/delete through the VM",
        true,
    ),
    (
        "WOW_PROBE_AUCTION",
        "1 — GM-hop to a Stormwind auctioneer and drive browse/throttle/sell/owner-list/cancel through the VM",
        true,
    ),
    (
        "WOW_PROBE_BANK",
        "1 — GM-hop to a pure banker and drive the six-opcode bank wire (activate/deposit/withdraw/buy-slot/refusal)",
        true,
    ),
    (
        "WOW_PROBE_BINDER",
        "1 — GM-hop to an innkeeper, select the bind row and answer the confirm through the VM's own ConfirmBinder()",
        true,
    ),
    (
        "WOW_PROBE_SERVICE",
        "1 — right-click four real NPCs, one per UNIT_NPC_FLAGS shape, and report the service-ladder arm and the window that opened",
        true,
    ),
    (
        "WOW_PROBE_VENDOR_SWAP",
        "1 — open one Goldshire vendor over the other's window and read the `npc` token, title and portrait at MERCHANT_SHOW",
        true,
    ),
    (
        "WOW_PROBE_MODEL_CAMERA",
        "1 — build a plain <Model> pane on a camera-bearing file and read the renderer's camera and root back",
        true,
    ),
    (
        "WOW_PROBE_GMTICKET",
        "1 — drive the five-opcode GM ticket wire through the VM (status, clean slate, file, edit, abandon)",
        true,
    ),
    (
        "WOW_PROBE_CHARTER",
        "1 — buy a guild charter at the Stormwind registrar, open it with a real bag right-click and rename it",
        true,
    ),
    (
        "WOW_PROBE_BOOK",
        "1 — teleport to the Old Town plaque and measure what the item-text reader costs per frame, closed vs open (B240)",
        true,
    ),
    (
        "WOW_PROBE_STONE",
        "1 or <x>,<y>,<z>[,<map>] — join a real meeting stone on the click's own route and read the queue back out of the live VM",
        true,
    ),
    (
        "WOW_PROBE_CHEST",
        "1 or <x>,<y>,<z>[,<map>] — open a real chest on the click's own route and report the self anim id before/during/after",
        true,
    ),
    (
        "WOW_PROBE_GOQUEST",
        "1 or <x>,<y>,<z>[,<map>] — park at a GameObject questgiver and report the dialog status below and above MinLevel",
        true,
    ),
    (
        "WOW_PROBE_CLAM",
        "1 or <entry> — stock an openable item, right-click it through UseContainerItem and report whether a loot window opens",
        true,
    ),
    (
        "WOW_PROBE_DOCK",
        "x,y,z[,map] — the dock `WOW_PROBE=crossing` boards from (map defaults to 0 and must be sent)",
        false,
    ),
    // A roster/result state machine: `AwaitingRoster` → create → result byte → delete →
    // result byte, each step on the reply that arrives. No clock read anywhere in it.
    (
        "WOW_PROBE_CHARCREATE",
        "\"<name>[,race,class,gender[,skin,face,hair,haircolor,facial]]\" — create (and delete) a character at select over the wire",
        false,
    ),
    (
        "WOW_PROBE_CHARCREATE_KEEP",
        "1 — keep the character the probe created instead of deleting it",
        false,
    ),
];

/// The named values of `WOW_PROBE` itself, `(value, purpose)` — the one place they are listed.
pub const PROBE_NAMES: [(&'static str, &'static str); 7] = [
    ("list", "print this table and exit, before any window opens"),
    ("melee", "auto-fight the nearest enemy so the dbg-trace sink can record the combat-text timeline"),
    ("partner", "the second client that says yes: auto-accept every group invite and duel challenge (0434/0637)"),
    ("crossing", "board a cross-continent boat and report the map seam surviving (0455)"),
    ("taxi", "open the flight-master menu on the wire and ride Stormwind → Sentinel Hill to a verdict (0484)"),
    ("guardpoi", "ask a Stormwind guard for the weapons trainer and check the SMSG_GOSSIP_POI marker field by field"),
    ("castcancel", "hearth and press W mid-cast — the local self-cancel's end-to-end timing instrument"),
];

/// One row of [`PROBE_VARS`] as a [`ProbeVar`].
pub open spec fn row(t: (&'static str, &'static str, bool)) -> ProbeVar {
    ProbeVar { name: t.0, purpose: t.1, wall_clock: t.2 }
}

/// The registry, row by row.
pub fn probe_vars() -> (r: Vec<ProbeVar>)
    ensures
        r@ == PROBE_VARS@.map_values(|t: (&'static str, &'static str, bool)| row(t)),
{
    let mut r: Vec<ProbeVar> = Vec::new();
    let mut i = 0usize;
    while i < PROBE_VARS.len()
        invariant
            i <= PROBE_VARS@.len(),
            r@ == PROBE_VARS@.take(i as int).map_values(
                |t: (&'static str, &'static str, bool)| row(t),
            ),
        decreases PROBE_VARS@.len() - i,
    {
        let (name, purpose, wall_clock) = PROBE_VARS[i];
        r.push(ProbeVar { name, purpose, wall_clock });
        i += 1;
        assert(r@ =~= PROBE_VARS@.take(i as int).map_values(
            |t: (&'static str, &'static str, bool)| row(t),
        ));
    }
    assert(PROBE_VARS@.take(PROBE_VARS@.len() as int) =~= PROBE_VARS@);
    r
}

/// The names of the rows whose `wall_clock` column is set, in table order.
pub open spec fn wall_clock_names(rows: Seq<(&'static str, &'static str, bool)>) -> Seq<&'static str>
    decreases rows.len(),
{
    if rows.len() == 0 {
        Seq::empty()
    } else {
        let r = wall_clock_names(rows.drop_last());
        if rows.last().2 {
            r.push(rows.last().0)
        } else {
            r
        }
    }
}

/// The variables whose presence arms the un-occludable probe window — the `wall_clock` column,
/// in table order.
pub fn wall_clock_vars() -> (r: Vec<&'static str>)
    ensures
        r@ == wall_clock_names(PROBE_VARS@),
{
    let mut r: Vec<&'static str> = Vec::new();
    let mut i = 0usize;
    while i < PROBE_VARS.len()
        invariant
            i <= PROBE_VARS@.len(),
            r@ == wall_clock_names(PROBE_VARS@.take(i as int)),
        decreases PROBE_VARS@.len() - i,
    {
        proof {
            assert(PROBE_VARS@.take(i + 1).drop_last() =~= PROBE_VARS@.take(i as int));
        }
        let (name, _, wall_clock) = PROBE_VARS[i];
        if wall_clock {
            r.push(name);
        }
        i += 1;
    }
    proof {
        assert(PROBE_VARS@.take(PROBE_VARS@.len() as int) =~= PROBE_VARS@);
    }
    r
}

/// `WOW_PROBE`: the prefix every registered variable carries.
pub open spec fn probe_prefix() -> Seq<char> {
    seq!['W', 'O', 'W', '_', 'P', 'R', 'O', 'B', 'E']
}

/// `s` is a `WOW_PROBE*` variable's name.
pub open spec fn is_probe_variable(s: Seq<char>) -> bool {
    s.len() >= 9 && s.take(9) == probe_prefix()
}

/// The row of [`PROBE_VARS`] a registered name sits in, read off its length and a letter or two
/// (`-1` for a name that is not registered). That one reading places every row's name tells the
/// names apart: no two rows share one.
spec fn row_of_name(s: Seq<char>) -> int {
    if s.len() == 9 {
        0
    } else if s.len() == 12 {
        29
    } else if s.len() == 13 {
        if s[10] == 'K' { 7 } else if s[10] == 'L' { 8 } else { 22 }
    } else if s.len() == 14 {
        if s[10] == 'P' { 2 } else if s[10] == 'C' { if s[11] == 'H' { 4 } else { 44 } } else if s[10] == 'D' { if s[11] == 'R' { 16 } else { 45 } } else if s[10] == 'L' { 20 } else if s[10] == 'M' { 31 } else { if s[11] == 'A' { 33 } else { 40 } }
    } else if s.len() == 15 {
        if s[10] == 'H' { 11 } else if s[10] == 'P' { 21 } else if s[10] == 'U' { 23 } else if s[10] == 'V' { 24 } else if s[10] == 'S' { 41 } else { 42 }
    } else if s.len() == 16 {
        if s[10] == 'R' { 3 } else if s[10] == 'L' { 9 } else { 34 }
    } else if s.len() == 17 {
        if s[10] == 'E' { 1 } else if s[10] == 'C' { if s[13] == 'T' { 5 } else { 39 } } else if s[10] == 'D' { 17 } else if s[10] == 'B' { 30 } else if s[10] == 'A' { 32 } else if s[10] == 'S' { 35 } else { 43 }
    } else if s.len() == 18 {
        if s[10] == 'H' { 12 } else if s[10] == 'D' { 19 } else { 38 }
    } else if s.len() == 19 {
        if s[10] == 'L' { 10 } else { 18 }
    } else if s.len() == 20 {
        if s[16] == 'V' { 6 } else if s[16] == 'S' { 13 } else if s[16] == 'D' { 15 } else if s[16] == '_' { 25 } else if s[16] == 'R' { 27 } else if s[16] == 'P' { 28 } else { 46 }
    } else if s.len() == 21 {
        if s[10] == 'S' { 26 } else { 36 }
    } else if s.len() == 22 {
        if s[10] == 'H' { 14 } else { 37 }
    } else if s.len() == 25 {
        47
    } else {
        -1
    }
}

proof fn lemma_rows_named()
    ensures
        forall|i: int| 0 <= i < PROBE_VARS@.len() ==> row_of_name(#[trigger] PROBE_VARS@[i].0@) == i,
        forall|i: int|
            0 <= i < PROBE_VARS@.len() ==> (#[trigger] PROBE_VARS@[i]).0@.take(9) == probe_prefix(),
        forall|i: int| 0 <= i < PROBE_VARS@.len() ==> (#[trigger] PROBE_VARS@[i]).0@.len() >= 9,
{
    reveal_strlit("WOW_PROBE");
    reveal_strlit("WOW_PROBE_EXIT_AT");
    reveal_strlit("WOW_PROBE_PARK");
    reveal_strlit("WOW_PROBE_RESIZE");
    reveal_strlit("WOW_PROBE_CHAT");
    reveal_strlit("WOW_PROBE_CHAT_AT");
    reveal_strlit("WOW_PROBE_CHAT_EVERY");
    reveal_strlit("WOW_PROBE_KEY");
    reveal_strlit("WOW_PROBE_LUA");
    reveal_strlit("WOW_PROBE_LUA_AT");
    reveal_strlit("WOW_PROBE_LUA_AGAIN");
    reveal_strlit("WOW_PROBE_HOVER");
    reveal_strlit("WOW_PROBE_HOVER_AT");
    reveal_strlit("WOW_PROBE_HOVER_STEP");
    reveal_strlit("WOW_PROBE_HOVER_JITTER");
    reveal_strlit("WOW_PROBE_HOVER_DUTY");
    reveal_strlit("WOW_PROBE_DRAG");
    reveal_strlit("WOW_PROBE_DRAG_AT");
    reveal_strlit("WOW_PROBE_DRAG_STEP");
    reveal_strlit("WOW_PROBE_DRAG_LUA");
    reveal_strlit("WOW_PROBE_LOOK");
    reveal_strlit("WOW_PROBE_PITCH");
    reveal_strlit("WOW_PROBE_CAM");
    reveal_strlit("WOW_PROBE_UNCAP");
    reveal_strlit("WOW_PROBE_VSYNC");
    reveal_strlit("WOW_PROBE_UI_ONE_TEX");
    reveal_strlit("WOW_PROBE_SHARED_SKIN");
    reveal_strlit("WOW_PROBE_NAME_TRACE");
    reveal_strlit("WOW_PROBE_BG_SAMPLES");
    reveal_strlit("WOW_PROBE_BG");
    reveal_strlit("WOW_PROBE_BGQUEUE");
    reveal_strlit("WOW_PROBE_MAIL");
    reveal_strlit("WOW_PROBE_AUCTION");
    reveal_strlit("WOW_PROBE_BANK");
    reveal_strlit("WOW_PROBE_BINDER");
    reveal_strlit("WOW_PROBE_SERVICE");
    reveal_strlit("WOW_PROBE_VENDOR_SWAP");
    reveal_strlit("WOW_PROBE_MODEL_CAMERA");
    reveal_strlit("WOW_PROBE_GMTICKET");
    reveal_strlit("WOW_PROBE_CHARTER");
    reveal_strlit("WOW_PROBE_BOOK");
    reveal_strlit("WOW_PROBE_STONE");
    reveal_strlit("WOW_PROBE_CHEST");
    reveal_strlit("WOW_PROBE_GOQUEST");
    reveal_strlit("WOW_PROBE_CLAM");
    reveal_strlit("WOW_PROBE_DOCK");
    reveal_strlit("WOW_PROBE_CHARCREATE");
    reveal_strlit("WOW_PROBE_CHARCREATE_KEEP");
}

/// Every registered variable is a `WOW_PROBE*` variable, and none is registered twice.
pub proof fn every_row_is_a_probe_variable_registered_once()
    ensures
        forall|i: int|
            0 <= i < PROBE_VARS@.len() ==> is_probe_variable(#[trigger] PROBE_VARS@[i].0@),
        forall|i: int, j: int|
            0 <= i < j < PROBE_VARS@.len() ==> (#[trigger] PROBE_VARS@[i]).0@ != (
            #[trigger] PROBE_VARS@[j]).0@,
{
    lemma_rows_named();
    assert forall|i: int, j: int| 0 <= i < j < PROBE_VARS@.len() implies (
    #[trigger] PROBE_VARS@[i]).0@ != (#[trigger] PROBE_VARS@[j]).0@ by {
        assert(row_of_name(PROBE_VARS@[i].0@) == i);
        assert(row_of_name(PROBE_VARS@[j].0@) == j);
    }
}

/// A row with its wall-clock column set carries `name`.
spec fn armed_row_named(rows: Seq<(&'static str, &'static str, bool)>, name: &'static str) -> bool {
    exists|i: int| 0 <= i < rows.len() && (#[trigger] rows[i]).0 == name && rows[i].2
}

/// Each name of the wall-clock column is the name of a row whose column is set, and a table whose
/// names are distinct gives distinct names.
proof fn lemma_wall_clock_names(rows: Seq<(&'static str, &'static str, bool)>)
    ensures
        forall|k: int|
            0 <= k < wall_clock_names(rows).len() ==> armed_row_named(
                rows,
                #[trigger] wall_clock_names(rows)[k],
            ),
        (forall|i: int, j: int|
            0 <= i < j < rows.len() ==> (#[trigger] rows[i]).0@ != (#[trigger] rows[j]).0@) ==> (
        forall|k: int, l: int|
            0 <= k < l < wall_clock_names(rows).len() ==> (#[trigger] wall_clock_names(
                rows,
            )[k])@ != (#[trigger] wall_clock_names(rows)[l])@),
    decreases rows.len(),
{
    if rows.len() > 0 {
        let front = rows.drop_last();
        lemma_wall_clock_names(front);
        let r = wall_clock_names(front);
        let w = wall_clock_names(rows);
        assert forall|k: int| 0 <= k < w.len() implies armed_row_named(rows, #[trigger] w[k]) by {
            if k < r.len() {
                let i = choose|i: int| 0 <= i < front.len() && (#[trigger] front[i]).0 == r[k] && front[i].2;
                assert(rows[i] == front[i]);
            } else {
                assert(rows[rows.len() - 1] == rows.last());
            }
        }
        if forall|i: int, j: int|
            0 <= i < j < rows.len() ==> (#[trigger] rows[i]).0@ != (#[trigger] rows[j]).0@ {
            assert forall|i: int, j: int| 0 <= i < j < front.len() implies (
            #[trigger] front[i]).0@ != (#[trigger] front[j]).0@ by {
                assert(front[i] == rows[i] && front[j] == rows[j]);
            }
            assert forall|k: int, l: int| 0 <= k < l < w.len() implies (#[trigger] w[k])@ != (
            #[trigger] w[l])@ by {
                if l >= r.len() {
                    let i = choose|i: int| 0 <= i < front.len() && (#[trigger] front[i]).0 == r[k] && front[i].2;
                    assert(rows[i] == front[i]);
                    assert(rows[rows.len() - 1] == rows.last());
                } else {
                    assert(w[k] == r[k] && w[l] == r[l]);
                }
            }
        }
    }
}

/// The variables that arm the un-occludable probe window are `WOW_PROBE*` variables, each named
/// once.
pub proof fn the_armed_names_are_probe_variables_named_once()
    ensures
        forall|k: int|
            0 <= k < wall_clock_names(PROBE_VARS@).len() ==> is_probe_variable(
                (#[trigger] wall_clock_names(PROBE_VARS@)[k])@,
            ),
        forall|k: int, l: int|
            0 <= k < l < wall_clock_names(PROBE_VARS@).len() ==> (#[trigger] wall_clock_names(
                PROBE_VARS@,
            )[k])@ != (#[trigger] wall_clock_names(PROBE_VARS@)[l])@,
{
    every_row_is_a_probe_variable_registered_once();
    lemma_wall_clock_names(PROBE_VARS@);
    assert forall|k: int| 0 <= k < wall_clock_names(PROBE_VARS@).len() implies is_probe_variable(
        (#[trigger] wall_clock_names(PROBE_VARS@)[k])@,
    ) by {
        let i = choose|i: int|
            0 <= i < PROBE_VARS@.len() && (#[trigger] PROBE_VARS@[i]).0 == wall_clock_names(
                PROBE_VARS@,
            )[k] && PROBE_VARS@[i].2;
        assert(is_probe_variable(PROBE_VARS@[i].0@));
    }
}

} // verus!
