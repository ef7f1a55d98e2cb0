//! The character-create live probe (`WOW_PROBE_CHARCREATE="<name>[,race,class,gender[,skin,face,\
//! hair,haircolor,facial]]"`) — machine-verifies the char-create/delete wire against the live
//! server (decision 0423): while parked at character select it sends a create with the parsed
//! request, reports the `SMSG_CHAR_CREATE` result byte, and — unless
//! `WOW_PROBE_CHARCREATE_KEEP=1` — deletes the character it just made, reporting that result too.
//!
//! A roster/result state machine: each step advances on the reply that arrives, never on a clock.
use crate::text::{
    chars_of, parse_unsigned, parse_unsigned_at, split, split_bounds, string_of, trim, trim_bounds,
};
use vstd::prelude::*;

verus! {

/// `RACE_HUMAN` on the 1.12 wire.
pub const RACE_HUMAN: u8 = 1;
/// `CLASS_WARRIOR` on the 1.12 wire.
pub const CLASS_WARRIOR: u8 = 1;
/// `GENDER_MALE` on the 1.12 wire.
pub const GENDER_MALE: u8 = 0;
/// `CHAR_CREATE_SUCCESS`, the `SMSG_CHAR_CREATE` result byte of a made character.
pub const CHAR_CREATE_SUCCESS: u8 = 0x2E;
/// `CHAR_CREATE_NAME_IN_USE`.
pub const CHAR_CREATE_NAME_IN_USE: u8 = 0x31;
/// `CHAR_DELETE_SUCCESS`.
pub const CHAR_DELETE_SUCCESS: u8 = 0x39;

/// A create request: the name and the eight appearance/identity bytes.
pub struct CharCreateRequest {
    pub name: String,
    pub race: u8,
    pub class: u8,
    pub gender: u8,
    pub skin: u8,
    pub face: u8,
    pub hair_style: u8,
    pub hair_color: u8,
    pub facial_hair: u8,
}

/// Field `k` (1-based after the name) of the spec's trimmed `,` parts, or `default` when the part
/// is missing or not a `u8`.
pub open spec fn field_or(parts: Seq<Seq<char>>, k: int, default: u8) -> u8 {
    if k < parts.len() {
        match parse_unsigned(trim(parts[k]), u8::MAX as nat) {
            Some(v) => v as u8,
            None => default,
        }
    } else {
        default
    }
}

/// The request a spec names: `None` when the name is empty; every other field defaults (Human
/// Warrior male, all appearance dials 0) when missing or malformed.
pub open spec fn request_of(s: Seq<char>, r: CharCreateRequest) -> bool {
    let parts = split(s, ',');
    &&& r.name@ == trim(parts[0])
    &&& r.race == field_or(parts, 1, RACE_HUMAN)
    &&& r.class == field_or(parts, 2, CLASS_WARRIOR)
    &&& r.gender == field_or(parts, 3, GENDER_MALE)
    &&& r.skin == field_or(parts, 4, 0)
    &&& r.face == field_or(parts, 5, 0)
    &&& r.hair_style == field_or(parts, 6, 0)
    &&& r.hair_color == field_or(parts, 7, 0)
    &&& r.facial_hair == field_or(parts, 8, 0)
}

proof fn lemma_split_nonempty(s: Seq<char>, sep: char)
    ensures
        split(s, sep).len() >= 1,
    decreases s.len(),
{
    if s.len() > 0 {
        lemma_split_nonempty(s.drop_last(), sep);
    }
}

/// Field `k` of the trimmed parts of `v`, from the parts' bounds.
fn field_at(v: &Vec<char>, parts: &Vec<(usize, usize)>, k: usize, default: u8) -> (r: u8)
    requires
        forall|j: int|
            0 <= j < parts@.len() ==> (#[trigger] parts@[j]).0 <= parts@[j].1 <= v@.len(),
    ensures
        r == field_or(
            Seq::new(parts@.len(), |j: int| v@.subrange(parts@[j].0 as int, parts@[j].1 as int)),
            k as int,
            default,
        ),
{
    if k < parts.len() {
        let (a, b) = parts[k];
        let (ta, tb) = trim_bounds(v, a, b);
        match parse_unsigned_at(v, ta, tb, u8::MAX as u64) {
            Some(x) => x as u8,
            None => default,
        }
    } else {
        default
    }
}

/// Parse `name[,race,class,gender[,skin,face,hair,haircolor,facial]]` into a request; the name is
/// required, everything else defaults (Human Warrior male, all appearance dials 0).
pub fn parse_req(spec_text: &str) -> (r: Option<CharCreateRequest>)
    ensures
        trim(split(spec_text@, ',')[0]).len() == 0 ==> r is None,
        trim(split(spec_text@, ',')[0]).len() > 0 ==> (r matches Some(q) && request_of(
            spec_text@,
            q,
        )),
{
    let v = chars_of(spec_text);
    let n = v.len();
    proof {
        assert(v@.subrange(0, n as int) =~= spec_text@);
        lemma_split_nonempty(spec_text@, ',');
    }
    let parts = split_bounds(&v, 0, n, ',');
    let ghost pieces = Seq::new(
        parts@.len(),
        |j: int| v@.subrange(parts@[j].0 as int, parts@[j].1 as int),
    );
    proof {
        assert(pieces =~= split(spec_text@, ','));
    }
    let (a, b) = parts[0];
    let (ta, tb) = trim_bounds(&v, a, b);
    if ta == tb {
        return None;
    }
    let mut name_chars: Vec<char> = Vec::new();
    let mut i = ta;
    while i < tb
        invariant
            ta <= i <= tb <= v@.len(),
            name_chars@ == v@.subrange(ta as int, i as int),
        decreases tb - i,
    {
        name_chars.push(v[i]);
        i += 1;
        assert(name_chars@ =~= v@.subrange(ta as int, i as int));
    }
    let name = string_of(&name_chars);
    Some(
        CharCreateRequest {
            name,
            race: field_at(&v, &parts, 1, RACE_HUMAN),
            class: field_at(&v, &parts, 2, CLASS_WARRIOR),
            gender: field_at(&v, &parts, 3, GENDER_MALE),
            skin: field_at(&v, &parts, 4, 0),
            face: field_at(&v, &parts, 5, 0),
            hair_style: field_at(&v, &parts, 6, 0),
            hair_color: field_at(&v, &parts, 7, 0),
            facial_hair: field_at(&v, &parts, 8, 0),
        },
    )
}

/// Which character verb a result byte answers.
#[derive(Clone, Copy, Debug, PartialEq, Eq, Structural)]
pub enum CharAction {
    Create,
    Delete,
}

/// A minimal name for the result byte (the probe only needs the anchors it verifies against).
pub fn result_label(action: CharAction, code: u8) -> (r: &'static str)
    ensures
        action == CharAction::Create && code == CHAR_CREATE_SUCCESS ==> r@
            == "CHAR_CREATE_SUCCESS"@,
        action == CharAction::Create && code == CHAR_CREATE_NAME_IN_USE ==> r@
            == "CHAR_NAME_ALREADY_IN_USE"@,
        action == CharAction::Delete && code == CHAR_DELETE_SUCCESS ==> r@
            == "CHAR_DELETE_SUCCESS"@,
        !(action == CharAction::Create && code == CHAR_CREATE_SUCCESS) && !(action
            == CharAction::Create && code == CHAR_CREATE_NAME_IN_USE) && !(action
            == CharAction::Delete && code == CHAR_DELETE_SUCCESS) ==> r@ == "other"@,
{
    match action {
        CharAction::Create => {
            if code == CHAR_CREATE_SUCCESS {
                "CHAR_CREATE_SUCCESS"
            } else if code == CHAR_CREATE_NAME_IN_USE {
                "CHAR_NAME_ALREADY_IN_USE"
            } else {
                "other"
            }
        },
        CharAction::Delete => {
            if code == CHAR_DELETE_SUCCESS {
                "CHAR_DELETE_SUCCESS"
            } else {
                "other"
            }
        },
    }
}

/// ASCII lower case (what `eq_ignore_ascii_case` folds).
pub open spec fn ascii_lower(c: char) -> char {
    if 'A' <= c <= 'Z' {
        ((c as u32) + 32) as char
    } else {
        c
    }
}

/// `str::eq_ignore_ascii_case`.
pub open spec fn eq_ignore_ascii_case(a: Seq<char>, b: Seq<char>) -> bool {
    a.len() == b.len() && forall|i: int| 0 <= i < a.len() ==> ascii_lower(#[trigger] a[i])
        == ascii_lower(b[i])
}

fn lower(c: char) -> (r: char)
    ensures
        r == ascii_lower(c),
{
    if 'A' <= c && c <= 'Z' {
        ((c as u8) + 32) as char
    } else {
        c
    }
}

/// Whether two names are equal ignoring ASCII case.
pub fn names_match(a: &str, b: &str) -> (r: bool)
    ensures
        r == eq_ignore_ascii_case(a@, b@),
{
    let x = chars_of(a);
    let y = chars_of(b);
    if x.len() != y.len() {
        return false;
    }
    let mut i = 0usize;
    while i < x.len()
        invariant
            x@ == a@,
            y@ == b@,
            x@.len() == y@.len(),
            i <= x@.len(),
            forall|j: int| 0 <= j < i ==> ascii_lower(#[trigger] x@[j]) == ascii_lower(y@[j]),
        decreases x@.len() - i,
    {
        if lower(x[i]) != lower(y[i]) {
            return false;
        }
        i += 1;
    }
    true
}

/// One character on the select roster.
pub struct RosterEntry {
    pub name: String,
    pub guid: u64,
}

/// The probe's position in its create → (delete) → done sequence.
#[derive(Clone, Copy, Debug, PartialEq, Eq, Structural)]
pub enum ProbeState {
    /// Waiting for the first roster (the socket parking at select).
    AwaitingRoster,
    /// Sent the create, waiting for its result.
    Creating,
    /// Sent the delete, waiting for its result.
    Deleting,
    /// Nothing left to do.
    Done,
}

/// What the probe does or reports this frame.
#[derive(Clone, Copy, Debug, PartialEq, Eq, Structural)]
pub enum CharCreateStep {
    /// Parked at select: send the create with the parsed request.
    SendCreate,
    /// The create's result byte arrived.
    CreateResult(u8),
    /// Clean up: send the delete of the character with this guid.
    SendDelete(u64),
    /// The character was made but is not in the roster, so it cannot be cleaned up.
    NotInRoster,
    /// `KEEP` is set: the new character stays.
    Kept,
    /// The delete's result byte arrived.
    DeleteResult(u8),
}

/// The probe's state.
pub struct CharCreateProbe {
    pub req: CharCreateRequest,
    pub keep: bool,
    pub state: ProbeState,
    /// The freshest roster seen (tracked so a successful create can find its guid to clean up).
    pub roster: Vec<RosterEntry>,
}

/// The index of the first result in `results` answering `action`.
pub open spec fn first_answer(results: Seq<(CharAction, u8)>, action: CharAction) -> Option<int>
    decreases results.len(),
{
    if results.len() == 0 {
        None
    } else if results[0].0 == action {
        Some(0)
    } else {
        match first_answer(results.drop_first(), action) {
            Some(i) => Some(i + 1),
            None => None,
        }
    }
}

/// The index of the first roster entry whose name is `name`, ignoring ASCII case.
pub open spec fn roster_index(roster: Seq<RosterEntry>, name: Seq<char>) -> Option<int>
    decreases roster.len(),
{
    if roster.len() == 0 {
        None
    } else if eq_ignore_ascii_case(roster[0].name@, name) {
        Some(0)
    } else {
        match roster_index(roster.drop_first(), name) {
            Some(i) => Some(i + 1),
            None => None,
        }
    }
}

proof fn lemma_first_answer_bound(results: Seq<(CharAction, u8)>, action: CharAction)
    ensures
        first_answer(results, action) matches Some(i) ==> 0 <= i < results.len() && results[i].0
            == action,
    decreases results.len(),
{
    if results.len() > 0 && results[0].0 != action {
        lemma_first_answer_bound(results.drop_first(), action);
    }
}

proof fn lemma_roster_index_bound(roster: Seq<RosterEntry>, name: Seq<char>)
    ensures
        roster_index(roster, name) matches Some(i) ==> 0 <= i < roster.len()
            && eq_ignore_ascii_case(roster[i].name@, name),
    decreases roster.len(),
{
    if roster.len() > 0 && !eq_ignore_ascii_case(roster[0].name@, name) {
        lemma_roster_index_bound(roster.drop_first(), name);
    }
}

fn find_answer(results: &[(CharAction, u8)], action: CharAction) -> (r: Option<usize>)
    ensures
        r matches Some(i) ==> i < results@.len() && first_answer(results@, action) == Some(i as int),
        r is None ==> first_answer(results@, action) is None,
{
    proof {
        assert(results@.skip(0) =~= results@);
        lemma_first_answer_bound(results@, action);
    }
    let mut i = 0usize;
    while i < results.len()
        invariant
            i <= results@.len(),
            first_answer(results@, action) == match first_answer(results@.skip(i as int), action) {
                Some(j) => Some(j + i),
                None => None,
            },
        decreases results@.len() - i,
    {
        let ghost rest = results@.skip(i as int);
        proof {
            assert(rest.drop_first() =~= results@.skip(i + 1));
            assert(rest[0] == results@[i as int]);
        }
        if results[i].0 == action {
            return Some(i);
        }
        i += 1;
    }
    proof {
        assert(results@.skip(i as int).len() == 0);
    }
    None
}

fn find_roster(roster: &Vec<RosterEntry>, name: &str) -> (r: Option<usize>)
    ensures
        r matches Some(i) ==> i < roster@.len() && roster_index(roster@, name@) == Some(i as int),
        r is None ==> roster_index(roster@, name@) is None,
{
    proof {
        assert(roster@.skip(0) =~= roster@);
        lemma_roster_index_bound(roster@, name@);
    }
    let mut i = 0usize;
    while i < roster.len()
        invariant
            i <= roster@.len(),
            roster_index(roster@, name@) == match roster_index(roster@.skip(i as int), name@) {
                Some(j) => Some(j + i),
                None => None,
            },
        decreases roster@.len() - i,
    {
        let ghost rest = roster@.skip(i as int);
        proof {
            assert(rest.drop_first() =~= roster@.skip(i + 1));
            assert(rest[0] == roster@[i as int]);
        }
        if names_match(roster[i].name.as_str(), name) {
            return Some(i);
        }
        i += 1;
    }
    proof {
        assert(roster@.skip(i as int).len() == 0);
    }
    None
}

/// Where the create's result byte `code` takes the probe, and what it reports: a made character
/// is deleted again — found by name in the roster, ignoring ASCII case — unless `keep` is set.
pub open spec fn created_step(
    name: Seq<char>,
    keep: bool,
    roster: Seq<RosterEntry>,
    code: u8,
    state: ProbeState,
    out: Seq<CharCreateStep>,
) -> bool {
    if code == CHAR_CREATE_SUCCESS && !keep {
        match roster_index(roster, name) {
            Some(k) => state == ProbeState::Deleting && out == seq![
                CharCreateStep::CreateResult(code),
                CharCreateStep::SendDelete(roster[k].guid),
            ],
            None => state == ProbeState::Done && out == seq![
                CharCreateStep::CreateResult(code),
                CharCreateStep::NotInRoster,
            ],
        }
    } else if code == CHAR_CREATE_SUCCESS {
        state == ProbeState::Done && out == seq![
            CharCreateStep::CreateResult(code),
            CharCreateStep::Kept,
        ]
    } else {
        state == ProbeState::Done && out == seq![CharCreateStep::CreateResult(code)]
    }
}

impl CharCreateProbe {
    pub fn new(req: CharCreateRequest, keep: bool) -> (p: CharCreateProbe)
        ensures
            p.req == req,
            p.keep == keep,
            p.state == ProbeState::AwaitingRoster,
            p.roster@.len() == 0,
    {
        CharCreateProbe { req, keep, state: ProbeState::AwaitingRoster, roster: Vec::new() }
    }

    /// One frame: `roster` is the last roster message of the frame, if any arrived (the fresh list
    /// precedes each successful action's result); `results` are the result messages the probe's
    /// reader yields. Returns what to do or report, in order, and how many of `results` were read
    /// — the rest stay unread for a later frame.
    pub fn step(&mut self, roster: Option<Vec<RosterEntry>>, results: &[(CharAction, u8)]) -> (r: (
        Vec<CharCreateStep>,
        usize,
    ))
        ensures
            final(self).req == old(self).req,
            final(self).keep == old(self).keep,
            roster is None ==> final(self).roster@ == old(self).roster@,
            roster matches Some(l) ==> final(self).roster@ == l@,
            r.1 <= results@.len(),
            old(self).state is AwaitingRoster ==> r.1 == 0 && if roster is Some {
                final(self).state == ProbeState::Creating && r.0@ == seq![CharCreateStep::SendCreate]
            } else {
                final(self).state == ProbeState::AwaitingRoster && r.0@.len() == 0
            },
            old(self).state is Creating && first_answer(results@, CharAction::Create) is None
                ==> final(self).state == ProbeState::Creating && r.0@.len() == 0 && r.1
                == results@.len(),
            old(self).state is Creating && first_answer(results@, CharAction::Create) is Some
                ==> created_step(
                old(self).req.name@,
                old(self).keep,
                final(self).roster@,
                results@[first_answer(results@, CharAction::Create).unwrap()].1,
                final(self).state,
                r.0@,
            ) && r.1 == first_answer(results@, CharAction::Create).unwrap() + 1,
            old(self).state is Deleting && first_answer(results@, CharAction::Delete) is None
                ==> final(self).state == ProbeState::Deleting && r.0@.len() == 0 && r.1
                == results@.len(),
            old(self).state is Deleting && first_answer(results@, CharAction::Delete) is Some
                ==> final(self).state == ProbeState::Done && r.1 == first_answer(
                results@,
                CharAction::Delete,
            ).unwrap() + 1 && r.0@ == seq![
                CharCreateStep::DeleteResult(
                    results@[first_answer(results@, CharAction::Delete).unwrap()].1,
                ),
            ],
            old(self).state is Done ==> final(self).state == ProbeState::Done
                && r.0@.len() == 0 && r.1 == 0,
    {
        proof {
            lemma_first_answer_bound(results@, CharAction::Create);
            lemma_first_answer_bound(results@, CharAction::Delete);
        }
        let got_roster = roster.is_some();
        match roster {
            Some(l) => {
                self.roster = l;
            },
            None => {},
        }
        let mut out: Vec<CharCreateStep> = Vec::new();
        match self.state {
            ProbeState::AwaitingRoster => {
                if got_roster {
                    out.push(CharCreateStep::SendCreate);
                    self.state = ProbeState::Creating;
                }
                (out, 0)
            },
            ProbeState::Creating => {
                match find_answer(results, CharAction::Create) {
                    None => (out, results.len()),
                    Some(i) => {
                        let code = results[i].1;
                        out.push(CharCreateStep::CreateResult(code));
                        let created = code == CHAR_CREATE_SUCCESS;
                        if created && !self.keep {
                            match find_roster(&self.roster, self.req.name.as_str()) {
                                Some(k) => {
                                    let guid = self.roster[k].guid;
                                    out.push(CharCreateStep::SendDelete(guid));
                                    self.state = ProbeState::Deleting;
                                    assert(out@ =~= seq![
                                        CharCreateStep::CreateResult(code),
                                        CharCreateStep::SendDelete(guid),
                                    ]);
                                },
                                None => {
                                    out.push(CharCreateStep::NotInRoster);
                                    self.state = ProbeState::Done;
                                    assert(out@ =~= seq![
                                        CharCreateStep::CreateResult(code),
                                        CharCreateStep::NotInRoster,
                                    ]);
                                },
                            }
                        } else {
                            if created {
                                out.push(CharCreateStep::Kept);
                                assert(out@ =~= seq![
                                    CharCreateStep::CreateResult(code),
                                    CharCreateStep::Kept,
                                ]);
                            } else {
                                assert(out@ =~= seq![CharCreateStep::CreateResult(code)]);
                            }
                            self.state = ProbeState::Done;
                        }
                        proof {
                            lemma_roster_index_bound(self.roster@, self.req.name@);
                            assert(created_step(
                                self.req.name@,
                                self.keep,
                                self.roster@,
                                code,
                                self.state,
                                out@,
                            ));
                        }
                        (out, i + 1)
                    },
                }
            },
            ProbeState::Deleting => {
                match find_answer(results, CharAction::Delete) {
                    None => (out, results.len()),
                    Some(i) => {
                        out.push(CharCreateStep::DeleteResult(results[i].1));
                        self.state = ProbeState::Done;
                        (out, i + 1)
                    },
                }
            },
            ProbeState::Done => (out, 0),
        }
    }
}

/// The cleanup deletes only what this run made: a delete follows a successful create of a run
/// without `KEEP`, and names the roster entry that carries the created name, ignoring ASCII case;
/// a `KEEP` run never deletes.
pub proof fn only_the_new_character_is_deleted(
    name: Seq<char>,
    keep: bool,
    roster: Seq<RosterEntry>,
    code: u8,
    state: ProbeState,
    out: Seq<CharCreateStep>,
)
    requires
        created_step(name, keep, roster, code, state, out),
    ensures
        forall|i: int|
            0 <= i < out.len() ==> (#[trigger] out[i] matches CharCreateStep::SendDelete(g) ==> {
                &&& code == CHAR_CREATE_SUCCESS
                &&& !keep
                &&& exists|k: int|
                    0 <= k < roster.len() && #[trigger] roster[k].guid == g && eq_ignore_ascii_case(
                        roster[k].name@,
                        name,
                    )
            }),
{
    lemma_roster_index_bound(roster, name);
}

} // verus!
