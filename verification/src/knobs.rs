//! The numeric environment knobs every instrument shares: a value read with `str::parse` and a
//! default when the variable is unset or malformed (`var(..).ok().and_then(parse).unwrap_or(d)`).
use crate::text::{chars_of, parse_unsigned, parse_unsigned_at, parse_unsigned_str, split_once};
use vstd::prelude::*;

verus! {

/// The knob's value: the variable parsed as an integer no larger than `max`, else `default`.
pub open spec fn knob_value(value: Option<&str>, max: nat, default: nat) -> nat {
    match value {
        Some(s) => match parse_unsigned(s@, max) {
            Some(v) => v,
            None => default,
        },
        None => default,
    }
}

/// A `u32` knob with its default.
pub fn knob_u32(value: Option<&str>, default: u32) -> (r: u32)
    ensures
        r as nat == knob_value(value, u32::MAX as nat, default as nat),
{
    match value {
        Some(s) => match parse_unsigned_str(s, u32::MAX as u64) {
            Some(v) => v as u32,
            None => default,
        },
        None => default,
    }
}

/// A `u64` knob with its default.
pub fn knob_u64(value: Option<&str>, default: u64) -> (r: u64)
    ensures
        r as nat == knob_value(value, u64::MAX as nat, default as nat),
{
    match value {
        Some(s) => match parse_unsigned_str(s, u64::MAX) {
            Some(v) => v,
            None => default,
        },
        None => default,
    }
}

/// The capture run's wall-clock ceiling in seconds: `$WOW_CAPTURE_DEADLINE`, default
/// `default_secs`; `0` disables it (`None`).
pub fn capture_deadline(value: Option<&str>, default_secs: u64) -> (r: Option<u64>)
    ensures
        r == (if knob_value(value, u64::MAX as nat, default_secs as nat) > 0 {
            Some(knob_value(value, u64::MAX as nat, default_secs as nat) as u64)
        } else {
            None::<u64>
        }),
{
    let secs = knob_u64(value, default_secs);
    if secs > 0 {
        Some(secs)
    } else {
        None
    }
}

/// The present mode a perf probe uncaps to.
#[derive(Clone, Copy, Debug, PartialEq, Eq, Structural)]
pub enum UncapMode {
    /// `Immediate`: the arm that rails and stalls on a starved drawable; only on request.
    Immediate,
    /// `AutoNoVsync`: the measured default.
    AutoNoVsync,
}

/// `$WOW_PROBE_UNCAP=immediate` re-runs the losing arm; anything else is `AutoNoVsync`.
pub fn probe_uncap_mode(value: Option<&str>) -> (r: UncapMode)
    ensures
        r == (if value matches Some(s) && s@ == seq!['i', 'm', 'm', 'e', 'd', 'i', 'a', 't', 'e'] {
            UncapMode::Immediate
        } else {
            UncapMode::AutoNoVsync
        }),
{
    match value {
        Some(s) => {
            let v = chars_of(s);
            let want = vec!['i', 'm', 'm', 'e', 'd', 'i', 'a', 't', 'e'];
            if crate::text::same_text(&v, &want) {
                UncapMode::Immediate
            } else {
                proof {
                    assert(want@ =~= seq!['i', 'm', 'm', 'e', 'd', 'i', 'a', 't', 'e']);
                }
                UncapMode::AutoNoVsync
            }
        },
        None => UncapMode::AutoNoVsync,
    }
}

/// A burst length (`*_COUNT`): the knob, default one, and never fewer than one.
pub fn burst_count(value: Option<&str>) -> (r: u32)
    ensures
        r as nat == if knob_value(value, u32::MAX as nat, 1) >= 1 {
            knob_value(value, u32::MAX as nat, 1)
        } else {
            1
        },
        r >= 1,
{
    let n = knob_u32(value, 1);
    if n >= 1 {
        n
    } else {
        1
    }
}

/// A switch that is on only when the variable is exactly `1`.
pub fn is_one(value: Option<&str>) -> (b: bool)
    ensures
        b == (value matches Some(s) && s@ == seq!['1']),
{
    match value {
        Some(s) => {
            let v = chars_of(s);
            let r = v.len() == 1 && v[0] == '1';
            proof {
                if r {
                    assert(s@ =~= seq!['1']);
                }
            }
            r
        },
        None => false,
    }
}

/// `"WxH"` — both sides `u32`s, nothing trimmed.
pub open spec fn resize_of(value: Option<&str>) -> Option<(u32, u32)> {
    match value {
        Some(s) => match split_once(s@, 'x') {
            Some((w, h)) => match (
                parse_unsigned(w, u32::MAX as nat),
                parse_unsigned(h, u32::MAX as nat),
            ) {
                (Some(a), Some(b)) => Some((a as u32, b as u32)),
                _ => None,
            },
            None => None,
        },
        None => None,
    }
}

/// `$WOW_RESIZE=WxH`, or `None` when unset or malformed.
pub fn parse_resize(value: Option<&str>) -> (r: Option<(u32, u32)>)
    ensures
        r == resize_of(value),
{
    let s = match value {
        Some(s) => s,
        None => return None,
    };
    let v = chars_of(s);
    let n = v.len();
    proof {
        assert(v@.subrange(0, n as int) =~= s@);
    }
    match crate::text::find_char(&v, 0, n, 'x') {
        Some(i) => {
            proof {
                assert(s@.take(i as int) =~= v@.subrange(0, i as int));
                assert(s@.skip(i + 1) =~= v@.subrange(i + 1, n as int));
            }
            let w = parse_unsigned_at(&v, 0, i, u32::MAX as u64);
            let h = parse_unsigned_at(&v, i + 1, n, u32::MAX as u64);
            match (w, h) {
                (Some(w), Some(h)) => Some((w as u32, h as u32)),
                _ => None,
            }
        },
        None => None,
    }
}

} // verus!
