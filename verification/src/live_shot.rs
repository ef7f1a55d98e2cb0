//! The live probe shot's file naming (`WOW_LIVE_SHOT=<png>`, `WOW_LIVE_SHOT_COUNT=<n>`): one shot
//! writes the bare path; a burst writes `<stem>-000.png`, `<stem>-001.png`, … (the index after the
//! file's stem, never inside a directory name) so the single-shot filename, which existing probes
//! and docs name literally, never moves.
use crate::text::{
    chars_of, find_char, lemma_first_index_none, push_zero_padded, rfind_char, rsplit_once,
    string_of, zero_padded,
};
use vstd::prelude::*;

verus! {

/// The path shot `index` of a `count`-shot burst is written to: the index goes right after the
/// file's stem, before its extension — the text after the last dot of the final path component —
/// or at the end of the path when that component has no dot. A dot in a directory name is never
/// an extension.
pub open spec fn burst_path_spec(out: Seq<char>, index: u32, count: u32) -> Seq<char> {
    if count <= 1 {
        out
    } else {
        match rsplit_once(out, '.') {
            Some((stem, ext)) => if !ext.contains('/') {
                stem + seq!['-'] + zero_padded(index as nat, 3) + seq!['.'] + ext
            } else {
                out + seq!['-'] + zero_padded(index as nat, 3)
            },
            None => out + seq!['-'] + zero_padded(index as nat, 3),
        }
    }
}

/// `stem-007.png` for shot 7 of a burst — the bare path when the burst is one shot.
pub fn burst_path(out: &str, index: u32, count: u32) -> (r: String)
    ensures
        r@ == burst_path_spec(out@, index, count),
{
    if count <= 1 {
        return out.to_owned();
    }
    let v = chars_of(out);
    let n = v.len();
    proof {
        assert(v@.subrange(0, n as int) =~= out@);
    }
    // The last dot, when it is in the final path component.
    let dot: Option<usize> = match rfind_char(&v, 0, n, '.') {
        Some(i) => {
            let slash = find_char(&v, i + 1, n, '/');
            proof {
                lemma_first_index_none(v@.subrange(i + 1, n as int), '/');
                assert(out@.skip(i + 1) =~= v@.subrange(i + 1, n as int));
            }
            match slash {
                Some(_) => None,
                None => Some(i),
            }
        },
        None => None,
    };
    let mut w: Vec<char> = Vec::new();
    match dot {
        Some(i) => {
            let mut k = 0usize;
            while k < i
                invariant
                    k <= i < n == v@.len(),
                    w@ == v@.take(k as int),
                decreases i - k,
            {
                w.push(v[k]);
                k += 1;
                assert(w@ =~= v@.take(k as int));
            }
            w.push('-');
            push_zero_padded(&mut w, index, 3);
            w.push('.');
            let ghost mid = w@;
            let mut k = i + 1;
            while k < n
                invariant
                    i < k <= n == v@.len(),
                    w@ == mid + v@.subrange(i + 1, k as int),
                decreases n - k,
            {
                w.push(v[k]);
                k += 1;
                assert(w@ =~= mid + v@.subrange(i + 1, k as int));
            }
            proof {
                assert(out@.take(i as int) =~= v@.take(i as int));
                assert(out@.skip(i + 1) =~= v@.subrange(i + 1, n as int));
                assert(w@ =~= burst_path_spec(out@, index, count));
            }
        },
        None => {
            let mut k = 0usize;
            while k < n
                invariant
                    k <= n == v@.len(),
                    w@ == v@.take(k as int),
                decreases n - k,
            {
                w.push(v[k]);
                k += 1;
                assert(w@ =~= v@.take(k as int));
            }
            w.push('-');
            push_zero_padded(&mut w, index, 3);
            proof {
                assert(v@.take(n as int) =~= out@);
                assert(w@ =~= burst_path_spec(out@, index, count));
            }
        },
    }
    string_of(&w)
}

} // verus!
