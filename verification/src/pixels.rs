//! The depth probe's two list knobs: `WOW_DEPTH="<x>,<y>[;<x>,<y>…]"` (screenshot pixels) and
//! `WOW_DEPTH_QUADS="<bone>[,<bone>…]"` (the quad-emitter bone scope).
use crate::text::{
    chars_of, find_char, parse_unsigned, parse_unsigned_at, split, split_bounds, split_once, trim,
    trim_bounds,
};
use vstd::prelude::*;

verus! {

/// One `"<x>,<y>"` entry read as a pixel: both coordinates, each trimmed, must be `u32`s.
pub open spec fn pixel_of(piece: Seq<char>) -> Option<(u32, u32)> {
    match split_once(piece, ',') {
        Some((x, y)) => match (
            parse_unsigned(trim(x), u32::MAX as nat),
            parse_unsigned(trim(y), u32::MAX as nat),
        ) {
            (Some(a), Some(b)) => Some((a as u32, b as u32)),
            _ => None,
        },
        None => None,
    }
}

/// The pixels of a run of entries, in order; an entry that is blank or not a pixel is skipped.
pub open spec fn pixels_of(pieces: Seq<Seq<char>>) -> Seq<(u32, u32)>
    decreases pieces.len(),
{
    if pieces.len() == 0 {
        Seq::empty()
    } else {
        let r = pixels_of(pieces.drop_last());
        if trim(pieces.last()).len() == 0 {
            r
        } else {
            match pixel_of(pieces.last()) {
                Some(p) => r.push(p),
                None => r,
            }
        }
    }
}

/// The `u16` bones of a run of `,`-separated entries, in order; an entry that is not one is skipped.
pub open spec fn bones_of(pieces: Seq<Seq<char>>) -> Seq<u16>
    decreases pieces.len(),
{
    if pieces.len() == 0 {
        Seq::empty()
    } else {
        let r = bones_of(pieces.drop_last());
        match parse_unsigned(trim(pieces.last()), u16::MAX as nat) {
            Some(b) => r.push(b as u16),
            None => r,
        }
    }
}

/// `"x,y;x,y"` → pixels. An entry that is blank, has no comma, or whose coordinates are not both
/// `u32`s is dropped rather than failing the run: a typo in one coordinate of a list of eight
/// should not cost a capture.
pub fn parse_pixels(list: &str) -> (r: Vec<(u32, u32)>)
    ensures
        r@ == pixels_of(split(list@, ';')),
{
    let v = chars_of(list);
    let n = v.len();
    let pieces = split_bounds(&v, 0, n, ';');
    let ghost all = split(v@.subrange(0, n as int), ';');
    proof {
        assert(v@.subrange(0, n as int) =~= list@);
    }
    let mut out: Vec<(u32, u32)> = Vec::new();
    let mut k = 0usize;
    while k < pieces.len()
        invariant
            k <= pieces@.len() == all.len(),
            all == split(list@, ';'),
            forall|j: int|
                0 <= j < pieces@.len() ==> {
                    &&& (#[trigger] pieces@[j]).0 <= pieces@[j].1 <= v@.len()
                    &&& v@.subrange(pieces@[j].0 as int, pieces@[j].1 as int) == all[j]
                },
            out@ == pixels_of(all.take(k as int)),
        decreases pieces@.len() - k,
    {
        let (a, b) = pieces[k];
        let ghost piece = v@.subrange(a as int, b as int);
        proof {
            assert(all.take(k + 1).drop_last() =~= all.take(k as int));
            assert(all.take(k + 1).last() == piece);
        }
        let (ta, tb) = trim_bounds(&v, a, b);
        if ta < tb {
            match find_char(&v, a, b, ',') {
                Some(i) => {
                    proof {
                        assert(piece.take(i - a) =~= v@.subrange(a as int, i as int));
                        assert(piece.skip(i - a + 1) =~= v@.subrange(i + 1, b as int));
                    }
                    let (xa, xb) = trim_bounds(&v, a, i);
                    let (ya, yb) = trim_bounds(&v, i + 1, b);
                    let x = parse_unsigned_at(&v, xa, xb, u32::MAX as u64);
                    let y = parse_unsigned_at(&v, ya, yb, u32::MAX as u64);
                    match (x, y) {
                        (Some(x), Some(y)) => {
                            out.push((x as u32, y as u32));
                        },
                        _ => {},
                    }
                },
                None => {},
            }
        }
        k += 1;
    }
    proof {
        assert(all.take(pieces@.len() as int) =~= all);
    }
    out
}

/// `"60,61"` → the bone scope; an empty value means every quad emitter. `None` when the
/// variable is unset at all, which is what turns the whole mode off.
pub fn parse_bones(list: Option<&str>) -> (r: Option<Vec<u16>>)
    ensures
        list is None ==> r is None,
        list is Some ==> (r is Some && r.unwrap()@ == bones_of(split(list.unwrap()@, ','))),
{
    match list {
        None => None,
        Some(s) => {
            let v = chars_of(s);
            proof {
                assert(v@.subrange(0, v@.len() as int) =~= s@);
            }
            Some(bones_in(&v, 0, v.len()))
        },
    }
}

/// The bones of `v[lo..hi]`, a `,`-separated list.
pub fn bones_in(v: &Vec<char>, lo: usize, hi: usize) -> (r: Vec<u16>)
    requires
        lo <= hi <= v.len(),
    ensures
        r@ == bones_of(split(v@.subrange(lo as int, hi as int), ',')),
{
    let pieces = split_bounds(v, lo, hi, ',');
    let ghost all = split(v@.subrange(lo as int, hi as int), ',');
    let mut out: Vec<u16> = Vec::new();
    let mut k = 0usize;
    while k < pieces.len()
        invariant
            k <= pieces@.len() == all.len(),
            forall|j: int|
                0 <= j < pieces@.len() ==> {
                    &&& (#[trigger] pieces@[j]).0 <= pieces@[j].1 <= v@.len()
                    &&& v@.subrange(pieces@[j].0 as int, pieces@[j].1 as int) == all[j]
                },
            out@ == bones_of(all.take(k as int)),
        decreases pieces@.len() - k,
    {
        let (a, b) = pieces[k];
        proof {
            assert(all.take(k + 1).drop_last() =~= all.take(k as int));
        }
        let (ta, tb) = trim_bounds(v, a, b);
        match parse_unsigned_at(v, ta, tb, u16::MAX as u64) {
            Some(x) => out.push(x as u16),
            None => {},
        }
        k += 1;
    }
    proof {
        assert(all.take(pieces@.len() as int) =~= all);
    }
    out
}

} // verus!
