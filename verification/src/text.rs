//! Character-level text handling shared by every knob and spec parser: the
//! whitespace trim, the single-character split, and decimal integers read the
//! way `str::parse` reads them and written the way `{:0w}` writes them.
use vstd::prelude::*;
use vstd::string::*;

verus! {

/// The `White_Space` property that `char::is_whitespace` tests.
pub open spec fn is_ws(c: char) -> bool {
    let u = c as u32;
    ||| 0x9 <= u <= 0xD
    ||| u == 0x20
    ||| u == 0x85
    ||| u == 0xA0
    ||| u == 0x1680
    ||| 0x2000 <= u <= 0x200A
    ||| u == 0x2028
    ||| u == 0x2029
    ||| u == 0x202F
    ||| u == 0x205F
    ||| u == 0x3000
}

/// `s` with its leading whitespace removed.
pub open spec fn trim_start(s: Seq<char>) -> Seq<char>
    decreases s.len(),
{
    if s.len() > 0 && is_ws(s[0]) {
        trim_start(s.drop_first())
    } else {
        s
    }
}

/// `s` with its trailing whitespace removed.
pub open spec fn trim_end(s: Seq<char>) -> Seq<char>
    decreases s.len(),
{
    if s.len() > 0 && is_ws(s.last()) {
        trim_end(s.drop_last())
    } else {
        s
    }
}

/// What `str::trim` returns.
pub open spec fn trim(s: Seq<char>) -> Seq<char> {
    trim_end(trim_start(s))
}

/// The pieces `str::split(sep)` yields: every maximal run between separators,
/// empty runs included, so `n` separators give `n + 1` pieces.
pub open spec fn split(s: Seq<char>, sep: char) -> Seq<Seq<char>>
    decreases s.len(),
{
    if s.len() == 0 {
        seq![Seq::<char>::empty()]
    } else {
        let p = split(s.drop_last(), sep);
        if s.last() == sep {
            p.push(Seq::<char>::empty())
        } else {
            p.update(p.len() - 1, p.last().push(s.last()))
        }
    }
}

/// The index of the first `c` in `s`.
pub open spec fn first_index(s: Seq<char>, c: char) -> Option<int>
    decreases s.len(),
{
    if s.len() == 0 {
        None
    } else if s[0] == c {
        Some(0)
    } else {
        match first_index(s.drop_first(), c) {
            Some(i) => Some(i + 1),
            None => None,
        }
    }
}

/// `c` has no first index in `s` exactly when `s` does not hold it.
pub proof fn lemma_first_index_none(s: Seq<char>, c: char)
    ensures
        first_index(s, c) is None <==> !s.contains(c),
    decreases s.len(),
{
    if s.len() > 0 {
        lemma_first_index_none(s.drop_first(), c);
        if s[0] != c && s.contains(c) {
            let k = choose|k: int| 0 <= k < s.len() && s[k] == c;
            assert(s.drop_first()[k - 1] == c);
        }
        if s.drop_first().contains(c) {
            let k = choose|k: int| 0 <= k < s.drop_first().len() && s.drop_first()[k] == c;
            assert(s[k + 1] == c);
        }
    }
}

/// The index of the last `c` in `s`.
pub open spec fn last_index(s: Seq<char>, c: char) -> Option<int>
    decreases s.len(),
{
    if s.len() == 0 {
        None
    } else if s.last() == c {
        Some(s.len() - 1)
    } else {
        last_index(s.drop_last(), c)
    }
}

/// What `str::split_once(c)` returns: the text around the first `c`.
pub open spec fn split_once(s: Seq<char>, c: char) -> Option<(Seq<char>, Seq<char>)> {
    match first_index(s, c) {
        Some(i) => Some((s.take(i), s.skip(i + 1))),
        None => None,
    }
}

/// What `str::rsplit_once(c)` returns: the text around the last `c`.
pub open spec fn rsplit_once(s: Seq<char>, c: char) -> Option<(Seq<char>, Seq<char>)> {
    match last_index(s, c) {
        Some(i) => Some((s.take(i), s.skip(i + 1))),
        None => None,
    }
}

pub open spec fn is_digit(c: char) -> bool {
    '0' <= c <= '9'
}

pub open spec fn digit_value(c: char) -> int {
    (c as u32) - ('0' as u32)
}

pub open spec fn all_digits(s: Seq<char>) -> bool {
    forall|i: int| 0 <= i < s.len() ==> is_digit(#[trigger] s[i])
}

/// The number a run of decimal digits spells.
pub open spec fn digits_value(s: Seq<char>) -> nat
    decreases s.len(),
{
    if s.len() == 0 {
        0
    } else {
        (digits_value(s.drop_last()) * 10 + digit_value(s.last())) as nat
    }
}

/// The digits of an unsigned `str::parse`: one optional leading `+`, then the rest.
pub open spec fn unsigned_body(s: Seq<char>) -> Seq<char> {
    if s.len() > 0 && s[0] == '+' {
        s.drop_first()
    } else {
        s
    }
}

/// What `str::parse` gives for an unsigned integer type whose largest value is
/// `max`: the value for an optional `+` followed by one or more decimal digits
/// spelling at most `max`, and nothing for any other text.
pub open spec fn parse_unsigned(s: Seq<char>, max: nat) -> Option<nat> {
    let body = unsigned_body(s);
    if body.len() > 0 && all_digits(body) && digits_value(body) <= max {
        Some(digits_value(body))
    } else {
        None
    }
}

pub open spec fn digit_char(d: nat) -> char
    recommends
        d < 10,
{
    ((d + ('0' as u32)) as u32) as char
}

/// The shortest decimal spelling of `n` (what `{}` writes).
pub open spec fn decimal(n: nat) -> Seq<char>
    decreases n,
{
    if n < 10 {
        seq![digit_char(n)]
    } else {
        decimal(n / 10).push(digit_char(n % 10))
    }
}

/// `{:0w}`: the decimal spelling left-padded with zeros to at least `w` characters.
pub open spec fn zero_padded(n: nat, w: nat) -> Seq<char> {
    let d = decimal(n);
    if d.len() < w {
        Seq::new((w - d.len()) as nat, |i: int| '0') + d
    } else {
        d
    }
}

proof fn lemma_digits_value_prefix(s: Seq<char>, i: int)
    requires
        0 <= i <= s.len(),
        all_digits(s),
    ensures
        digits_value(s.take(i)) <= digits_value(s),
    decreases s.len() - i,
{
    if i < s.len() {
        lemma_digits_value_prefix(s, i + 1);
        assert(s.take(i + 1).drop_last() =~= s.take(i));
        assert(is_digit(s[i]));
        let x = digits_value(s.take(i));
        assert(digits_value(s.take(i + 1)) == x * 10 + digit_value(s[i]));
        assert(x <= x * 10 + digit_value(s[i])) by (nonlinear_arith)
            requires
                0 <= digit_value(s[i]),
                x >= 0,
        ;
    } else {
        assert(s.take(i) =~= s);
    }
}

/// The characters of `s`, one by one.
pub fn chars_of(s: &str) -> (v: Vec<char>)
    ensures
        v@ == s@,
{
    let n = s.unicode_len();
    let mut v: Vec<char> = Vec::new();
    let mut i: usize = 0;
    while i < n
        invariant
            n == s@.len(),
            i <= n,
            v@ == s@.take(i as int),
        decreases n - i,
    {
        v.push(s.get_char(i));
        i += 1;
        assert(v@ =~= s@.take(i as int));
    }
    assert(s@.take(n as int) =~= s@);
    v
}

/// A `String` holding exactly the characters of `v` (`FromIterator<char>`).
#[verifier::external_body]
pub(crate) fn string_of(v: &Vec<char>) -> (s: String)
    ensures
        s@ == v@,
{
    v.iter().collect()
}

pub fn char_is_ws(c: char) -> (b: bool)
    ensures
        b == is_ws(c),
{
    let u = c as u32;
    (0x9 <= u && u <= 0xD) || u == 0x20 || u == 0x85 || u == 0xA0 || u == 0x1680 || (0x2000 <= u
        && u <= 0x200A) || u == 0x2028 || u == 0x2029 || u == 0x202F || u == 0x205F || u == 0x3000
}

proof fn lemma_trim_start_skip(s: Seq<char>, i: int)
    requires
        0 <= i <= s.len(),
        forall|j: int| 0 <= j < i ==> is_ws(#[trigger] s[j]),
    ensures
        trim_start(s) == trim_start(s.skip(i)),
    decreases i,
{
    if i > 0 {
        assert(is_ws(s[0]));
        lemma_trim_start_skip(s.drop_first(), i - 1);
        assert(s.drop_first().skip(i - 1) =~= s.skip(i));
    } else {
        assert(s.skip(0) =~= s);
    }
}

proof fn lemma_trim_end_take(s: Seq<char>, i: int)
    requires
        0 <= i <= s.len(),
        forall|j: int| i <= j < s.len() ==> is_ws(#[trigger] s[j]),
    ensures
        trim_end(s) == trim_end(s.take(i)),
    decreases s.len() - i,
{
    if i < s.len() {
        assert(is_ws(s.last()));
        lemma_trim_end_take(s.drop_last(), i);
        assert(s.drop_last().take(i) =~= s.take(i));
    } else {
        assert(s.take(i) =~= s);
    }
}

/// The bounds `[a, b)` of `s[lo..hi]` with its surrounding whitespace trimmed.
pub fn trim_bounds(s: &Vec<char>, lo: usize, hi: usize) -> (r: (usize, usize))
    requires
        lo <= hi <= s.len(),
    ensures
        lo <= r.0 <= r.1 <= hi,
        s@.subrange(r.0 as int, r.1 as int) == trim(s@.subrange(lo as int, hi as int)),
{
    let ghost t = s@.subrange(lo as int, hi as int);
    let mut a = lo;
    while a < hi && char_is_ws(s[a])
        invariant
            lo <= a <= hi <= s.len(),
            t == s@.subrange(lo as int, hi as int),
            forall|j: int| lo <= j < a ==> is_ws(#[trigger] s@[j]),
        decreases hi - a,
    {
        a += 1;
    }
    proof {
        assert forall|j: int| 0 <= j < a - lo implies is_ws(#[trigger] t[j]) by {
            assert(t[j] == s@[lo + j]);
        }
        lemma_trim_start_skip(t, a - lo);
        assert(t.skip(a - lo) =~= s@.subrange(a as int, hi as int));
        let u = s@.subrange(a as int, hi as int);
        if a < hi {
            assert(u[0] == s@[a as int]);
            assert(!is_ws(u[0]));
        }
        assert(trim_start(u) == u);
    }
    let mut b = hi;
    while b > a && char_is_ws(s[b - 1])
        invariant
            lo <= a <= b <= hi <= s.len(),
            forall|j: int| b <= j < hi ==> is_ws(#[trigger] s@[j]),
        decreases b - a,
    {
        b -= 1;
    }
    proof {
        let u = s@.subrange(a as int, hi as int);
        assert forall|j: int| b - a <= j < u.len() implies is_ws(#[trigger] u[j]) by {
            assert(u[j] == s@[a + j]);
        }
        lemma_trim_end_take(u, b - a);
        let w = u.take(b - a);
        assert(w =~= s@.subrange(a as int, b as int));
        if b > a {
            assert(w.last() == s@[b - 1]);
        }
        assert(trim_end(w) == w);
    }
    (a, b)
}

/// The first index of `c` in `s[lo..hi]`, counted from `lo`.
pub fn find_char(s: &Vec<char>, lo: usize, hi: usize, c: char) -> (r: Option<usize>)
    requires
        lo <= hi <= s.len(),
    ensures
        match r {
            Some(i) => lo <= i < hi && first_index(s@.subrange(lo as int, hi as int), c) == Some(
                i - lo,
            ),
            None => first_index(s@.subrange(lo as int, hi as int), c) is None,
        },
    decreases hi - lo,
{
    if lo == hi {
        return None;
    }
    proof {
        let t = s@.subrange(lo as int, hi as int);
        assert(t.drop_first() =~= s@.subrange(lo + 1, hi as int));
        assert(t[0] == s@[lo as int]);
    }
    if s[lo] == c {
        Some(lo)
    } else {
        find_char(s, lo + 1, hi, c)
    }
}

/// The last index of `c` in `s[lo..hi]`.
pub fn rfind_char(s: &Vec<char>, lo: usize, hi: usize, c: char) -> (r: Option<usize>)
    requires
        lo <= hi <= s.len(),
    ensures
        match r {
            Some(i) => lo <= i < hi && last_index(s@.subrange(lo as int, hi as int), c) == Some(
                i - lo,
            ),
            None => last_index(s@.subrange(lo as int, hi as int), c) is None,
        },
    decreases hi - lo,
{
    if lo == hi {
        return None;
    }
    proof {
        let t = s@.subrange(lo as int, hi as int);
        assert(t.drop_last() =~= s@.subrange(lo as int, hi - 1));
        assert(t.last() == s@[hi - 1]);
    }
    if s[hi - 1] == c {
        Some(hi - 1)
    } else {
        rfind_char(s, lo, hi - 1, c)
    }
}

/// The `[start, end)` bounds of every piece of `s[lo..hi].split(sep)`, in order.
pub fn split_bounds(s: &Vec<char>, lo: usize, hi: usize, sep: char) -> (r: Vec<(usize, usize)>)
    requires
        lo <= hi <= s.len(),
    ensures
        r@.len() == split(s@.subrange(lo as int, hi as int), sep).len(),
        forall|k: int|
            0 <= k < r@.len() ==> {
                &&& lo <= (#[trigger] r@[k]).0 <= r@[k].1 <= hi
                &&& s@.subrange(r@[k].0 as int, r@[k].1 as int) == split(
                    s@.subrange(lo as int, hi as int),
                    sep,
                )[k]
            },
{
    let mut r: Vec<(usize, usize)> = Vec::new();
    let mut start = lo;
    let mut i = lo;
    while i < hi
        invariant
            lo <= start <= i <= hi <= s.len(),
            r@.len() + 1 == split(s@.subrange(lo as int, i as int), sep).len(),
            forall|k: int|
                0 <= k < r@.len() ==> {
                    &&& lo <= (#[trigger] r@[k]).0 <= r@[k].1 <= i
                    &&& s@.subrange(r@[k].0 as int, r@[k].1 as int) == split(
                        s@.subrange(lo as int, i as int),
                        sep,
                    )[k]
                },
            s@.subrange(start as int, i as int) == split(s@.subrange(lo as int, i as int), sep).last(),
        decreases hi - i,
    {
        let ghost prev = split(s@.subrange(lo as int, i as int), sep);
        let ghost t = s@.subrange(lo as int, i + 1);
        proof {
            assert(t.drop_last() =~= s@.subrange(lo as int, i as int));
            assert(t.last() == s@[i as int]);
        }
        if s[i] == sep {
            r.push((start, i));
            start = i + 1;
            proof {
                assert(split(t, sep) == prev.push(Seq::<char>::empty()));
                assert(s@.subrange(start as int, i + 1) =~= Seq::<char>::empty());
            }
        } else {
            proof {
                assert(split(t, sep) == prev.update(prev.len() - 1, prev.last().push(s@[i as int])));
                assert(s@.subrange(start as int, i + 1) =~= s@.subrange(start as int, i as int).push(
                    s@[i as int],
                ));
            }
        }
        i += 1;
    }
    r.push((start, hi));
    r
}

/// `str::parse` into an unsigned type whose largest value is `max`, on `s[lo..hi]`.
pub fn parse_unsigned_at(s: &Vec<char>, lo: usize, hi: usize, max: u64) -> (r: Option<u64>)
    requires
        lo <= hi <= s.len(),
    ensures
        match parse_unsigned(s@.subrange(lo as int, hi as int), max as nat) {
            Some(v) => r == Some(v as u64),
            None => r is None,
        },
{
    let ghost t = s@.subrange(lo as int, hi as int);
    let mut i = lo;
    if i < hi && s[i] == '+' {
        i += 1;
    }
    let ghost body = s@.subrange(i as int, hi as int);
    proof {
        if lo < hi && s@[lo as int] == '+' {
            assert(t[0] == '+');
            assert(t.drop_first() =~= body);
        } else {
            assert(t =~= body);
            if t.len() > 0 {
                assert(t[0] == s@[lo as int]);
            }
        }
        assert(unsigned_body(t) == body);
    }
    if i == hi {
        return None;
    }
    let start = i;
    let mut acc: u64 = 0;
    while i < hi
        invariant
            lo <= start <= i <= hi <= s.len(),
            start < hi,
            body == s@.subrange(start as int, hi as int),
            t == s@.subrange(lo as int, hi as int),
            unsigned_body(t) == body,
            all_digits(s@.subrange(start as int, i as int)),
            acc as nat == digits_value(s@.subrange(start as int, i as int)),
            acc <= max,
        decreases hi - i,
    {
        let c = s[i];
        let ghost pre = s@.subrange(start as int, i as int);
        let ghost nxt = s@.subrange(start as int, i + 1);
        proof {
            assert(nxt.drop_last() =~= pre);
            assert(nxt.last() == c);
        }
        if !('0' <= c && c <= '9') {
            proof {
                assert(body[i - start] == c);
                assert(!is_digit(body[i - start]));
                assert(!all_digits(body));
            }
            return None;
        }
        let d = (c as u32 - '0' as u32) as u64;
        if d > max || acc > (max - d) / 10 {
            proof {
                assert(digits_value(nxt) == acc * 10 + d);
                if d <= max {
                    assert(acc * 10 + d > max) by (nonlinear_arith)
                        requires
                            acc > (max - d) / 10,
                            d <= max,
                    ;
                }
                if all_digits(body) {
                    assert(nxt =~= body.take(i + 1 - start));
                    lemma_digits_value_prefix(body, i + 1 - start);
                }
            }
            return None;
        }
        proof {
            assert((max - d) / 10 * 10 + d <= max) by (nonlinear_arith)
                requires
                    d <= max,
            ;
            assert(acc * 10 + d <= max) by (nonlinear_arith)
                requires
                    acc <= (max - d) / 10,
                    (max - d) / 10 * 10 + d <= max,
            ;
        }
        acc = acc * 10 + d;
        i += 1;
        proof {
            assert forall|j: int| 0 <= j < nxt.len() implies is_digit(#[trigger] nxt[j]) by {
                if j < pre.len() {
                    assert(nxt[j] == pre[j]);
                }
            }
        }
    }
    Some(acc)
}

/// Appends the decimal spelling of `n`.
pub fn push_decimal(out: &mut Vec<char>, n: u64)
    ensures
        final(out)@ == old(out)@ + decimal(n as nat),
    decreases n,
{
    if n >= 10 {
        push_decimal(out, n / 10);
    }
    let c = char_of_digit(n % 10);
    out.push(c);
    proof {
        if n >= 10 {
            assert(decimal(n as nat) == decimal((n / 10) as nat).push(digit_char((n % 10) as nat)));
        }
    }
}

/// Appends `{:0w}` of `n`: its decimal spelling left-padded with zeros to `w` characters.
pub fn push_zero_padded(out: &mut Vec<char>, n: u32, w: usize)
    ensures
        final(out)@ == old(out)@ + zero_padded(n as nat, w as nat),
{
    let mut digits: Vec<char> = Vec::new();
    push_decimal(&mut digits, n as u64);
    assert(digits@ =~= decimal(n as nat));
    let len = digits.len();
    let ghost start = out@;
    if len < w {
        let mut pad = 0usize;
        while pad < w - len
            invariant
                len < w,
                pad <= w - len,
                out@ == start + Seq::new(pad as nat, |i: int| '0'),
            decreases w - len - pad,
        {
            out.push('0');
            pad += 1;
            assert(out@ =~= start + Seq::new(pad as nat, |i: int| '0'));
        }
    }
    let ghost mid = out@;
    let mut k = 0usize;
    while k < len
        invariant
            k <= len == digits@.len(),
            out@ == mid + digits@.take(k as int),
        decreases len - k,
    {
        out.push(digits[k]);
        k += 1;
        assert(out@ =~= mid + digits@.take(k as int));
    }
    assert(digits@.take(len as int) =~= digits@);
    assert(out@ =~= start + zero_padded(n as nat, w as nat));
}

proof fn lemma_decimal_len(n: nat)
    ensures
        decimal(n).len() >= 1,
    decreases n,
{
    if n >= 10 {
        lemma_decimal_len(n / 10);
    }
}

fn char_of_digit(d: u64) -> (c: char)
    requires
        d < 10,
    ensures
        c == digit_char(d as nat),
{
    match d {
        0 => '0',
        1 => '1',
        2 => '2',
        3 => '3',
        4 => '4',
        5 => '5',
        6 => '6',
        7 => '7',
        8 => '8',
        _ => '9',
    }
}

/// `str::parse` of the whole of `s` into an unsigned type whose largest value is `max`.
pub fn parse_unsigned_str(s: &str, max: u64) -> (r: Option<u64>)
    ensures
        match parse_unsigned(s@, max as nat) {
            Some(v) => r == Some(v as u64),
            None => r is None,
        },
{
    let v = chars_of(s);
    proof {
        assert(v@.subrange(0, v@.len() as int) =~= s@);
    }
    parse_unsigned_at(&v, 0, v.len(), max)
}

/// What `str::to_lowercase` gives for a text: the Unicode lowercase mapping, with the multi-char
/// expansions Unicode defines and a capital sigma lowered by its place in a word. It depends on
/// the text alone.
pub uninterp spec fn lowercase(s: Seq<char>) -> Seq<char>;

/// `str::to_lowercase`. Nothing is claimed of the mapping but that it is a function of the text.
#[verifier::external_body]
pub(crate) fn to_lowercase(s: &str) -> (r: String)
    ensures
        r@ == lowercase(s@),
{
    s.to_lowercase()
}

/// `word` occurs in `text` starting at `i`.
pub open spec fn occurs_at(text: Seq<char>, word: Seq<char>, i: int) -> bool {
    0 <= i && i + word.len() <= text.len() && text.subrange(i, i + word.len()) == word
}

/// `str::contains` for a text pattern.
pub open spec fn contains(text: Seq<char>, word: Seq<char>) -> bool {
    exists|i: int| occurs_at(text, word, i)
}

/// Whether `word` occurs anywhere in `text`.
pub fn contains_word(text: &Vec<char>, word: &Vec<char>) -> (r: bool)
    ensures
        r == contains(text@, word@),
{
    let n = text.len();
    let m = word.len();
    if m > n {
        assert forall|i: int| !occurs_at(text@, word@, i) by {}
        return false;
    }
    let mut i = 0usize;
    while i <= n - m
        invariant
            m <= n,
            n == text@.len(),
            m == word@.len(),
            forall|j: int| 0 <= j < i ==> !occurs_at(text@, word@, j),
        decreases n - m + 1 - i,
    {
        let mut k = 0usize;
        let mut same = true;
        while k < m
            invariant
                m <= n,
                i <= n - m,
                n == text@.len(),
                m == word@.len(),
                k <= m,
                same == forall|t: int| 0 <= t < k ==> text@[i + t] == word@[t],
            decreases m - k,
        {
            if text[i + k] != word[k] {
                same = false;
            }
            k += 1;
        }
        if same {
            assert(text@.subrange(i as int, i + m) =~= word@);
            assert(occurs_at(text@, word@, i as int));
            return true;
        }
        assert(!occurs_at(text@, word@, i as int)) by {
            if text@.subrange(i as int, i + m) == word@ {
                assert forall|t: int| 0 <= t < m implies text@[i + t] == word@[t] by {
                    assert(text@.subrange(i as int, i + m)[t] == text@[i + t]);
                }
            }
        }
        i += 1;
    }
    assert forall|j: int| !occurs_at(text@, word@, j) by {
        if 0 <= j && j + m <= n {
            assert(j < i);
        }
    }
    false
}

/// Whether two texts are the same characters.
pub fn same_text(a: &Vec<char>, b: &Vec<char>) -> (r: bool)
    ensures
        r == (a@ == b@),
{
    if a.len() != b.len() {
        assert(a@.len() != b@.len());
        return false;
    }
    let mut i = 0usize;
    while i < a.len()
        invariant
            a@.len() == b@.len(),
            i <= a@.len(),
            forall|j: int| 0 <= j < i ==> a@[j] == b@[j],
        decreases a@.len() - i,
    {
        if a[i] != b[i] {
            assert(a@[i as int] != b@[i as int]);
            return false;
        }
        i += 1;
    }
    assert(a@ =~= b@);
    true
}

/// Where the last occurrence of `word` in `text` starts (what `str::rfind` gives).
pub open spec fn last_occurrence(text: Seq<char>, word: Seq<char>) -> Option<int>
    decreases text.len(),
{
    if text.len() < word.len() {
        None
    } else if text.subrange(text.len() - word.len(), text.len() as int) == word {
        Some(text.len() - word.len())
    } else if text.len() == 0 {
        None
    } else {
        last_occurrence(text.drop_last(), word)
    }
}

/// `str::rfind` for a text pattern.
pub fn rfind_word(text: &Vec<char>, word: &Vec<char>) -> (r: Option<usize>)
    ensures
        r matches Some(i) ==> last_occurrence(text@, word@) == Some(i as int),
        r is None ==> last_occurrence(text@, word@) is None,
{
    let n = text.len();
    let m = word.len();
    let mut k = n;
    proof {
        assert(text@.take(n as int) =~= text@);
    }
    while k >= m
        invariant
            k <= n == text@.len(),
            m == word@.len(),
            last_occurrence(text@, word@) == last_occurrence(text@.take(k as int), word@),
        decreases k,
    {
        let ghost t = text@.take(k as int);
        let mut j = 0usize;
        let mut same = true;
        while j < m
            invariant
                m <= k <= n == text@.len(),
                m == word@.len(),
                j <= m,
                same == forall|q: int| 0 <= q < j ==> text@[k - m + q] == word@[q],
            decreases m - j,
        {
            if text[k - m + j] != word[j] {
                same = false;
            }
            j += 1;
        }
        proof {
            assert(t.subrange(k - m, k as int) =~= text@.subrange(k - m, k as int));
            if same {
                assert(t.subrange(k - m, k as int) =~= word@);
            } else {
                if t.subrange(k - m, k as int) == word@ {
                    assert forall|q: int| 0 <= q < m implies text@[k - m + q] == word@[q] by {
                        assert(t.subrange(k - m, k as int)[q] == t[k - m + q]);
                    }
                }
            }
        }
        if same {
            return Some(k - m);
        }
        if k == 0 {
            return None;
        }
        proof {
            assert(t.drop_last() =~= text@.take(k - 1));
        }
        k -= 1;
    }
    None
}

/// `a` followed by `b`, as a new `String`.
pub fn concat_text(a: &str, b: &str) -> (r: String)
    ensures
        r@ == a@ + b@,
{
    let mut v = chars_of(a);
    let w = chars_of(b);
    let ghost head = v@;
    let mut j = 0usize;
    while j < w.len()
        invariant
            j <= w@.len(),
            v@ == head + w@.take(j as int),
        decreases w@.len() - j,
    {
        v.push(w[j]);
        j += 1;
        assert(v@ =~= head + w@.take(j as int));
    }
    assert(w@.take(w@.len() as int) =~= w@);
    string_of(&v)
}

} // verus!
