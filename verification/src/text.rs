//! Character-level text handling shared by the request parser and the
//! response writer: trimming, splitting, prefix tests and decimal numbers.
use vstd::prelude::*;

verus! {

/// The characters of `s`, one by one.
pub fn chars_of(s: &str) -> (v: Vec<char>)
    ensures
        v@ == s@,
{
    let mut v: Vec<char> = Vec::new();
    for c in it: s.chars()
        invariant
            it.seq() == s@,
            v@ == it.seq().take(it.index() as int),
    {
        v.push(c);
    }
    v
}

// ---------------------------------------------------------------- whitespace

/// Unicode `White_Space`, the property that `str::trim` strips.
pub open spec fn is_white(c: char) -> bool {
    let u = c as u32;
    ||| 0x09 <= u <= 0x0D
    ||| u == 0x20
    ||| u == 0x85
    ||| u == 0xA0
    ||| u == 0x1680
    ||| 0x2000 <= u <= 0x200A
    ||| u == 0x2028
    ||| u == 0x2029
    ||| u == 0x202F
    ||| u == 0x205F
    ||| u == 0x3000
}

/// Whether `c` is whitespace, as `char::is_whitespace` tells it.
pub fn is_white_exec(c: char) -> (b: bool)
    ensures
        b == is_white(c),
{
    let u = c as u32;
    (0x09 <= u && u <= 0x0D) || u == 0x20 || u == 0x85 || u == 0xA0 || u == 0x1680 || (0x2000
        <= u && u <= 0x200A) || u == 0x2028 || u == 0x2029 || u == 0x202F || u == 0x205F || u
        == 0x3000
}

/// `s` without its leading whitespace.
pub open spec fn trim_start(s: Seq<char>) -> Seq<char>
    decreases s.len(),
{
    if s.len() > 0 && is_white(s[0]) {
        trim_start(s.drop_first())
    } else {
        s
    }
}

/// `s` without its trailing whitespace.
pub open spec fn trim_end(s: Seq<char>) -> Seq<char>
    decreases s.len(),
{
    if s.len() > 0 && is_white(s.last()) {
        trim_end(s.drop_last())
    } else {
        s
    }
}

/// `s` without leading and trailing whitespace, as `str::trim` gives it.
pub open spec fn trim(s: Seq<char>) -> Seq<char> {
    trim_end(trim_start(s))
}

/// A copy of `s` without leading and trailing whitespace.
pub fn trim_copy(s: &str) -> (t: String)
    ensures
        t@ == trim(s@),
{
    let v = chars_of(s);
    let n = v.len();
    let mut lo: usize = 0;
    assert(s@.skip(0) =~= s@);
    while lo < n && is_white_exec(v[lo])
        invariant
            lo <= n,
            n == s@.len(),
            v@ == s@,
            trim_start(s@) == trim_start(s@.skip(lo as int)),
        decreases n - lo,
    {
        assert(s@.skip(lo as int).drop_first() =~= s@.skip(lo + 1));
        lo = lo + 1;
    }
    assert(trim_start(s@) == s@.subrange(lo as int, n as int)) by {
        assert(s@.skip(lo as int) =~= s@.subrange(lo as int, n as int));
    }
    let mut hi: usize = n;
    while hi > lo && is_white_exec(v[hi - 1])
        invariant
            lo <= hi <= n,
            n == s@.len(),
            v@ == s@,
            trim(s@) == trim_end(s@.subrange(lo as int, hi as int)),
        decreases hi - lo,
    {
        assert(s@.subrange(lo as int, hi as int).drop_last() =~= s@.subrange(
            lo as int,
            hi - 1,
        ));
        hi = hi - 1;
    }
    let t = s.substring_char(lo, hi);
    t.to_owned()
}

/// Whether `s` is empty once its surrounding whitespace is removed.
pub fn is_blank(s: &str) -> (b: bool)
    ensures
        b == (trim(s@).len() == 0),
{
    let t = trim_copy(s);
    t.as_str().unicode_len() == 0
}

// ---------------------------------------------------------------- comparison

/// Character-wise equality of two strings.
pub fn str_equals(a: &str, b: &str) -> (r: bool)
    ensures
        r == (a@ == b@),
{
    let va = chars_of(a);
    let vb = chars_of(b);
    if va.len() != vb.len() {
        return false;
    }
    let n = va.len();
    for i in 0..n
        invariant
            n == va@.len(),
            n == vb@.len(),
            va@ == a@,
            vb@ == b@,
            forall|j: int| 0 <= j < i ==> va@[j] == vb@[j],
    {
        if va[i] != vb[i] {
            return false;
        }
    }
    assert(a@ =~= b@);
    true
}

/// `prefix` is a prefix of `s`.
pub open spec fn has_prefix(s: Seq<char>, prefix: Seq<char>) -> bool {
    prefix.len() <= s.len() && s.take(prefix.len() as int) == prefix
}

pub fn starts_with(s: &str, prefix: &str) -> (r: bool)
    ensures
        r == has_prefix(s@, prefix@),
{
    let vs = chars_of(s);
    let vp = chars_of(prefix);
    if vp.len() > vs.len() {
        return false;
    }
    let n = vp.len();
    for i in 0..n
        invariant
            n == vp@.len(),
            n <= vs@.len(),
            vs@ == s@,
            vp@ == prefix@,
            forall|j: int| 0 <= j < i ==> vs@[j] == vp@[j],
    {
        if vs[i] != vp[i] {
            assert(s@.take(n as int)[i as int] != prefix@[i as int]);
            return false;
        }
    }
    assert(s@.take(n as int) =~= prefix@);
    true
}

// ---------------------------------------------------------------- splitting

/// Index of the first `c` in `s`, if there is one.
pub open spec fn index_of(s: Seq<char>, c: char) -> Option<nat>
    decreases s.len(),
{
    if s.len() == 0 {
        None
    } else if s[0] == c {
        Some(0)
    } else {
        match index_of(s.drop_first(), c) {
            Some(i) => Some(i + 1),
            None => None,
        }
    }
}

/// The pieces of `s` between occurrences of `sep`, as `str::split` yields them.
pub open spec fn pieces(s: Seq<char>, sep: char) -> Seq<Seq<char>>
    decreases s.len(),
{
    match index_of(s, sep) {
        Some(i) => if i < s.len() {
            seq![s.take(i as int)] + pieces(s.skip(i as int + 1), sep)
        } else {
            seq![s]
        },
        None => seq![s],
    }
}

/// What `index_of` gives when the first `sep` from `start` on is at `j`
/// (or when there is none and `j` is the end).
pub proof fn lemma_index_of_window(s: Seq<char>, sep: char, start: int, j: int)
    requires
        0 <= start <= j <= s.len(),
        forall|k: int| start <= k < j ==> s[k] != sep,
    ensures
        j < s.len() && s[j] == sep ==> index_of(s.skip(start), sep) == Some((j - start) as nat),
        j == s.len() ==> index_of(s.skip(start), sep) is None,
    decreases j - start,
{
    if start < j {
        lemma_index_of_window(s, sep, start + 1, j);
        assert(s.skip(start).drop_first() =~= s.skip(start + 1));
    }
}

/// Every piece of `s` between occurrences of `sep`, in order.
pub fn split_all(s: &str, sep: char) -> (r: Vec<String>)
    ensures
        r@.map_values(|p: String| p@) == pieces(s@, sep),
{
    let v = chars_of(s);
    let n = v.len();
    let mut out: Vec<String> = Vec::new();
    let mut start: usize = 0;
    let mut j: usize = 0;
    assert(s@.skip(0) =~= s@);
    assert(out@.map_values(|p: String| p@) =~= Seq::<Seq<char>>::empty());
    while j < n
        invariant
            start <= j <= n,
            n == s@.len(),
            v@ == s@,
            forall|k: int| start <= k < j ==> s@[k] != sep,
            out@.map_values(|p: String| p@) + pieces(s@.skip(start as int), sep) == pieces(
                s@,
                sep,
            ),
        decreases n - j,
    {
        if v[j] == sep {
            proof {
                lemma_index_of_window(s@, sep, start as int, j as int);
                assert(s@.skip(start as int).take(j - start) =~= s@.subrange(
                    start as int,
                    j as int,
                ));
                assert(s@.skip(start as int).skip(j - start + 1) =~= s@.skip(j + 1));
            }
            let piece = s.substring_char(start, j).to_owned();
            let ghost before = out@;
            out.push(piece);
            proof {
                assert(out@.map_values(|p: String| p@) =~= before.map_values(|p: String| p@).push(
                    piece@,
                ));
            }
            start = j + 1;
        }
        j = j + 1;
    }
    proof {
        lemma_index_of_window(s@, sep, start as int, n as int);
        assert(s@.skip(start as int) =~= s@.subrange(start as int, n as int));
    }
    let last = s.substring_char(start, n).to_owned();
    let ghost before = out@;
    out.push(last);
    proof {
        assert(out@.map_values(|p: String| p@) =~= before.map_values(|p: String| p@).push(
            last@,
        ));
    }
    out
}

} // verus!

verus! {

// ---------------------------------------------------------------- decimals

pub open spec fn is_digit(c: char) -> bool {
    48 <= (c as u32) <= 57
}

pub open spec fn digit_value(c: char) -> nat {
    ((c as u32) - 48) as nat
}

pub open spec fn digit_char(d: nat) -> char {
    (d + 48) as char
}

pub open spec fn all_digits(s: Seq<char>) -> bool {
    forall|i: int| 0 <= i < s.len() ==> is_digit(#[trigger] s[i])
}

/// The number that a run of decimal digits writes.
pub open spec fn digits_value(s: Seq<char>) -> nat
    decreases s.len(),
{
    if s.len() == 0 {
        0
    } else {
        digits_value(s.drop_last()) * 10 + digit_value(s.last())
    }
}

/// The number that `s` writes in decimal, read as `str::parse` reads an
/// unsigned integer before its range check: an optional `+`, then one or more
/// ASCII digits and nothing else.
pub open spec fn decimal_value(s: Seq<char>) -> Option<nat> {
    let body = if s.len() > 0 && s[0] == '+' {
        s.drop_first()
    } else {
        s
    };
    if body.len() > 0 && all_digits(body) {
        Some(digits_value(body))
    } else {
        None
    }
}

/// The decimal writing of `n`, without sign or leading zeros.
pub open spec fn decimal(n: nat) -> Seq<char>
    decreases n,
{
    if n < 10 {
        seq![digit_char(n)]
    } else {
        decimal(n / 10).push(digit_char(n % 10))
    }
}

proof fn lemma_digit_char(d: nat)
    requires
        d < 10,
    ensures
        is_digit(digit_char(d)),
        digit_value(digit_char(d)) == d,
{
    assert((d + 48) as char as u32 == d + 48);
}


proof fn lemma_digits_value_monotone(s: Seq<char>, k: int)
    requires
        0 <= k <= s.len(),
    ensures
        digits_value(s.take(k)) <= digits_value(s),
    decreases s.len(),
{
    if k < s.len() {
        lemma_digits_value_monotone(s.drop_last(), k);
        assert(s.drop_last().take(k) =~= s.take(k));
    } else {
        assert(s.take(k) =~= s);
    }
}

/// The unsigned number that `s` writes, as `str::parse::<u64>` reads it:
/// `None` when `s` is not an optional `+` followed by decimal digits, or when
/// the number is above `u64::MAX`.
pub fn parse_u64(s: &str) -> (r: Option<u64>)
    ensures
        r is Some <==> (decimal_value(s@) is Some && decimal_value(s@)->0 <= u64::MAX),
        r matches Some(x) ==> x == decimal_value(s@)->0,
{
    let v = chars_of(s);
    let n = v.len();
    let start: usize = if n > 0 && v[0] == '+' {
        1
    } else {
        0
    };
    let ghost body = if s@.len() > 0 && s@[0] == '+' {
        s@.drop_first()
    } else {
        s@
    };
    assert(body =~= s@.skip(start as int));
    if start == n {
        return None;
    }
    let mut acc: u64 = 0;
    let mut i: usize = start;
    assert(body.take(0) =~= Seq::<char>::empty());
    while i < n
        invariant
            start <= i <= n,
            n == s@.len(),
            v@ == s@,
            body == s@.skip(start as int),
            body == (if s@.len() > 0 && s@[0] == '+' {
                s@.drop_first()
            } else {
                s@
            }),
            forall|k: int| start <= k < i ==> is_digit(#[trigger] s@[k]),
            acc == digits_value(body.take(i - start)),
        decreases n - i,
    {
        let c = v[i];
        let u = c as u32;
        assert(body[i - start] == s@[i as int]);
        if !(48 <= u && u <= 57) {
            assert(!is_digit(body[i - start]));
            assert(!all_digits(body));
            assert(decimal_value(s@) is None);
            return None;
        }
        let d = (u - 48) as u64;
        proof {
            assert(d == digit_value(c));
            assert(body.take(i - start + 1).drop_last() =~= body.take(i - start));
            assert(body.take(i - start + 1).last() == c);
        }
        match acc.checked_mul(10) {
            Some(m) => match m.checked_add(d) {
                Some(a) => {
                    acc = a;
                },
                None => {
                    proof {
                        if all_digits(body) {
                            lemma_digits_value_monotone(body, i - start + 1);
                        }
                    }
                    return None;
                },
            },
            None => {
                proof {
                    if all_digits(body) {
                        lemma_digits_value_monotone(body, i - start + 1);
                    }
                }
                return None;
            },
        }
        i = i + 1;
    }
    assert(body.take(n - start) =~= body);
    assert(all_digits(body));
    Some(acc)
}

/// `parse_u64` for `usize`, as `str::parse::<usize>` reads it.
pub fn parse_usize(s: &str) -> (r: Option<usize>)
    ensures
        r is Some <==> (decimal_value(s@) is Some && decimal_value(s@)->0 <= usize::MAX),
        r matches Some(x) ==> x == decimal_value(s@)->0,
{
    match parse_u64(s) {
        Some(x) => if x <= usize::MAX as u64 {
            Some(x as usize)
        } else {
            None
        },
        None => None,
    }
}

fn digit_str(d: u64) -> (r: &'static str)
    requires
        d < 10,
    ensures
        r@ == seq![digit_char(d as nat)],
{
    proof {
        reveal_strlit("0");
        reveal_strlit("1");
        reveal_strlit("2");
        reveal_strlit("3");
        reveal_strlit("4");
        reveal_strlit("5");
        reveal_strlit("6");
        reveal_strlit("7");
        reveal_strlit("8");
        reveal_strlit("9");
    }
    match d {
        0 => "0",
        1 => "1",
        2 => "2",
        3 => "3",
        4 => "4",
        5 => "5",
        6 => "6",
        7 => "7",
        8 => "8",
        _ => "9",
    }
}

/// The decimal writing of `n`, as `u64::to_string` gives it.
pub fn u64_to_string(n: u64) -> (r: String)
    ensures
        r@ == decimal(n as nat),
    decreases n,
{
    if n < 10 {
        String::from_str(digit_str(n))
    } else {
        let mut r = u64_to_string(n / 10);
        r.append(digit_str(n % 10));
        r
    }
}

/// The decimal writing of `n`, as `usize::to_string` gives it.
pub fn usize_to_string(n: usize) -> (r: String)
    ensures
        r@ == decimal(n as nat),
{
    u64_to_string(n as u64)
}

/// Reading back a number written in decimal gives the number.
pub proof fn law_decimal_roundtrip(n: nat)
    ensures
        decimal_value(decimal(n)) == Some(n),
        trim(decimal(n)) == decimal(n),
{
    lemma_decimal_digits(n);
    let s = decimal(n);
    assert(!is_white(s[0]));
    assert(!is_white(s.last()));
}

proof fn lemma_decimal_digits(n: nat)
    ensures
        decimal(n).len() > 0,
        all_digits(decimal(n)),
        digits_value(decimal(n)) == n,
        is_digit(decimal(n)[0]),
    decreases n,
{
    if n < 10 {
        lemma_digit_char(n);
        assert(decimal(n).drop_last() =~= Seq::<char>::empty());
        assert(digits_value(Seq::<char>::empty()) == 0);
    } else {
        lemma_decimal_digits(n / 10);
        lemma_digit_char(n % 10);
        let s = decimal(n);
        assert(s.drop_last() =~= decimal(n / 10));
        assert(s.last() == digit_char(n % 10));
        assert(n == (n / 10) * 10 + n % 10) by (nonlinear_arith);
        assert(s[0] == decimal(n / 10)[0]);
    }
}

/// The text before the first `c` and the text after it, as `str::split_once`
/// gives them; `None` when there is no `c`.
pub open spec fn split_once(s: Seq<char>, c: char) -> Option<(Seq<char>, Seq<char>)> {
    match index_of(s, c) {
        Some(i) => Some((s.take(i as int), s.skip(i as int + 1))),
        None => None,
    }
}

/// `s` cut at its first `c`.
pub fn split_once_at(s: &str, c: char) -> (r: Option<(String, String)>)
    ensures
        r is Some <==> split_once(s@, c) is Some,
        r matches Some((a, b)) ==> (a@, b@) == split_once(s@, c)->0,
{
    let v = chars_of(s);
    let n = v.len();
    assert(s@.skip(0) =~= s@);
    for j in 0..n
        invariant
            n == s@.len(),
            v@ == s@,
            forall|k: int| 0 <= k < j ==> s@[k] != c,
    {
        if v[j] == c {
            proof {
                lemma_index_of_window(s@, c, 0, j as int);
                assert(s@.skip(0) =~= s@);
            }
            let a = s.substring_char(0, j).to_owned();
            let b = s.substring_char(j + 1, n).to_owned();
            assert(a@ =~= s@.take(j as int));
            assert(b@ =~= s@.skip(j + 1));
            return Some((a, b));
        }
    }
    proof {
        lemma_index_of_window(s@, c, 0, n as int);
        assert(s@.skip(0) =~= s@);
    }
    None
}

/// What `index_of` tells: the first `c` is at the index it gives, and there
/// is none when it gives none.
pub proof fn lemma_index_of_facts(s: Seq<char>, c: char)
    ensures
        index_of(s, c) matches Some(i) ==> i < s.len() && s[i as int] == c && forall|k: int|
            0 <= k < i ==> s[k] != c,
        index_of(s, c) is None ==> forall|k: int| 0 <= k < s.len() ==> s[k] != c,
    decreases s.len(),
{
    if s.len() > 0 {
        lemma_index_of_facts(s.drop_first(), c);
        assert forall|k: int| 0 < k < s.len() implies s[k] == s.drop_first()[k - 1] by {}
    }
}

/// Splitting a text made of two texts around one separator gives the pieces
/// of the first, then the pieces of the second.
pub proof fn lemma_pieces_concat(x: Seq<char>, sep: char, y: Seq<char>)
    ensures
        pieces(x + seq![sep] + y, sep) == pieces(x, sep) + pieces(y, sep),
    decreases x.len(),
{
    let w = x + seq![sep] + y;
    lemma_index_of_facts(x, sep);
    match index_of(x, sep) {
        Some(i) => {
            assert forall|k: int| 0 <= k < i implies w[k] != sep by {
                assert(w[k] == x[k]);
            }
            assert(w[i as int] == x[i as int]);
            lemma_index_of_window(w, sep, 0, i as int);
            assert(w.skip(0) =~= w);
            assert(w.take(i as int) =~= x.take(i as int));
            assert(w.skip(i as int + 1) =~= x.skip(i as int + 1) + seq![sep] + y);
            lemma_pieces_concat(x.skip(i as int + 1), sep, y);
            assert(pieces(x, sep) == seq![x.take(i as int)] + pieces(x.skip(i as int + 1), sep));
            assert(pieces(w, sep) =~= pieces(x, sep) + pieces(y, sep));
        },
        None => {
            assert forall|k: int| 0 <= k < x.len() implies w[k] != sep by {
                assert(w[k] == x[k]);
            }
            lemma_index_of_window(w, sep, 0, x.len() as int);
            assert(w.skip(0) =~= w);
            assert(w.take(x.len() as int) =~= x);
            assert(w.skip(x.len() as int + 1) =~= y);
            assert(pieces(x, sep) == seq![x]);
            assert(pieces(w, sep) =~= pieces(x, sep) + pieces(y, sep));
        },
    }
}

} // verus!
