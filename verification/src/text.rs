//! Character-level helpers: ASCII case folding, decimal integers and
//! separator positions, each stated over `Seq<char>`.
use vstd::prelude::*;
use vstd::string::*;

verus! {

/// `c` is an ASCII upper-case letter.
pub open spec fn is_ascii_upper(c: char) -> bool {
    65 <= (c as u32) && (c as u32) <= 90
}

/// The code point of `c`, with ASCII upper-case letters folded to lower case
/// (what `u8::eq_ignore_ascii_case` compares).
pub open spec fn fold_ascii(c: char) -> u32 {
    if is_ascii_upper(c) {
        ((c as u32) + 32) as u32
    } else {
        c as u32
    }
}

/// Two texts are equal when ASCII letters are compared without regard to case.
pub open spec fn eq_ignore_ascii_case(a: Seq<char>, b: Seq<char>) -> bool {
    &&& a.len() == b.len()
    &&& forall|i: int| 0 <= i < a.len() ==> #[trigger] fold_ascii(a[i]) == fold_ascii(b[i])
}

/// `c` is one of the ASCII digits `0` to `9`.
pub open spec fn is_digit(c: char) -> bool {
    48 <= (c as u32) && (c as u32) <= 57
}

pub open spec fn all_digits(s: Seq<char>) -> bool {
    forall|i: int| 0 <= i < s.len() ==> #[trigger] is_digit(s[i])
}

/// The value of a string of decimal digits, most significant first.
pub open spec fn digits_value(s: Seq<char>) -> int
    decreases s.len(),
{
    if s.len() == 0 {
        0
    } else {
        digits_value(s.drop_last()) * 10 + ((s.last() as u32) - 48)
    }
}

/// Length of the optional leading sign (`+` or `-`).
pub open spec fn sign_len(s: Seq<char>) -> int {
    if s.len() > 0 && (s[0] == '-' || s[0] == '+') {
        1
    } else {
        0
    }
}

/// What `str::parse::<i64>` gives: an optional sign, then one or more ASCII
/// digits, and a value that fits in `i64`; `None` for anything else.
pub open spec fn spec_parse_i64(s: Seq<char>) -> Option<i64> {
    let body = s.skip(sign_len(s));
    let magnitude = digits_value(body);
    let value = if sign_len(s) == 1 && s[0] == '-' {
        -magnitude
    } else {
        magnitude
    };
    if body.len() > 0 && all_digits(body) && i64::MIN <= value && value <= i64::MAX {
        Some(value as i64)
    } else {
        None
    }
}

/// Indices at which `c` occurs in `s`, in increasing order.
pub open spec fn positions_of(s: Seq<char>, c: char) -> Seq<int>
    decreases s.len(),
{
    if s.len() == 0 {
        Seq::empty()
    } else if s.last() == c {
        positions_of(s.drop_last(), c).push(s.len() - 1)
    } else {
        positions_of(s.drop_last(), c)
    }
}

pub proof fn lemma_digits_value_nonneg(s: Seq<char>)
    requires
        all_digits(s),
    ensures
        digits_value(s) >= 0,
    decreases s.len(),
{
    if s.len() > 0 {
        assert(all_digits(s.drop_last()));
        lemma_digits_value_nonneg(s.drop_last());
        assert(is_digit(s[s.len() - 1]));
    }
}

/// The value of a digit string is at least that of any of its prefixes.
pub proof fn lemma_digits_value_prefix(s: Seq<char>, k: int)
    requires
        all_digits(s),
        0 <= k <= s.len(),
    ensures
        digits_value(s.take(k)) <= digits_value(s),
    decreases s.len(),
{
    if k < s.len() {
        assert(all_digits(s.drop_last()));
        lemma_digits_value_prefix(s.drop_last(), k);
        assert(s.drop_last().take(k) =~= s.take(k));
        lemma_digits_value_nonneg(s.drop_last());
        assert(is_digit(s[s.len() - 1]));
    } else {
        assert(s.take(k) =~= s);
    }
}

/// Every position is in range, the positions increase, and each names a `c`.
pub proof fn lemma_positions_of(s: Seq<char>, c: char)
    ensures
        forall|k: int| 0 <= k < positions_of(s, c).len() ==> 0 <= #[trigger] positions_of(s, c)[k] < s.len(),
        forall|k: int| 0 <= k < positions_of(s, c).len() ==> s[#[trigger] positions_of(s, c)[k]] == c,
        forall|k: int, j: int|
            0 <= k < j < positions_of(s, c).len() ==> #[trigger] positions_of(s, c)[k] < #[trigger] positions_of(s, c)[j],
    decreases s.len(),
{
    if s.len() > 0 {
        let prev = s.drop_last();
        lemma_positions_of(prev, c);
        let p = positions_of(s, c);
        let q = positions_of(prev, c);
        assert forall|k: int| 0 <= k < q.len() implies s[q[k]] == c by {
            assert(s[q[k]] == prev[q[k]]);
        }
        if s.last() == c {
            assert(p == q.push(s.len() - 1));
        } else {
            assert(p == q);
        }
        assert forall|k: int| 0 <= k < p.len() implies 0 <= #[trigger] p[k] < s.len() by {
            if k < q.len() {
                assert(p[k] == q[k]);
            }
        }
        assert forall|k: int| 0 <= k < p.len() implies s[#[trigger] p[k]] == c by {
            if k < q.len() {
                assert(p[k] == q[k]);
            }
        }
    }
}

/// The characters of a string slice, one per element.
pub fn chars_of(s: &str) -> (v: Vec<char>)
    ensures
        v@ == s@,
{
    let n = s.unicode_len();
    let mut v: Vec<char> = Vec::new();
    let mut i: usize = 0;
    while i < n
        invariant
            n == s@.len(),
            i <= n,
            v@ == s@.take(i as int),
        decreases n - i,
    {
        let c = s.get_char(i);
        v.push(c);
        assert(s@.take(i as int).push(c) =~= s@.take(i + 1));
        i = i + 1;
    }
    assert(s@.take(n as int) =~= s@);
    v
}

/// `fold_ascii`, computed.
pub fn fold_char(c: char) -> (r: u32)
    ensures
        r == fold_ascii(c),
{
    let x = c as u32;
    if 65 <= x && x <= 90 {
        x + 32
    } else {
        x
    }
}

/// Compares `s[from..to]` with `word`, ignoring ASCII case.
pub fn range_eq_ignore_ascii_case(s: &Vec<char>, from: usize, to: usize, word: &str) -> (r: bool)
    requires
        from <= to <= s.len(),
    ensures
        r == eq_ignore_ascii_case(s@.subrange(from as int, to as int), word@),
{
    let ghost part = s@.subrange(from as int, to as int);
    let n = word.unicode_len();
    if to - from != n {
        return false;
    }
    let mut i: usize = 0;
    while i < n
        invariant
            n == word@.len(),
            to - from == n,
            from <= to <= s.len(),
            part == s@.subrange(from as int, to as int),
            i <= n,
            forall|j: int| 0 <= j < i ==> #[trigger] fold_ascii(part[j]) == fold_ascii(word@[j]),
        decreases n - i,
    {
        let a = fold_char(s[from + i]);
        let b = fold_char(word.get_char(i));
        if a != b {
            assert(fold_ascii(part[i as int]) != fold_ascii(word@[i as int]));
            return false;
        }
        i = i + 1;
    }
    true
}

/// `str::parse::<i64>` on `s[from..to]`.
pub fn parse_i64_range(s: &Vec<char>, from: usize, to: usize) -> (r: Option<i64>)
    requires
        from <= to <= s.len(),
    ensures
        r == spec_parse_i64(s@.subrange(from as int, to as int)),
{
    let ghost whole = s@.subrange(from as int, to as int);
    let mut start = from;
    let mut negative = false;
    if from < to && (s[from] == '-' || s[from] == '+') {
        negative = s[from] == '-';
        start = from + 1;
    }
    let ghost body = s@.subrange(start as int, to as int);
    assert(whole.skip(sign_len(whole)) =~= body);
    assert(negative == (sign_len(whole) == 1 && whole[0] == '-'));
    if start == to {
        return None;
    }
    let mut acc: u128 = 0;
    let mut i = start;
    while i < to
        invariant
            from <= start <= i <= to <= s.len(),
            body == s@.subrange(start as int, to as int),
            whole == s@.subrange(from as int, to as int),
            whole.skip(sign_len(whole)) == body,
            negative == (sign_len(whole) == 1 && whole[0] == '-'),
            start < to,
            all_digits(body.take(i - start)),
            acc == digits_value(body.take(i - start)),
            acc <= 0x8000_0000_0000_0000u128,
        decreases to - i,
    {
        let c = s[i];
        let code = c as u32;
        assert(body[i - start] == c);
        assert(code == c as u32);
        if code < 48 || code > 57 {
            assert(!is_digit(body[i - start]));
            assert(!all_digits(body));
            return None;
        }
        let next = acc * 10 + ((code - 48) as u128);
        proof {
            let p = body.take(i - start + 1);
            assert(p.drop_last() =~= body.take(i - start));
            assert(p.last() == c);
            assert(all_digits(p));
            assert(digits_value(p) == acc * 10 + (code - 48));
        }
        if next > 0x8000_0000_0000_0000u128 {
            proof {
                if all_digits(body) {
                    lemma_digits_value_prefix(body, i - start + 1);
                    assert(digits_value(body) > 0x8000_0000_0000_0000int);
                }
            }
            return None;
        }
        acc = next;
        i = i + 1;
    }
    assert(body.take(to - start) =~= body);
    if negative {
        let v: i128 = -(acc as i128);
        Some(v as i64)
    } else if acc <= 0x7fff_ffff_ffff_ffffu128 {
        Some(acc as i64)
    } else {
        None
    }
}

/// The positions of `c` in `s`.
pub fn positions(s: &Vec<char>, c: char) -> (r: Vec<usize>)
    ensures
        r@.len() == positions_of(s@, c).len(),
        forall|k: int| 0 <= k < r@.len() ==> r@[k] as int == #[trigger] positions_of(s@, c)[k],
{
    let mut r: Vec<usize> = Vec::new();
    let mut i: usize = 0;
    while i < s.len()
        invariant
            i <= s.len(),
            r@.len() == positions_of(s@.take(i as int), c).len(),
            forall|k: int|
                0 <= k < r@.len() ==> r@[k] as int == #[trigger] positions_of(s@.take(i as int), c)[k],
        decreases s.len() - i,
    {
        let ghost t = s@.take(i + 1);
        assert(t.drop_last() =~= s@.take(i as int));
        if s[i] == c {
            r.push(i);
        }
        i = i + 1;
    }
    assert(s@.take(s.len() as int) =~= s@);
    r
}

} // verus!

verus! {

/// Equality up to ASCII case is symmetric and transitive.
pub proof fn lemma_eq_ignore_ascii_case_equiv(a: Seq<char>, b: Seq<char>, c: Seq<char>)
    ensures
        eq_ignore_ascii_case(a, a),
        eq_ignore_ascii_case(a, b) ==> eq_ignore_ascii_case(b, a),
        eq_ignore_ascii_case(a, b) && eq_ignore_ascii_case(b, c) ==> eq_ignore_ascii_case(a, c),
{
    if eq_ignore_ascii_case(a, b) && eq_ignore_ascii_case(b, c) {
        assert forall|i: int| 0 <= i < a.len() implies #[trigger] fold_ascii(a[i]) == fold_ascii(c[i]) by {
            assert(fold_ascii(a[i]) == fold_ascii(b[i]));
            assert(fold_ascii(b[i]) == fold_ascii(c[i]));
        }
    }
    if eq_ignore_ascii_case(a, b) {
        assert forall|i: int| 0 <= i < b.len() implies #[trigger] fold_ascii(b[i]) == fold_ascii(a[i]) by {
            assert(fold_ascii(a[i]) == fold_ascii(b[i]));
        }
    }
}

/// A text without `c` has no positions of `c`.
pub proof fn lemma_positions_absent(s: Seq<char>, c: char)
    requires
        forall|i: int| 0 <= i < s.len() ==> s[i] != c,
    ensures
        positions_of(s, c) == Seq::<int>::empty(),
    decreases s.len(),
{
    if s.len() > 0 {
        lemma_positions_absent(s.drop_last(), c);
    }
}

/// The positions of `c` in `a + b`: those in `a`, then those in `b` shifted by `a`'s length.
pub proof fn lemma_positions_concat(a: Seq<char>, b: Seq<char>, c: char)
    ensures
        positions_of(a + b, c) == positions_of(a, c) + positions_of(b, c).map_values(
            |k: int| k + a.len(),
        ),
    decreases b.len(),
{
    if b.len() == 0 {
        assert(a + b =~= a);
        assert(positions_of(b, c).map_values(|k: int| k + a.len()) =~= Seq::<int>::empty());
        assert(positions_of(a, c) + Seq::<int>::empty() =~= positions_of(a, c));
    } else {
        lemma_positions_concat(a, b.drop_last(), c);
        assert((a + b).drop_last() =~= a + b.drop_last());
        assert((a + b).last() == b.last());
        let pb = positions_of(b.drop_last(), c).map_values(|k: int| k + a.len());
        if b.last() == c {
            assert(positions_of(b, c).map_values(|k: int| k + a.len()) =~= pb.push(
                b.len() - 1 + a.len(),
            ));
            assert(positions_of(a, c) + pb.push(b.len() - 1 + a.len()) =~= (positions_of(a, c)
                + pb).push(b.len() - 1 + a.len()));
        } else {
            assert(positions_of(b, c).map_values(|k: int| k + a.len()) =~= pb);
        }
    }
}

} // verus!

verus! {

/// The ASCII digit for a value below ten.
pub open spec fn digit_char(d: int) -> char {
    if d == 0 {
        '0'
    } else if d == 1 {
        '1'
    } else if d == 2 {
        '2'
    } else if d == 3 {
        '3'
    } else if d == 4 {
        '4'
    } else if d == 5 {
        '5'
    } else if d == 6 {
        '6'
    } else if d == 7 {
        '7'
    } else if d == 8 {
        '8'
    } else {
        '9'
    }
}

/// The decimal digits of a natural number, most significant first, without
/// leading zeros.
pub open spec fn decimal_digits(m: nat) -> Seq<char>
    decreases m,
{
    if m < 10 {
        seq![digit_char(m as int)]
    } else {
        decimal_digits(m / 10).push(digit_char((m % 10) as int))
    }
}

/// The decimal text of an integer, as `Display` writes it: a `-` for
/// negative numbers, then the digits.
pub open spec fn decimal_text(n: int) -> Seq<char> {
    if n < 0 {
        seq!['-'] + decimal_digits((-n) as nat)
    } else {
        decimal_digits(n as nat)
    }
}

pub proof fn lemma_digit_char(d: int)
    requires
        0 <= d < 10,
    ensures
        is_digit(digit_char(d)),
        (digit_char(d) as u32) - 48 == d,
{
}

/// The decimal digits of `m` are digits, start with no sign, and read back as `m`.
pub proof fn lemma_decimal_digits(m: nat)
    ensures
        decimal_digits(m).len() > 0,
        all_digits(decimal_digits(m)),
        digits_value(decimal_digits(m)) == m,
        decimal_digits(m)[0] != '-' && decimal_digits(m)[0] != '+',
    decreases m,
{
    if m < 10 {
        lemma_digit_char(m as int);
        let s = decimal_digits(m);
        assert(s.drop_last() =~= Seq::<char>::empty());
        assert(digits_value(Seq::<char>::empty()) == 0);
    } else {
        lemma_decimal_digits(m / 10);
        lemma_digit_char((m % 10) as int);
        let prev = decimal_digits(m / 10);
        let s = decimal_digits(m);
        assert(s.drop_last() =~= prev);
        assert(s[0] == prev[0]);
        vstd::arithmetic::div_mod::lemma_fundamental_div_mod(m as int, 10);
        assert forall|i: int| 0 <= i < s.len() implies #[trigger] is_digit(s[i]) by {
            if i < prev.len() {
                assert(s[i] == prev[i]);
            }
        }
    }
}

/// The decimal text of an `i64` reads back as that `i64`.
pub proof fn lemma_parse_decimal_text(n: i64)
    ensures
        spec_parse_i64(decimal_text(n as int)) == Some(n),
        forall|i: int| 0 <= i < decimal_text(n as int).len() ==> #[trigger] decimal_text(n as int)[i] != ':',
{
    let s = decimal_text(n as int);
    if n < 0 {
        let d = decimal_digits((-n) as nat);
        lemma_decimal_digits((-n) as nat);
        assert(s[0] == '-');
        assert(s.skip(1) =~= d);
        assert forall|i: int| 0 <= i < s.len() implies #[trigger] s[i] != ':' by {
            if i > 0 {
                assert(s[i] == d[i - 1]);
                assert(is_digit(d[i - 1]));
            }
        }
    } else {
        let d = decimal_digits(n as nat);
        lemma_decimal_digits(n as nat);
        assert(s.skip(0) =~= d);
        assert forall|i: int| 0 <= i < s.len() implies #[trigger] s[i] != ':' by {
            assert(is_digit(d[i]));
        }
    }
}

} // verus!
