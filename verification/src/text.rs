//! Verified text helpers: first-occurrence search, `split_once`-style and
//! `splitn`-style splitting, decimal parsing and formatting, and small string
//! utilities. All contracts are stated over `Seq<char>` views.

use vstd::prelude::*;

verus! {

/// Index of the first occurrence of `c` in `s`, if any.
pub open spec fn find_char(s: Seq<char>, c: char) -> Option<int>
    decreases s.len(),
{
    if s.len() == 0 {
        Option::None
    } else if s[0] == c {
        Option::Some(0)
    } else {
        match find_char(s.subrange(1, s.len() as int), c) {
            Option::None => Option::None,
            Option::Some(i) => Option::Some(i + 1),
        }
    }
}

/// Index of the first occurrence of the two-character separator `a`,`b` in `s`, if any.
pub open spec fn find_pair(s: Seq<char>, a: char, b: char) -> Option<int>
    decreases s.len(),
{
    if s.len() < 2 {
        Option::None
    } else if s[0] == a && s[1] == b {
        Option::Some(0)
    } else {
        match find_pair(s.subrange(1, s.len() as int), a, b) {
            Option::None => Option::None,
            Option::Some(i) => Option::Some(i + 1),
        }
    }
}

pub proof fn lemma_find_char_first(s: Seq<char>, c: char, i: int)
    requires
        0 <= i < s.len(),
        s[i] == c,
        forall|j: int| 0 <= j < i ==> s[j] != c,
    ensures
        find_char(s, c) == Option::Some(i),
    decreases s.len(),
{
    if i == 0 {
    } else {
        let t = s.subrange(1, s.len() as int);
        assert(forall|j: int| 0 <= j < i - 1 ==> t[j] == s[j + 1] && s[j + 1] != c);
        lemma_find_char_first(t, c, i - 1);
    }
}

pub proof fn lemma_find_char_none(s: Seq<char>, c: char)
    requires
        forall|j: int| 0 <= j < s.len() ==> s[j] != c,
    ensures
        find_char(s, c) is None,
    decreases s.len(),
{
    if s.len() == 0 {
    } else {
        let t = s.subrange(1, s.len() as int);
        assert(forall|j: int| 0 <= j < t.len() ==> t[j] == s[j + 1] && s[j + 1] != c);
        lemma_find_char_none(t, c);
    }
}

/// The index returned by `find_char` is in range and points at `c`.
pub proof fn lemma_find_char_valid(s: Seq<char>, c: char)
    ensures
        find_char(s, c) matches Option::Some(i) ==> 0 <= i < s.len() && s[i] == c,
    decreases s.len(),
{
    if s.len() == 0 {
    } else if s[0] == c {
    } else {
        lemma_find_char_valid(s.subrange(1, s.len() as int), c);
    }
}

pub proof fn lemma_find_pair_first(s: Seq<char>, a: char, b: char, i: int)
    requires
        0 <= i,
        i + 1 < s.len(),
        s[i] == a,
        s[i + 1] == b,
        forall|j: int| 0 <= j < i ==> !(#[trigger] s[j] == a && s[j + 1] == b),
    ensures
        find_pair(s, a, b) == Option::Some(i),
    decreases s.len(),
{
    if i == 0 {
    } else {
        let t = s.subrange(1, s.len() as int);
        assert(forall|j: int| 0 <= j < i - 1 ==> #[trigger] t[j] == s[j + 1] && t[j + 1] == s[j
            + 2]);
        assert(forall|j: int| 0 <= j < i - 1 ==> !(#[trigger] t[j] == a && t[j + 1] == b));
        lemma_find_pair_first(t, a, b, i - 1);
    }
}

pub proof fn lemma_find_pair_none(s: Seq<char>, a: char, b: char)
    requires
        forall|j: int| 0 <= j && j + 1 < s.len() ==> !(#[trigger] s[j] == a && s[j + 1] == b),
    ensures
        find_pair(s, a, b) is None,
    decreases s.len(),
{
    if s.len() < 2 {
    } else {
        let t = s.subrange(1, s.len() as int);
        assert(forall|j: int| 0 <= j && j + 1 < t.len() ==> #[trigger] t[j] == s[j + 1] && t[j + 1]
            == s[j + 2]);
        lemma_find_pair_none(t, a, b);
    }
}

pub proof fn lemma_find_pair_valid(s: Seq<char>, a: char, b: char)
    ensures
        find_pair(s, a, b) matches Option::Some(i) ==> 0 <= i && i + 1 < s.len() && s[i] == a
            && s[i + 1] == b,
    decreases s.len(),
{
    if s.len() < 2 {
    } else if s[0] == a && s[1] == b {
    } else {
        lemma_find_pair_valid(s.subrange(1, s.len() as int), a, b);
    }
}

/// First index of `c` in `s`, scanning characters from the front.
pub fn find_char_in(s: &str, c: char) -> (r: Option<usize>)
    ensures
        r matches Option::Some(i) ==> find_char(s@, c) == Option::Some(i as int),
        r is None ==> find_char(s@, c) is None,
{
    let n: usize = s.unicode_len();
    let mut i: usize = 0;
    while i < n
        invariant
            n == s@.len(),
            0 <= i <= n,
            forall|j: int| 0 <= j < i ==> s@[j] != c,
        decreases n - i,
    {
        if s.get_char(i) == c {
            proof {
                lemma_find_char_first(s@, c, i as int);
            }
            return Option::Some(i);
        }
        i = i + 1;
    }
    proof {
        lemma_find_char_none(s@, c);
    }
    Option::None
}

/// First index of the two-character separator `a`,`b` in `s`.
pub fn find_pair_in(s: &str, a: char, b: char) -> (r: Option<usize>)
    ensures
        r matches Option::Some(i) ==> find_pair(s@, a, b) == Option::Some(i as int),
        r is None ==> find_pair(s@, a, b) is None,
{
    let n: usize = s.unicode_len();
    if n < 2 {
        proof {
            lemma_find_pair_none(s@, a, b);
        }
        return Option::None;
    }
    let mut i: usize = 0;
    while i < n - 1
        invariant
            n == s@.len(),
            2 <= n,
            0 <= i <= n,
            forall|j: int| 0 <= j < i ==> !(#[trigger] s@[j] == a && s@[j + 1] == b),
        decreases n - i,
    {
        if s.get_char(i) == a && s.get_char(i + 1) == b {
            proof {
                lemma_find_pair_first(s@, a, b, i as int);
            }
            return Option::Some(i);
        }
        i = i + 1;
    }
    proof {
        lemma_find_pair_none(s@, a, b);
    }
    Option::None
}

/// `split_once` on a single-character separator: the parts strictly before and
/// after the first occurrence of `c`.
pub open spec fn split_once_char(s: Seq<char>, c: char) -> Option<(Seq<char>, Seq<char>)> {
    match find_char(s, c) {
        Option::None => Option::None,
        Option::Some(i) => Option::Some((s.subrange(0, i), s.subrange(i + 1, s.len() as int))),
    }
}

/// `split_once` on a two-character separator.
pub open spec fn split_once_pair(s: Seq<char>, a: char, b: char) -> Option<(Seq<char>, Seq<char>)> {
    match find_pair(s, a, b) {
        Option::None => Option::None,
        Option::Some(i) => Option::Some((s.subrange(0, i), s.subrange(i + 2, s.len() as int))),
    }
}

pub fn split_once_at_char<'a>(s: &'a str, c: char) -> (r: Option<(&'a str, &'a str)>)
    ensures
        match (r, split_once_char(s@, c)) {
            (Option::Some(p), Option::Some(q)) => p.0@ == q.0 && p.1@ == q.1,
            (Option::None, Option::None) => true,
            _ => false,
        },
{
    let n: usize = s.unicode_len();
    match find_char_in(s, c) {
        Option::Some(i) => {
            proof {
                lemma_find_char_valid(s@, c);
            }
            let before = s.substring_char(0, i);
            let after = s.substring_char(i + 1, n);
            Option::Some((before, after))
        },
        Option::None => Option::None,
    }
}

pub fn split_once_at_pair<'a>(s: &'a str, a: char, b: char) -> (r: Option<(&'a str, &'a str)>)
    ensures
        match (r, split_once_pair(s@, a, b)) {
            (Option::Some(p), Option::Some(q)) => p.0@ == q.0 && p.1@ == q.1,
            (Option::None, Option::None) => true,
            _ => false,
        },
{
    let n: usize = s.unicode_len();
    match find_pair_in(s, a, b) {
        Option::Some(i) => {
            proof {
                lemma_find_pair_valid(s@, a, b);
            }
            let before = s.substring_char(0, i);
            let after = s.substring_char(i + 2, n);
            Option::Some((before, after))
        },
        Option::None => Option::None,
    }
}

/// `splitn`-style splitting: at most `n` fields, the last field keeping any
/// remaining separators, and always at least one field.
pub open spec fn splitn_char(s: Seq<char>, n: nat, c: char) -> Seq<Seq<char>>
    decreases n,
{
    if n <= 1 {
        seq![s]
    } else {
        match find_char(s, c) {
            Option::None => seq![s],
            Option::Some(i) => seq![s.subrange(0, i)] + splitn_char(
                s.subrange(i + 1, s.len() as int),
                (n - 1) as nat,
                c,
            ),
        }
    }
}

/// Split `s` into at most `n` fields at occurrences of `c`.
pub fn splitn_char_str(s: &str, n: usize, c: char) -> (r: Vec<String>)
    requires
        n >= 1,
    ensures
        r@.map_values(|t: String| t@) == splitn_char(s@, n as nat, c),
    decreases n,
{
    if n == 1 {
        let mut out: Vec<String> = Vec::new();
        out.push(String::from_str(s));
        proof {
            assert(out@.map_values(|t: String| t@) =~= seq![s@]);
        }
        out
    } else {
        match split_once_at_char(s, c) {
            Option::None => {
                let mut out: Vec<String> = Vec::new();
                out.push(String::from_str(s));
                proof {
                    assert(out@.map_values(|t: String| t@) =~= seq![s@]);
                }
                out
            },
            Option::Some((head, rest)) => {
                let mut tail = splitn_char_str(rest, n - 1, c);
                let mut out: Vec<String> = Vec::new();
                out.push(String::from_str(head));
                out.append(&mut tail);
                proof {
                    assert(out@.map_values(|t: String| t@) =~= splitn_char(s@, n as nat, c));
                }
                out
            },
        }
    }
}

/// Character-wise string equality.
pub fn str_eq(a: &str, b: &str) -> (r: bool)
    ensures
        r == (a@ == b@),
{
    let n: usize = a.unicode_len();
    let m: usize = b.unicode_len();
    if n != m {
        return false;
    }
    let mut i: usize = 0;
    while i < n
        invariant
            n == a@.len(),
            n == b@.len(),
            0 <= i <= n,
            forall|j: int| 0 <= j < i ==> a@[j] == b@[j],
        decreases n - i,
    {
        if a.get_char(i) != b.get_char(i) {
            return false;
        }
        i = i + 1;
    }
    proof {
        assert(a@ =~= b@);
    }
    true
}

/// Concatenation of two string slices into an owned `String`.
pub fn concat_strs(a: &str, b: &str) -> (r: String)
    ensures
        r@ == a@ + b@,
{
    let mut out = String::from_str(a);
    out.append(b);
    out
}

/// `s` with every leading occurrence of `c` removed.
pub open spec fn strip_leading(s: Seq<char>, c: char) -> Seq<char>
    decreases s.len(),
{
    if s.len() > 0 && s[0] == c {
        strip_leading(s.subrange(1, s.len() as int), c)
    } else {
        s
    }
}

pub proof fn lemma_strip_leading_skip(s: Seq<char>, c: char, i: int)
    requires
        0 <= i <= s.len(),
        forall|j: int| 0 <= j < i ==> s[j] == c,
        i < s.len() ==> s[i] != c,
    ensures
        strip_leading(s, c) == s.subrange(i, s.len() as int),
    decreases i,
{
    if i == 0 {
        assert(s.subrange(0, s.len() as int) =~= s);
    } else {
        let t = s.subrange(1, s.len() as int);
        assert(forall|j: int| 0 <= j < i - 1 ==> t[j] == s[j + 1] && s[j + 1] == c);
        lemma_strip_leading_skip(t, c, i - 1);
        assert(t.subrange(i - 1, t.len() as int) =~= s.subrange(i, s.len() as int));
    }
}

/// The longest suffix of `s` that does not start with `c` (like `trim_start_matches`
/// with a single-character pattern).
pub fn strip_leading_chars<'a>(s: &'a str, c: char) -> (r: &'a str)
    ensures
        r@ == strip_leading(s@, c),
{
    let n: usize = s.unicode_len();
    let mut i: usize = 0;
    while i < n
        invariant
            n == s@.len(),
            0 <= i <= n,
            forall|j: int| 0 <= j < i ==> s@[j] == c,
        decreases n - i,
    {
        if s.get_char(i) != c {
            proof {
                lemma_strip_leading_skip(s@, c, i as int);
            }
            return s.substring_char(i, n);
        }
        i = i + 1;
    }
    proof {
        lemma_strip_leading_skip(s@, c, n as int);
    }
    s.substring_char(n, n)
}


/// `c` is an ASCII decimal digit.
pub open spec fn is_digit(c: char) -> bool {
    48 <= c as u32 <= 57
}

/// Numeric value of an ASCII decimal digit.
pub open spec fn digit_val(c: char) -> int {
    c as u32 - 48
}

pub open spec fn all_digits(s: Seq<char>) -> bool {
    forall|i: int| 0 <= i < s.len() ==> is_digit(#[trigger] s[i])
}

/// Value of a sequence of decimal digits, most significant first.
pub open spec fn digits_value(s: Seq<char>) -> int
    decreases s.len(),
{
    if s.len() == 0 {
        0
    } else {
        digits_value(s.drop_last()) * 10 + digit_val(s.last())
    }
}

pub proof fn lemma_digits_value_nonneg(s: Seq<char>)
    requires
        all_digits(s),
    ensures
        digits_value(s) >= 0,
    decreases s.len(),
{
    if s.len() == 0 {
    } else {
        assert(forall|i: int| 0 <= i < s.drop_last().len() ==> is_digit(#[trigger] s.drop_last()[i]));
        lemma_digits_value_nonneg(s.drop_last());
    }
}

/// Appending one digit multiplies the value by ten and adds the digit.
pub proof fn lemma_digits_value_extend(s: Seq<char>, i: int)
    requires
        0 <= i < s.len(),
    ensures
        digits_value(s.subrange(0, i + 1)) == digits_value(s.subrange(0, i)) * 10 + digit_val(s[i]),
{
    let t = s.subrange(0, i + 1);
    assert(t.drop_last() =~= s.subrange(0, i));
    assert(t.last() == s[i]);
}

/// The value of a digit string is at least the value of any of its prefixes.
pub proof fn lemma_digits_value_prefix(s: Seq<char>, i: int)
    requires
        all_digits(s),
        0 <= i <= s.len(),
    ensures
        digits_value(s.subrange(0, i)) <= digits_value(s),
    decreases s.len() - i,
{
    if i == s.len() {
        assert(s.subrange(0, i) =~= s);
    } else {
        lemma_digits_value_extend(s, i);
        let p = s.subrange(0, i);
        assert(forall|j: int| 0 <= j < p.len() ==> is_digit(#[trigger] p[j]));
        lemma_digits_value_nonneg(p);
        lemma_digits_value_prefix(s, i + 1);
    }
}

/// The string is negative when it starts with a minus sign.
pub open spec fn int_literal_neg(s: Seq<char>) -> bool {
    s.len() > 0 && s[0] == '-'
}

/// The digit portion of an integer literal, after an optional sign.
pub open spec fn int_literal_digits(s: Seq<char>) -> Seq<char> {
    if s.len() > 0 && (s[0] == '-' || s[0] == '+') {
        s.subrange(1, s.len() as int)
    } else {
        s
    }
}

/// What `str::parse::<i32>` accepts and returns: an optional sign followed by
/// one or more decimal digits, whose value fits in an `i32`.
pub open spec fn parse_i32_spec(s: Seq<char>) -> Option<i32> {
    let ds = int_literal_digits(s);
    if ds.len() == 0 || !all_digits(ds) {
        Option::None
    } else {
        let v = if int_literal_neg(s) {
            -digits_value(ds)
        } else {
            digits_value(ds)
        };
        if -0x8000_0000 <= v <= 0x7fff_ffff {
            Option::Some(v as i32)
        } else {
            Option::None
        }
    }
}

/// Decimal parsing of an `i32`, mirroring `str::parse::<i32>`.
pub fn parse_i32_str(s: &str) -> (r: Option<i32>)
    ensures
        r == parse_i32_spec(s@),
{
    let n: usize = s.unicode_len();
    if n == 0 {
        return Option::None;
    }
    let c0 = s.get_char(0);
    let neg = c0 == '-';
    let start: usize = if c0 == '-' || c0 == '+' {
        1
    } else {
        0
    };
    let ghost ds = int_literal_digits(s@);
    proof {
        assert(ds =~= s@.subrange(start as int, n as int));
    }
    if start == n {
        return Option::None;
    }
    let mut i: usize = start;
    let mut acc: u64 = 0;
    while i < n
        invariant
            n == s@.len(),
            start <= i <= n,
            start < n,
            ds == s@.subrange(start as int, n as int),
            ds == int_literal_digits(s@),
            neg == int_literal_neg(s@),
            forall|j: int| start <= j < i ==> is_digit(#[trigger] s@[j]),
            acc == digits_value(s@.subrange(start as int, i as int)),
            acc <= 0x8000_0000,
        decreases n - i,
    {
        let c = s.get_char(i);
        let cu = c as u32;
        if cu < 48 || cu > 57 {
            proof {
                assert(!is_digit(ds[i - start as int]));
            }
            return Option::None;
        }
        let d = (cu - 48) as u64;
        let next = acc * 10 + d;
        proof {
            lemma_digits_value_extend(ds, i - start as int);
            assert(ds.subrange(0, i - start as int) =~= s@.subrange(start as int, i as int));
            assert(ds.subrange(0, i - start + 1) =~= s@.subrange(start as int, i + 1));
            assert(ds[i - start as int] == s@[i as int]);
        }
        if next > 0x8000_0000 {
            proof {
                if all_digits(ds) {
                    lemma_digits_value_prefix(ds, i - start + 1);
                }
            }
            return Option::None;
        }
        acc = next;
        i = i + 1;
    }
    proof {
        assert(forall|j: int| 0 <= j < ds.len() ==> is_digit(#[trigger] ds[j]));
        assert(s@.subrange(start as int, i as int) =~= ds);
    }
    if neg {
        let v: i64 = -(acc as i64);
        Option::Some(v as i32)
    } else {
        if acc > 0x7fff_ffff {
            return Option::None;
        }
        Option::Some(acc as i32)
    }
}

/// ASCII character for a digit value.
pub open spec fn digit_char(d: int) -> char {
    ((48 + d) as u8) as char
}

/// Decimal representation of a natural number, most significant digit first.
pub open spec fn dec_digits(n: nat) -> Seq<char>
    decreases n,
{
    if n < 10 {
        seq![digit_char(n as int)]
    } else {
        dec_digits(n / 10) + seq![digit_char((n % 10) as int)]
    }
}

/// Decimal representation of an integer, with a leading minus sign if negative.
pub open spec fn dec_int(v: int) -> Seq<char> {
    if v < 0 {
        seq!['-'] + dec_digits((-v) as nat)
    } else {
        dec_digits(v as nat)
    }
}

/// Single-character string slice for a digit value.
fn digit_str(d: u64) -> (r: &'static str)
    requires
        d < 10,
    ensures
        r@ == seq![digit_char(d as int)],
{
    proof {
        reveal_strlit("0");
        reveal_strlit("1");
        reveal_strlit("2");
        reveal_strlit("3");
        reveal_strlit("4");
        reveal_strlit("5");
        reveal_strlit("6");
        reveal_strlit("7");
        reveal_strlit("8");
        reveal_strlit("9");
    }
    let r: &'static str = if d == 0 {
        "0"
    } else if d == 1 {
        "1"
    } else if d == 2 {
        "2"
    } else if d == 3 {
        "3"
    } else if d == 4 {
        "4"
    } else if d == 5 {
        "5"
    } else if d == 6 {
        "6"
    } else if d == 7 {
        "7"
    } else if d == 8 {
        "8"
    } else {
        "9"
    };
    proof {
        assert(r@ =~= seq![digit_char(d as int)]);
    }
    r
}

/// Appends the decimal digits of `m` to `out`.
fn push_dec_u64(out: &mut String, m: u64)
    ensures
        final(out)@ == old(out)@ + dec_digits(m as nat),
    decreases m,
{
    if m >= 10 {
        push_dec_u64(out, m / 10);
        out.append(digit_str(m % 10));
        proof {
            assert(final(out)@ =~= old(out)@ + dec_digits(m as nat));
        }
    } else {
        out.append(digit_str(m));
    }
}

/// Decimal rendering of a `u64`.
pub fn u64_to_dec_string(m: u64) -> (r: String)
    ensures
        r@ == dec_digits(m as nat),
{
    let mut out = String::new();
    push_dec_u64(&mut out, m);
    proof {
        assert(out@ =~= dec_digits(m as nat));
    }
    out
}

/// Decimal rendering of an `i32`, as `format!` would produce it.
pub fn i32_to_dec_string(v: i32) -> (r: String)
    ensures
        r@ == dec_int(v as int),
{
    if v < 0 {
        let mut out = String::from_str("-");
        proof {
            reveal_strlit("-");
            assert(out@ =~= seq!['-']);
        }
        let m: u64 = (-(v as i64)) as u64;
        push_dec_u64(&mut out, m);
        out
    } else {
        u64_to_dec_string(v as u64)
    }
}

} // verus!
