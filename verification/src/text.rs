//! Small verified text utilities: ASCII-case-insensitive comparison (actions
//! arrive case-insensitively from the transport), whitespace trimming (the
//! name field is stored trimmed), exact string comparison (palette lookup),
//! and decimal rendering (for the review text and greetings).

use vstd::prelude::*;

verus! {

/// The whitespace characters stripped from either end of a submitted name.
pub open spec fn is_space_char(c: char) -> bool {
    c == ' ' || c == '\t' || c == '\n' || c == '\r'
}

/// The code of `c`, with an ASCII upper-case letter folded to lower case.
pub open spec fn lower_code(c: char) -> u32 {
    if 65 <= c as u32 && c as u32 <= 90 {
        (c as u32 + 32) as u32
    } else {
        c as u32
    }
}

/// Character equality up to ASCII case.
pub open spec fn char_eq_ci(a: char, b: char) -> bool {
    lower_code(a) == lower_code(b)
}

/// String equality up to ASCII case.
pub open spec fn str_eq_ci(s: Seq<char>, t: Seq<char>) -> bool {
    s.len() == t.len() && (forall|i: int| 0 <= i < s.len() ==> char_eq_ci(s[i], t[i]))
}

/// Lexicographic order on strings, comparing character codes up to ASCII
/// case: the empty string first, then by the first differing position.
pub open spec fn ci_lex_le(a: Seq<char>, b: Seq<char>) -> bool
    decreases a.len(),
{
    if a.len() == 0 {
        true
    } else if b.len() == 0 {
        false
    } else if lower_code(a[0]) < lower_code(b[0]) {
        true
    } else if lower_code(a[0]) > lower_code(b[0]) {
        false
    } else {
        ci_lex_le(a.drop_first(), b.drop_first())
    }
}

/// The case-insensitive lexicographic order is total.
pub proof fn lemma_ci_lex_le_total(a: Seq<char>, b: Seq<char>)
    ensures
        ci_lex_le(a, b) || ci_lex_le(b, a),
    decreases a.len(),
{
    if a.len() > 0 && b.len() > 0 && lower_code(a[0]) == lower_code(b[0]) {
        lemma_ci_lex_le_total(a.drop_first(), b.drop_first());
    }
}

/// The case-insensitive lexicographic order is transitive.
pub proof fn lemma_ci_lex_le_trans(a: Seq<char>, b: Seq<char>, c: Seq<char>)
    requires
        ci_lex_le(a, b),
        ci_lex_le(b, c),
    ensures
        ci_lex_le(a, c),
    decreases a.len(),
{
    if a.len() > 0 {
        let x = lower_code(a[0]);
        let y = lower_code(b[0]);
        let z = lower_code(c[0]);
        if x == y && y == z {
            lemma_ci_lex_le_trans(a.drop_first(), b.drop_first(), c.drop_first());
        }
    }
}

/// Compare two strings in the case-insensitive lexicographic order.
pub fn ci_lex_le_exec(a: &str, b: &str) -> (r: bool)
    ensures
        r == ci_lex_le(a@, b@),
{
    let na: usize = a.unicode_len();
    let nb: usize = b.unicode_len();
    let mut i: usize = 0;
    proof {
        assert(a@.skip(0) =~= a@);
        assert(b@.skip(0) =~= b@);
    }
    loop
        invariant
            na == a@.len(),
            nb == b@.len(),
            0 <= i <= na,
            0 <= i <= nb,
            ci_lex_le(a@, b@) == ci_lex_le(a@.skip(i as int), b@.skip(i as int)),
        decreases na - i,
    {
        if i >= na {
            return true;
        }
        if i >= nb {
            return false;
        }
        let ca: u32 = a.get_char(i) as u32;
        let cb: u32 = b.get_char(i) as u32;
        let la: u32 = if 65 <= ca && ca <= 90 {
            ca + 32
        } else {
            ca
        };
        let lb: u32 = if 65 <= cb && cb <= 90 {
            cb + 32
        } else {
            cb
        };
        proof {
            assert(a@.skip(i as int)[0] == a@[i as int]);
            assert(b@.skip(i as int)[0] == b@[i as int]);
        }
        if la < lb {
            return true;
        }
        if la > lb {
            return false;
        }
        proof {
            assert(a@.skip(i as int).drop_first() =~= a@.skip(i + 1));
            assert(b@.skip(i as int).drop_first() =~= b@.skip(i + 1));
        }
        i += 1;
    }
}

/// Whether `c` is one of the whitespace characters stripped by [`trim`].
pub fn is_space(c: char) -> (r: bool)
    ensures
        r == is_space_char(c),
{
    c == ' ' || c == '\t' || c == '\n' || c == '\r'
}

/// Compare two strings for equality up to ASCII case.
pub fn eq_ignore_ascii_case(s: &str, t: &str) -> (r: bool)
    ensures
        r == str_eq_ci(s@, t@),
{
    let n: usize = s.unicode_len();
    if n != t.unicode_len() {
        return false;
    }
    let mut i: usize = 0;
    while i < n
        invariant
            n == s@.len(),
            s@.len() == t@.len(),
            0 <= i <= n,
            forall|j: int| 0 <= j < i ==> char_eq_ci(s@[j], t@[j]),
        decreases n - i,
    {
        let a: u32 = s.get_char(i) as u32;
        let b: u32 = t.get_char(i) as u32;
        let la: u32 = if 65 <= a && a <= 90 {
            a + 32
        } else {
            a
        };
        let lb: u32 = if 65 <= b && b <= 90 {
            b + 32
        } else {
            b
        };
        if la != lb {
            return false;
        }
        i += 1;
    }
    true
}

/// Compare two strings for exact equality of their character sequences.
pub fn str_eq(s: &str, t: &str) -> (r: bool)
    ensures
        r == (s@ == t@),
{
    let n: usize = s.unicode_len();
    if n != t.unicode_len() {
        return false;
    }
    let mut i: usize = 0;
    while i < n
        invariant
            n == s@.len(),
            s@.len() == t@.len(),
            0 <= i <= n,
            forall|j: int| 0 <= j < i ==> s@[j] == t@[j],
        decreases n - i,
    {
        if s.get_char(i) != t.get_char(i) {
            return false;
        }
        i += 1;
    }
    proof {
        assert(s@ =~= t@);
    }
    true
}

/// The index of the first character at or after `from` that is not whitespace,
/// or the length of the string if there is none.
pub open spec fn first_non_space(s: Seq<char>, from: int) -> int
    recommends
        0 <= from <= s.len(),
    decreases s.len() - from when 0 <= from <= s.len()
{
    if from >= s.len() {
        s.len() as int
    } else if is_space_char(s[from]) {
        first_non_space(s, from + 1)
    } else {
        from
    }
}

/// One past the index of the last character before `upto` that is not
/// whitespace, or `0` if there is none.
pub open spec fn last_non_space(s: Seq<char>, upto: int) -> int
    recommends
        0 <= upto <= s.len(),
    decreases upto when 0 <= upto <= s.len()
{
    if upto <= 0 {
        0
    } else if is_space_char(s[upto - 1]) {
        last_non_space(s, upto - 1)
    } else {
        upto
    }
}

/// `s` with leading and trailing whitespace removed.
pub open spec fn spec_trim(s: Seq<char>) -> Seq<char> {
    let a = first_non_space(s, 0);
    let b = last_non_space(s, s.len() as int);
    if a < b {
        s.subrange(a, b)
    } else {
        Seq::empty()
    }
}

pub proof fn lemma_first_non_space(s: Seq<char>, from: int)
    requires
        0 <= from <= s.len(),
    ensures
        from <= first_non_space(s, from) <= s.len(),
        forall|i: int| from <= i < first_non_space(s, from) ==> is_space_char(s[i]),
        first_non_space(s, from) < s.len() ==> !is_space_char(s[first_non_space(s, from)]),
    decreases s.len() - from,
{
    if from < s.len() && is_space_char(s[from]) {
        lemma_first_non_space(s, from + 1);
    }
}

pub proof fn lemma_last_non_space(s: Seq<char>, upto: int)
    requires
        0 <= upto <= s.len(),
    ensures
        0 <= last_non_space(s, upto) <= upto,
        forall|i: int| last_non_space(s, upto) <= i < upto ==> is_space_char(s[i]),
        last_non_space(s, upto) > 0 ==> !is_space_char(s[last_non_space(s, upto) - 1]),
    decreases upto,
{
    if upto > 0 && is_space_char(s[upto - 1]) {
        lemma_last_non_space(s, upto - 1);
    }
}

/// Strip leading and trailing whitespace from `s`.
pub fn trim<'a>(s: &'a str) -> (r: &'a str)
    ensures
        r@ == spec_trim(s@),
{
    let n: usize = s.unicode_len();
    proof {
        lemma_first_non_space(s@, 0);
        lemma_last_non_space(s@, s@.len() as int);
    }
    let mut a: usize = 0;
    while a < n && is_space(s.get_char(a))
        invariant
            n == s@.len(),
            0 <= a <= n,
            forall|j: int| 0 <= j < a ==> is_space_char(s@[j]),
        decreases n - a,
    {
        a += 1;
    }
    proof {
        let f = first_non_space(s@, 0);
        if f < a {
            assert(is_space_char(s@[f]));
        }
        if a < f {
            assert(is_space_char(s@[a as int]));
        }
        assert(a == f);
    }
    let mut b: usize = n;
    while b > a && is_space(s.get_char(b - 1))
        invariant
            n == s@.len(),
            a <= b <= n,
            forall|j: int| b <= j < n ==> is_space_char(s@[j]),
        decreases b,
    {
        b -= 1;
    }
    let r = s.substring_char(a, b);
    proof {
        let l = last_non_space(s@, s@.len() as int);
        if a == n {
            // the whole string is whitespace
            assert(b == n);
            if l > 0 {
                assert(!is_space_char(s@[l - 1]));
                assert(is_space_char(s@[l - 1]));
            }
            assert(r@ =~= spec_trim(s@));
        } else {
            // s@[a] is the first non-space character, so b stopped above a
            assert(!is_space_char(s@[a as int]));
            if b == a {
                assert(is_space_char(s@[a as int]));
            }
            assert(!is_space_char(s@[b - 1]));
            if l < b {
                assert(is_space_char(s@[b - 1]));
            }
            if b < l {
                assert(is_space_char(s@[l - 1]));
            }
            assert(b == l);
            assert(a < b);
            assert(r@ =~= spec_trim(s@));
        }
    }
    r
}

/// The decimal digit character for `d` in `0..=9`.
pub open spec fn digit_char(d: int) -> char
    recommends
        0 <= d <= 9,
{
    if d == 0 {
        '0'
    } else if d == 1 {
        '1'
    } else if d == 2 {
        '2'
    } else if d == 3 {
        '3'
    } else if d == 4 {
        '4'
    } else if d == 5 {
        '5'
    } else if d == 6 {
        '6'
    } else if d == 7 {
        '7'
    } else if d == 8 {
        '8'
    } else {
        '9'
    }
}

/// The decimal rendering of a non-negative integer, without leading zeros
/// (except for the number `0` itself).
pub open spec fn spec_decimal(n: int) -> Seq<char>
    recommends
        n >= 0,
    decreases n when n >= 0
{
    if n < 10 {
        seq![digit_char(n)]
    } else {
        spec_decimal(n / 10) + seq![digit_char(n % 10)]
    }
}

/// The decimal rendering of an integer, with a leading `-` when negative.
pub open spec fn spec_decimal_signed(n: int) -> Seq<char> {
    if n < 0 {
        seq!['-'] + spec_decimal(-n)
    } else {
        spec_decimal(n)
    }
}

fn push_digit(out: &mut String, d: u64)
    requires
        d < 10,
    ensures
        final(out)@ == old(out)@ + seq![digit_char(d as int)],
{
    if d == 0 {
        proof {
            reveal_strlit("0");
            assert("0"@ =~= seq![digit_char(d as int)]);
        }
        out.append("0");
    } else if d == 1 {
        proof {
            reveal_strlit("1");
            assert("1"@ =~= seq![digit_char(d as int)]);
        }
        out.append("1");
    } else if d == 2 {
        proof {
            reveal_strlit("2");
            assert("2"@ =~= seq![digit_char(d as int)]);
        }
        out.append("2");
    } else if d == 3 {
        proof {
            reveal_strlit("3");
            assert("3"@ =~= seq![digit_char(d as int)]);
        }
        out.append("3");
    } else if d == 4 {
        proof {
            reveal_strlit("4");
            assert("4"@ =~= seq![digit_char(d as int)]);
        }
        out.append("4");
    } else if d == 5 {
        proof {
            reveal_strlit("5");
            assert("5"@ =~= seq![digit_char(d as int)]);
        }
        out.append("5");
    } else if d == 6 {
        proof {
            reveal_strlit("6");
            assert("6"@ =~= seq![digit_char(d as int)]);
        }
        out.append("6");
    } else if d == 7 {
        proof {
            reveal_strlit("7");
            assert("7"@ =~= seq![digit_char(d as int)]);
        }
        out.append("7");
    } else if d == 8 {
        proof {
            reveal_strlit("8");
            assert("8"@ =~= seq![digit_char(d as int)]);
        }
        out.append("8");
    } else {
        proof {
            reveal_strlit("9");
            assert("9"@ =~= seq![digit_char(d as int)]);
        }
        out.append("9");
    }
}

/// Append the decimal rendering of `n` to `out`.
pub fn append_decimal(out: &mut String, n: u64)
    ensures
        final(out)@ == old(out)@ + spec_decimal(n as int),
    decreases n,
{
    if n < 10 {
        push_digit(out, n);
    } else {
        append_decimal(out, n / 10);
        push_digit(out, n % 10);
        proof {
            assert(final(out)@ =~= old(out)@ + spec_decimal(n as int));
        }
    }
}

/// The decimal rendering of `n` as a fresh string.
pub fn u64_to_decimal(n: u64) -> (r: String)
    ensures
        r@ == spec_decimal(n as int),
{
    let mut out = String::new();
    append_decimal(&mut out, n);
    proof {
        assert(out@ =~= spec_decimal(n as int));
    }
    out
}

/// The decimal rendering of a signed integer as a fresh string.
pub fn i64_to_decimal(n: i64) -> (r: String)
    ensures
        r@ == spec_decimal_signed(n as int),
{
    if n >= 0 {
        u64_to_decimal(n as u64)
    } else {
        // compute the magnitude without overflowing on the smallest value
        let mag: u64 = ((-(n + 1)) as u64) + 1;
        proof {
            assert(mag as int == -(n as int));
        }
        let mut out = String::from_str("-");
        proof {
            reveal_strlit("-");
            assert(out@ =~= seq!['-']);
        }
        append_decimal(&mut out, mag);
        out
    }
}

} // verus!
