//! Text helpers: ASCII case folding and decimal rendering.

use vstd::prelude::*;
use vstd::string::*;

verus! {

/// ASCII lower case of one character: `A`..=`Z` map to `a`..=`z`, every
/// other character is left unchanged.
pub open spec fn ascii_lower(c: char) -> char {
    if 'A' <= c && c <= 'Z' {
        ((c as u8) + 32) as char
    } else {
        c
    }
}

/// ASCII lower case of a whole string, character by character.
pub open spec fn ascii_lower_seq(s: Seq<char>) -> Seq<char> {
    s.map_values(|c: char| ascii_lower(c))
}

/// Folding to ASCII lower case twice is folding once.
pub proof fn lemma_ascii_lower_idempotent(s: Seq<char>)
    ensures
        ascii_lower_seq(ascii_lower_seq(s)) == ascii_lower_seq(s),
{
    assert forall|i: int| 0 <= i < s.len() implies ascii_lower(ascii_lower(#[trigger] s[i]))
        == ascii_lower(s[i]) by {
        let c = s[i];
        if 'A' <= c && c <= 'Z' {
            let u = c as u8;
            assert(65 <= u <= 90);
        }
    }
    assert(ascii_lower_seq(ascii_lower_seq(s)) =~= ascii_lower_seq(s));
}

/// ASCII case folding moves each upper-case letter `A`..=`Z` up by 32
/// code points, onto its lower-case letter, and leaves every other
/// character as it is.
pub proof fn lemma_ascii_lower_letters(c: char)
    ensures
        ('A' <= c && c <= 'Z') ==> ascii_lower(c) as int == c as int + 32,
        ('A' <= c && c <= 'Z') ==> 'a' <= ascii_lower(c) && ascii_lower(c) <= 'z',
        !('A' <= c && c <= 'Z') ==> ascii_lower(c) == c,
{
    if 'A' <= c && c <= 'Z' {
        let u = c as u8;
        assert(65 <= u <= 90);
        assert(u as int == c as int);
    }
}

/// `s` differs from `w` only in that some lower-case ASCII letters of `w`
/// are written in upper case.
pub open spec fn is_ascii_case_variant(s: Seq<char>, w: Seq<char>) -> bool {
    &&& s.len() == w.len()
    &&& forall|i: int| 0 <= i < s.len() ==> {
        ||| #[trigger] s[i] == w[i]
        ||| ('a' <= w[i] && w[i] <= 'z' && s[i] as int == w[i] as int - 32)
    }
}

/// No character of `w` is an ASCII upper-case letter.
pub open spec fn has_no_ascii_upper(w: Seq<char>) -> bool {
    forall|i: int| 0 <= i < w.len() ==> !('A' <= #[trigger] w[i] && w[i] <= 'Z')
}

/// For a text `w` without upper-case ASCII letters, folding `s` to ASCII
/// lower case gives `w` exactly when `s` is an ASCII case variant of `w`.
pub proof fn lemma_ascii_lower_matches_case_variants(s: Seq<char>, w: Seq<char>)
    requires
        has_no_ascii_upper(w),
    ensures
        (ascii_lower_seq(s) == w) <==> is_ascii_case_variant(s, w),
{
    if ascii_lower_seq(s) == w {
        assert forall|i: int| 0 <= i < s.len() implies {
            ||| #[trigger] s[i] == w[i]
            ||| ('a' <= w[i] && w[i] <= 'z' && s[i] as int == w[i] as int - 32)
        } by {
            lemma_ascii_lower_letters(s[i]);
            assert(ascii_lower_seq(s)[i] == ascii_lower(s[i]));
        }
    }
    if is_ascii_case_variant(s, w) {
        assert forall|i: int| 0 <= i < s.len() implies #[trigger] ascii_lower_seq(s)[i] == w[i] by {
            lemma_ascii_lower_letters(s[i]);
            if s[i] != w[i] {
                assert(s[i] as int == w[i] as int - 32);
                assert('A' <= s[i] && s[i] <= 'Z');
                assert(ascii_lower(s[i]) as int == w[i] as int);
            }
        }
        assert(ascii_lower_seq(s) =~= w);
    }
}

/// Lower-cases one character.
pub fn char_to_ascii_lower(c: char) -> (r: char)
    ensures
        r == ascii_lower(c),
{
    if 'A' <= c && c <= 'Z' {
        ((c as u8) + 32) as char
    } else {
        c
    }
}

/// Returns `true` when `s`, folded to ASCII lower case, is exactly `lit`.
pub fn eq_ignore_ascii_case(s: &str, lit: &str) -> (r: bool)
    ensures
        r == (ascii_lower_seq(s@) == lit@),
{
    let n = lit.unicode_len();
    let mut i: usize = 0;
    let mut same = true;
    for c in it: s.chars()
        invariant
            n == lit@.len(),
            it.seq() == s@,
            i <= n,
            same ==> i == it.index(),
            same ==> forall|j: int| 0 <= j < i ==> ascii_lower(#[trigger] s@[j]) == lit@[j],
            !same ==> ascii_lower_seq(s@) != lit@,
    {
        if same {
            if i < n && char_to_ascii_lower(c) == lit.get_char(i) {
                i = i + 1;
            } else {
                assert(ascii_lower_seq(s@)[i as int] == ascii_lower(s@[i as int]));
                same = false;
            }
        }
    }
    let r = same && i == n;
    if r {
        assert(ascii_lower_seq(s@) =~= lit@);
    }
    r
}

/// Returns `true` when `a` and `b` hold the same characters.
pub fn str_eq(a: &str, b: &str) -> (r: bool)
    ensures
        r == (a@ == b@),
{
    let n = b.unicode_len();
    let mut i: usize = 0;
    let mut same = true;
    for c in it: a.chars()
        invariant
            n == b@.len(),
            it.seq() == a@,
            i <= n,
            same ==> i == it.index(),
            same ==> forall|j: int| 0 <= j < i ==> #[trigger] a@[j] == b@[j],
            !same ==> a@ != b@,
    {
        if same {
            if i < n && c == b.get_char(i) {
                i = i + 1;
            } else {
                same = false;
            }
        }
    }
    let r = same && i == n;
    if r {
        assert(a@ =~= b@);
    }
    r
}

/// The character of a decimal digit `d` (`d < 10`).
pub open spec fn digit_char(d: nat) -> char {
    (('0' as u8) + d) as char
}

/// Decimal rendering of a natural number: most significant digit first,
/// no leading zeros, `"0"` for zero.
pub open spec fn decimal(n: nat) -> Seq<char>
    decreases n,
{
    if n < 10 {
        seq![digit_char(n)]
    } else {
        decimal(n / 10).push(digit_char(n % 10))
    }
}

/// The number that a text of decimal digits denotes, most significant
/// digit first (each character counted by its distance from `'0'`).
pub open spec fn decimal_value(s: Seq<char>) -> int
    decreases s.len(),
{
    if s.len() == 0 {
        0
    } else {
        decimal_value(s.drop_last()) * 10 + (s.last() as int - '0' as int)
    }
}

/// Every character is an ASCII digit `0`..=`9`.
pub open spec fn all_ascii_digits(s: Seq<char>) -> bool {
    forall|i: int| 0 <= i < s.len() ==> '0' <= #[trigger] s[i] && s[i] <= '9'
}

/// The decimal rendering of `n` is the standard base-10 text of `n`: it
/// is made of ASCII digits, it reads back to `n`, and it has no leading
/// zero (it is `"0"` only for zero).
pub proof fn lemma_decimal_reads_back(n: nat)
    ensures
        all_ascii_digits(decimal(n)),
        decimal_value(decimal(n)) == n,
        decimal(n).len() >= 1,
        decimal(n)[0] == '0' ==> n == 0,
        decimal(n).len() == 1 <==> n < 10,
    decreases n,
{
    if n >= 10 {
        lemma_decimal_reads_back(n / 10);
        let d = decimal(n);
        assert(d.drop_last() =~= decimal(n / 10));
        assert(d[0] == decimal(n / 10)[0]);
        assert(((('0' as u8) + (n % 10)) as char) as int == 48 + n % 10);
        assert forall|i: int| 0 <= i < d.len() implies '0' <= #[trigger] d[i] && d[i] <= '9' by {
            if i < d.len() - 1 {
                assert(d[i] == decimal(n / 10)[i]);
            }
        }
        assert(d.last() as int == 48 + n % 10);
        assert(decimal_value(d) == decimal_value(d.drop_last()) * 10 + (d.last() as int - 48));
        assert(n == (n / 10) * 10 + n % 10);
    } else {
        assert((((('0' as u8) + n) as char) as int) == 48 + n);
        let d = decimal(n);
        assert(d.drop_last() =~= Seq::<char>::empty());
        assert(decimal_value(d) == decimal_value(d.drop_last()) * 10 + (d.last() as int - 48));
    }
}

fn digit_str(d: u32) -> (r: &'static str)
    requires
        d < 10,
    ensures
        r@ == seq![digit_char(d as nat)],
{
    proof {
        reveal_strlit("0");
        reveal_strlit("1");
        reveal_strlit("2");
        reveal_strlit("3");
        reveal_strlit("4");
        reveal_strlit("5");
        reveal_strlit("6");
        reveal_strlit("7");
        reveal_strlit("8");
        reveal_strlit("9");
    }
    match d {
        0 => "0",
        1 => "1",
        2 => "2",
        3 => "3",
        4 => "4",
        5 => "5",
        6 => "6",
        7 => "7",
        8 => "8",
        _ => "9",
    }
}

fn push_decimal(n: u32, out: &mut String)
    ensures
        final(out)@ == old(out)@ + decimal(n as nat),
    decreases n,
{
    if n >= 10 {
        push_decimal(n / 10, out);
    }
    out.append(digit_str(n % 10));
    assert(decimal(n as nat) =~= if n < 10 { seq![digit_char(n as nat)] } else {
        decimal((n / 10) as nat).push(digit_char((n % 10) as nat))
    });
}

/// Renders `n` in decimal, as `u32::to_string` does.
pub fn u32_to_decimal(n: u32) -> (r: String)
    ensures
        r@ == decimal(n as nat),
        all_ascii_digits(r@),
        decimal_value(r@) == n,
{
    proof {
        lemma_decimal_reads_back(n as nat);
    }
    let mut out = String::new();
    push_decimal(n, &mut out);
    out
}

/// What `format!("{:?}", s)` renders for a string slice: the text in
/// double quotes, with quotes, backslashes and control characters escaped.
pub uninterp spec fn debug_quoted(s: Seq<char>) -> Seq<char>;

/// Renders `s` with `str`'s `Debug` formatting.
///
/// Trusted: calls `format!("{:?}", s)`; the contract claims only that the
/// result is a function of the characters of `s` (named `debug_quoted`).
#[verifier::external_body]
pub(crate) fn debug_str(s: &str) -> (r: String)
    ensures
        r@ == debug_quoted(s@),
{
    format!("{:?}", s)
}

/// A fresh `String` holding the characters of `s`.
pub fn string_from(s: &str) -> (r: String)
    ensures
        r@ == s@,
{
    let mut out = String::new();
    out.append(s);
    out
}

} // verus!
