//! Character-level helpers: ASCII case folding, keyword comparison, and
//! numeric literal parsing.

use vstd::prelude::*;
use vstd::string::StrSliceExecFns;

verus! {

/// ASCII lower-casing of one character; everything outside `A`..`Z` is kept.
pub open spec fn spec_lower_char(c: char) -> char {
    if 65 <= c as int <= 90 {
        ((c as u8) + 0x20) as char
    } else {
        c
    }
}

/// A character sequence with every ASCII upper-case letter folded to lower
/// case. Keywords, mnemonics and label names compare through this.
pub open spec fn lower_seq(s: Seq<char>) -> Seq<char> {
    s.map_values(|c: char| spec_lower_char(c))
}

/// ASCII lower-casing of one character.
pub fn lower_char(c: char) -> (r: char)
    ensures
        r == spec_lower_char(c),
{
    let v = c as u32;
    if 65 <= v && v <= 90 {
        ((v + 0x20) as u8) as char
    } else {
        c
    }
}

/// Case-insensitively compare `s` against a lower-case keyword.
pub fn eq_lower(s: &str, lit: &str) -> (r: bool)
    ensures
        r == (lower_seq(s@) == lit@),
{
    let n = s.unicode_len();
    if n != lit.unicode_len() {
        assert(lower_seq(s@).len() != lit@.len());
        return false;
    }
    for i in 0..n
        invariant
            n == s@.len(),
            n == lit@.len(),
            forall|j: int| 0 <= j < i ==> lower_seq(s@)[j] == lit@[j],
    {
        let c = lower_char(s.get_char(i));
        if c != lit.get_char(i) {
            assert(lower_seq(s@)[i as int] != lit@[i as int]);
            return false;
        }
        assert(lower_seq(s@)[i as int] == lit@[i as int]);
    }
    assert(lower_seq(s@) =~= lit@);
    true
}

/// Case-insensitively compare two strings.
pub fn eq_ignore_case(a: &str, b: &str) -> (r: bool)
    ensures
        r == (lower_seq(a@) == lower_seq(b@)),
{
    let n = a.unicode_len();
    if n != b.unicode_len() {
        assert(lower_seq(a@).len() != lower_seq(b@).len());
        return false;
    }
    for i in 0..n
        invariant
            n == a@.len(),
            n == b@.len(),
            forall|j: int| 0 <= j < i ==> lower_seq(a@)[j] == lower_seq(b@)[j],
    {
        if lower_char(a.get_char(i)) != lower_char(b.get_char(i)) {
            assert(lower_seq(a@)[i as int] != lower_seq(b@)[i as int]);
            return false;
        }
        assert(lower_seq(a@)[i as int] == lower_seq(b@)[i as int]);
    }
    assert(lower_seq(a@) =~= lower_seq(b@));
    true
}

/// The numeric value of `c` as a digit in the given radix (10 or 16); hex
/// digits in either case.
pub open spec fn digit_val(c: char, radix: int) -> Option<int> {
    let v = c as int;
    if 48 <= v <= 57 && v - 48 < radix {
        Some(v - 48)
    } else if 97 <= v <= 102 && radix == 16 {
        Some(v - 87)
    } else if 65 <= v <= 70 && radix == 16 {
        Some(v - 55)
    } else {
        None
    }
}

/// Every character of `s` is a digit of the radix.
pub open spec fn all_digits(s: Seq<char>, radix: int) -> bool {
    forall|i: int| 0 <= i < s.len() ==> #[trigger] digit_val(s[i], radix) is Some
}

/// The value of a digit string, most significant digit first. Characters
/// that are no digit of the radix count as zero; callers guard with
/// `all_digits`.
pub open spec fn digits_value(s: Seq<char>, radix: int) -> int
    decreases s.len(),
{
    if s.len() == 0 {
        0
    } else {
        digits_value(s.drop_last(), radix) * radix + (match digit_val(s.last(), radix) {
            Some(d) => d,
            None => 0,
        })
    }
}

/// A digit string never has a negative value.
pub proof fn lemma_digits_value_nonneg(s: Seq<char>, radix: int)
    requires
        radix >= 1,
    ensures
        digits_value(s, radix) >= 0,
    decreases s.len(),
{
    if s.len() > 0 {
        lemma_digits_value_nonneg(s.drop_last(), radix);
        let v = digits_value(s.drop_last(), radix);
        assert(v * radix >= 0) by (nonlinear_arith)
            requires
                v >= 0,
                radix >= 1,
        ;
        assert(match digit_val(s.last(), radix) {
            Some(d) => d >= 0,
            None => true,
        });
    }
}

/// Extending a digit string can only grow its value.
pub proof fn lemma_digits_value_mono(s: Seq<char>, i: int, j: int, radix: int)
    requires
        0 <= i <= j <= s.len(),
        radix >= 1,
    ensures
        digits_value(s.take(i), radix) <= digits_value(s.take(j), radix),
    decreases j - i,
{
    if i < j {
        lemma_digits_value_mono(s, i, j - 1, radix);
        assert(s.take(j).drop_last() =~= s.take(j - 1));
        let v = digits_value(s.take(j - 1), radix);
        lemma_digits_value_nonneg(s.take(j - 1), radix);
        assert(v * radix >= v) by (nonlinear_arith)
            requires
                v >= 0,
                radix >= 1,
        ;
        lemma_digits_value_nonneg(s.take(j), radix);
    }
}

/// The 16-bit value of a digit string: defined exactly when the string is
/// nonempty, all digits, and its value fits.
pub open spec fn spec_parse_u16(s: Seq<char>, radix: int) -> Option<u16> {
    if s.len() >= 1 && all_digits(s, radix) && digits_value(s, radix) <= 0xFFFF {
        Some(digits_value(s, radix) as u16)
    } else {
        None
    }
}

/// The numeric value of one digit character.
pub fn digit_of(c: char, radix: u32) -> (r: Option<u8>)
    requires
        radix == 10 || radix == 16,
    ensures
        match r {
            Some(d) => digit_val(c, radix as int) == Some(d as int),
            None => digit_val(c, radix as int) is None,
        },
{
    let v = c as u32;
    if 48 <= v && v <= 57 && v - 48 < radix {
        Some((v - 48) as u8)
    } else if 97 <= v && v <= 102 && radix == 16 {
        Some((v - 87) as u8)
    } else if 65 <= v && v <= 70 && radix == 16 {
        Some((v - 55) as u8)
    } else {
        None
    }
}

/// Parse a nonempty digit string as an up-to-16-bit number.
pub fn parse_u16(s: &str, radix: u32) -> (r: Option<u16>)
    requires
        radix == 10 || radix == 16,
    ensures
        r == spec_parse_u16(s@, radix as int),
{
    let n = s.unicode_len();
    if n == 0 {
        return None;
    }
    let mut acc: u32 = 0;
    let mut i: usize = 0;
    while i < n
        invariant
            n == s@.len(),
            0 <= i <= n,
            radix == 10 || radix == 16,
            all_digits(s@.take(i as int), radix as int),
            acc == digits_value(s@.take(i as int), radix as int),
            acc <= 0xFFFF,
        decreases n - i,
    {
        let c = s.get_char(i);
        let d = match digit_of(c, radix) {
            Some(d) => d,
            None => {
                assert(digit_val(s@[i as int], radix as int) is None);
                assert(!all_digits(s@, radix as int));
                return None;
            },
        };
        proof {
            assert(s@.take(i + 1).drop_last() =~= s@.take(i as int));
            assert(s@.take(i + 1).last() == s@[i as int]);
            assert(forall|j: int|
                0 <= j < i + 1 ==> #[trigger] digit_val(s@.take(i + 1)[j], radix as int) is Some);
        }
        acc = acc * radix + d as u32;
        i = i + 1;
        if acc > 0xFFFF {
            proof {
                lemma_digits_value_mono(s@, i as int, n as int, radix as int);
                assert(s@.take(n as int) =~= s@);
            }
            return None;
        }
    }
    proof {
        assert(s@.take(n as int) =~= s@);
    }
    Some(acc as u16)
}

/// Whether `s` is a nonempty string of digits of the radix.
pub fn is_all_digits(s: &str, radix: u32) -> (r: bool)
    requires
        radix == 10 || radix == 16,
    ensures
        r == (s@.len() >= 1 && all_digits(s@, radix as int)),
{
    let n = s.unicode_len();
    if n == 0 {
        return false;
    }
    for i in 0..n
        invariant
            n == s@.len(),
            forall|j: int| 0 <= j < i ==> #[trigger] digit_val(s@[j], radix as int) is Some,
            radix == 10 || radix == 16,
    {
        if digit_of(s.get_char(i), radix).is_none() {
            assert(digit_val(s@[i as int], radix as int) is None);
            return false;
        }
    }
    true
}

/// The whitespace characters that trimming removes.
pub open spec fn is_space(c: char) -> bool {
    c == ' ' || c == '\t' || c == '\r' || c == '\n'
}

/// The separators that break a line into tokens.
pub open spec fn is_sep(c: char) -> bool {
    c == ' ' || c == ',' || c == ':' || c == '\t'
}

/// Whether `c` is trimmed as whitespace.
pub fn is_space_char(c: char) -> (r: bool)
    ensures
        r == is_space(c),
{
    c == ' ' || c == '\t' || c == '\r' || c == '\n'
}

/// Whether `c` separates tokens.
pub fn is_sep_char(c: char) -> (r: bool)
    ensures
        r == is_sep(c),
{
    c == ' ' || c == ',' || c == ':' || c == '\t'
}

/// `s` without its leading whitespace.
pub open spec fn trim_front(s: Seq<char>) -> Seq<char>
    decreases s.len(),
{
    if s.len() > 0 && is_space(s[0]) {
        trim_front(s.drop_first())
    } else {
        s
    }
}

/// `s` without its trailing whitespace.
pub open spec fn trim_back(s: Seq<char>) -> Seq<char>
    decreases s.len(),
{
    if s.len() > 0 && is_space(s.last()) {
        trim_back(s.drop_last())
    } else {
        s
    }
}

/// `s` without leading and trailing whitespace.
pub open spec fn spec_trim(s: Seq<char>) -> Seq<char> {
    trim_back(trim_front(s))
}

proof fn lemma_trim_front_is(s: Seq<char>, a: int)
    requires
        0 <= a <= s.len(),
        forall|j: int| 0 <= j < a ==> is_space(s[j]),
        a == s.len() || !is_space(s[a]),
    ensures
        trim_front(s) =~= s.skip(a),
    decreases a,
{
    if a == 0 {
        assert(s.skip(0) =~= s);
    } else {
        assert(is_space(s[0]));
        lemma_trim_front_is(s.drop_first(), a - 1);
        assert(s.drop_first().skip(a - 1) =~= s.skip(a));
    }
}

proof fn lemma_trim_back_is(s: Seq<char>, b: int)
    requires
        0 <= b <= s.len(),
        forall|j: int| b <= j < s.len() ==> is_space(s[j]),
        b == 0 || !is_space(s[b - 1]),
    ensures
        trim_back(s) =~= s.take(b),
    decreases s.len() - b,
{
    if b == s.len() {
        if s.len() > 0 && is_space(s.last()) {
            lemma_trim_back_is(s.drop_last(), b - 1);
        } else {
            assert(s.take(b) =~= s);
        }
    } else {
        assert(is_space(s.last()));
        lemma_trim_back_is(s.drop_last(), b);
        assert(s.drop_last().take(b) =~= s.take(b));
    }
}

/// Strip leading and trailing whitespace.
pub fn trim_str<'a>(s: &'a str) -> (r: &'a str)
    ensures
        r@ == spec_trim(s@),
{
    let n = s.unicode_len();
    let mut a: usize = 0;
    while a < n && is_space_char(s.get_char(a))
        invariant
            n == s@.len(),
            0 <= a <= n,
            forall|j: int| 0 <= j < a ==> is_space(s@[j]),
        decreases n - a,
    {
        a += 1;
    }
    let mut b: usize = n;
    while b > a && is_space_char(s.get_char(b - 1))
        invariant
            a <= b <= n,
            n == s@.len(),
            forall|j: int| b <= j < n ==> is_space(s@[j]),
        decreases b,
    {
        b -= 1;
    }
    proof {
        lemma_trim_front_is(s@, a as int);
        let t = s@.skip(a as int);
        lemma_trim_back_is(t, b - a);
        assert(t.take(b - a) =~= s@.subrange(a as int, b as int));
    }
    s.substring_char(a, b)
}

/// The position of the first separator in `s`, or its length when there is
/// none.
pub open spec fn first_sep(s: Seq<char>) -> int
    decreases s.len(),
{
    if s.len() == 0 {
        0
    } else if is_sep(s[0]) {
        0
    } else {
        1 + first_sep(s.drop_first())
    }
}

proof fn lemma_first_sep_is(s: Seq<char>, i: int)
    requires
        0 <= i <= s.len(),
        forall|j: int| 0 <= j < i ==> !is_sep(s[j]),
        i == s.len() || is_sep(s[i]),
    ensures
        first_sep(s) == i,
    decreases i,
{
    if i > 0 {
        lemma_first_sep_is(s.drop_first(), i - 1);
    }
}

proof fn lemma_first_sep_le(s: Seq<char>)
    ensures
        0 <= first_sep(s) <= s.len(),
        first_sep(s) < s.len() ==> is_sep(s[first_sep(s)]),
        s.len() > 0 && !is_sep(s[0]) ==> first_sep(s) >= 1,
    decreases s.len(),
{
    if s.len() > 0 && !is_sep(s[0]) {
        lemma_first_sep_le(s.drop_first());
    }
}

/// `s` broken at its separators, empty pieces dropped.
pub open spec fn spec_tokens(s: Seq<char>) -> Seq<Seq<char>>
    decreases s.len(),
{
    if s.len() == 0 {
        Seq::<Seq<char>>::empty()
    } else if is_sep(s[0]) {
        spec_tokens(s.drop_first())
    } else {
        let k0 = first_sep_len(s);
        let k = if k0 < 1 {
            1
        } else {
            k0
        };
        seq![s.take(k)] + spec_tokens(s.skip(k))
    }
}

/// `first_sep`, clamped into `s` for the recursion above.
pub open spec fn first_sep_len(s: Seq<char>) -> int {
    if first_sep(s) <= s.len() {
        first_sep(s)
    } else {
        s.len() as int
    }
}

/// A vector of token strings as the contracts see it.
pub open spec fn toks_view(ts: Seq<String>) -> Seq<Seq<char>> {
    ts.map_values(|t: String| t@)
}

/// Break a line into its tokens.
pub fn tokenize(s: &str) -> (r: Vec<String>)
    ensures
        toks_view(r@) == spec_tokens(s@),
{
    let n = s.unicode_len();
    let mut toks: Vec<String> = Vec::new();
    let mut pos: usize = 0;
    proof {
        assert(s@.skip(0) =~= s@);
        assert(toks_view(toks@) =~= Seq::<Seq<char>>::empty());
        assert(Seq::<Seq<char>>::empty() + spec_tokens(s@) =~= spec_tokens(s@));
    }
    while pos < n
        invariant
            n == s@.len(),
            0 <= pos <= n,
            toks_view(toks@) + spec_tokens(s@.skip(pos as int)) =~= spec_tokens(s@),
        decreases n - pos,
    {
        let c = s.get_char(pos);
        if is_sep_char(c) {
            proof {
                assert(s@.skip(pos as int).drop_first() =~= s@.skip(pos + 1));
            }
            pos += 1;
        } else {
            let mut e: usize = pos + 1;
            while e < n && !is_sep_char(s.get_char(e))
                invariant
                    n == s@.len(),
                    pos < e <= n,
                    forall|j: int| pos <= j < e ==> !is_sep(s@[j]),
                decreases n - e,
            {
                e += 1;
            }
            let tok = s.substring_char(pos, e);
            proof {
                let rest = s@.skip(pos as int);
                assert forall|j: int| 0 <= j < e - pos implies !is_sep(rest[j]) by {
                    assert(rest[j] == s@[pos + j]);
                }
                if e < n {
                    assert(is_sep(rest[e - pos]));
                }
                lemma_first_sep_is(rest, e - pos);
                lemma_first_sep_le(rest);
                assert(first_sep_len(rest) == e - pos);
                assert(tok@ =~= rest.take(e - pos));
                assert(rest.skip(e - pos) =~= s@.skip(e as int));
                assert(spec_tokens(rest) == seq![rest.take(e - pos)] + spec_tokens(
                    s@.skip(e as int),
                ));
            }
            let ghost prev = toks@;
            toks.push(tok.to_owned());
            proof {
                assert(toks_view(toks@) =~= toks_view(prev).push(tok@));
                assert(toks_view(toks@) + spec_tokens(s@.skip(e as int)) =~= spec_tokens(s@));
            }
            pos = e;
        }
    }
    proof {
        assert(s@.skip(n as int) =~= Seq::<char>::empty());
    }
    toks
}

/// The position of the first occurrence of `c` in `s`, or the length of `s`
/// when there is none.
pub open spec fn first_idx(s: Seq<char>, c: char) -> int
    decreases s.len(),
{
    if s.len() == 0 {
        0
    } else if s[0] == c {
        0
    } else {
        1 + first_idx(s.drop_first(), c)
    }
}

/// `first_idx` stays inside the sequence and is characterized by what it
/// points at.
pub proof fn lemma_first_idx_le(s: Seq<char>, c: char)
    ensures
        0 <= first_idx(s, c) <= s.len(),
        first_idx(s, c) < s.len() ==> s[first_idx(s, c)] == c,
        forall|j: int| 0 <= j < first_idx(s, c) ==> s[j] != c,
    decreases s.len(),
{
    if s.len() > 0 && s[0] != c {
        lemma_first_idx_le(s.drop_first(), c);
        assert forall|j: int| 0 <= j < first_idx(s, c) implies s[j] != c by {
            if j > 0 {
                assert(s.drop_first()[j - 1] != c);
            }
        }
    }
}

proof fn lemma_first_idx_is(s: Seq<char>, c: char, i: int)
    requires
        0 <= i <= s.len(),
        forall|j: int| 0 <= j < i ==> s[j] != c,
        i == s.len() || s[i] == c,
    ensures
        first_idx(s, c) == i,
    decreases i,
{
    if i > 0 {
        lemma_first_idx_is(s.drop_first(), c, i - 1);
    }
}

/// The position of the first occurrence of `c`, or the string's length.
pub fn find_char(s: &str, c: char) -> (r: usize)
    ensures
        r as int == first_idx(s@, c),
        r <= s@.len(),
        r < s@.len() ==> s@[r as int] == c,
        forall|j: int| 0 <= j < r ==> s@[j] != c,
{
    let n = s.unicode_len();
    let mut i: usize = 0;
    while i < n && s.get_char(i) != c
        invariant
            n == s@.len(),
            0 <= i <= n,
            forall|j: int| 0 <= j < i ==> s@[j] != c,
        decreases n - i,
    {
        i += 1;
    }
    proof {
        lemma_first_idx_is(s@, c, i as int);
    }
    i
}

/// Relies on String::push: it appends exactly the given character.
#[verifier::external_body]
fn push_char(s: &mut String, c: char)
    ensures
        final(s)@ == old(s)@.push(c),
{
    s.push(c);
}

/// A copy of `s` with every ASCII upper-case letter folded to lower case.
pub fn lower_string(s: &str) -> (r: String)
    ensures
        r@ == lower_seq(s@),
{
    let n = s.unicode_len();
    let mut r = String::new();
    let mut i: usize = 0;
    while i < n
        invariant
            n == s@.len(),
            0 <= i <= n,
            r@ =~= lower_seq(s@).take(i as int),
        decreases n - i,
    {
        push_char(&mut r, lower_char(s.get_char(i)));
        proof {
            assert(lower_seq(s@).take(i + 1) =~= lower_seq(s@).take(i as int).push(
                spec_lower_char(s@[i as int]),
            ));
        }
        i += 1;
    }
    proof {
        assert(lower_seq(s@).take(n as int) =~= lower_seq(s@));
    }
    r
}

/// A copy of `s` with every ASCII lower-case letter raised to upper case.
pub open spec fn spec_upper_char(c: char) -> char {
    if 97 <= c as int <= 122 {
        ((c as u8) - 0x20) as char
    } else {
        c
    }
}

/// A character sequence with every ASCII lower-case letter raised to upper
/// case.
pub open spec fn upper_seq(s: Seq<char>) -> Seq<char> {
    s.map_values(|c: char| spec_upper_char(c))
}

/// A copy of `s` with every ASCII lower-case letter raised to upper case.
pub fn upper_string(s: &str) -> (r: String)
    ensures
        r@ == upper_seq(s@),
{
    let n = s.unicode_len();
    let mut r = String::new();
    let mut i: usize = 0;
    while i < n
        invariant
            n == s@.len(),
            0 <= i <= n,
            r@ =~= upper_seq(s@).take(i as int),
        decreases n - i,
    {
        let c = s.get_char(i);
        let v = c as u32;
        let u = if 97 <= v && v <= 122 {
            ((v - 0x20) as u8) as char
        } else {
            c
        };
        push_char(&mut r, u);
        proof {
            assert(upper_seq(s@).take(i + 1) =~= upper_seq(s@).take(i as int).push(
                spec_upper_char(s@[i as int]),
            ));
        }
        i += 1;
    }
    proof {
        assert(upper_seq(s@).take(n as int) =~= upper_seq(s@));
    }
    r
}

} // verus!
