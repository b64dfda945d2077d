//! Text and byte helpers shared by both providers.
//!
//! Texts are specified by their character sequences (`s@`); byte payloads by
//! their UTF-8 encodings (`encode_utf8`).
use vstd::prelude::*;
use vstd::utf8::*;

verus! {

broadcast use {encode_utf8_valid_utf8, encode_utf8_decode_utf8};

/// The ASCII lowercase form of one character.
pub open spec fn lower_ascii_char(c: char) -> char {
    if 'A' <= c && c <= 'Z' {
        ((c as u32) + 32) as char
    } else {
        c
    }
}

/// Every ASCII capital letter of `s` replaced by its lowercase letter.
pub open spec fn ascii_lowercase(s: Seq<char>) -> Seq<char> {
    Seq::new(s.len(), |i: int| lower_ascii_char(s[i]))
}

/// `pattern` occurs in `s` starting at index `i`.
pub open spec fn occurs_at(s: Seq<char>, pattern: Seq<char>, i: int) -> bool {
    0 <= i && i + pattern.len() <= s.len() && s.subrange(i, i + pattern.len()) == pattern
}

/// `i` is the first index at which `pattern` occurs in `s`.
pub open spec fn is_first_occurrence(s: Seq<char>, pattern: Seq<char>, i: int) -> bool {
    occurs_at(s, pattern, i) && forall|j: int| 0 <= j < i ==> !occurs_at(s, pattern, j)
}

/// `s` split around the first occurrence of `delimiter`, if there is one.
pub open spec fn split_once(s: Seq<char>, delimiter: Seq<char>) -> Option<(Seq<char>, Seq<char>)> {
    if exists|i: int| is_first_occurrence(s, delimiter, i) {
        let i = choose|i: int| is_first_occurrence(s, delimiter, i);
        Some((s.take(i), s.skip(i + delimiter.len())))
    } else {
        None
    }
}

/// `s` begins with `prefix`.
pub open spec fn has_prefix(s: Seq<char>, prefix: Seq<char>) -> bool {
    prefix.len() <= s.len() && s.take(prefix.len() as int) == prefix
}

/// `s` contains `pattern` somewhere.
pub open spec fn contains_text(s: Seq<char>, pattern: Seq<char>) -> bool {
    exists|i: int| occurs_at(s, pattern, i)
}

/// Every underscore of `s` replaced by a space.
pub open spec fn underscores_to_spaces(s: Seq<char>) -> Seq<char> {
    Seq::new(s.len(), |i: int| if s[i] == '_' { ' ' } else { s[i] })
}

/// The decimal digit character of `d`, for `0 <= d < 10`.
pub open spec fn digit_char(d: int) -> char {
    (('0' as int) + d) as char
}

/// The decimal digits of a natural number, most significant first, without
/// leading zeros.
pub open spec fn decimal_digits(n: nat) -> Seq<char>
    decreases n,
{
    if n < 10 {
        seq![digit_char(n as int)]
    } else {
        decimal_digits(n / 10).push(digit_char((n % 10) as int))
    }
}

/// The decimal text of an integer: a minus sign for negatives, then digits.
pub open spec fn decimal_text(n: int) -> Seq<char> {
    if n < 0 {
        seq!['-'] + decimal_digits((-n) as nat)
    } else {
        decimal_digits(n as nat)
    }
}

/// The characters that a decimal text is made of.
pub open spec fn is_decimal_char(c: char) -> bool {
    c == '-' || ('0' <= c && c <= '9')
}

/// Lemma: the first occurrence of a pattern is unique, so `split_once`
/// splits at any index that is a first occurrence.
pub proof fn lemma_split_once_at(s: Seq<char>, delimiter: Seq<char>, i: int)
    requires
        is_first_occurrence(s, delimiter, i),
    ensures
        split_once(s, delimiter) == Some((s.take(i), s.skip(i + delimiter.len()))),
{
    let k = choose|k: int| is_first_occurrence(s, delimiter, k);
    assert(is_first_occurrence(s, delimiter, k));
    if k < i {
        assert(!occurs_at(s, delimiter, k));
    }
    if i < k {
        assert(!occurs_at(s, delimiter, i));
    }
}

/// Lemma: in `a + d + b`, where no character of `a` is the first character of
/// the non-empty `d`, `d` first occurs right after `a`.
pub proof fn lemma_split_after_free_prefix(a: Seq<char>, d: Seq<char>, b: Seq<char>)
    requires
        d.len() > 0,
        forall|k: int| 0 <= k < a.len() ==> a[k] != d[0],
    ensures
        split_once(a + d + b, d) == Some((a, b)),
{
    let s = a + d + b;
    assert(s.subrange(a.len() as int, (a.len() + d.len()) as int) =~= d);
    assert forall|j: int| 0 <= j < a.len() implies !occurs_at(s, d, j) by {
        if occurs_at(s, d, j) {
            assert(s.subrange(j, j + d.len())[0] == s[j]);
        }
    }
    lemma_split_once_at(s, d, a.len() as int);
    assert(s.take(a.len() as int) =~= a);
    assert(s.skip((a.len() + d.len()) as int) =~= b);
}

/// Lemma: decimal digits are digit characters and never empty.
pub proof fn lemma_decimal_digits_chars(n: nat)
    ensures
        decimal_digits(n).len() > 0,
        forall|i: int| 0 <= i < decimal_digits(n).len() ==> '0' <= #[trigger] decimal_digits(n)[i] <= '9',
    decreases n,
{
    if n >= 10 {
        lemma_decimal_digits_chars(n / 10);
    }
}

/// Lemma: a decimal text is made of decimal characters and is never empty.
pub proof fn lemma_decimal_text_chars(n: int)
    ensures
        decimal_text(n).len() > 0,
        forall|i: int| 0 <= i < decimal_text(n).len() ==> is_decimal_char(#[trigger] decimal_text(n)[i]),
{
    if n < 0 {
        lemma_decimal_digits_chars((-n) as nat);
        let d = decimal_digits((-n) as nat);
        assert forall|i: int| 0 <= i < decimal_text(n).len() implies is_decimal_char(#[trigger] decimal_text(n)[i]) by {
            if i > 0 {
                assert(decimal_text(n)[i] == d[i - 1]);
            }
        }
    } else {
        lemma_decimal_digits_chars(n as nat);
    }
}

/// Lemma: distinct naturals have distinct decimal digits.
pub proof fn lemma_decimal_digits_injective(m: nat, n: nat)
    requires
        decimal_digits(m) == decimal_digits(n),
    ensures
        m == n,
    decreases m + n,
{
    lemma_decimal_digits_chars(m / 10);
    lemma_decimal_digits_chars(n / 10);
    assert(digit_char((m % 10) as int) as int == '0' as int + m % 10);
    assert(digit_char((n % 10) as int) as int == '0' as int + n % 10);
    if m < 10 && n < 10 {
        assert(decimal_digits(m) == seq![digit_char(m as int)]);
        assert(decimal_digits(n) == seq![digit_char(n as int)]);
        assert(decimal_digits(m)[0] == digit_char(m as int));
        assert(decimal_digits(n)[0] == digit_char(n as int));
        assert(digit_char(m as int) as int == '0' as int + m);
        assert(digit_char(n as int) as int == '0' as int + n);
        assert(m == n);
    } else if m < 10 {
        assert(decimal_digits(m).len() == 1);
        assert(decimal_digits(n).len() >= 2);
    } else if n < 10 {
        assert(decimal_digits(n).len() == 1);
        assert(decimal_digits(m).len() >= 2);
    } else {
        let dm = decimal_digits(m);
        let dn = decimal_digits(n);
        assert(dm.last() == dn.last());
        assert(dm.drop_last() =~= decimal_digits(m / 10));
        assert(dn.drop_last() =~= decimal_digits(n / 10));
        lemma_decimal_digits_injective(m / 10, n / 10);
        assert(m % 10 == n % 10);
        assert(m == 10 * (m / 10) + m % 10);
        assert(n == 10 * (n / 10) + n % 10);
        assert(m == n);
    }
}

/// Lemma: distinct integers have distinct decimal texts.
pub proof fn lemma_decimal_text_injective(m: int, n: int)
    requires
        decimal_text(m) == decimal_text(n),
    ensures
        m == n,
{
    lemma_decimal_digits_chars(if m < 0 { (-m) as nat } else { m as nat });
    lemma_decimal_digits_chars(if n < 0 { (-n) as nat } else { n as nat });
    if m < 0 && n < 0 {
        assert(decimal_text(m).skip(1) =~= decimal_digits((-m) as nat));
        assert(decimal_text(n).skip(1) =~= decimal_digits((-n) as nat));
        lemma_decimal_digits_injective((-m) as nat, (-n) as nat);
    } else if m < 0 {
        assert(decimal_text(m)[0] == '-');
        assert('0' <= decimal_text(n)[0] <= '9');
    } else if n < 0 {
        assert(decimal_text(n)[0] == '-');
        assert('0' <= decimal_text(m)[0] <= '9');
    } else {
        lemma_decimal_digits_injective(m as nat, n as nat);
    }
}

/// Lemma: in `a + sep + b`, where `a` holds no character of the one-character
/// separator, `a` and `b` are determined by the whole text.
pub proof fn lemma_separated_injective(a1: Seq<char>, b1: Seq<char>, a2: Seq<char>, b2: Seq<char>, sep: char)
    requires
        forall|k: int| 0 <= k < a1.len() ==> a1[k] != sep,
        forall|k: int| 0 <= k < a2.len() ==> a2[k] != sep,
        a1 + seq![sep] + b1 == a2 + seq![sep] + b2,
    ensures
        a1 == a2,
        b1 == b2,
{
    let s1 = a1 + seq![sep] + b1;
    let s2 = a2 + seq![sep] + b2;
    if a1.len() < a2.len() {
        assert(s1[a1.len() as int] == sep);
        assert(s2[a1.len() as int] == a2[a1.len() as int]);
    } else if a2.len() < a1.len() {
        assert(s2[a2.len() as int] == sep);
        assert(s1[a2.len() as int] == a1[a2.len() as int]);
    } else {
        assert(a1 =~= s1.take(a1.len() as int));
        assert(a2 =~= s2.take(a2.len() as int));
        assert(b1 =~= s1.skip(a1.len() + 1int));
        assert(b2 =~= s2.skip(a2.len() + 1int));
    }
}

/// Equality of two texts.
#[verifier::external_body]
pub(crate) fn same_text(a: &str, b: &str) -> (r: bool)
    ensures
        r == (a@ == b@),
{
    a == b
}

/// The UTF-8 text that `bytes` encode, if they are valid UTF-8
/// (`std::str::from_utf8`).
#[verifier::external_body]
pub(crate) fn text_from_utf8(bytes: &[u8]) -> (r: Option<&str>)
    ensures
        r is Some <==> valid_utf8(bytes@),
        r matches Some(t) ==> t@ == decode_utf8(bytes@),
{
    std::str::from_utf8(bytes).ok()
}

/// The rest of `s` after `prefix`, if `s` begins with it (`str::strip_prefix`).
#[verifier::external_body]
pub(crate) fn text_strip_prefix<'a>(s: &'a str, prefix: &str) -> (r: Option<&'a str>)
    ensures
        r is Some <==> has_prefix(s@, prefix@),
        r matches Some(t) ==> t@ == s@.skip(prefix@.len() as int),
{
    s.strip_prefix(prefix)
}

/// `s` split around the first occurrence of `delimiter` (`str::split_once`).
#[verifier::external_body]
pub(crate) fn text_split_once<'a>(s: &'a str, delimiter: &str) -> (r: Option<(&'a str, &'a str)>)
    ensures
        r is None ==> forall|i: int| !occurs_at(s@, delimiter@, i),
        r matches Some(p) ==> is_first_occurrence(s@, delimiter@, p.0@.len() as int) && p.0@
            == s@.take(p.0@.len() as int) && p.1@ == s@.skip((p.0@.len() + delimiter@.len()) as int),
{
    s.split_once(delimiter)
}

/// The ASCII lowercase copy of `s`.
pub(crate) fn text_to_ascii_lowercase(s: &str) -> (r: String)
    ensures
        r@ == ascii_lowercase(s@),
{
    let letters = "abcdefghijklmnopqrstuvwxyz";
    proof {
        reveal_strlit("abcdefghijklmnopqrstuvwxyz");
        lemma_lowercase_letters();
    }
    let len = s.unicode_len();
    let mut r = String::new();
    let mut i: usize = 0;
    while i < len
        invariant
            i <= len,
            len == s@.len(),
            letters@.len() == 26,
            forall|k: int| 0 <= k < 26 ==> #[trigger] letters@[k] == ((k + 97) as char),
            r@ =~= ascii_lowercase(s@).take(i as int),
        decreases len - i,
    {
        let c = s.get_char(i);
        let piece = if 'A' <= c && c <= 'Z' {
            let k = (c as u32 - 65) as usize;
            letters.substring_char(k, k + 1)
        } else {
            s.substring_char(i, i + 1)
        };
        assert(piece@ =~= seq![lower_ascii_char(c)]);
        r.append(piece);
        i = i + 1;
        assert(r@ =~= ascii_lowercase(s@).take(i as int));
    }
    r
}

/// The lowercase ASCII letters, in order.
proof fn lemma_lowercase_letters()
    ensures
        "abcdefghijklmnopqrstuvwxyz"@.len() == 26,
        forall|k: int| 0 <= k < 26 ==> #[trigger] "abcdefghijklmnopqrstuvwxyz"@[k] == ((k + 97) as char),
{
    reveal_strlit("abcdefghijklmnopqrstuvwxyz");
}

/// Whether `pattern` occurs in `s` (`str::contains`).
#[verifier::external_body]
pub(crate) fn text_contains(s: &str, pattern: &str) -> (r: bool)
    ensures
        r == contains_text(s@, pattern@),
{
    s.contains(pattern)
}

/// `s` with every underscore replaced by a space.
pub(crate) fn text_underscores_to_spaces(s: &str) -> (r: String)
    ensures
        r@ == underscores_to_spaces(s@),
{
    proof {
        reveal_strlit(" ");
    }
    let len = s.unicode_len();
    let mut r = String::new();
    let mut i: usize = 0;
    while i < len
        invariant
            i <= len,
            len == s@.len(),
            " "@ == seq![' '],
            r@ =~= underscores_to_spaces(s@).take(i as int),
        decreases len - i,
    {
        if s.get_char(i) == '_' {
            r.append(" ");
        } else {
            let piece = s.substring_char(i, i + 1);
            assert(piece@ =~= seq![s@[i as int]]);
            r.append(piece);
        }
        i = i + 1;
        assert(r@ =~= underscores_to_spaces(s@).take(i as int));
    }
    r
}

/// The characters of `s`.
pub(crate) fn text_chars(s: &str) -> (r: Vec<char>)
    ensures
        r@ == s@,
{
    let len = s.unicode_len();
    let mut r: Vec<char> = Vec::new();
    let mut i: usize = 0;
    while i < len
        invariant
            i <= len,
            len == s@.len(),
            r@ =~= s@.take(i as int),
        decreases len - i,
    {
        r.push(s.get_char(i));
        i = i + 1;
        assert(r@ =~= s@.take(i as int));
    }
    r
}

/// The decimal text of a signed integer.
pub(crate) fn signed_decimal(n: i64) -> (r: String)
    ensures
        r@ == decimal_text(n as int),
{
    if n < 0 {
        let magnitude: u64 = (0i128 - n as i128) as u64;
        let digits = decimal_digits_text(magnitude);
        let mut r = owned("-");
        proof {
            reveal_strlit("-");
        }
        r.append(digits.as_str());
        assert(r@ =~= decimal_text(n as int));
        r
    } else {
        decimal_digits_text(n as u64)
    }
}

/// The digits, as characters, in order.
proof fn lemma_digit_characters()
    ensures
        "0123456789"@.len() == 10,
        forall|d: int| 0 <= d < 10 ==> #[trigger] "0123456789"@[d] == digit_char(d),
{
    reveal_strlit("0123456789");
}

/// The decimal digits of a natural number.
fn decimal_digits_text(n: u64) -> (r: String)
    ensures
        r@ == decimal_digits(n as nat),
    decreases n,
{
    proof {
        lemma_digit_characters();
    }
    let d = (n % 10) as usize;
    let digit = "0123456789".substring_char(d, d + 1);
    assert(digit@ =~= seq![digit_char(d as int)]);
    if n < 10 {
        owned(digit)
    } else {
        let mut r = decimal_digits_text(n / 10);
        r.append(digit);
        r
    }
}

/// The decimal text of an unsigned integer.
pub(crate) fn unsigned_decimal(n: u64) -> (r: String)
    ensures
        r@ == decimal_text(n as int),
{
    decimal_digits_text(n)
}

/// An owned copy of `s`.
pub fn owned(s: &str) -> (r: String)
    ensures
        r@ == s@,
{
    s.to_owned()
}

/// The concatenation of two texts.
pub fn join2(a: &str, b: &str) -> (r: String)
    ensures
        r@ == a@ + b@,
{
    let mut r = a.to_owned();
    r.append(b);
    r
}

/// The concatenation of three texts.
pub fn join3(a: &str, b: &str, c: &str) -> (r: String)
    ensures
        r@ == a@ + b@ + c@,
{
    let mut r = a.to_owned();
    r.append(b);
    r.append(c);
    r
}

/// The UTF-8 bytes of a text.
pub fn utf8_bytes(s: &str) -> (r: Vec<u8>)
    ensures
        r@ == encode_utf8(s@),
{
    vstd::slice::slice_to_vec(s.as_bytes())
}

/// Equality of two byte vectors.
pub fn same_bytes(a: &Vec<u8>, b: &Vec<u8>) -> (r: bool)
    ensures
        r == (a@ == b@),
{
    if a.len() != b.len() {
        return false;
    }
    let mut i: usize = 0;
    while i < a.len()
        invariant
            a.len() == b.len(),
            i <= a.len(),
            forall|j: int| 0 <= j < i ==> a@[j] == b@[j],
        decreases a.len() - i,
    {
        if a[i] != b[i] {
            return false;
        }
        i = i + 1;
    }
    assert(a@ =~= b@);
    true
}

/// Whether a byte vector is empty.
pub fn bytes_empty(a: &Vec<u8>) -> (r: bool)
    ensures
        r == (a@.len() == 0),
{
    a.len() == 0
}

} // verus!
