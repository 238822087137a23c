//! Text handling: lenient decoding of captured output and the trailing
//! whitespace normalization applied before two outputs are compared.
use vstd::prelude::*;
use vstd::utf8::encode_utf8;

verus! {

/// The characters that `String::from_utf8_lossy` yields for `b`: each
/// maximal invalid sequence becomes U+FFFD.
pub uninterp spec fn lossy_text(b: Seq<u8>) -> Seq<char>;

/// Relies on `String::from_utf8_lossy`: its characters are a function of the
/// bytes alone, and valid UTF-8 comes back unchanged.
#[verifier::external_body]
pub(crate) fn decode_lossy(b: &[u8]) -> (r: Vec<char>)
    ensures
        r@ == lossy_text(b@),
        forall|t: Seq<char>| #[trigger] encode_utf8(t) == b@ ==> r@ == t,
{
    String::from_utf8_lossy(b).chars().collect()
}

/// Relies on `String::from_iter` over characters: the string holds them in order.
#[verifier::external_body]
pub(crate) fn string_of(chars: &Vec<char>) -> (r: String)
    ensures
        r@ == chars@,
{
    String::from_iter(chars.iter())
}

/// Relies on `str::chars`: the characters of `s` in order.
#[verifier::external_body]
pub(crate) fn chars_of(s: &str) -> (r: Vec<char>)
    ensures
        r@ == s@,
{
    s.chars().collect()
}

/// Unicode's White_Space property, which `char::is_whitespace` tests.
pub open spec fn is_space(c: char) -> bool {
    let u = c as u32;
    (0x09 <= u && u <= 0x0d) || u == 0x20 || u == 0x85 || u == 0xa0 || u == 0x1680
        || (0x2000 <= u && u <= 0x200a) || u == 0x2028 || u == 0x2029 || u == 0x202f
        || u == 0x205f || u == 0x3000
}

/// `s` without its trailing white space.
pub open spec fn trim_end(s: Seq<char>) -> Seq<char>
    decreases s.len(),
{
    if s.len() > 0 && is_space(s.last()) {
        trim_end(s.drop_last())
    } else {
        s
    }
}

/// What two outputs are compared by: `b` decoded leniently, without
/// trailing white space.
pub open spec fn normalized(b: Seq<u8>) -> Seq<char> {
    trim_end(lossy_text(b))
}

/// Whether `c` is white space.
pub fn is_space_char(c: char) -> (r: bool)
    ensures
        r == is_space(c),
{
    let u = c as u32;
    (0x09 <= u && u <= 0x0d) || u == 0x20 || u == 0x85 || u == 0xa0 || u == 0x1680
        || (0x2000 <= u && u <= 0x200a) || u == 0x2028 || u == 0x2029 || u == 0x202f
        || u == 0x205f || u == 0x3000
}

proof fn lemma_trim_end_prefix(s: Seq<char>, k: int)
    requires
        0 <= k <= s.len(),
        forall|i: int| k <= i < s.len() ==> is_space(#[trigger] s[i]),
    ensures
        trim_end(s) == trim_end(s.subrange(0, k)),
    decreases s.len() - k,
{
    if k < s.len() {
        assert(s.drop_last() =~= s.subrange(0, s.len() - 1));
        lemma_trim_end_prefix(s.drop_last(), k);
        assert(s.drop_last().subrange(0, k) =~= s.subrange(0, k));
    } else {
        assert(s.subrange(0, k) =~= s);
    }
}

proof fn lemma_trim_end_shape(s: Seq<char>)
    ensures
        trim_end(s).len() <= s.len(),
        trim_end(s) == s.subrange(0, trim_end(s).len() as int),
        forall|i: int| trim_end(s).len() <= i < s.len() ==> is_space(#[trigger] s[i]),
        trim_end(s).len() > 0 ==> !is_space(trim_end(s).last()),
    decreases s.len(),
{
    if s.len() > 0 && is_space(s.last()) {
        let d = s.drop_last();
        lemma_trim_end_shape(d);
        assert(d.subrange(0, trim_end(d).len() as int) =~= s.subrange(0, trim_end(d).len() as int));
        assert forall|i: int| trim_end(s).len() <= i < s.len() implies is_space(#[trigger] s[i]) by {
            if i < d.len() {
                assert(s[i] == d[i]);
            }
        }
    } else {
        assert(s.subrange(0, s.len() as int) =~= s);
    }
}

/// Normalization removes only white space at the end of the decoded text:
/// what is left is a prefix of that text, every character removed is white
/// space, and what is left does not end in white space.
pub proof fn lemma_normalize_strips_only_trailing_space(b: Seq<u8>)
    ensures
        normalized(b) == lossy_text(b).subrange(0, normalized(b).len() as int),
        forall|i: int|
            normalized(b).len() <= i < lossy_text(b).len() ==> is_space(#[trigger] lossy_text(b)[i]),
        normalized(b).len() > 0 ==> !is_space(normalized(b).last()),
{
    lemma_trim_end_shape(lossy_text(b));
}

/// Normalizing twice gives what normalizing once gives: a second trim
/// leaves normalized text as it is. Since `normalize` decodes valid UTF-8
/// unchanged, it returns a normalized text again for that text's bytes.
pub proof fn lemma_normalize_idempotent(b: Seq<u8>)
    ensures
        trim_end(normalized(b)) == normalized(b),
{
    lemma_trim_end_shape(lossy_text(b));
}

/// Removes the white space at the end of `s`, nothing else.
pub fn trim_end_chars(s: &Vec<char>) -> (r: Vec<char>)
    ensures
        r@ == trim_end(s@),
{
    let mut k: usize = s.len();
    while k > 0 && is_space_char(s[k - 1])
        invariant
            k <= s.len(),
            forall|i: int| k <= i < s.len() ==> is_space(#[trigger] s@[i]),
        decreases k,
    {
        k = k - 1;
    }
    let mut r: Vec<char> = Vec::new();
    let mut i: usize = 0;
    while i < k
        invariant
            i <= k <= s.len(),
            r@ == s@.subrange(0, i as int),
        decreases k - i,
    {
        r.push(s[i]);
        i = i + 1;
        assert(r@ =~= s@.subrange(0, i as int));
    }
    proof {
        lemma_trim_end_prefix(s@, k as int);
        let p = s@.subrange(0, k as int);
        if k > 0 {
            assert(p.last() == s@[k - 1]);
        }
        assert(trim_end(p) == p);
    }
    r
}

/// The text that outputs are compared by: `bytes` decoded leniently, with
/// trailing white space and newlines removed.
pub fn normalize(bytes: &[u8]) -> (r: String)
    ensures
        r@ == normalized(bytes@),
        forall|t: Seq<char>| #[trigger] encode_utf8(t) == bytes@ ==> r@ == trim_end(t),
{
    let chars = decode_lossy(bytes);
    let trimmed = trim_end_chars(&chars);
    string_of(&trimmed)
}

} // verus!
