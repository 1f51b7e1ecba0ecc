//! Reading of little endian numbers and of encoded text.

use vstd::prelude::*;

verus! {

/// The number that a byte string stands for, least significant byte first.
pub open spec fn le_value(b: Seq<u8>) -> nat
    decreases b.len(),
{
    if b.len() == 0 {
        0
    } else {
        b[0] as nat + 256 * le_value(b.drop_first())
    }
}

/// A 64 bit number read as a signed number in two's complement.
pub open spec fn signed64(n: nat) -> int {
    if n < 0x8000_0000_0000_0000 {
        n as int
    } else {
        n - 0x1_0000_0000_0000_0000
    }
}

/// The 16 bit numbers that a byte string stands for; a last odd byte is left out.
pub open spec fn le_words(b: Seq<u8>) -> Seq<u16> {
    Seq::new(b.len() / 2, |i: int| (b[2 * i] as nat + 256 * b[2 * i + 1] as nat) as u16)
}

/// The elements before the first one that equals `stop`.
pub open spec fn until<T>(s: Seq<T>, stop: T) -> Seq<T>
    decreases s.len(),
{
    if s.len() == 0 || s[0] == stop {
        Seq::empty()
    } else {
        seq![s[0]] + until(s.drop_first(), stop)
    }
}

/// What `until` yields is the prefix in front of the first stop element.
pub proof fn until_is_prefix<T>(s: Seq<T>, stop: T, n: int)
    requires
        0 <= n <= s.len(),
        forall|i: int| 0 <= i < n ==> s[i] != stop,
        n == s.len() || s[n] == stop,
    ensures
        until(s, stop) == s.take(n),
    decreases s.len(),
{
    if n > 0 {
        until_is_prefix(s.drop_first(), stop, n - 1);
        assert(s.take(n) =~= seq![s[0]] + s.drop_first().take(n - 1));
    } else {
        assert(s.take(0) =~= Seq::<T>::empty());
    }
}

/// The text that `String::from_utf8_lossy` makes of a byte string.
pub uninterp spec fn utf8_lossy(b: Seq<u8>) -> Seq<char>;

/// The text that `String::from_utf16_lossy` makes of a list of code units.
pub uninterp spec fn utf16_lossy(words: Seq<u16>) -> Seq<char>;

/// `String::from_utf8_lossy`: valid UTF-8 is decoded as it is; each invalid part is replaced
/// by the replacement character, which is all that the name leaves open.
#[verifier::external_body]
pub(crate) fn utf8_lossy_text(b: &[u8]) -> (r: String)
    ensures
        r@ == utf8_lossy(b@),
        vstd::utf8::valid_utf8(b@) ==> r@ == vstd::utf8::decode_utf8(b@),
{
    String::from_utf8_lossy(b).into_owned()
}

/// `String::from_utf16_lossy`: a code unit that is no surrogate stands for the character of
/// that number; what surrogates become is all that the name leaves open.
#[verifier::external_body]
pub(crate) fn utf16_lossy_text(words: &[u16]) -> (r: String)
    ensures
        r@ == utf16_lossy(words@),
        (forall|i: int| 0 <= i < words@.len() ==> (words@[i] < 0xD800 || words@[i] >= 0xE000))
            ==> r@ == Seq::new(words@.len(), |i: int| words@[i] as char),
{
    String::from_utf16_lossy(words)
}

/// The 32 bit number at an offset.
pub fn le_u32_at(b: &[u8], at: usize) -> (r: u32)
    requires
        at + 4 <= b@.len(),
    ensures
        r == le_value(b@.subrange(at as int, at + 4)),
{
    let r: u32 = b[at] as u32 + 256 * (b[at + 1] as u32) + 65536 * (b[at + 2] as u32) + 16777216 * (
    b[at + 3] as u32);
    proof {
        let s = b@.subrange(at as int, at + 4);
        reveal_with_fuel(le_value, 5);
        assert(s.drop_first().drop_first().drop_first().drop_first().len() == 0);
    }
    r
}

/// The 64 bit number at an offset.
pub fn le_u64_at(b: &[u8], at: usize) -> (r: u64)
    requires
        at + 8 <= b@.len(),
    ensures
        r == le_value(b@.subrange(at as int, at + 8)),
{
    let size: usize = b.len();
    assert(at + 8 <= size);
    let low: u64 = le_u32_at(b, at) as u64;
    let high: u64 = le_u32_at(b, at + 4) as u64;
    proof {
        let s = b@.subrange(at as int, at + 8);
        reveal_with_fuel(le_value, 5);
        let a = b@.subrange(at as int, at + 4);
        let c = b@.subrange(at + 4, at + 8);
        assert(s.drop_first().drop_first().drop_first().drop_first() =~= c);
        assert(a.drop_first().drop_first().drop_first().drop_first().len() == 0);
    }
    low + 4294967296 * high
}

/// A 64 bit number read as a signed number in two's complement.
pub fn as_signed64(n: u64) -> (r: i64)
    ensures
        r == signed64(n as nat),
{
    if n < 0x8000_0000_0000_0000 {
        n as i64
    } else {
        (n as i128 - 0x1_0000_0000_0000_0000) as i64
    }
}

} // verus!
