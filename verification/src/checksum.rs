//! SHA-256 checksums and their hexadecimal form.

use sha2::Digest;
use vstd::prelude::*;
use vstd::string::*;

verus! {

/// The SHA-256 digest of `bytes`, which has 32 bytes.
pub uninterp spec fn sha256(bytes: Seq<u8>) -> [u8; 32];

/// The bytes that a running digest has taken in so far.
pub uninterp spec fn digested(digest: RunningDigest) -> Seq<u8>;

/// A running SHA-256 digest, `sha2::Sha256`. It stands for the bytes that it has taken in. Verus
/// cannot take that type itself: its bounds are traits of other crates.
#[verifier::external_body]
pub struct RunningDigest {
    inner: sha2::Sha256,
}

/// `Sha256::new`: a digest that has taken in nothing.
#[verifier::external_body]
pub(crate) fn digest_start() -> (digest: RunningDigest)
    ensures
        digested(digest) == Seq::<u8>::empty(),
{
    RunningDigest { inner: sha2::Sha256::new() }
}

/// `Digest::update`: takes in `bytes` after what was taken in before.
#[verifier::external_body]
pub(crate) fn digest_update(digest: &mut RunningDigest, bytes: &[u8])
    ensures
        digested(*final(digest)) == digested(*old(digest)) + bytes@,
{
    digest.inner.update(bytes);
}

/// `Digest::finalize`: the digest of everything taken in, 32 bytes.
#[verifier::external_body]
pub(crate) fn digest_finish(digest: RunningDigest) -> (out: [u8; 32])
    ensures
        out == sha256(digested(digest)),
{
    digest.inner.finalize().into()
}

/// The hexadecimal digit `d`, in lower case.
pub open spec fn hex_digit(d: int) -> char {
    if d < 10 {
        (48 + d) as char
    } else {
        (87 + d) as char
    }
}

/// `bytes` in hexadecimal, two lower-case digits each.
pub open spec fn hex_text(bytes: Seq<u8>) -> Seq<char> {
    Seq::new(
        2 * bytes.len(),
        |i: int|
            if i % 2 == 0 {
                hex_digit(bytes[i / 2] as int / 16)
            } else {
                hex_digit(bytes[i / 2] as int % 16)
            },
    )
}

/// The checksum of `bytes`: its SHA-256 digest in hexadecimal.
pub open spec fn checksum(bytes: Seq<u8>) -> Seq<char> {
    hex_text(sha256(bytes)@)
}

/// Whether `c` is a hexadecimal digit, in either case.
pub open spec fn is_hex_digit(c: char) -> bool {
    ||| '0' <= c <= '9'
    ||| 'a' <= c <= 'f'
    ||| 'A' <= c <= 'F'
}

/// Whether `text` has the form of a checksum: 64 hexadecimal digits.
pub open spec fn has_checksum_form(text: Seq<char>) -> bool {
    text.len() == 64 && forall|i: int| 0 <= i < 64 ==> is_hex_digit(#[trigger] text[i])
}

/// A checksum has the form of a checksum.
pub proof fn lemma_checksum_form(bytes: Seq<u8>)
    ensures
        has_checksum_form(checksum(bytes)),
{
}

fn hex_digit_text(d: u8) -> (text: &'static str)
    requires
        d < 16,
    ensures
        text@ == seq![hex_digit(d as int)],
{
    proof {
        reveal_strlit("0");
        reveal_strlit("1");
        reveal_strlit("2");
        reveal_strlit("3");
        reveal_strlit("4");
        reveal_strlit("5");
        reveal_strlit("6");
        reveal_strlit("7");
        reveal_strlit("8");
        reveal_strlit("9");
        reveal_strlit("a");
        reveal_strlit("b");
        reveal_strlit("c");
        reveal_strlit("d");
        reveal_strlit("e");
        reveal_strlit("f");
    }
    let text = match d {
        0 => "0",
        1 => "1",
        2 => "2",
        3 => "3",
        4 => "4",
        5 => "5",
        6 => "6",
        7 => "7",
        8 => "8",
        9 => "9",
        10 => "a",
        11 => "b",
        12 => "c",
        13 => "d",
        14 => "e",
        _ => "f",
    };
    assert(text@ =~= seq![hex_digit(d as int)]);
    text
}

/// `bytes` in hexadecimal.
pub fn hex_of(bytes: &[u8]) -> (text: String)
    ensures
        text@ == hex_text(bytes@),
{
    let mut text = String::new();
    let mut i: usize = 0;
    while i < bytes.len()
        invariant
            i <= bytes.len(),
            text@ == hex_text(bytes@.take(i as int)),
        decreases bytes.len() - i,
    {
        text.append(hex_digit_text(bytes[i] / 16));
        text.append(hex_digit_text(bytes[i] % 16));
        i += 1;
        assert(text@ =~= hex_text(bytes@.take(i as int)));
    }
    assert(bytes@.take(bytes.len() as int) =~= bytes@);
    text
}

/// The checksum of what a running digest has taken in. It has the form of a checksum.
pub(crate) fn finish_checksum(digest: RunningDigest) -> (text: String)
    ensures
        text@ == checksum(digested(digest)),
        has_checksum_form(text@),
{
    let out = digest_finish(digest);
    hex_of(out.as_slice())
}

/// The checksum of `bytes`.
pub fn hex_sha256(bytes: &[u8]) -> (text: String)
    ensures
        text@ == checksum(bytes@),
        has_checksum_form(text@),
{
    let mut digest = digest_start();
    digest_update(&mut digest, bytes);
    assert(Seq::<u8>::empty() + bytes@ =~= bytes@);
    finish_checksum(digest)
}

/// Whether `text` has the form of a checksum.
pub fn is_checksum_form(text: &String) -> (res: bool)
    ensures
        res == has_checksum_form(text@),
{
    let chars = text.as_str();
    if chars.unicode_len() != 64 {
        return false;
    }
    let mut i: usize = 0;
    while i < 64
        invariant
            i <= 64,
            chars@ == text@,
            text@.len() == 64,
            forall|j: int| 0 <= j < i ==> is_hex_digit(#[trigger] text@[j]),
        decreases 64 - i,
    {
        let c = chars.get_char(i);
        if !(('0' <= c && c <= '9') || ('a' <= c && c <= 'f') || ('A' <= c && c <= 'F')) {
            assert(!is_hex_digit(text@[i as int]));
            return false;
        }
        i += 1;
    }
    true
}

/// The value of a hexadecimal digit in lower case.
pub open spec fn hex_value(c: char) -> int {
    if c <= '9' {
        c as int - '0' as int
    } else {
        c as int - 'a' as int + 10
    }
}

/// Hexadecimal text says its bytes, the high half of each first, in digits of lower case; so
/// different bytes have different texts.
pub proof fn law_hexadecimal_text_says_its_bytes(bytes: Seq<u8>, other: Seq<u8>, i: int)
    requires
        0 <= i < bytes.len(),
    ensures
        hex_text(bytes).len() == 2 * bytes.len(),
        16 * hex_value(hex_text(bytes)[2 * i]) + hex_value(hex_text(bytes)[2 * i + 1]) == bytes[i],
        is_hex_digit(hex_text(bytes)[2 * i]) && is_hex_digit(hex_text(bytes)[2 * i + 1]),
        hex_text(bytes) == hex_text(other) ==> bytes == other,
{
    let text = hex_text(bytes);
    assert((2 * i) / 2 == i && (2 * i + 1) / 2 == i);
    if text == hex_text(other) {
        assert(text.len() == 2 * bytes.len());
        assert(hex_text(other).len() == 2 * other.len());
        assert forall|k: int| 0 <= k < bytes.len() implies bytes[k] == other[k] by {
            assert((2 * k) / 2 == k && (2 * k + 1) / 2 == k);
            assert(text[2 * k] == hex_text(other)[2 * k]);
            assert(text[2 * k + 1] == hex_text(other)[2 * k + 1]);
        }
        assert(bytes =~= other);
    }
}

/// A checksum is the digest of all the bytes in 64 digits; a text has the form of one exactly where
/// it has 64 hexadecimal digits of either case.
pub proof fn law_checksums_show_the_digest(
    bytes: &[u8],
    text: String,
    form: bool,
    candidate: String,
)
    requires
        call_ensures(hex_sha256, (bytes,), text),
        call_ensures(is_checksum_form, (&candidate,), form),
    ensures
        text@ == hex_text(sha256(bytes@)@),
        text@.len() == 64,
        form <==> candidate@.len() == 64 && forall|i: int|
            0 <= i < 64 ==> {
                ||| '0' <= #[trigger] candidate@[i] <= '9'
                ||| 'a' <= candidate@[i] <= 'f'
                ||| 'A' <= candidate@[i] <= 'F'
            },
{
}

} // verus!
