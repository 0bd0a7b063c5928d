//! Encodings of counter commands and counter snapshots.

use crate::bytes;
use crate::text;
use vstd::prelude::*;

verus! {

/// An encoded command: the idempotency key, then the delta in two's complement.
pub open spec fn command_bytes(idem: u64, delta: i64) -> Seq<u8> {
    bytes::le_bytes(idem as int) + bytes::le_bytes(
        if delta < 0 {
            delta + 0x1_0000_0000_0000_0000
        } else {
            delta as int
        },
    )
}

/// The command that `bytes` begin with: key and delta in 16 bytes. Fewer hold none, and what
/// follows is ignored.
pub open spec fn command_of(bytes: Seq<u8>) -> Option<(u64, i64)> {
    if bytes.len() < 16 {
        None
    } else {
        let raw = bytes::le_number(bytes, 8);
        let delta = if raw < 0x8000_0000_0000_0000 {
            raw
        } else {
            raw - 0x1_0000_0000_0000_0000
        };
        Some((bytes::le_number(bytes, 0) as u64, delta as i64))
    }
}

/// An encoded command is decoded again.
pub proof fn lemma_command_of_its_bytes(idem: u64, delta: i64)
    ensures
        command_of(command_bytes(idem, delta)) == Some((idem, delta)),
{
    let key = bytes::le_bytes(idem as int);
    let raw = if delta < 0 {
        delta + 0x1_0000_0000_0000_0000
    } else {
        delta as int
    };
    let number = bytes::le_bytes(raw);
    let all = command_bytes(idem, delta);
    bytes::lemma_number_of_bytes(idem as int);
    bytes::lemma_number_of_bytes(raw);
    assert(all.len() == 16);
    assert(bytes::le_number(all, 0) == bytes::le_number(key, 0));
    assert(bytes::le_number(all, 8) == bytes::le_number(number, 0));
}

/// The message with which decoding a command fails.
pub uninterp spec fn command_failure(bytes: Seq<u8>) -> Seq<char>;

/// `bincode::serialize` of a key and a delta: two fixed-size little-endian integers.
#[verifier::external_body]
pub(crate) fn encode_command(idem: u64, delta: i64) -> (bytes: Vec<u8>)
    ensures
        bytes@ == command_bytes(idem, delta),
{
    bincode::serialize(&(idem, delta)).unwrap()
}

/// `bincode::deserialize` of a key and a delta: it takes the first 16 bytes, and fails where there
/// are fewer. The message of a failure depends on the bytes alone.
#[verifier::external_body]
pub(crate) fn decode_command(bytes: &[u8]) -> (parsed: Result<(u64, i64), String>)
    ensures
        match parsed {
            Ok(command) => command_of(bytes@) == Some(command),
            Err(message) => command_of(bytes@) is None && message@ == command_failure(bytes@),
        },
{
    bincode::deserialize(bytes).map_err(|e| e.to_string())
}

/// The bytes of a text of ASCII characters.
pub open spec fn ascii(text: Seq<char>) -> Seq<u8> {
    text.map_values(|c: char| c as u8)
}

/// A snapshot as JSON text: the value, then the keys in the order of `seen`.
pub open spec fn snapshot_text(value: i64, seen: Seq<u64>) -> Seq<char> {
    seq!['['] + text::signed_decimal(value as int) + seq![',', '['] + text::joined(seen, seq![','])
        + seq![']', ']']
}

/// What decoding a snapshot gives: value and keys, or the decoder's message.
pub uninterp spec fn parsed_snapshot(bytes: Seq<u8>) -> Result<(i64, Seq<u64>), Seq<char>>;

/// `serde_json::to_vec` of a value and its keys: compact JSON text, which `serde_json::from_slice`
/// gives back.
#[verifier::external_body]
pub(crate) fn encode_snapshot(value: i64, seen: &Vec<u64>) -> (bytes: Vec<u8>)
    ensures
        bytes@ == ascii(snapshot_text(value, seen@)),
        parsed_snapshot(bytes@) is Ok && parsed_snapshot(bytes@)->Ok_0 == (value, seen@),
{
    serde_json::to_vec(&(value, seen)).unwrap()
}

/// `serde_json::from_slice` of a value and its keys. Result and message depend on the bytes alone;
/// what JSON text of another spelling gives is not stated.
#[verifier::external_body]
pub(crate) fn decode_snapshot(bytes: &[u8]) -> (parsed: Result<(i64, Vec<u64>), String>)
    ensures
        match parsed {
            Ok((value, seen)) => parsed_snapshot(bytes@) == Ok::<(i64, Seq<u64>), Seq<char>>(
                (value, seen@),
            ),
            Err(message) => parsed_snapshot(bytes@) == Err::<(i64, Seq<u64>), Seq<char>>(message@),
        },
{
    serde_json::from_slice(bytes).map_err(|e| e.to_string())
}

} // verus!
