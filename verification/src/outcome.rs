//! What the library makes of ALE's answers: status codes, flags, the ROM
//! name buffer, the minimal action set and the screen.

use vstd::prelude::*;
use crate::error::AleError;
use crate::session::Session;
use crate::text::{decode_lossy, has_nul, position_of_nul, utf8_lossy};

verus! {

/// Whether a status code of the shim reports success: `0`.
pub fn succeeded(status: i32) -> (ok: bool)
    ensures
        ok == (status == 0),
{
    status == 0
}

/// The boolean an integer out-parameter of ALE stands for: any nonzero value
/// is `true`.
pub fn flag_from(raw: i32) -> (flag: bool)
    ensures
        flag == (raw != 0),
{
    raw != 0
}

/// The integer handed to ALE for a boolean argument: `1` for `true`, `0`
/// for `false`.
pub fn bool_argument(value: bool) -> (raw: i32)
    ensures
        raw == (if value { 1int } else { 0int }),
{
    if value {
        1
    } else {
        0
    }
}

/// The answer to a construction: [`AleError::ConstructionFailed`] when ALE
/// gave back no instance, else a fresh instance with no ROM.
pub fn construction(handle_is_null: bool) -> (r: Result<Session, AleError>)
    ensures
        handle_is_null ==> r == Err::<Session, AleError>(AleError::ConstructionFailed),
        !handle_is_null ==> (r matches Ok(s) && !s.rom_loaded()),
{
    if handle_is_null {
        Err(AleError::ConstructionFailed)
    } else {
        Ok(Session::new())
    }
}

/// The size of the buffer that receives ALE's canonical ROM name.
pub const ROM_NAME_CAPACITY: usize = 128;

/// A zeroed buffer of [`ROM_NAME_CAPACITY`] bytes for the ROM name.
pub fn rom_name_buffer() -> (buffer: Vec<u8>)
    ensures
        buffer@ == Seq::new(ROM_NAME_CAPACITY as nat, |i: int| 0u8),
{
    vec![0u8; ROM_NAME_CAPACITY]
}

/// The number of bytes of `bytes` before its first NUL byte (all of them
/// when there is none).
pub open spec fn leading_non_nul(bytes: Seq<u8>) -> nat
    decreases bytes.len(),
{
    if bytes.len() == 0 || bytes[0] == 0u8 {
        0
    } else {
        1 + leading_non_nul(bytes.drop_first())
    }
}

/// Where the ROM name ends in the buffer: at its first NUL byte; a buffer
/// with no NUL byte holds no name.
pub open spec fn rom_name_end(buffer: Seq<u8>) -> nat {
    if has_nul(buffer) {
        leading_non_nul(buffer)
    } else {
        0
    }
}

/// A NUL byte at `p` with none before it ends the leading run at `p`.
proof fn lemma_leading_non_nul(bytes: Seq<u8>, p: int)
    requires
        0 <= p < bytes.len(),
        bytes[p] == 0u8,
        forall|j: int| 0 <= j < p ==> bytes[j] != 0u8,
    ensures
        leading_non_nul(bytes) == p,
    decreases p,
{
    if p > 0 {
        let rest = bytes.drop_first();
        assert forall|j: int| 0 <= j < p - 1 implies rest[j] != 0u8 by {
            assert(rest[j] == bytes[j + 1]);
        }
        lemma_leading_non_nul(rest, p - 1);
    }
}

/// The ROM name keeps every byte before the first NUL, however many there
/// are: for a NUL at `p` with none before it, the name is the decoding of
/// exactly `buffer[0..p]`; a buffer with no NUL at all gives the decoding of
/// no bytes.
pub proof fn lemma_rom_name_keeps_all_before_nul(buffer: Seq<u8>, p: int)
    ensures
        0 <= p < buffer.len() && buffer[p] == 0u8 && (forall|j: int| 0 <= j < p ==> buffer[j] != 0u8)
            ==> rom_name_end(buffer) == p && utf8_lossy(buffer.take(rom_name_end(buffer) as int))
            == utf8_lossy(buffer.take(p)),
        (forall|j: int| 0 <= j < buffer.len() ==> buffer[j] != 0u8) ==> utf8_lossy(
            buffer.take(rom_name_end(buffer) as int),
        ) == utf8_lossy(Seq::<u8>::empty()),
{
    if 0 <= p < buffer.len() && buffer[p] == 0u8 && (forall|j: int| 0 <= j < p ==> buffer[j] != 0u8) {
        assert(buffer.contains(0u8));
        lemma_leading_non_nul(buffer, p);
    }
    if forall|j: int| 0 <= j < buffer.len() ==> buffer[j] != 0u8 {
        assert(!buffer.contains(0u8));
        assert(buffer.take(0) =~= Seq::<u8>::empty());
    }
}

/// The ROM name that ALE wrote into `buffer`: the bytes before the first NUL
/// byte, decoded as UTF-8 with invalid sequences replaced; empty when the
/// buffer holds no NUL byte.
pub fn rom_name(buffer: &[u8]) -> (name: String)
    ensures
        name@ == utf8_lossy(buffer@.take(rom_name_end(buffer@) as int)),
{
    let end: usize = match position_of_nul(buffer) {
        Some(p) => {
            proof {
                lemma_leading_non_nul(buffer@, p as int);
            }
            p
        },
        None => 0,
    };
    let (prefix, _) = buffer.split_at(end);
    assert(prefix@ == buffer@.take(end as int));
    decode_lossy(prefix)
}

/// A zeroed buffer of `len` slots for the minimal action set.
pub fn action_buffer(len: usize) -> (actions: Vec<i32>)
    ensures
        actions@ == Seq::new(len as nat, |i: int| 0i32),
{
    vec![0i32; len]
}

/// Keeps the actions that ALE reports it wrote: the first `written`, or all
/// of them when it reports more than the buffer holds.
pub fn keep_written(actions: &mut Vec<i32>, written: usize)
    ensures
        final(actions)@ == old(actions)@.take(
            if written < old(actions)@.len() {
                written as int
            } else {
                old(actions)@.len() as int
            },
        ),
{
    if written < actions.len() {
        actions.truncate(written);
    }
}

/// The number of palette indices in a screen of `height` rows of `width`
/// pixels.
pub fn pixel_count(height: usize, width: usize) -> (count: usize)
    requires
        height * width <= usize::MAX,
    ensures
        count == height * width,
{
    height * width
}

/// A borrowed view of ALE's palette-index screen: `height` rows of `width`
/// bytes, row-major, each a palette index in `0..=255`; `pixels` holds
/// [`pixel_count`]`(height, width)` bytes.
#[derive(Clone, Copy, Debug)]
pub struct Screen<'a> {
    pub pixels: &'a [u8],
    pub height: usize,
    pub width: usize,
}

} // verus!
