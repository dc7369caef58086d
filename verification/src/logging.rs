//! The host import surface: the logging callback that a module is linked
//! against.
//!
//! A module logs by calling the import with a level and two packed values,
//! one for the target and one for the message, each naming text in the
//! module's own memory. The host answers with one line,
//! `L{level} [{target}] {message}`. The functions here build that line; to
//! write it to the log is left to the caller. Text is handled as bytes and
//! passes through unchanged, so for UTF-8 text the line is the UTF-8 of the
//! formatted text.

use vstd::prelude::*;
use crate::codec::unpack_spec;
use crate::memory::{in_bounds, polka_wasm_result_to_slice, region, OutOfBounds};

verus! {

/// ASCII `0`.
pub const ZERO: u8 = 48;

/// ASCII `L`, which opens a line.
pub const PREFIX: u8 = 76;

/// ASCII space.
pub const SPACE: u8 = 32;

/// ASCII `[`.
pub const OPEN: u8 = 91;

/// ASCII `]`.
pub const CLOSE: u8 = 93;

/// The decimal digits of `n` in ASCII, most significant first, without
/// leading zeros.
pub open spec fn decimal(n: nat) -> Seq<u8>
    decreases n,
{
    if n < 10 {
        seq![(ZERO + n) as u8]
    } else {
        decimal(n / 10).push((ZERO + n % 10) as u8)
    }
}

/// The line `L{level} [{target}] {message}`.
pub open spec fn log_line_spec(level: u32, target: Seq<u8>, message: Seq<u8>) -> Seq<u8> {
    seq![PREFIX] + decimal(level as nat) + seq![SPACE, OPEN] + target + seq![CLOSE, SPACE] + message
}

/// Appends the decimal digits of `n` to `out`.
fn push_decimal(out: &mut Vec<u8>, n: u32)
    ensures
        final(out)@ == old(out)@ + decimal(n as nat),
    decreases n,
{
    if n >= 10 {
        push_decimal(out, n / 10);
    }
    let digit: u8 = ZERO + (n % 10) as u8;
    out.push(digit);
}

/// Appends `bytes` to `out`.
fn push_bytes(out: &mut Vec<u8>, bytes: &[u8])
    ensures
        final(out)@ == old(out)@ + bytes@,
{
    out.extend_from_slice(bytes);
    assert(out@ =~= old(out)@ + bytes@);
}

/// Builds the line that one call of the logging import writes.
pub fn log_line(level: u32, target: &[u8], message: &[u8]) -> (line: Vec<u8>)
    ensures
        line@ == log_line_spec(level, target@, message@),
{
    let mut line: Vec<u8> = Vec::new();
    line.push(PREFIX);
    push_decimal(&mut line, level);
    line.push(SPACE);
    line.push(OPEN);
    push_bytes(&mut line, target);
    line.push(CLOSE);
    line.push(SPACE);
    push_bytes(&mut line, message);
    assert(line@ =~= log_line_spec(level, target@, message@));
    line
}

/// The logging import, over the memory of the module that calls it: reads
/// the target and the message where the two packed values point, and builds
/// the line. A value that points outside `memory` is refused, the target's
/// first.
pub fn ext_logging_log_version_1(memory: &[u8], level: u32, target: u64, message: u64) -> (outcome:
    Result<Vec<u8>, OutOfBounds>)
    ensures
        outcome is Ok <==> in_bounds(memory@.len(), unpack_spec(target).0, unpack_spec(target).1)
            && in_bounds(memory@.len(), unpack_spec(message).0, unpack_spec(message).1),
        outcome matches Ok(line) ==> line@ == log_line_spec(
            level,
            region(memory@, unpack_spec(target).0, unpack_spec(target).1),
            region(memory@, unpack_spec(message).0, unpack_spec(message).1),
        ),
        outcome matches Err(e) ==> e == (if in_bounds(
            memory@.len(),
            unpack_spec(target).0,
            unpack_spec(target).1,
        ) {
            OutOfBounds {
                offset: unpack_spec(message).0,
                length: unpack_spec(message).1 as usize,
                extent: memory@.len() as usize,
            }
        } else {
            OutOfBounds {
                offset: unpack_spec(target).0,
                length: unpack_spec(target).1 as usize,
                extent: memory@.len() as usize,
            }
        }),
{
    let target_text = match polka_wasm_result_to_slice(memory, target) {
        Ok(bytes) => bytes,
        Err(e) => { return Err(e); },
    };
    let message_text = match polka_wasm_result_to_slice(memory, message) {
        Ok(bytes) => bytes,
        Err(e) => { return Err(e); },
    };
    Ok(log_line(level, target_text, message_text))
}

} // verus!
