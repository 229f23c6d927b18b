//! What a command must look like before it is handed to the connector.

use vstd::prelude::*;
use vstd::utf8::*;
use crate::buffers::{str_from_utf8, TERMINATOR};

verus! {

/// The last byte of `s` is the terminator.
pub open spec fn is_terminated(s: Seq<u8>) -> bool {
    s.len() > 0 && s[s.len() - 1] == TERMINATOR
}

/// A command that the connector can read: not empty, ended by the
/// terminator, and well-formed UTF-8.
pub open spec fn well_formed_command(s: Seq<u8>) -> bool {
    &&& is_terminated(s)
    &&& valid_utf8(s)
}

/// Whether `buf` holds at least one byte and ends with the terminator.
pub fn ends_with_terminator(buf: &[u8]) -> (b: bool)
    ensures
        b == is_terminated(buf@),
{
    buf.len() > 0 && buf[buf.len() - 1] == TERMINATOR
}

/// Whether `buf` is a command that the connector can read. The connector
/// reads up to the terminator and takes the bytes for UTF-8 without looking,
/// so a buffer that fails this test must not reach it.
pub fn command_is_well_formed(buf: &[u8]) -> (b: bool)
    ensures
        b == well_formed_command(buf@),
{
    ends_with_terminator(buf) && str_from_utf8(buf).is_some()
}

} // verus!
