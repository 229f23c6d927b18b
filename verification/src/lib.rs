//! A safety layer over a connector that is loaded at run time and speaks a C
//! ABI: the shape of its replies, the staging of deliveries, the bookkeeping of
//! the handler slot and of the module's entry points, and the framing of a
//! proxy session.

use vstd::prelude::*;

pub mod buffers;
pub mod callback;
pub mod error;
pub mod ffi;
pub mod level;
pub mod proxy;
pub mod sender;
pub mod stream;

pub use buffers::{parse_send_response, TCStr};
pub use error::Error;
pub use level::LogLevel;
pub use stream::Stream;

verus! {

/// Marks the path that reaches it as the unlikely one.
pub fn cold() {
}

/// Returns `b`, telling the optimiser that `true` is the expected value.
pub fn likely(b: bool) -> (r: bool)
    ensures
        r == b,
{
    if !b {
        cold();
    }
    b
}

/// Returns `b`, telling the optimiser that `false` is the expected value.
pub fn unlikely(b: bool) -> (r: bool)
    ensures
        r == b,
{
    if b {
        cold();
    }
    b
}

} // verus!
