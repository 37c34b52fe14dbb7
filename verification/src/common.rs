//! Sizes and defaults shared by the generator and the workers.

use std::time::Duration;
use vstd::prelude::*;

verus! {

/// Length of the generator's buffer in bytes.
pub const BUFFER_LEN: usize = 1024;

/// Length of the key region at the start of the buffer.
pub const KEY_LEN: usize = 32;

/// Length of the output region that follows the key region.
pub const OUTPUT_LEN: usize = 992;

/// Length of the cipher's nonce.
pub const NONCE_LEN: usize = 12;

/// Milliseconds a worker sleeps before it looks for a reader again.
pub const BACKOFF_MILLIS: u64 = 20;

/// The generator's buffer: the key region followed by the output region.
pub type Buffer = [u8; 1024];

/// The key region of a buffer.
pub type Key = [u8; 32];

/// The output region of a buffer: one block as it is written to the pipe.
pub type Output = [u8; 992];

/// The cipher's nonce.
pub type Nonce = [u8; 12];

/// The sequence of `len` zero bytes.
pub open spec fn zeros(len: nat) -> Seq<u8> {
    Seq::new(len, |i: int| 0u8)
}

/// The duration that `Duration::from_millis` builds from a number of
/// milliseconds.
pub uninterp spec fn duration_of_millis(millis: u64) -> Duration;

/// `Duration::from_millis` of std: the duration of that many milliseconds.
/// The contract only gives the result its name, a function of the argument.
pub assume_specification[ Duration::from_millis ](millis: u64) -> (d: Duration)
    ensures
        d == duration_of_millis(millis),
;

/// The time a worker sleeps while no reader has opened the pipe.
pub fn default_sleep_time() -> (d: Duration)
    ensures
        d == duration_of_millis(BACKOFF_MILLIS),
{
    Duration::from_millis(BACKOFF_MILLIS)
}

/// A fresh buffer, all zero.
pub fn create_buffer() -> (buffer: Buffer)
    ensures
        buffer@ == zeros(BUFFER_LEN as nat),
{
    let buffer: Buffer = [0u8; 1024];
    assert(buffer@ =~= zeros(BUFFER_LEN as nat));
    buffer
}

} // verus!
