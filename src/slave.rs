//! The bus side of the echo self-test: a device that answers each word it
//! receives with that word plus one.
use vstd::prelude::*;

verus! {

/// The word that the echo device sends on the exchange after it received
/// `received`: one more, wrapping from `0xffff` to `0`.
pub fn echo_reply(received: u16) -> (r: u16)
    ensures
        r == (received + 1) % 0x10000,
{
    received.wrapping_add(1)
}

} // verus!
