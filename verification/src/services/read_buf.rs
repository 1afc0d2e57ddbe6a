//! What this library relies on of tokio's `ReadBuf`, the destination of a
//! cooperative read. Nothing here is proved: each contract restates the
//! behaviour of the method it names.

use tokio::io::ReadBuf;
use vstd::prelude::*;

verus! {

/// tokio's `ReadBuf`, taken as an opaque value.
#[verifier::external_type_specification]
#[verifier::external_body]
pub struct ExReadBuf<'a>(ReadBuf<'a>);

/// The filled region of a `ReadBuf`: what `ReadBuf::filled` returns.
pub uninterp spec fn read_buf_filled(buf: &ReadBuf<'_>) -> Seq<u8>;

/// The total capacity of a `ReadBuf`: what `ReadBuf::capacity` returns. It is
/// fixed when the buffer is made.
pub uninterp spec fn read_buf_capacity(buf: &ReadBuf<'_>) -> nat;

/// Room left in a `ReadBuf` after its filled region.
pub open spec fn read_buf_remaining(buf: &ReadBuf<'_>) -> nat {
    if read_buf_filled(buf).len() <= read_buf_capacity(buf) {
        (read_buf_capacity(buf) - read_buf_filled(buf).len()) as nat
    } else {
        0
    }
}

/// `ReadBuf::remaining`: the capacity minus the length of the filled region,
/// which never exceeds the capacity.
#[verifier::external_body]
pub(crate) fn remaining(buf: &ReadBuf<'_>) -> (room: usize)
    ensures
        read_buf_filled(buf).len() + room == read_buf_capacity(buf),
{
    buf.remaining()
}

/// `ReadBuf::put_slice`: appends `src` to the filled region and leaves the
/// capacity as it is. The method panics when `src` is longer than the room
/// left, so the caller has to rule that out.
#[verifier::external_body]
pub(crate) fn put_slice(buf: &mut ReadBuf<'_>, src: &[u8])
    requires
        src@.len() <= read_buf_remaining(old(buf)),
    ensures
        read_buf_filled(final(buf)) == read_buf_filled(old(buf)) + src@,
        read_buf_capacity(final(buf)) == read_buf_capacity(old(buf)),
{
    buf.put_slice(src)
}

} // verus!
