//! The fixed-capacity containers of `heapless` and the channel of `embassy-sync`
//! that the driver keeps its data in, with what their sources show of them.

use vstd::prelude::*;
use embassy_sync::blocking_mutex::raw::CriticalSectionRawMutex;
use embassy_sync::channel::Channel;

verus! {

#[verifier::external_type_specification]
#[verifier::external_body]
#[verifier::reject_recursive_types(T)]
pub struct ExHeaplessVec<T, const N: usize>(heapless::Vec<T, N>);

/// Capacity of one chunk of a streamed response, in bytes.
pub const STREAM_CHUNK_CAP: usize = 1600;

/// Number of chunks that a stream holds before its reader takes one.
pub const STREAM_CAP: usize = 4;

/// Capacity of an SSID, in bytes.
pub const SSID_CAP: usize = 32;

/// One chunk of a streamed response.
pub type StreamResponse = heapless::Vec<u8, 1600>;

/// The bytes of an SSID.
pub type SsidBytes = heapless::Vec<u8, 32>;

/// The bytes that a stream chunk holds, in order.
pub uninterp spec fn chunk_bytes(v: heapless::Vec<u8, 1600>) -> Seq<u8>;

/// The bytes that an SSID buffer holds, in order.
pub uninterp spec fn ssid_bytes(v: heapless::Vec<u8, 32>) -> Seq<u8>;

/// `heapless::Vec::new` for a stream chunk: the new vector is empty.
#[verifier::external_body]
pub(crate) fn chunk_new() -> (v: StreamResponse)
    ensures
        chunk_bytes(v) == Seq::<u8>::empty(),
{
    heapless::Vec::new()
}

/// `heapless::Vec::extend_from_slice` for a stream chunk. The source appends
/// every byte of `other` when the result fits the capacity of 1600, and
/// otherwise returns `Err(())` without touching the vector.
#[verifier::external_body]
pub(crate) fn chunk_extend_from_slice(v: &mut StreamResponse, other: &[u8]) -> (r: Result<(), ()>)
    ensures
        chunk_bytes(*old(v)).len() + other@.len() <= 1600 ==> r is Ok && chunk_bytes(*final(v))
            == chunk_bytes(*old(v)) + other@,
        chunk_bytes(*old(v)).len() + other@.len() > 1600 ==> r is Err && chunk_bytes(*final(v))
            == chunk_bytes(*old(v)),
{
    v.extend_from_slice(other)
}

/// `heapless::Vec::new` for an SSID: the new vector is empty.
#[verifier::external_body]
pub(crate) fn ssid_new() -> (v: SsidBytes)
    ensures
        ssid_bytes(v) == Seq::<u8>::empty(),
{
    heapless::Vec::new()
}

/// `heapless::Vec::extend_from_slice` for an SSID. The source appends every
/// byte of `other` when the result fits the capacity of 32, and otherwise
/// returns `Err(())` without touching the vector.
#[verifier::external_body]
pub(crate) fn ssid_extend_from_slice(v: &mut SsidBytes, other: &[u8]) -> (r: Result<(), ()>)
    ensures
        ssid_bytes(*old(v)).len() + other@.len() <= 32 ==> r is Ok && ssid_bytes(*final(v))
            == ssid_bytes(*old(v)) + other@,
        ssid_bytes(*old(v)).len() + other@.len() > 32 ==> r is Err && ssid_bytes(*final(v))
            == ssid_bytes(*old(v)),
{
    v.extend_from_slice(other)
}

/// `Clone::clone` of `heapless::Vec` for an SSID: the source copies every
/// element, in order, into a new vector.
#[verifier::external_body]
pub(crate) fn ssid_clone(v: &SsidBytes) -> (r: SsidBytes)
    ensures
        ssid_bytes(r) == ssid_bytes(*v),
{
    v.clone()
}

/// The queue through which the runner hands chunks of a streamed response to
/// the reader: an `embassy_sync::channel::Channel` of up to four chunks.
#[verifier::external_body]
pub struct StreamResponseChannel {
    chan: Channel<CriticalSectionRawMutex, StreamResponse, 4>,
}

/// The bytes of the chunks waiting in the channel, oldest first.
pub uninterp spec fn queued_chunks(c: StreamResponseChannel) -> Seq<Seq<u8>>;

/// `Channel::new`: the new channel holds no chunk.
#[verifier::external_body]
pub(crate) fn channel_new() -> (c: StreamResponseChannel)
    ensures
        queued_chunks(c) == Seq::<Seq<u8>>::empty(),
{
    StreamResponseChannel { chan: Channel::new() }
}

/// `Channel::clear`: the source empties the queue.
#[verifier::external_body]
pub(crate) fn channel_clear(c: &mut StreamResponseChannel)
    ensures
        queued_chunks(*final(c)) == Seq::<Seq<u8>>::empty(),
{
    c.chan.clear()
}

/// `Channel::try_send`: the source pushes the chunk at the back of the queue
/// unless the queue already holds four chunks, in which case it returns
/// `TrySendError::Full` and leaves the queue as it was.
#[verifier::external_body]
pub(crate) fn channel_try_send(c: &mut StreamResponseChannel, chunk: StreamResponse) -> (r: Result<(), ()>)
    ensures
        queued_chunks(*old(c)).len() < 4 ==> r is Ok && queued_chunks(*final(c)) == queued_chunks(
            *old(c),
        ).push(chunk_bytes(chunk)),
        queued_chunks(*old(c)).len() >= 4 ==> r is Err && queued_chunks(*final(c))
            == queued_chunks(*old(c)),
{
    match c.chan.try_send(chunk) {
        Ok(()) => Ok(()),
        Err(_) => Err(()),
    }
}

/// `Channel::try_receive`: the source pops the chunk at the front of the
/// queue, or returns `TryReceiveError::Empty` when the queue is empty.
#[verifier::external_body]
pub(crate) fn channel_try_receive(c: &mut StreamResponseChannel) -> (r: Option<StreamResponse>)
    ensures
        queued_chunks(*old(c)).len() == 0 ==> r is None && queued_chunks(*final(c))
            == queued_chunks(*old(c)),
        queued_chunks(*old(c)).len() > 0 ==> r is Some && chunk_bytes(r->0) == queued_chunks(
            *old(c),
        )[0] && queued_chunks(*final(c)) == queued_chunks(*old(c)).drop_first(),
{
    c.chan.try_receive().ok()
}

} // verus!
