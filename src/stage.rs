use crate::handoff::SendOutcome;
use crate::pool::{target_size, BufferPool, Pooled};
use crate::quad::{encode_quads, quads_bytes, Quad, QUAD_BYTES};
use vstd::prelude::*;

verus! {

/// Whether a worker goes on with its loop.
#[derive(Clone, Copy, Debug, PartialEq, Eq, Structural)]
pub enum LoopControl {
    Continue,
    Exit,
}

/// Bytes that `num_instances` quads take in a buffer.
pub fn frame_bytes(num_instances: u32) -> (r: u64)
    ensures
        r == QUAD_BYTES * num_instances,
{
    QUAD_BYTES * num_instances as u64
}

/// A worker's reaction to a send: a delivered message and one refused by a full
/// slot both let it go on; a closed handoff means the next stage is gone, so it
/// leaves its loop.
pub fn after_send<T>(outcome: &SendOutcome<T>) -> (r: LoopControl)
    ensures
        r == (if outcome is Closed {
            LoopControl::Exit
        } else {
            LoopControl::Continue
        }),
{
    match outcome {
        SendOutcome::Closed(_) => LoopControl::Exit,
        _ => LoopControl::Continue,
    }
}

/// A worker goes round once more only while it is alive and its last send did not
/// find the next stage gone.
pub fn keep_running(alive: bool, last: LoopControl) -> (r: bool)
    ensures
        r == (alive && last == LoopControl::Continue),
{
    alive && last == LoopControl::Continue
}

/// The message from the UI stage to the transfer stage: a staging buffer that holds
/// `num_instances` serialized quads.
pub struct UiWorkerMessage<B> {
    staging_buffer: Pooled<B>,
    num_instances: u32,
}

impl<B> UiWorkerMessage<B> {
    #[verifier::type_invariant]
    spec fn fits(&self) -> bool {
        self.staging_buffer.size >= QUAD_BYTES * self.num_instances
    }

    /// The number of quads the message carries.
    pub closed spec fn instances(&self) -> nat {
        self.num_instances as nat
    }

    /// The size of the buffer the message carries.
    pub closed spec fn capacity(&self) -> nat {
        self.staging_buffer.size as nat
    }

    /// A message for `num_instances` quads in `staging_buffer`. Where the buffer is too
    /// small to hold them, it comes back as the error.
    pub fn new(staging_buffer: Pooled<B>, num_instances: u32) -> (r: Result<Self, Pooled<B>>)
        ensures
            r is Ok <==> staging_buffer.size >= QUAD_BYTES * num_instances,
            r matches Ok(m) ==> m.instances() == num_instances && m.capacity()
                == staging_buffer.size,
            r matches Err(b) ==> b == staging_buffer,
    {
        if staging_buffer.size >= frame_bytes(num_instances) {
            Ok(UiWorkerMessage { staging_buffer, num_instances })
        } else {
            Err(staging_buffer)
        }
    }

    /// The number of quads the message carries.
    pub fn num_instances(&self) -> (r: u32)
        ensures
            r == self.instances(),
    {
        self.num_instances
    }

    /// The staging buffer, which holds at least `32 * num_instances` bytes.
    pub fn staging_buffer(&self) -> (r: &Pooled<B>)
        ensures
            r.size == self.capacity(),
            r.size >= QUAD_BYTES * self.instances(),
    {
        proof {
            use_type_invariant(self);
        }
        &self.staging_buffer
    }

    /// Takes the message apart: the buffer always holds `32 * num_instances` bytes.
    pub fn into_parts(self) -> (r: (Pooled<B>, u32))
        ensures
            r.1 == self.instances(),
            r.0.size == self.capacity(),
            r.0.size >= QUAD_BYTES * r.1,
    {
        proof {
            use_type_invariant(&self);
        }
        (self.staging_buffer, self.num_instances)
    }
}

/// The UI stage's work on one frame once it holds a staging buffer: serialize the
/// quads and address them to the transfer stage. The bytes go into the buffer's
/// mapping. The buffer comes back unused when it cannot hold the quads, or when
/// there are more quads than a message can count or memory can address.
pub fn pack_frame<B>(staging_buffer: Pooled<B>, quads: &Vec<Quad>) -> (r: Result<
    (UiWorkerMessage<B>, Vec<u8>),
    Pooled<B>,
>)
    ensures
        r is Ok <==> quads@.len() <= u32::MAX && QUAD_BYTES * quads@.len()
            <= staging_buffer.size && QUAD_BYTES * quads@.len() <= usize::MAX,
        r matches Ok((m, bytes)) ==> bytes@ == quads_bytes(quads@) && m.instances()
            == quads@.len() && m.capacity() == staging_buffer.size,
        r matches Err(b) ==> b == staging_buffer,
{
    let n = quads.len();
    if n > u32::MAX as usize || n > usize::MAX / 32 {
        return Err(staging_buffer);
    }
    let count = n as u32;
    if frame_bytes(count) > staging_buffer.size {
        return Err(staging_buffer);
    }
    let bytes = encode_quads(quads);
    match UiWorkerMessage::new(staging_buffer, count) {
        Ok(m) => Ok((m, bytes)),
        Err(b) => Err(b),
    }
}

/// The message from the transfer stage to the render stage: a storage buffer that
/// holds `num_instances` quads.
pub struct TransferWorkerMessage<B> {
    storage_buffer: Pooled<B>,
    num_instances: u32,
}

impl<B> TransferWorkerMessage<B> {
    #[verifier::type_invariant]
    spec fn fits(&self) -> bool {
        self.storage_buffer.size >= QUAD_BYTES * self.num_instances
    }

    /// The number of quads the message carries.
    pub closed spec fn instances(&self) -> nat {
        self.num_instances as nat
    }

    /// The size of the buffer the message carries.
    pub closed spec fn capacity(&self) -> nat {
        self.storage_buffer.size as nat
    }

    /// A message for `num_instances` quads in `storage_buffer`. Where the buffer is too
    /// small to hold them, it comes back as the error.
    pub fn new(storage_buffer: Pooled<B>, num_instances: u32) -> (r: Result<Self, Pooled<B>>)
        ensures
            r is Ok <==> storage_buffer.size >= QUAD_BYTES * num_instances,
            r matches Ok(m) ==> m.instances() == num_instances && m.capacity()
                == storage_buffer.size,
            r matches Err(b) ==> b == storage_buffer,
    {
        if storage_buffer.size >= frame_bytes(num_instances) {
            Ok(TransferWorkerMessage { storage_buffer, num_instances })
        } else {
            Err(storage_buffer)
        }
    }

    /// The number of quads the message carries.
    pub fn num_instances(&self) -> (r: u32)
        ensures
            r == self.instances(),
    {
        self.num_instances
    }

    /// The storage buffer, which holds at least `32 * num_instances` bytes.
    pub fn storage_buffer(&self) -> (r: &Pooled<B>)
        ensures
            r.size == self.capacity(),
            r.size >= QUAD_BYTES * self.instances(),
    {
        proof {
            use_type_invariant(self);
        }
        &self.storage_buffer
    }

    /// Takes the message apart: the buffer always holds `32 * num_instances` bytes.
    pub fn into_parts(self) -> (r: (Pooled<B>, u32))
        ensures
            r.1 == self.instances(),
            r.0.size == self.capacity(),
            r.0.size >= QUAD_BYTES * r.1,
    {
        proof {
            use_type_invariant(&self);
        }
        (self.storage_buffer, self.num_instances)
    }
}

/// Where a storage buffer for the current message comes from: one in hand that is
/// large enough, or a new one of the given size that the caller creates and hands
/// to the pool's `adopt`.
pub enum Supply<B> {
    Ready(Pooled<B>),
    Allocate(u64),
}

/// The transfer stage's choice of a storage buffer for `num_bytes` bytes, given the
/// buffer `held` it requested before the message arrived. A buffer that is large
/// enough is used as it is. Otherwise it is handed back, and the pool is asked for
/// `num_bytes` bytes, growing if need be.
pub fn supply_storage<B: Clone>(pool: &mut BufferPool<B>, held: Pooled<B>, num_bytes: u64) -> (r:
    Supply<B>)
    requires
        old(pool).wf(),
        target_size(old(pool)@.buffer_size, Some(num_bytes)) <= u64::MAX,
    ensures
        final(pool).wf(),
        held.size >= num_bytes ==> r == Supply::Ready(held) && final(pool)@ == old(pool)@,
        held.size < num_bytes ==> final(pool)@.buffer_size == target_size(
            old(pool)@.buffer_size,
            Some(num_bytes),
        ) && final(pool)@.retain == old(pool)@.retain,
        r matches Supply::Ready(p) ==> p.size >= num_bytes,
        r matches Supply::Allocate(s) ==> s == final(pool)@.buffer_size && s >= num_bytes,
{
    if held.size >= num_bytes {
        return Supply::Ready(held);
    }
    held.ready.release();
    match pool.request(Some(num_bytes)) {
        Some(p) => Supply::Ready(p),
        None => Supply::Allocate(pool.buffer_size()),
    }
}

} // verus!
