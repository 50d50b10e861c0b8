use crate::flag::ReadyFlag;
use vstd::prelude::*;

verus! {

/// The size in bytes that a worker's pool starts with.
pub const INITIAL_BUFFER_SIZE: u64 = 1024;

/// A buffer handed out by a pool, with its availability flag and its size in bytes.
pub struct Pooled<B> {
    pub buffer: B,
    pub ready: ReadyFlag,
    pub size: u64,
}

impl<B: Clone> Pooled<B> {
    /// A second handle on the same buffer and the same flag.
    pub fn share(&self) -> (r: Pooled<B>)
        ensures
            r.size == self.size,
    {
        Pooled { buffer: self.buffer.clone(), ready: self.ready.clone(), size: self.size }
    }
}

/// The size a pool of buffers of `size` bytes has after it has grown for a request
/// of at least `min` bytes: `size` doubled until it reaches `min`.
pub open spec fn grown(size: nat, min: nat) -> nat
    decreases (if size < min { min - size } else { 0 }),
{
    if size == 0 || size >= min {
        size
    } else {
        grown(2 * size, min)
    }
}

/// The size of a pool of buffers of `size` bytes after a request with `min_size`.
pub open spec fn target_size(size: nat, min_size: Option<u64>) -> nat {
    match min_size {
        Some(m) => grown(size, m as nat),
        None => size,
    }
}

/// Growing never shrinks, reaches the minimum, and overshoots it by less than one
/// doubling.
pub proof fn lemma_grown_bounds(size: nat, min: nat)
    requires
        size > 0,
    ensures
        grown(size, min) >= size,
        grown(size, min) >= min,
        grown(size, min) > size ==> grown(size, min) < 2 * min,
        grown(size, min) == size <==> size >= min,
    decreases (if size < min { min - size } else { 0 }),
{
    if size < min {
        lemma_grown_bounds(2 * size, min);
    }
}

/// What a pool looks like from outside: the size of its buffers, how many it keeps,
/// and whether it keeps the buffers it creates.
pub struct PoolView {
    pub buffer_size: nat,
    pub len: nat,
    pub retain: bool,
}

/// A grow-on-demand pool of equally sized buffers, owned by one thread.
///
/// A request first grows the pool until its buffers are large enough, dropping the
/// buffers it kept (those still in use live on with their holders). It then hands
/// out a kept buffer whose flag it could take, or reports that none is free; the
/// caller then creates one of `buffer_size` bytes and gives it to `adopt`.
pub struct BufferPool<B> {
    entries: Vec<Pooled<B>>,
    buffer_size: u64,
    retain: bool,
}

impl<B> View for BufferPool<B> {
    type V = PoolView;

    closed spec fn view(&self) -> PoolView {
        PoolView { buffer_size: self.buffer_size as nat, len: self.entries@.len(), retain: self.retain }
    }
}

impl<B: Clone> BufferPool<B> {
    /// Well-formed: the size is positive and every kept buffer has that size.
    pub closed spec fn wf(&self) -> bool {
        &&& self.buffer_size > 0
        &&& forall|i: int| 0 <= i < self.entries@.len() ==> #[trigger] self.entries@[i].size
            == self.buffer_size
    }

    /// An empty pool of buffers of `initial_buffer_size` bytes. With `retain` it
    /// keeps each buffer it adopts for later reuse; without, adopted buffers are
    /// handed out once.
    pub fn new(initial_buffer_size: u64, retain: bool) -> (r: Self)
        requires
            initial_buffer_size > 0,
        ensures
            r.wf(),
            r@ == (PoolView { buffer_size: initial_buffer_size as nat, len: 0, retain }),
    {
        BufferPool { entries: Vec::new(), buffer_size: initial_buffer_size, retain }
    }

    /// The size in bytes of the buffers this pool hands out.
    pub fn buffer_size(&self) -> (r: u64)
        ensures
            r == self@.buffer_size,
    {
        self.buffer_size
    }

    /// How many buffers the pool keeps.
    pub fn len(&self) -> (r: usize)
        ensures
            r == self@.len,
    {
        self.entries.len()
    }

    /// The buffer size that a request with `min_size` would leave, or `None` where
    /// that size does not fit in a `u64`.
    pub fn size_for(&self, min_size: Option<u64>) -> (r: Option<u64>)
        requires
            self.wf(),
        ensures
            r == (if target_size(self@.buffer_size, min_size) <= u64::MAX {
                Some(target_size(self@.buffer_size, min_size) as u64)
            } else {
                None::<u64>
            }),
    {
        let m = match min_size {
            Some(m) => m,
            None => {
                return Some(self.buffer_size);
            },
        };
        let mut s: u64 = self.buffer_size;
        while s < m
            invariant
                s > 0,
                min_size == Some(m),
                grown(s as nat, m as nat) == grown(self.buffer_size as nat, m as nat),
            decreases (if s < m { m - s } else { 0 }),
        {
            if s > u64::MAX / 2 {
                proof {
                    assert(grown(s as nat, m as nat) == grown(2 * s as nat, m as nat));
                    lemma_grown_bounds(2 * s as nat, m as nat);
                }
                return None;
            }
            s = s * 2;
        }
        Some(s)
    }

    /// Grows the buffer size for a request of at least `min_size` bytes: while it is
    /// below, it doubles, and the kept buffers are dropped.
    pub fn check_size(&mut self, min_size: Option<u64>)
        requires
            old(self).wf(),
            target_size(old(self)@.buffer_size, min_size) <= u64::MAX,
        ensures
            final(self).wf(),
            final(self)@.buffer_size == target_size(old(self)@.buffer_size, min_size),
            final(self)@.buffer_size >= old(self)@.buffer_size,
            min_size matches Some(m) ==> final(self)@.buffer_size >= m,
            final(self)@.retain == old(self)@.retain,
            final(self)@.len == (if final(self)@.buffer_size == old(self)@.buffer_size {
                old(self)@.len
            } else {
                0
            }),
    {
        proof {
            lemma_buffer_size_monotone(self.buffer_size as nat, min_size);
        }
        if let Some(m) = min_size {
            proof {
                lemma_grown_bounds(self.buffer_size as nat, m as nat);
            }
            while self.buffer_size < m
                invariant
                    self.buffer_size > 0,
                    self.retain == old(self).retain,
                    grown(self.buffer_size as nat, m as nat) == grown(
                        old(self).buffer_size as nat,
                        m as nat,
                    ),
                    grown(old(self).buffer_size as nat, m as nat) <= u64::MAX,
                    self.buffer_size >= old(self).buffer_size,
                    self.buffer_size == old(self).buffer_size ==> self.entries@
                        == old(self).entries@,
                    self.buffer_size != old(self).buffer_size ==> self.entries@.len() == 0,
                    forall|i: int|
                        0 <= i < self.entries@.len() ==> #[trigger] self.entries@[i].size
                            == self.buffer_size,
                decreases (if self.buffer_size < m { m - self.buffer_size } else { 0 }),
            {
                proof {
                    lemma_grown_bounds(2 * self.buffer_size as nat, m as nat);
                }
                self.buffer_size = self.buffer_size * 2;
                self.entries.clear();
            }
            proof {
                lemma_grown_bounds(old(self).buffer_size as nat, m as nat);
            }
        }
    }

    /// Asks for a buffer of at least `min_size` bytes (of the current size where
    /// `None`). The pool first grows as `check_size` does, then scans its kept
    /// buffers and takes the first whose flag it can acquire. `None` means that no
    /// kept buffer was free: the caller creates one of `buffer_size` bytes and hands
    /// it to `adopt`.
    pub fn request(&mut self, min_size: Option<u64>) -> (r: Option<Pooled<B>>)
        requires
            old(self).wf(),
            target_size(old(self)@.buffer_size, min_size) <= u64::MAX,
        ensures
            final(self).wf(),
            final(self)@.buffer_size == target_size(old(self)@.buffer_size, min_size),
            final(self)@.buffer_size >= old(self)@.buffer_size,
            min_size matches Some(m) ==> final(self)@.buffer_size >= m,
            final(self)@.retain == old(self)@.retain,
            final(self)@.len == (if final(self)@.buffer_size == old(self)@.buffer_size {
                old(self)@.len
            } else {
                0
            }),
            r matches Some(p) ==> p.size == final(self)@.buffer_size,
            final(self)@.len == 0 ==> r is None,
    {
        self.check_size(min_size);
        let ghost grown_view = self@;
        let mut i: usize = 0;
        while i < self.entries.len()
            invariant
                self.wf(),
                self@ == grown_view,
                grown_view.buffer_size == target_size(old(self)@.buffer_size, min_size),
                grown_view.retain == old(self)@.retain,
                grown_view.buffer_size >= old(self)@.buffer_size,
                min_size matches Some(m) ==> grown_view.buffer_size >= m,
                grown_view.len == (if grown_view.buffer_size == old(self)@.buffer_size {
                    old(self)@.len
                } else {
                    0
                }),
                i <= self.entries@.len(),
            decreases self.entries@.len() - i,
        {
            if self.entries[i].ready.try_acquire() {
                return Some(self.entries[i].share());
            }
            i = i + 1;
        }
        None
    }

    /// Takes in a buffer that the caller created at `buffer_size` bytes after a
    /// request found none free. The buffer comes back held by the caller (its flag
    /// is `false`); a retaining pool also keeps a handle for later reuse.
    pub fn adopt(&mut self, buffer: B) -> (r: Pooled<B>)
        requires
            old(self).wf(),
        ensures
            final(self).wf(),
            r.buffer == buffer,
            r.size == old(self)@.buffer_size,
            final(self)@.buffer_size == old(self)@.buffer_size,
            final(self)@.retain == old(self)@.retain,
            final(self)@.len == old(self)@.len + (if old(self)@.retain {
                1nat
            } else {
                0nat
            }),
    {
        let fresh = Pooled { buffer, ready: ReadyFlag::new_held(), size: self.buffer_size };
        if self.retain {
            let kept = fresh.share();
            self.entries.push(kept);
        }
        fresh
    }
}

/// The buffer size never shrinks: after any request it is at least what it was.
pub proof fn lemma_buffer_size_monotone(size: nat, min_size: Option<u64>)
    requires
        size > 0,
    ensures
        target_size(size, min_size) >= size,
{
    if let Some(m) = min_size {
        lemma_grown_bounds(size, m as nat);
    }
}

/// A request for at least `m` bytes is served at a size of at least `m` bytes,
/// whether a kept buffer is reused or a new one is adopted; and the pool grows only
/// as far as needed, to less than twice `m`.
pub proof fn lemma_request_capacity(size: nat, m: u64)
    requires
        size > 0,
    ensures
        target_size(size, Some(m)) >= m,
        target_size(size, Some(m)) > size ==> target_size(size, Some(m)) < 2 * m,
{
    lemma_grown_bounds(size, m as nat);
}

} // verus!
