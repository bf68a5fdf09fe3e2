//! The heap arena: one fixed region, initialized once, from which every
//! allocation is carved.
use vstd::prelude::*;

verus! {

/// Size of the firmware's heap region in bytes.
pub const HEAP_SIZE: usize = 2 * 1024;

/// Why the arena refused a request.
#[derive(Clone, Copy, Debug, PartialEq, Eq, Structural)]
pub enum HeapError {
    /// An allocation came before `init`.
    NotInitialized,
    /// `init` was called a second time.
    AlreadyInitialized,
    /// The region has no room left for the request.
    Exhausted,
}

/// A bump arena over the byte region `[start, start + size)`.
pub struct HeapArena {
    start: usize,
    size: usize,
    used: usize,
    initialized: bool,
}

impl HeapArena {
    pub closed spec fn spec_initialized(&self) -> bool {
        self.initialized
    }

    pub closed spec fn spec_start(&self) -> int {
        self.start as int
    }

    pub closed spec fn spec_size(&self) -> int {
        self.size as int
    }

    /// Bytes handed out so far.
    pub closed spec fn spec_used(&self) -> int {
        self.used as int
    }

    /// Nothing is handed out before `init`, and never more than the region.
    pub open spec fn wf(&self) -> bool {
        &&& !self.spec_initialized() ==> self.spec_used() == 0
        &&& 0 <= self.spec_used() <= self.spec_size()
        &&& self.spec_start() + self.spec_size() <= usize::MAX
    }

    /// An arena with no region yet.
    pub fn empty() -> (h: HeapArena)
        ensures
            h.wf(),
            !h.spec_initialized(),
            h.spec_used() == 0,
            h.spec_size() == 0,
    {
        HeapArena { start: 0, size: 0, used: 0, initialized: false }
    }

    pub fn is_initialized(&self) -> (b: bool)
        ensures
            b == self.spec_initialized(),
    {
        self.initialized
    }

    /// Bytes still free.
    pub fn available(&self) -> (n: usize)
        requires
            self.wf(),
        ensures
            n == self.spec_size() - self.spec_used(),
    {
        self.size - self.used
    }

    /// Gives the arena the region `[start, start + size)`. Only the first call
    /// is accepted.
    pub fn init(&mut self, start: usize, size: usize) -> (r: Result<(), HeapError>)
        requires
            old(self).wf(),
            start as int + size as int <= usize::MAX,
        ensures
            final(self).wf(),
            old(self).spec_initialized() ==> r == Err::<(), HeapError>(HeapError::AlreadyInitialized)
                && *final(self) == *old(self),
            !old(self).spec_initialized() ==> r is Ok && final(self).spec_initialized()
                && final(self).spec_start() == start && final(self).spec_size() == size
                && final(self).spec_used() == 0,
    {
        if self.initialized {
            return Err(HeapError::AlreadyInitialized);
        }
        self.start = start;
        self.size = size;
        self.used = 0;
        self.initialized = true;
        Ok(())
    }

    /// Carves `len` bytes off the region and returns their first address.
    /// Before `init` nothing is handed out and the arena is left as it was.
    pub fn allocate(&mut self, len: usize) -> (r: Result<usize, HeapError>)
        requires
            old(self).wf(),
        ensures
            final(self).wf(),
            !old(self).spec_initialized() ==> r == Err::<usize, HeapError>(HeapError::NotInitialized)
                && *final(self) == *old(self),
            old(self).spec_initialized() && old(self).spec_used() + len > old(self).spec_size()
                ==> r == Err::<usize, HeapError>(HeapError::Exhausted) && *final(self) == *old(self),
            old(self).spec_initialized() && old(self).spec_used() + len <= old(self).spec_size()
                ==> r == Ok::<usize, HeapError>((old(self).spec_start() + old(self).spec_used()) as usize)
                && final(self).spec_used() == old(self).spec_used() + len
                && final(self).spec_start() == old(self).spec_start()
                && final(self).spec_size() == old(self).spec_size()
                && final(self).spec_initialized(),
    {
        if !self.initialized {
            return Err(HeapError::NotInitialized);
        }
        if len > self.size - self.used {
            return Err(HeapError::Exhausted);
        }
        let addr = self.start + self.used;
        self.used = self.used + len;
        Ok(addr)
    }
}

/// Two successful allocations from one arena never overlap: the second
/// starts where the first ends or later.
pub proof fn lemma_allocations_disjoint(h0: HeapArena, h1: HeapArena, h2: HeapArena, len1: usize, a1: usize, a2: usize)
    requires
        h0.wf(),
        h0.spec_initialized(),
        h0.spec_used() + len1 <= h0.spec_size(),
        a1 == h0.spec_start() + h0.spec_used(),
        h1.spec_used() == h0.spec_used() + len1,
        h1.spec_start() == h0.spec_start(),
        a2 == h1.spec_start() + h1.spec_used(),
    ensures
        a1 + len1 <= a2,
{
}

} // verus!
