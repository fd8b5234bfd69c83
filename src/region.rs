//! The region handle and the buffer that carries the region's backing name.
use vstd::prelude::*;
use vstd::string::StringSliceAdditionalSpecFns;

verus! {

/// Capacity of the buffer that carries the backing name, terminator included.
pub const PATH_CAPACITY: usize = 0x1000;

/// The bytes handed to the primitive for a backing name: the name, then zeros
/// up to the buffer's capacity.
pub open spec fn name_buffer(name: Seq<u8>) -> Seq<u8> {
    name + Seq::new((PATH_CAPACITY - name.len()) as nat, |i: int| 0u8)
}

/// An allocator over one initialized region, known by the primitive's handle.
pub struct PSMAllocator {
    handle: usize,
}

impl PSMAllocator {
    pub closed spec fn spec_handle(&self) -> usize {
        self.handle
    }

    /// Wraps the handle that the primitive's initialization produced.
    pub fn from_handle(handle: usize) -> (r: Self)
        ensures
            r.spec_handle() == handle,
    {
        PSMAllocator { handle }
    }

    /// The handle this allocator forwards its raw requests to.
    pub fn handle(&self) -> (r: usize)
        ensures
            r == self.spec_handle(),
    {
        self.handle
    }

    /// The zero-terminated buffer that names the backing region; `None` where
    /// the name with its terminator does not fit in `PATH_CAPACITY` bytes, in
    /// which case no region may be initialized.
    pub fn name_bytes(name: &str) -> (r: Option<Vec<u8>>)
        ensures
            r is None <==> name.spec_bytes().len() >= PATH_CAPACITY,
            r matches Some(b) ==> b@ == name_buffer(name.spec_bytes()),
    {
        let bytes = name.as_bytes();
        let n = bytes.len();
        if n >= PATH_CAPACITY {
            return None;
        }
        let mut buf: Vec<u8> = Vec::with_capacity(PATH_CAPACITY);
        let mut i: usize = 0;
        while i < PATH_CAPACITY
            invariant
                n == bytes@.len(),
                n < PATH_CAPACITY,
                bytes@ == name.spec_bytes(),
                i <= PATH_CAPACITY,
                buf@.len() == i,
                forall|j: int| 0 <= j < i ==> buf@[j] == name_buffer(bytes@)[j],
            decreases PATH_CAPACITY - i,
        {
            if i < n {
                buf.push(bytes[i]);
            } else {
                buf.push(0u8);
            }
            i = i + 1;
        }
        assert(buf@ =~= name_buffer(bytes@));
        Some(buf)
    }
}

} // verus!
