//! Where a user allocation and its back-reference footer sit inside a raw
//! block handed out by an alignment-oblivious allocator.
use vstd::arithmetic::div_mod::{
    lemma_fundamental_div_mod, lemma_mod_multiples_basic, lemma_small_mod,
};
use vstd::layout::size_of;
use vstd::prelude::*;

verus! {

/// Width in bytes of the footer that holds the block's base address.
pub open spec fn pointer_width() -> nat {
    size_of::<usize>()
}

/// `size` rounded up to the least multiple of `align` that is not below it.
pub open spec fn padded_len(size: int, align: int) -> int
    recommends
        align > 0,
{
    if size % align == 0 {
        size
    } else {
        size + (align - size % align)
    }
}

/// Bytes asked of the raw allocator for a `(size, align)` request: the padded
/// size, one alignment unit to absorb the correction, and the footer.
pub open spec fn full_len(size: int, align: int) -> int
    recommends
        align > 0,
{
    padded_len(size, align) + align + pointer_width()
}

/// Offset from a block's base to the first address aligned to `align`.
pub open spec fn correction_of(block: int, align: int) -> int
    recommends
        align > 0,
{
    (align - block % align) % align
}

/// A placed allocation: the raw block, the address handed to the user and
/// the address of the footer that records the block.
#[derive(Clone, Copy, Debug, PartialEq, Eq)]
pub struct Placement {
    pub block: usize,
    pub user: usize,
    pub footer: usize,
}

impl Placement {
    /// The placement of a `(size, align)` request in the block at `block`.
    pub open spec fn placed(self, block: int, size: int, align: int) -> bool {
        &&& self.block == block
        &&& self.user == block + correction_of(block, align)
        &&& self.footer == self.user + size
    }
}

/// The padded size lies in `[size, size + align)` and is a multiple of `align`.
pub proof fn lemma_padded_len(size: int, align: int)
    requires
        size >= 0,
        align > 0,
    ensures
        size <= padded_len(size, align) < size + align,
        padded_len(size, align) % align == 0,
{
    let r = size % align;
    lemma_fundamental_div_mod(size, align);
    if r != 0 {
        assert(size + (align - r) == align * (size / align + 1)) by (nonlinear_arith)
            requires
                size == align * (size / align) + r,
        ;
        lemma_mod_multiples_basic(size / align + 1, align);
    }
}

/// The correction is below one alignment unit and lands on an aligned address.
pub proof fn lemma_correction(block: int, align: int)
    requires
        block >= 0,
        align > 0,
    ensures
        0 <= correction_of(block, align) < align,
        correction_of(block, align) == if block % align == 0 {
            0
        } else {
            align - block % align
        },
        (block + correction_of(block, align)) % align == 0,
{
    let r = block % align;
    lemma_fundamental_div_mod(block, align);
    if r == 0 {
        assert(align % align == 0);
        assert(correction_of(block, align) == 0);
    } else {
        lemma_small_mod((align - r) as nat, align as nat);
        assert(block + (align - r) == align * (block / align + 1)) by (nonlinear_arith)
            requires
                block == align * (block / align) + r,
        ;
        lemma_mod_multiples_basic(block / align + 1, align);
    }
}

/// Every address handed to the user is a multiple of the requested alignment.
pub proof fn lemma_user_aligned(p: Placement, size: int, align: int)
    requires
        align > 0,
        p.placed(p.block as int, size, align),
    ensures
        (p.user as int) % align == 0,
        p.block <= p.user < p.block + align,
{
    lemma_correction(p.block as int, align);
}

/// The user bytes and the footer lie inside the block that was asked for:
/// `user + size + pointer_width <= block + full_len(size, align)`.
pub proof fn lemma_footer_within_block(p: Placement, size: int, align: int)
    requires
        size >= 0,
        align > 0,
        p.placed(p.block as int, size, align),
    ensures
        p.footer + pointer_width() <= p.block + full_len(size, align),
{
    lemma_correction(p.block as int, align);
    lemma_padded_len(size, align);
}

/// Number of raw bytes to request for `(size, align)`; `None` where that number
/// does not fit in `usize`.
pub fn full_size(size: usize, align: usize) -> (r: Option<usize>)
    requires
        align > 0,
    ensures
        r is Some <==> full_len(size as int, align as int) <= usize::MAX,
        r matches Some(n) ==> n == full_len(size as int, align as int),
{
    let width = core::mem::size_of::<usize>();
    let rem = size % align;
    let padded = if rem == 0 {
        Some(size)
    } else {
        size.checked_add(align - rem)
    };
    match padded {
        None => None,
        Some(p) => match p.checked_add(align) {
            None => None,
            Some(q) => q.checked_add(width),
        },
    }
}

/// Places a `(size, align)` request in a raw block; `None` where the raw
/// allocator returned the null address, which is how it reports exhaustion.
pub fn place(block: usize, size: usize, align: usize) -> (r: Option<Placement>)
    requires
        align > 0,
        block + full_len(size as int, align as int) <= usize::MAX,
    ensures
        r is None <==> block == 0,
        r matches Some(p) ==> p.placed(block as int, size as int, align as int),
{
    if block == 0 {
        return None;
    }
    proof {
        lemma_correction(block as int, align as int);
        lemma_padded_len(size as int, align as int);
    }
    let rem = block % align;
    let correction = if rem == 0 {
        0
    } else {
        align - rem
    };
    let user = block + correction;
    Some(Placement { block, user, footer: user + size })
}

/// Address of the footer of the allocation at `user` of `size` bytes, read
/// back when the allocation is freed.
pub fn footer_address(user: usize, size: usize) -> (r: usize)
    requires
        user + size <= usize::MAX,
    ensures
        r == user + size,
{
    user + size
}

/// Freeing reads the footer where allocating wrote it: for an allocation
/// placed in a block that lies in the address space, `footer_address` may be
/// called with the user address and size, and gives the footer that holds the
/// block's base, so the block handed back is the block that was handed out.
pub proof fn lemma_footer_round_trip(p: Placement, size: int, align: int)
    requires
        size >= 0,
        align > 0,
        p.placed(p.block as int, size, align),
        p.block + full_len(size, align) <= usize::MAX,
    ensures
        p.user + size <= usize::MAX,
        p.user + size == p.footer,
{
    lemma_footer_within_block(p, size, align);
}

} // verus!
