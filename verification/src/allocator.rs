//! The arithmetic of the metadata-tagged allocator.
//!
//! Every block handed to the guest is preceded by a private header. The
//! header occupies `stride` bytes, where the stride depends on the requested
//! alignment alone, so that a later release or resize, which is told only the
//! pointer and the alignment, finds the start of the block again.

use vstd::arithmetic::div_mod::{
    lemma_fundamental_div_mod, lemma_mod_adds, lemma_mod_multiples_basic, lemma_small_mod,
};
use vstd::arithmetic::power::{lemma_pow_positive, pow};
use vstd::arithmetic::power2::{is_pow2, is_pow2_equiv};
use vstd::layout::{align_of, size_of, unsigned_int_max_values};
use vstd::prelude::*;

verus! {

/// The largest payload length, in bytes, that an allocation request may ask
/// for (1 GiB). A longer request is taken for a corrupted call.
pub const MAX_ALLOCATION_LENGTH: usize = 0x4000_0000;

/// Why the allocator cannot serve a request. Each of these is fatal to the
/// host process: the guest has no way to recover from any of them.
#[derive(Clone, Copy, Debug, PartialEq, Eq, Structural)]
pub enum AllocError {
    /// The requested length exceeds [`MAX_ALLOCATION_LENGTH`].
    LengthTooLarge,
    /// The stride for the requested alignment does not fit in a machine
    /// word, or is too small to hold the size word.
    UnsupportedAlignment,
    /// The platform returned the null address.
    OutOfMemory,
    /// The block would reach past the end of the address space, or the
    /// pointer lies below the header it is said to follow.
    InvalidAddress,
}

/// The size of a machine word in bytes.
pub open spec fn word_size() -> nat {
    size_of::<usize>()
}

/// The alignment that the stride is computed from: the requested one, but at
/// least 1 and at least the alignment of a machine word.
pub open spec fn effective_alignment(alignment: usize) -> nat {
    let at_least_one = if alignment > 1 {
        alignment as nat
    } else {
        1
    };
    if align_of::<usize>() > at_least_one {
        align_of::<usize>()
    } else {
        at_least_one
    }
}

/// The number of bytes reserved for the header in front of a block of the
/// given alignment.
pub open spec fn stride_of(alignment: usize) -> nat {
    next_power_of_two(effective_alignment(alignment))
}

/// An alignment is supported when its stride fits in a machine word and has
/// room for the size word.
pub open spec fn alignment_supported(alignment: usize) -> bool {
    word_size() <= stride_of(alignment) <= usize::MAX
}

/// The number of bytes asked of the platform for a payload of `length` bytes
/// behind a header of `stride` bytes: their sum, held to the range of a
/// machine word, and at least 1.
pub open spec fn total_size_of(length: usize, stride: usize) -> usize {
    let sum = if length + stride > usize::MAX {
        usize::MAX
    } else {
        (length + stride) as usize
    };
    if sum < 1 {
        1
    } else {
        sum
    }
}

/// The address handed to the guest for a block that starts at `base`.
pub open spec fn answer_address(base: int, alignment: usize) -> int {
    base + stride_of(alignment)
}

/// The start of the block whose guest-visible address is `pointer`.
pub open spec fn base_address(pointer: int, alignment: usize) -> int {
    pointer - stride_of(alignment)
}

/// The smallest power of two that is at least `n`.
pub open spec fn next_power_of_two(n: nat) -> nat
    decreases n,
{
    if n <= 1 {
        1
    } else {
        2 * next_power_of_two((n + 1) / 2)
    }
}

/// Two distinct powers of two differ by at least a factor of two.
pub proof fn lemma_pow2_gap(p: int, q: int)
    requires
        is_pow2(p),
        is_pow2(q),
        p < q,
    ensures
        2 * p <= q,
    decreases p,
{
    reveal(is_pow2);
    if p > 1 {
        lemma_pow2_gap(p / 2, q / 2);
    }
}

/// A power of two divides every larger power of two.
pub proof fn lemma_pow2_divides(p: int, q: int)
    requires
        is_pow2(p),
        is_pow2(q),
        p <= q,
    ensures
        q % p == 0,
    decreases q,
{
    reveal(is_pow2);
    if p == q {
        assert(q % q == 0) by (nonlinear_arith)
            requires
                q > 0,
        ;
    } else {
        lemma_pow2_gap(p, q);
        lemma_pow2_divides(p, q / 2);
        let half = q / 2;
        let k = half / p;
        lemma_fundamental_div_mod(half, p);
        assert(q == (2 * k) * p) by (nonlinear_arith)
            requires
                q == 2 * half,
                half == p * k,
        ;
        lemma_mod_multiples_basic(2 * k, p);
    }
}

/// `next_power_of_two(n)` is the one power of two `p` with `p / 2 < n <= p`
/// (or `1`, when `n` is `0`).
pub proof fn lemma_next_power_of_two_unique(n: nat, p: int)
    requires
        is_pow2(p),
        n <= p,
        p < 2 * n || p == 1,
    ensures
        next_power_of_two(n) == p,
    decreases n,
{
    reveal(is_pow2);
    if n > 1 {
        lemma_next_power_of_two_unique((n + 1) / 2, p / 2);
    }
}

/// `next_power_of_two(n)` is a power of two, is at least `n`, and no power of
/// two that is at least `n` is smaller.
pub proof fn lemma_next_power_of_two(n: nat)
    ensures
        is_pow2(next_power_of_two(n) as int),
        n <= next_power_of_two(n),
        next_power_of_two(n) < 2 * n || next_power_of_two(n) == 1,
        forall|q: int| is_pow2(q) && n <= q ==> next_power_of_two(n) <= q,
    decreases n,
{
    reveal(is_pow2);
    let p = next_power_of_two(n) as int;
    if n > 1 {
        lemma_next_power_of_two((n + 1) / 2);
    }
    assert(is_pow2(p));
    assert forall|q: int| is_pow2(q) && n <= q implies p <= q by {
        if q < p {
            lemma_pow2_gap(q, p);
        }
    }
}

/// The smallest power of two that is at least `n`, or `None` when that power
/// does not fit in a `usize`.
pub fn checked_next_power_of_two(n: usize) -> (r: Option<usize>)
    ensures
        match r {
            Some(p) => p == next_power_of_two(n as nat),
            None => next_power_of_two(n as nat) > usize::MAX,
        },
{
    let mut p: usize = 1;
    proof {
        reveal(is_pow2);
    }
    while p < n
        invariant
            is_pow2(p as int),
            p >= 1,
            p < 2 * n || p == 1,
        decreases usize::MAX - p,
    {
        if p > usize::MAX / 2 {
            proof {
                lemma_next_power_of_two(n as nat);
                lemma_pow2_gap(p as int, next_power_of_two(n as nat) as int);
            }
            return None;
        }
        proof {
            reveal(is_pow2);
        }
        p = p * 2;
    }
    proof {
        lemma_next_power_of_two_unique(n as nat, p as int);
    }
    Some(p)
}

/// The stride for `alignment`, or `None` when the alignment is not supported.
pub fn metadata_stride(alignment: usize) -> (r: Option<usize>)
    ensures
        match r {
            Some(stride) => alignment_supported(alignment) && stride == stride_of(alignment),
            None => !alignment_supported(alignment),
        },
{
    let word_alignment: usize = core::mem::align_of::<usize>();
    let mut wanted: usize = if alignment > 1 {
        alignment
    } else {
        1
    };
    if word_alignment > wanted {
        wanted = word_alignment;
    }
    match checked_next_power_of_two(wanted) {
        Some(stride) => {
            if stride >= core::mem::size_of::<usize>() {
                Some(stride)
            } else {
                None
            }
        },
        None => None,
    }
}

/// What the platform is asked for, and where the payload will start in it.
pub struct BlockPlan {
    stride: usize,
    total_size: usize,
}

impl BlockPlan {
    #[verifier::type_invariant]
    spec fn well_formed(self) -> bool {
        &&& is_pow2(self.stride as int)
        &&& word_size() <= self.stride
        &&& self.stride <= self.total_size
    }

    /// The number of header bytes in front of the payload.
    pub closed spec fn stride_spec(&self) -> usize {
        self.stride
    }

    /// The number of bytes to ask of the platform.
    pub closed spec fn total_size_spec(&self) -> usize {
        self.total_size
    }

    /// The stride of the plan: a power of two with room for the size word,
    /// and no more than the plan asks of the platform.
    #[verifier::when_used_as_spec(stride_spec)]
    pub fn stride(&self) -> (stride: usize)
        ensures
            stride == self.stride_spec(),
            is_pow2(stride as int),
            word_size() <= stride <= self.total_size_spec(),
    {
        proof {
            use_type_invariant(self);
        }
        self.stride
    }

    /// The number of bytes that the plan asks of the platform.
    #[verifier::when_used_as_spec(total_size_spec)]
    pub fn total_size(&self) -> (total_size: usize)
        ensures
            total_size == self.total_size_spec(),
    {
        self.total_size
    }
}

/// One machine word to be stored in the header.
#[derive(Clone, Copy, Debug, PartialEq, Eq, Structural)]
pub struct HeaderWrite {
    /// Where the word goes.
    pub address: usize,
    /// The word.
    pub value: usize,
}

/// Where a block obtained from the platform puts its header and its payload.
#[derive(Clone, Copy, Debug, PartialEq, Eq)]
pub struct Placement {
    /// The address handed to the guest: the start of the payload.
    pub answer: usize,
    /// The total size of the block, stored in the word just before the
    /// payload.
    pub size_slot: HeaderWrite,
    /// The stride, stored in the first word of the block. Present for a
    /// fresh block whose header has room for two words.
    pub alignment_slot: Option<HeaderWrite>,
}

/// The placement of a block of `total_size` bytes at `base` behind a header of
/// `stride` bytes. A `fresh` block gets its alignment word where there is room
/// for one; a resized block keeps the one it has.
pub open spec fn placement_of(
    stride: usize,
    total_size: usize,
    base: usize,
    fresh: bool,
) -> Placement {
    Placement {
        answer: (base + stride) as usize,
        size_slot: HeaderWrite {
            address: (base + stride - word_size()) as usize,
            value: total_size,
        },
        alignment_slot: if fresh && stride >= 2 * word_size() {
            Some(HeaderWrite { address: base, value: stride })
        } else {
            None
        },
    }
}

/// Plans an allocation of `length` payload bytes at the given alignment.
///
/// A length above [`MAX_ALLOCATION_LENGTH`] is refused before anything else
/// is looked at.
pub fn plan_allocation(alignment: usize, length: usize) -> (r: Result<BlockPlan, AllocError>)
    ensures
        length > MAX_ALLOCATION_LENGTH ==> r == Err::<BlockPlan, AllocError>(
            AllocError::LengthTooLarge,
        ),
        length <= MAX_ALLOCATION_LENGTH && !alignment_supported(alignment) ==> r == Err::<
            BlockPlan,
            AllocError,
        >(AllocError::UnsupportedAlignment),
        length <= MAX_ALLOCATION_LENGTH && alignment_supported(alignment) ==> {
            &&& r matches Ok(plan)
            &&& plan.stride() == stride_of(alignment)
            &&& plan.total_size() == length + stride_of(alignment)
        },
{
    if length > MAX_ALLOCATION_LENGTH {
        return Err(AllocError::LengthTooLarge);
    }
    match metadata_stride(alignment) {
        Some(stride) => {
            proof {
                lemma_next_power_of_two(effective_alignment(alignment));
                lemma_allocation_size_is_exact(alignment, length);
            }
            Ok(BlockPlan { stride, total_size: padded_size(length, stride) })
        },
        None => Err(AllocError::UnsupportedAlignment),
    }
}

/// The bytes to ask of the platform for `length` payload bytes behind
/// `stride` header bytes.
fn padded_size(length: usize, stride: usize) -> (total_size: usize)
    ensures
        total_size == total_size_of(length, stride),
        total_size >= stride,
{
    let sum: usize = length.saturating_add(stride);
    if sum < 1 {
        1
    } else {
        sum
    }
}

/// Places a block that the platform returned for `plan` at `base`.
fn place_block(plan: &BlockPlan, base: usize, fresh: bool) -> (r: Result<Placement, AllocError>)
    ensures
        base == 0 ==> r == Err::<Placement, AllocError>(AllocError::OutOfMemory),
        base != 0 && base + plan.total_size() > usize::MAX ==> r == Err::<Placement, AllocError>(
            AllocError::InvalidAddress,
        ),
        base != 0 && base + plan.total_size() <= usize::MAX ==> r == Ok::<Placement, AllocError>(
            placement_of(plan.stride(), plan.total_size(), base, fresh),
        ),
{
    if base == 0 {
        return Err(AllocError::OutOfMemory);
    }
    let stride: usize = plan.stride();
    let total_size: usize = plan.total_size();
    if total_size > usize::MAX - base {
        return Err(AllocError::InvalidAddress);
    }
    let word: usize = core::mem::size_of::<usize>();
    let answer: usize = base + stride;
    let alignment_slot = if fresh && stride - word >= word {
        Some(HeaderWrite { address: base, value: stride })
    } else {
        None
    };
    Ok(
        Placement {
            answer,
            size_slot: HeaderWrite { address: answer - word, value: total_size },
            alignment_slot,
        },
    )
}

/// Places a freshly allocated block.
///
/// `base` is the address that the platform returned for
/// `plan.total_size()` bytes, 0 for null. The result says which address the
/// guest gets and which words the host stores in the header.
pub fn place_allocation(plan: &BlockPlan, base: usize) -> (r: Result<Placement, AllocError>)
    ensures
        base == 0 ==> r == Err::<Placement, AllocError>(AllocError::OutOfMemory),
        base != 0 && base + plan.total_size() > usize::MAX ==> r == Err::<Placement, AllocError>(
            AllocError::InvalidAddress,
        ),
        base != 0 && base + plan.total_size() <= usize::MAX ==> r == Ok::<Placement, AllocError>(
            placement_of(plan.stride(), plan.total_size(), base, true),
        ),
{
    place_block(plan, base, true)
}

/// What a resize asks of the platform: the block to resize and its new size.
pub struct ReallocationPlan {
    old_base: usize,
    block: BlockPlan,
}

impl ReallocationPlan {
    /// The start of the block to resize.
    pub closed spec fn old_base_spec(&self) -> usize {
        self.old_base
    }

    /// The new block.
    pub closed spec fn block_spec(&self) -> &BlockPlan {
        &self.block
    }

    /// The start of the block to resize.
    #[verifier::when_used_as_spec(old_base_spec)]
    pub fn old_base(&self) -> (old_base: usize)
        ensures
            old_base == self.old_base_spec(),
    {
        self.old_base
    }

    /// The new block.
    #[verifier::when_used_as_spec(block_spec)]
    pub fn block(&self) -> (block: &BlockPlan)
        ensures
            *block == self.block_spec(),
    {
        &self.block
    }
}

/// Plans the resize of the block behind `pointer` to `new_length` payload
/// bytes. `alignment` must be the one that the block was allocated with: it
/// alone says where the block starts.
pub fn plan_reallocation(pointer: usize, alignment: usize, new_length: usize) -> (r: Result<
    ReallocationPlan,
    AllocError,
>)
    ensures
        !alignment_supported(alignment) ==> r == Err::<ReallocationPlan, AllocError>(
            AllocError::UnsupportedAlignment,
        ),
        alignment_supported(alignment) && pointer < stride_of(alignment) ==> r == Err::<
            ReallocationPlan,
            AllocError,
        >(AllocError::InvalidAddress),
        alignment_supported(alignment) && pointer >= stride_of(alignment) ==> {
            &&& r matches Ok(plan)
            &&& plan.old_base() == base_address(pointer as int, alignment)
            &&& plan.block().stride() == stride_of(alignment)
            &&& plan.block().total_size() == total_size_of(new_length, plan.block().stride())
        },
{
    match metadata_stride(alignment) {
        Some(stride) => {
            if pointer < stride {
                return Err(AllocError::InvalidAddress);
            }
            proof {
                lemma_next_power_of_two(effective_alignment(alignment));
            }
            Ok(
                ReallocationPlan {
                    old_base: pointer - stride,
                    block: BlockPlan { stride, total_size: padded_size(new_length, stride) },
                },
            )
        },
        None => Err(AllocError::UnsupportedAlignment),
    }
}

/// Places a resized block.
///
/// `new_base` is the address that the platform returned for the resize, 0 for
/// null. Only the size word is stored again: the alignment word, where the
/// block has one, moved with the block.
pub fn place_reallocation(plan: &ReallocationPlan, new_base: usize) -> (r: Result<
    Placement,
    AllocError,
>)
    ensures
        new_base == 0 ==> r == Err::<Placement, AllocError>(AllocError::OutOfMemory),
        new_base != 0 && new_base + plan.block().total_size() > usize::MAX ==> r == Err::<
            Placement,
            AllocError,
        >(AllocError::InvalidAddress),
        new_base != 0 && new_base + plan.block().total_size() <= usize::MAX ==> r == Ok::<
            Placement,
            AllocError,
        >(placement_of(plan.block().stride(), plan.block().total_size(), new_base, false)),
{
    place_block(plan.block(), new_base, false)
}

/// The start of the block behind `pointer`, which is what the platform is
/// asked to release. `alignment` must be the one that the block was allocated
/// with.
pub fn deallocation_base(pointer: usize, alignment: usize) -> (r: Result<usize, AllocError>)
    ensures
        !alignment_supported(alignment) ==> r == Err::<usize, AllocError>(
            AllocError::UnsupportedAlignment,
        ),
        alignment_supported(alignment) && pointer < stride_of(alignment) ==> r == Err::<
            usize,
            AllocError,
        >(AllocError::InvalidAddress),
        alignment_supported(alignment) && pointer >= stride_of(alignment) ==> r == Ok::<
            usize,
            AllocError,
        >(base_address(pointer as int, alignment) as usize),
{
    match metadata_stride(alignment) {
        Some(stride) => {
            if pointer < stride {
                Err(AllocError::InvalidAddress)
            } else {
                Ok(pointer - stride)
            }
        },
        None => Err(AllocError::UnsupportedAlignment),
    }
}

/// The stride is a power of two that is at least the requested alignment and
/// at least the alignment of a machine word, and it is the smallest such
/// power.
pub proof fn lemma_stride_properties(alignment: usize)
    ensures
        is_pow2(stride_of(alignment) as int),
        alignment <= stride_of(alignment),
        align_of::<usize>() <= stride_of(alignment),
        forall|q: int|
            is_pow2(q) && alignment <= q && align_of::<usize>() <= q ==> stride_of(alignment) <= q,
{
    lemma_next_power_of_two(effective_alignment(alignment));
    reveal(is_pow2);
}

/// A machine word has 4 or 8 bytes, and its alignment is a power of two that
/// is no more than its size.
pub proof fn lemma_word_layout()
    ensures
        size_of::<usize>() == 4 || size_of::<usize>() == 8,
        is_pow2(align_of::<usize>() as int),
        1 <= align_of::<usize>() <= size_of::<usize>(),
{
    broadcast use vstd::layout::align_properties;
    broadcast use vstd::layout::layout_of_primitives;

    reveal(is_pow2);
    let size = size_of::<usize>() as int;
    let alignment = align_of::<usize>() as int;
    if alignment > size {
        lemma_small_mod(size as nat, alignment as nat);
    }
}

/// The stride of an alignment that is a power of two and at least the
/// alignment of a machine word is that alignment, and the stride of a smaller
/// alignment is the alignment of a machine word.
pub proof fn lemma_stride_of_power_of_two(alignment: usize)
    ensures
        is_pow2(alignment as int) && alignment >= align_of::<usize>() ==> stride_of(alignment)
            == alignment,
        alignment <= align_of::<usize>() ==> stride_of(alignment) == align_of::<usize>(),
{
    lemma_word_layout();
    if is_pow2(alignment as int) && alignment >= align_of::<usize>() {
        lemma_next_power_of_two_unique(alignment as nat, alignment as int);
    }
    if alignment <= align_of::<usize>() {
        lemma_next_power_of_two_unique(align_of::<usize>(), align_of::<usize>() as int);
    }
}

/// Stride symmetry: the stride depends on the alignment alone, so a release
/// or a resize that is given the alignment of the allocation finds the start
/// of the block again.
pub proof fn lemma_release_finds_base(base: int, alignment: usize)
    ensures
        base_address(answer_address(base, alignment), alignment) == base,
{
}

/// The address handed to the guest is aligned as requested wherever the
/// platform's block is: the stride is a multiple of every alignment that is a
/// power of two.
pub proof fn lemma_answer_is_aligned(base: int, alignment: usize)
    requires
        is_pow2(alignment as int),
        base % (alignment as int) == 0,
    ensures
        stride_of(alignment) % (alignment as nat) == 0,
        answer_address(base, alignment) % (alignment as int) == 0,
{
    reveal(is_pow2);
    lemma_stride_properties(alignment);
    lemma_pow2_divides(alignment as int, stride_of(alignment) as int);
    lemma_mod_adds(base, stride_of(alignment) as int, alignment as int);
}

/// The header lies inside the block and in front of the payload, its two
/// words do not overlap, and the payload has room for what remains of the
/// block.
pub proof fn lemma_header_precedes_payload(
    stride: usize,
    total_size: usize,
    base: usize,
    fresh: bool,
)
    requires
        word_size() <= stride <= total_size,
        base + total_size <= usize::MAX,
    ensures
        ({
            let placement = placement_of(stride, total_size, base, fresh);
            &&& placement.answer == base + stride
            &&& base <= placement.size_slot.address
            &&& placement.size_slot.address + word_size() == placement.answer
            &&& placement.answer + (total_size - stride) == base + total_size
            &&& placement.alignment_slot matches Some(slot) ==> slot.address == base
                && slot.address + word_size() <= placement.size_slot.address
        }),
{
}

/// A supported stride is at most half the address space, so a payload of up
/// to [`MAX_ALLOCATION_LENGTH`] bytes behind it is never cut short.
pub proof fn lemma_allocation_size_is_exact(alignment: usize, length: usize)
    requires
        alignment_supported(alignment),
        length <= MAX_ALLOCATION_LENGTH,
    ensures
        2 * stride_of(alignment) <= usize::MAX + 1,
        total_size_of(length, stride_of(alignment) as usize) == length + stride_of(alignment),
{
    lemma_stride_properties(alignment);
    unsigned_int_max_values();
    lemma_pow_positive(2, usize::BITS as nat);
    assert(pow(2, usize::BITS as nat) == usize::MAX + 1);
    is_pow2_equiv(usize::MAX + 1);
    lemma_pow2_gap(stride_of(alignment) as int, usize::MAX + 1);
}

/// The guest-visible part of a block: what follows the header.
pub open spec fn payload_of(block: Seq<u8>, stride: usize) -> Seq<u8> {
    block.subrange(stride as int, block.len() as int)
}

/// Size recovery across a resize. A block allocated for `old_length` payload
/// bytes is resized to `new_length`. Where the platform keeps the bytes that
/// the old and the new block have in common, and the host then stores words
/// in the header only, the first `min(old_length, new_length)` payload bytes
/// are what they were, and the payload has its new length.
pub proof fn lemma_resize_keeps_payload(
    alignment: usize,
    old_length: usize,
    new_length: usize,
    old_block: Seq<u8>,
    resized: Seq<u8>,
    stored: Seq<u8>,
)
    requires
        alignment_supported(alignment),
        old_length <= MAX_ALLOCATION_LENGTH,
        new_length + stride_of(alignment) <= usize::MAX,
        old_block.len() == total_size_of(old_length, stride_of(alignment) as usize),
        resized.len() == total_size_of(new_length, stride_of(alignment) as usize),
        forall|i: int|
            0 <= i < old_block.len() && i < resized.len() ==> resized[i] == old_block[i],
        stored.len() == resized.len(),
        forall|i: int| stride_of(alignment) <= i < stored.len() ==> stored[i] == resized[i],
    ensures
        payload_of(old_block, stride_of(alignment) as usize).len() == old_length,
        payload_of(stored, stride_of(alignment) as usize).len() == new_length,
        ({
            let kept = if old_length <= new_length {
                old_length as int
            } else {
                new_length as int
            };
            payload_of(stored, stride_of(alignment) as usize).subrange(0, kept) == payload_of(
                old_block,
                stride_of(alignment) as usize,
            ).subrange(0, kept)
        }),
{
    lemma_allocation_size_is_exact(alignment, old_length);
    lemma_stride_properties(alignment);
    reveal(is_pow2);
}

} // verus!
