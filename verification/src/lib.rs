//! Decide whether a pinned value's destructor is guaranteed to run.
//!
//! A value that lives on the calling thread's stack cannot be moved into an
//! independently owned allocation and then abandoned: the only way to lose it
//! without running its destructor is to tear down the whole process. A value
//! in a heap allocation, by contrast, can be unpinned, handed off, and
//! deliberately forgotten. The classification therefore reduces to a single
//! question: does the pinned value's address lie on the allocated side of the
//! calling thread's current stack pointer?
//!
//! The comparison itself is a pure function of three inputs — the candidate
//! address, the stack pointer, and the direction in which the stack grows —
//! and is verified here as [`is_stack_resident`]. Reading the stack pointer
//! and the growth direction are platform facts supplied by the `psm` crate.
//!
//! A known imprecision, accepted by design: any address that happens to fall
//! on the stack side of the comparison (for example static storage on an
//! unusual memory layout) is reported as stack-resident. The verdict is an
//! address-range heuristic, not provenance tracking.

use vstd::prelude::*;

verus! {

/// The direction in which a thread's stack extends as frames are pushed:
/// a fixed fact of the platform and ABI.
#[derive(Clone, Copy, PartialEq, Eq, Structural, Debug)]
pub enum GrowthDirection {
    /// Pushing a frame moves the stack pointer toward higher addresses.
    Ascending,
    /// Pushing a frame moves the stack pointer toward lower addresses
    /// (the usual convention on mainstream architectures).
    Descending,
}

/// An address lies on the already-allocated side of the stack pointer:
/// at or below it where the stack grows upward, at or above it where the
/// stack grows downward.
pub open spec fn stack_resident(
    address: usize,
    stack_pointer: usize,
    direction: GrowthDirection,
) -> bool {
    match direction {
        GrowthDirection::Ascending => address <= stack_pointer,
        GrowthDirection::Descending => address >= stack_pointer,
    }
}

/// The stack-membership classifier: does `address` lie between the current
/// stack pointer and the end the stack grew from? The comparison is total —
/// every pair of addresses is classified, in either direction, and nothing
/// is dereferenced.
pub fn is_stack_resident(
    address: usize,
    stack_pointer: usize,
    direction: GrowthDirection,
) -> (verdict: bool)
    ensures
        verdict == stack_resident(address, stack_pointer, direction),
{
    match direction {
        GrowthDirection::Ascending => address <= stack_pointer,
        GrowthDirection::Descending => address >= stack_pointer,
    }
}

/// Flipping the growth direction flips the comparison operator: ascending
/// accepts addresses at or below the stack pointer, descending those at or
/// above it. On one and the same address/stack-pointer pair the two verdicts
/// agree exactly when the address equals the stack pointer.
pub proof fn lemma_direction_sensitivity(address: usize, stack_pointer: usize)
    ensures
        stack_resident(address, stack_pointer, GrowthDirection::Ascending) == (address
            <= stack_pointer),
        stack_resident(address, stack_pointer, GrowthDirection::Descending) == (address
            >= stack_pointer),
        (stack_resident(address, stack_pointer, GrowthDirection::Ascending) == stack_resident(
            address,
            stack_pointer,
            GrowthDirection::Descending,
        )) == (address == stack_pointer),
{
}

/// The classification is a pure function of address, stack pointer and
/// direction: any two verdicts obtained from the same three inputs agree.
pub proof fn lemma_classification_idempotent(
    first: bool,
    second: bool,
    address: usize,
    stack_pointer: usize,
    direction: GrowthDirection,
)
    requires
        first == stack_resident(address, stack_pointer, direction),
        second == stack_resident(address, stack_pointer, direction),
    ensures
        first == second,
{
}

/// Relies on `psm::stack_pointer`: the calling thread's stack pointer, as of
/// the caller's frame, at the moment of the call. The value is machine state
/// that changes with every call frame, so nothing is promised of it; the
/// comparison against it is verified in `is_stack_resident`, which holds for
/// every value this could return.
#[verifier::external_body]
fn current_stack_pointer() -> usize {
    psm::stack_pointer() as usize
}

/// Relies on `psm::StackDirection::new`: the direction the current platform's
/// stack grows in. Which direction comes back is a fact of the target, so
/// nothing is promised of it; `is_stack_resident` is verified for both.
#[verifier::external_body]
fn platform_growth_direction() -> GrowthDirection {
    match psm::StackDirection::new() {
        psm::StackDirection::Ascending => GrowthDirection::Ascending,
        psm::StackDirection::Descending => GrowthDirection::Descending,
    }
}

#[verifier::external_type_specification]
#[verifier::external_body]
#[verifier::reject_recursive_types(P)]
pub struct ExPin<P>(core::pin::Pin<P>);

/// Relies on `core::pin::Pin::as_ref`, `Pin::get_ref` and `pointer::addr`:
/// the address of the memory the pinned handle guards, read without
/// dereferencing it. An address is machine state, so nothing is promised of
/// the value.
#[verifier::external_body]
fn pinned_address<P: core::ops::Deref>(pinned: &core::pin::Pin<P>) -> usize {
    core::ptr::from_ref(pinned.as_ref().get_ref()).addr()
}

/// Does `address` currently lie on the calling thread's stack? Reads the
/// stack pointer and growth direction fresh and hands them to the verified
/// classifier. The verdict depends on machine state — where the stack pointer
/// stands at this instant — so no promise about it can be stated here; what
/// is verified is that the comparison performed is exactly
/// `stack_resident` on the values that were read.
fn is_stack_address(address: usize) -> bool {
    let stack_pointer = current_stack_pointer();
    let direction = platform_growth_direction();
    is_stack_resident(address, stack_pointer, direction)
}

/// Produces `true` if the destructor of the value behind `pinned` is
/// guaranteed to be run under normal unwinding.
///
/// `true` means the value sits on the calling thread's stack: it cannot be
/// relocated into an independently owned allocation, so short of process
/// abort its frame unwinds and its destructor runs. `false` means no such
/// guarantee — most commonly a heap allocation, whose ownership can be
/// extracted and forgotten — never that the destructor will not run.
pub fn is_unforgettable<P: core::ops::Deref>(pinned: core::pin::Pin<P>) -> bool {
    let address = pinned_address(&pinned);
    is_stack_address(address)
}

} // verus!
