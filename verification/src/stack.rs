//! A task's stack region, known to the scheduler by its address.

use crate::consts::{STACK_ALIGN, STACK_GUARD, STACK_SIZE};
use vstd::prelude::*;

verus! {

/// A stack region of `STACK_SIZE` bytes that starts at a `STACK_ALIGN`-aligned
/// address. The value stands for the region; the memory itself belongs to
/// whoever obtained it from the allocator.
#[derive(PartialEq, Eq, Debug)]
pub struct Stack {
    base: usize,
}

impl View for Stack {
    type V = nat;

    /// The lowest address of the region.
    closed spec fn view(&self) -> nat {
        self.base as nat
    }
}

impl Stack {
    /// Whether `STACK_SIZE` bytes starting at `base` are a stack region: the
    /// address is not null, it is aligned, and the region ends within the
    /// address space.
    pub open spec fn is_region(base: nat) -> bool {
        &&& base != 0
        &&& base % (STACK_ALIGN as nat) == 0
        &&& base + STACK_SIZE <= usize::MAX
    }

    /// Every stack is a stack region.
    #[verifier::type_invariant]
    pub open spec fn is_valid(self) -> bool {
        Self::is_region(self@)
    }

    /// The lowest address of the region.
    pub open spec fn spec_bottom(&self) -> int {
        self@ as int
    }

    /// The initial stack pointer: `STACK_GUARD` bytes inside the high end.
    pub open spec fn spec_top(&self) -> int {
        self@ + STACK_SIZE - STACK_GUARD
    }

    /// Whether `addr` may be a stack pointer of this stack.
    pub open spec fn holds(&self, addr: int) -> bool {
        self.spec_bottom() <= addr <= self.spec_top()
    }

    /// The stack region that starts at `base`, or `None` where no such
    /// region exists.
    pub fn new(base: usize) -> (stack: Option<Stack>)
        ensures
            stack is Some <==> Self::is_region(base as nat),
            stack matches Some(s) ==> s@ == base,
    {
        if base != 0 && base % STACK_ALIGN == 0 && base <= usize::MAX - STACK_SIZE {
            Some(Stack { base })
        } else {
            None
        }
    }

    /// The address a fresh task starts with as its stack pointer. The stack
    /// grows downward from here.
    pub fn top(&self) -> (addr: usize)
        ensures
            addr == self.spec_top(),
            addr - self.spec_bottom() == STACK_SIZE - STACK_GUARD,
            addr % STACK_GUARD == 0,
    {
        proof {
            use_type_invariant(self);
        }
        self.base + (STACK_SIZE - STACK_GUARD)
    }

    /// The lowest address of the region, below which the stack has
    /// overflowed.
    pub fn bottom(&self) -> (addr: usize)
        ensures
            addr == self.spec_bottom(),
            addr != 0,
            addr % STACK_ALIGN == 0,
    {
        proof {
            use_type_invariant(self);
        }
        self.base
    }

    /// The initial stack pointer of any stack lies `STACK_SIZE - STACK_GUARD`
    /// bytes above its lowest address, and both are stack pointers of the
    /// stack.
    pub proof fn lemma_top_above_bottom(self)
        ensures
            self.spec_top() - self.spec_bottom() == STACK_SIZE - STACK_GUARD,
            self.holds(self.spec_top()),
            self.holds(self.spec_bottom()),
    {
    }

    /// The initial stack pointer of a stack region is an address, it is not
    /// null, and it is aligned as the region's guard is wide.
    pub proof fn lemma_top_aligned(self)
        requires
            self.is_valid(),
        ensures
            0 < self.spec_top() <= usize::MAX,
            self.spec_top() % (STACK_GUARD as int) == 0,
    {
    }
}

} // verus!
