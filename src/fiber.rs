use vstd::prelude::*;

verus! {

/// Size in bytes of every fiber stack.
pub const STACK_SIZE: usize = 0x200000;

/// Saved execution state of a suspended context: a non-null machine word.
#[derive(Clone, Copy, Debug, PartialEq, Eq)]
pub struct StackPointer(usize);

impl View for StackPointer {
    type V = nat;

    closed spec fn view(&self) -> nat {
        self.0 as nat
    }
}

impl StackPointer {
    #[verifier::type_invariant]
    spec fn non_null(&self) -> bool {
        self.0 != 0
    }

    /// The token for `addr`, or `None` for the null address.
    pub fn new(addr: usize) -> (r: Option<StackPointer>)
        ensures
            r is Some <==> addr != 0,
            r matches Some(p) ==> p@ == addr,
    {
        if addr == 0 {
            None
        } else {
            Some(StackPointer(addr))
        }
    }

    /// The address this token stands for; never zero.
    pub fn get(&self) -> (r: usize)
        ensures
            r == self@,
            r != 0,
    {
        proof {
            use_type_invariant(self);
        }
        self.0
    }
}

/// What a context switch hands back to the side that regains control: the
/// peer's new suspended pointer (`None` once the peer has completed) and
/// the machine word it sent.
#[derive(Clone, Copy, Debug)]
pub struct SwitchResult {
    pub stack: Option<StackPointer>,
    pub payload: usize,
}

/// A fixed-size execution stack, known by the numerically lowest address of
/// its region; the region ends `STACK_SIZE` bytes higher.
pub struct Stack(usize);

impl View for Stack {
    type V = nat;

    closed spec fn view(&self) -> nat {
        self.0 as nat
    }
}

/// Whether a region of `STACK_SIZE` bytes can start at `addr`: not null,
/// and its end fits in the address space.
pub open spec fn valid_base(addr: int) -> bool {
    0 < addr && addr + STACK_SIZE <= usize::MAX
}

impl Stack {
    #[verifier::type_invariant]
    spec fn in_address_space(&self) -> bool {
        valid_base(self.0 as int)
    }

    /// Takes ownership of the region starting at `addr`, as handed back by a
    /// mapping call or by the stack cache. The null address (an empty cache)
    /// and any address whose region would overflow (among them the all-ones
    /// word by which a failed mapping reports itself) give `None`.
    pub fn from_region(addr: usize) -> (r: Option<Stack>)
        ensures
            r is Some <==> valid_base(addr as int),
            r matches Some(s) ==> s@ == addr,
    {
        if addr == 0 || addr > usize::MAX - STACK_SIZE {
            None
        } else {
            Some(Stack(addr))
        }
    }

    /// Low end of the region, where the guard lies.
    pub fn bottom(&self) -> (r: usize)
        ensures
            r == self@,
            valid_base(r as int),
    {
        proof {
            use_type_invariant(self);
        }
        self.0
    }

    /// High end of the region: the initial stack pointer of a fiber.
    pub fn top(&self) -> (r: StackPointer)
        ensures
            r@ == self@ + STACK_SIZE,
    {
        proof {
            use_type_invariant(self);
        }
        StackPointer(self.0 + STACK_SIZE)
    }

    /// The guard: the lowest `page_size` bytes of the region, as the pair
    /// (start, end), end excluded.
    pub fn guard(&self, page_size: usize) -> (r: (usize, usize))
        requires
            page_size <= STACK_SIZE,
        ensures
            r.0 == self@,
            r.1 == self@ + page_size,
    {
        proof {
            use_type_invariant(self);
        }
        (self.0, self.0 + page_size)
    }
}

} // verus!
