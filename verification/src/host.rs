//! A model of the host machine as a handler sees it: the operand stack, which
//! a handler reaches only by popping and pushing, and the two raw fields of the
//! host's internal state that a handler may read or write.

use vstd::prelude::*;

verus! {

/// The fields of the host's internal state that handlers reach directly.
#[derive(Clone, Copy, Debug, PartialEq, Eq, Structural)]
pub struct RawState {
    /// The host's stack-pointer field.
    pub sp: i32,
    /// The host's exit-code field.
    pub exit_code: i32,
}

/// The host machine's state. The top of the operand stack is the last element
/// of `stack`. `state` is `None` where the host hands out a null base pointer
/// to its internal state.
#[derive(Debug)]
pub struct Vm {
    pub stack: Vec<i64>,
    pub state: Option<RawState>,
}

/// The mathematical value of a `Vm`.
pub struct VmView {
    pub stack: Seq<i64>,
    pub state: Option<RawState>,
}

impl View for Vm {
    type V = VmView;

    open spec fn view(&self) -> VmView {
        VmView { stack: self.stack@, state: self.state }
    }
}

impl VmView {
    /// The number of values on the operand stack.
    pub open spec fn depth(self) -> int {
        self.stack.len() as int
    }

    /// The value `k` places below the top of the stack; `peek(0)` is the top.
    pub open spec fn peek(self, k: int) -> i64
        recommends
            0 <= k < self.depth(),
    {
        self.stack[self.depth() - 1 - k]
    }

    /// The stack without its `n` topmost values.
    pub open spec fn below(self, n: int) -> Seq<i64>
        recommends
            0 <= n <= self.depth(),
    {
        self.stack.take(self.depth() - n)
    }

    /// Whether `self` is what a handler that pops `pops` values and then
    /// pushes `pushes` values makes of `before`: the values under the popped
    /// ones are untouched, and the depth changes by `pushes - pops`.
    pub open spec fn follows(self, before: VmView, pops: int, pushes: int) -> bool {
        &&& 0 <= pops <= before.depth()
        &&& 0 <= pushes
        &&& self.depth() == before.depth() - pops + pushes
        &&& self.below(pushes) == before.below(pops)
    }
}

/// The address of the field that lies `offset` bytes into the host state at
/// `base`. There is none where `base` is null, nor where the sum is no address.
pub fn field_address(base: usize, offset: usize) -> (address: Option<usize>)
    ensures
        address == if base != 0 && base + offset <= usize::MAX {
            Some((base + offset) as usize)
        } else {
            None::<usize>
        },
{
    if base == 0 {
        None
    } else {
        base.checked_add(offset)
    }
}

/// A stack made of all but the `pops` topmost values of `before` and one new
/// value on top of them is what popping `pops` values and pushing one leaves.
pub proof fn lemma_replace_follows(before: VmView, after: VmView, pops: int, value: i64)
    requires
        0 <= pops <= before.depth(),
        after.stack == before.below(pops).push(value),
    ensures
        after.follows(before, pops, 1),
        after.peek(0) == value,
{
    assert(after.below(1) =~= before.below(pops));
}

/// A stack made of all but the `pops` topmost values of `before` is what
/// popping `pops` values and pushing none leaves.
pub proof fn lemma_drop_follows(before: VmView, after: VmView, pops: int)
    requires
        0 <= pops <= before.depth(),
        after.stack == before.below(pops),
    ensures
        after.follows(before, pops, 0),
{
    assert(after.below(0) =~= before.below(pops));
}

impl Vm {
    /// A host with the given operand stack and raw state.
    pub fn new(stack: Vec<i64>, state: Option<RawState>) -> (vm: Vm)
        ensures
            vm@.stack == stack@,
            vm@.state == state,
    {
        Vm { stack, state }
    }

    /// Removes the top value of the operand stack and returns it.
    pub fn pop(&mut self) -> (value: i64)
        requires
            old(self)@.depth() >= 1,
        ensures
            value == old(self)@.peek(0),
            final(self)@.stack == old(self)@.below(1),
            final(self)@.state == old(self)@.state,
    {
        self.stack.pop().unwrap()
    }

    /// Puts `value` on top of the operand stack.
    pub fn push(&mut self, value: i64)
        ensures
            final(self)@.stack == old(self)@.stack.push(value),
            final(self)@.state == old(self)@.state,
    {
        self.stack.push(value);
    }

    /// The host's stack-pointer field, or `None` where the base pointer to
    /// the host's state is null.
    pub fn read_stack_pointer(&self) -> (field: Option<i32>)
        ensures
            field == match self@.state {
                Some(raw) => Some(raw.sp),
                None => None,
            },
    {
        match self.state {
            Some(raw) => Some(raw.sp),
            None => None,
        }
    }

    /// Writes `code` into the host's exit-code field and says whether it did:
    /// where the base pointer to the host's state is null, nothing is written.
    pub fn write_exit_code(&mut self, code: i32) -> (written: bool)
        ensures
            written == old(self)@.state.is_some(),
            final(self)@.stack == old(self)@.stack,
            final(self)@.state == match old(self)@.state {
                Some(raw) => Some(RawState { sp: raw.sp, exit_code: code }),
                None => None,
            },
    {
        match self.state {
            Some(raw) => {
                self.state = Some(RawState { sp: raw.sp, exit_code: code });
                true
            },
            None => false,
        }
    }
}

} // verus!
