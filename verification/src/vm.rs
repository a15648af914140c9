//! The opcode handlers. Each takes the host's state, works on the operand
//! stack through `pop` and `push` alone, and returns a status. The top of the
//! stack is the second operand: a binary handler pops `b`, then `a`.

use crate::arith::{
    clamp_i64, difference, fits_i64, narrow, product, quotient, quotient_or_zero,
    quotient_status, stack_pointer_value, sum, wrap_i32, wrap_i64, STATUS_FAILED, STATUS_OK,
};
use crate::host::{lemma_drop_follows, lemma_replace_follows, RawState, Vm};
use vstd::prelude::*;

verus! {

/// Pops the two operands of a binary handler, the second one first, and
/// returns them first operand first.
fn pop_operands(vm: &mut Vm) -> (operands: (i64, i64))
    requires
        old(vm)@.depth() >= 2,
    ensures
        operands.0 == old(vm)@.peek(1),
        operands.1 == old(vm)@.peek(0),
        final(vm)@.stack == old(vm)@.below(2),
        final(vm)@.state == old(vm)@.state,
{
    let b = vm.pop();
    let a = vm.pop();
    assert(old(vm)@.below(1).take(old(vm)@.depth() - 2) =~= old(vm)@.below(2));
    (a, b)
}

/// Adds the two topmost values: `[.., a, b]` becomes `[.., a + b]`, with a
/// sum beyond the 64-bit range wrapped around.
pub fn fun_op_radd(vm: &mut Vm) -> (status: i32)
    requires
        old(vm)@.depth() >= 2,
    ensures
        status == STATUS_OK,
        final(vm)@.stack == old(vm)@.below(2).push(
            wrap_i64(old(vm)@.peek(1) + old(vm)@.peek(0)) as i64,
        ),
        final(vm)@.peek(0) == wrap_i64(old(vm)@.peek(1) + old(vm)@.peek(0)),
        fits_i64(old(vm)@.peek(1) + old(vm)@.peek(0)) ==> final(vm)@.peek(0) == old(vm)@.peek(1)
            + old(vm)@.peek(0),
        final(vm)@.follows(old(vm)@, 2, 1),
        final(vm)@.state == old(vm)@.state,
{
    let (a, b) = pop_operands(vm);
    let r = sum(a, b);
    vm.push(r);
    proof {
        lemma_replace_follows(old(vm)@, vm@, 2, r);
    }
    STATUS_OK
}

/// Multiplies the two topmost values: `[.., a, b]` becomes `[.., a * b]`, with
/// a product beyond the 64-bit range held at the bound it lies beyond.
pub fn fun_op_rmul(vm: &mut Vm) -> (status: i32)
    requires
        old(vm)@.depth() >= 2,
    ensures
        status == STATUS_OK,
        final(vm)@.stack == old(vm)@.below(2).push(
            clamp_i64(old(vm)@.peek(1) * old(vm)@.peek(0)) as i64,
        ),
        final(vm)@.peek(0) == clamp_i64(old(vm)@.peek(1) * old(vm)@.peek(0)),
        final(vm)@.follows(old(vm)@, 2, 1),
        final(vm)@.state == old(vm)@.state,
{
    let (a, b) = pop_operands(vm);
    let r = product(a, b);
    vm.push(r);
    proof {
        lemma_replace_follows(old(vm)@, vm@, 2, r);
    }
    STATUS_OK
}

/// Subtracts the top value from the one below it: `[.., a, b]` becomes
/// `[.., a - b]`, with a difference beyond the 64-bit range wrapped around.
pub fn fun_op_rsub(vm: &mut Vm) -> (status: i32)
    requires
        old(vm)@.depth() >= 2,
    ensures
        status == STATUS_OK,
        final(vm)@.stack == old(vm)@.below(2).push(
            wrap_i64(old(vm)@.peek(1) - old(vm)@.peek(0)) as i64,
        ),
        final(vm)@.peek(0) == wrap_i64(old(vm)@.peek(1) - old(vm)@.peek(0)),
        final(vm)@.follows(old(vm)@, 2, 1),
        final(vm)@.state == old(vm)@.state,
{
    let (a, b) = pop_operands(vm);
    let r = difference(a, b);
    vm.push(r);
    proof {
        lemma_replace_follows(old(vm)@, vm@, 2, r);
    }
    STATUS_OK
}

/// Divides the value below the top by the top value, rounding toward zero:
/// `[.., a, b]` becomes `[.., a / b]`. Where `b` is zero, or `a` is the least
/// value and `b` is -1, it becomes `[.., 0]` and the status tells of the
/// failure.
pub fn fun_op_rdiv(vm: &mut Vm) -> (status: i32)
    requires
        old(vm)@.depth() >= 2,
    ensures
        status == quotient_status(old(vm)@.peek(1) as int, old(vm)@.peek(0) as int),
        old(vm)@.peek(0) == 0 ==> status == STATUS_FAILED && final(vm)@.peek(0) == 0,
        final(vm)@.stack == old(vm)@.below(2).push(
            quotient_or_zero(old(vm)@.peek(1) as int, old(vm)@.peek(0) as int) as i64,
        ),
        final(vm)@.peek(0) == quotient_or_zero(old(vm)@.peek(1) as int, old(vm)@.peek(0) as int),
        final(vm)@.follows(old(vm)@, 2, 1),
        final(vm)@.state == old(vm)@.state,
{
    let (a, b) = pop_operands(vm);
    let r = quotient(a, b);
    vm.push(r.value);
    proof {
        lemma_replace_follows(old(vm)@, vm@, 2, r.value);
    }
    r.status
}

/// Pushes the host's stack-pointer field, sign-extended to 64 bits. Where the
/// base pointer to the host's state is null the field is not read: 0 is pushed
/// in its place and the status tells of the failure.
pub fn fun_op_rget_sp(vm: &mut Vm) -> (status: i32)
    ensures
        match old(vm)@.state {
            Some(raw) => status == STATUS_OK && final(vm)@.peek(0) == raw.sp,
            None => status == STATUS_FAILED && final(vm)@.peek(0) == 0,
        },
        final(vm)@.stack == old(vm)@.stack.push(final(vm)@.peek(0)),
        final(vm)@.follows(old(vm)@, 0, 1),
        final(vm)@.state == old(vm)@.state,
{
    let field = vm.read_stack_pointer();
    let r = stack_pointer_value(field);
    vm.push(r.value);
    proof {
        assert(old(vm)@.below(0) =~= old(vm)@.stack);
        lemma_replace_follows(old(vm)@, vm@, 0, r.value);
    }
    r.status
}

/// Pops a value and writes its low 32 bits into the host's exit-code field.
/// Where the base pointer to the host's state is null the value is popped,
/// nothing is written and the status tells of the failure.
pub fn fun_op_rset_exit(vm: &mut Vm) -> (status: i32)
    requires
        old(vm)@.depth() >= 1,
    ensures
        match old(vm)@.state {
            Some(raw) => status == STATUS_OK && final(vm)@.state == Some(
                RawState { sp: raw.sp, exit_code: wrap_i32(old(vm)@.peek(0) as int) as i32 },
            ),
            None => status == STATUS_FAILED && final(vm)@.state.is_none(),
        },
        final(vm)@.stack == old(vm)@.below(1),
        final(vm)@.follows(old(vm)@, 1, 0),
{
    let code = narrow(vm.pop());
    let written = vm.write_exit_code(code);
    proof {
        lemma_drop_follows(old(vm)@, vm@, 1);
    }
    if written {
        STATUS_OK
    } else {
        STATUS_FAILED
    }
}

} // verus!
