//! Opcode handlers of a native extension for a stack-based virtual machine.
//!
//! The host machine owns the operand stack and its internal state; a handler
//! only pops and pushes signed 64-bit values and touches two raw fields of
//! the host state. This crate holds the handlers' logic over a model of that
//! host state, together with the byte-level rules for the zero-terminated
//! strings that cross the boundary.

pub mod arith;
pub mod host;
pub mod strings;
pub mod vm;

pub use strings::{
    fun_rust_echo_string, fun_rust_get_string, fun_rust_print_string, fun_rust_string_free,
};
pub use vm::{
    fun_op_radd, fun_op_rdiv, fun_op_rget_sp, fun_op_rmul, fun_op_rset_exit, fun_op_rsub,
};
