//! Operation codes of the target virtual machine's instruction set. These
//! are fixed protocol constants expected by the loader, not design choices.

use vstd::prelude::*;

verus! {

/// Marks a position in the instruction stream.
pub const OP_LABEL: u8 = 1;

/// Function-information record: module atom, function atom, arity.
pub const OP_FUNC_INFO: u8 = 2;

/// End of the code chunk's instruction stream.
pub const OP_INT_CODE_END: u8 = 3;

/// Return from the current function.
pub const OP_RETURN: u8 = 19;

/// Move a value into a register.
pub const OP_MOVE: u8 = 64;

/// Call a two-argument guarded built-in function.
pub const OP_GC_BIF2: u8 = 125;

/// Line-number annotation.
pub const OP_LINE: u8 = 153;

} // verus!
