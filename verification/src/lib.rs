//! A link for the chain of hint processors of a Cairo virtual machine,
//! to stand in it while a contract executes.
//!
//! The machine hands certain instructions, the hints, to a processor
//! outside it. Processors are stacked: each link of the chain owns the
//! next one inward, and a request goes from the outermost link in until
//! one of them answers it. The link of this crate,
//! [`ContractExecutionSyscallHandler`], answers the cheatcode requests:
//! it carries out `print`, which reports each input value on a line of
//! its own, and refuses every other cheatcode. Whatever else arrives, a
//! hint to execute or to compile or a question about the budget of
//! steps, it hands to its child unchanged.
//!
//! The emitted lines are collected in the handler, for its owner to take
//! and write where it wants them.

pub mod chain;
pub mod cheatcode;
pub mod error;
pub mod felt;
pub mod handler;
pub mod hint;
pub mod laws;
pub mod vm;

pub use chain::HintProcessorLogicInterceptor;
pub use error::HintFailure;
pub use felt::FieldElement;
pub use handler::ContractExecutionSyscallHandler;
pub use hint::{CellRef, Cheatcode, HintInstruction, Operand, Register};
pub use vm::{extract_input, Address};
