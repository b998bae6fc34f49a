//! The contract between one link of the chain and the link above it.
//!
//! A chain is assembled once, by wrapping each new link around the one
//! that was outermost before. Each link owns the next one inward, so a
//! request passes through the links one at a time, from the outermost
//! in, and exactly one of them answers it.

use crate::error::HintFailure;
use crate::hint::HintInstruction;
use cairo_vm::hint_processor::hint_processor_definition::HintReference;
use cairo_vm::serde::deserialize_program::ApTracking;
use cairo_vm::types::exec_scope::ExecutionScopes;
use cairo_vm::vm::errors::vm_errors::VirtualMachineError;
use cairo_vm::vm::runners::cairo_runner::RunResources;
use cairo_vm::vm::vm_core::VirtualMachine;
use cairo_vm::Felt252;
use std::collections::HashMap;
use std::sync::Arc;
use vstd::prelude::*;

verus! {

/// The named values that live across hint invocations. Opaque here.
#[verifier::external_type_specification]
#[verifier::external_body]
pub struct ExExecutionScopes(ExecutionScopes);

/// The error type of hint compilation. Opaque here.
#[verifier::external_type_specification]
#[verifier::external_body]
pub struct ExVirtualMachineError(VirtualMachineError);

/// The position-tracking metadata of a hint. Opaque here.
#[verifier::external_type_specification]
#[verifier::external_body]
pub struct ExApTracking(ApTracking);

/// A structured reference to a variable of a hint. Opaque here.
#[verifier::external_type_specification]
#[verifier::external_body]
pub struct ExHintReference(HintReference);

/// The budget of steps of a run. Opaque here.
#[verifier::external_type_specification]
#[verifier::external_body]
pub struct ExRunResources(RunResources);

/// The machine's own field element, as the table of constants holds it.
/// Opaque here.
#[verifier::external_type_specification]
#[verifier::external_body]
pub struct ExFelt252(Felt252);

/// What a link of the chain offers to the link above it: a definitive
/// answer to every request, its own or that of a link further in.
///
/// Each executable method is paired with a specification function that
/// says what the link answers. A link that forwards a request states the
/// answer of its child, so whoever stands above can tell that nothing
/// was added or dropped on the way.
pub trait HintProcessorLogicInterceptor {
    /// What an unread hint carries.
    type Payload;

    /// What the compilation of a hint gives.
    type Compiled;

    /// Whether executing `hint` on this link, with the machine as `vm`,
    /// the scopes as `exec_scopes` and the constants as `constants`, may
    /// end with the link as `next`, the machine as `vm_next`, the scopes
    /// as `exec_scopes_next`, and `result` returned.
    spec fn executes(
        &self,
        next: &Self,
        vm: VirtualMachine,
        vm_next: VirtualMachine,
        exec_scopes: ExecutionScopes,
        exec_scopes_next: ExecutionScopes,
        hint: &HintInstruction<'_, Self::Payload>,
        constants: &HashMap<String, Felt252>,
        result: Result<(), HintFailure>,
    ) -> bool;

    /// Executes a compiled hint on the machine, with the scopes that
    /// live across hints and the table of constants.
    fn execute_hint(
        &mut self,
        vm: &mut VirtualMachine,
        exec_scopes: &mut ExecutionScopes,
        hint: &HintInstruction<'_, Self::Payload>,
        constants: &HashMap<String, Felt252>,
    ) -> (result: Result<(), HintFailure>)
        requires
            hint.well_formed(),
        ensures
            old(self).executes(
                final(self),
                *old(vm),
                *final(vm),
                *old(exec_scopes),
                *final(exec_scopes),
                hint,
                constants,
                result,
            ),
    ;

    /// Whether compiling a hint from these inputs on this link may give
    /// `result`.
    spec fn compiles(
        &self,
        hint_code: &str,
        ap_tracking_data: &ApTracking,
        reference_ids: &HashMap<String, usize>,
        references: &[HintReference],
        accessible_scopes: &[String],
        constants: Arc<HashMap<String, Felt252>>,
        result: Result<Self::Compiled, VirtualMachineError>,
    ) -> bool;

    /// Compiles a hint from its source text, its position-tracking
    /// metadata, the mapping from its symbols to reference numbers, the
    /// references themselves, the scopes it can reach, and the constants
    /// of its program.
    fn compile_hint(
        &self,
        hint_code: &str,
        ap_tracking_data: &ApTracking,
        reference_ids: &HashMap<String, usize>,
        references: &[HintReference],
        accessible_scopes: &[String],
        constants: Arc<HashMap<String, Felt252>>,
    ) -> (result: Result<Self::Compiled, VirtualMachineError>)
        ensures
            self.compiles(
                hint_code,
                ap_tracking_data,
                reference_ids,
                references,
                accessible_scopes,
                constants,
                result,
            ),
    ;

    /// Whether the budget is exhausted.
    spec fn spec_consumed(&self) -> bool;

    /// Whether the budget is exhausted.
    fn consumed(&self) -> (exhausted: bool)
        ensures
            exhausted == self.spec_consumed(),
    ;

    /// Whether consuming one step may leave the link as `next`.
    spec fn consumes_step(&self, next: &Self) -> bool;

    /// Consumes one step of the budget.
    fn consume_step(&mut self)
        ensures
            old(self).consumes_step(final(self)),
    ;

    /// The steps that are left, where the budget has a cap.
    spec fn spec_n_steps(&self) -> Option<usize>;

    /// The steps that are left, where the budget has a cap.
    fn get_n_steps(&self) -> (steps: Option<usize>)
        ensures
            steps == self.spec_n_steps(),
    ;

    /// The budget itself.
    spec fn spec_run_resources(&self) -> RunResources;

    /// The budget itself.
    fn run_resources(&self) -> (resources: &RunResources)
        ensures
            *resources == self.spec_run_resources(),
    ;
}

} // verus!
