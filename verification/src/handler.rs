//! The link that stands in the chain while a contract executes. It
//! answers cheatcode requests itself, of which it carries out `print`
//! alone, and passes every other request on to its child untouched.

use crate::chain::HintProcessorLogicInterceptor;
use crate::cheatcode::{cheatcode_outcome, dispatch_cheatcode, texts};
use crate::error::HintFailure;
use crate::hint::HintInstruction;
use crate::vm::{extract_input, input_values};
use cairo_vm::hint_processor::hint_processor_definition::HintReference;
use cairo_vm::serde::deserialize_program::ApTracking;
use cairo_vm::types::exec_scope::ExecutionScopes;
use cairo_vm::vm::errors::vm_errors::VirtualMachineError;
use cairo_vm::vm::runners::cairo_runner::RunResources;
use cairo_vm::vm::vm_core::VirtualMachine;
use cairo_vm::Felt252;
use std::collections::HashMap;
use std::sync::Arc;
use vstd::prelude::*;

verus! {

/// The link that handles cheatcodes while a contract executes.
///
/// It owns its child, the next link inward, and a sink: the lines that
/// `print` has emitted and that nobody has taken yet.
pub struct ContractExecutionSyscallHandler<C: HintProcessorLogicInterceptor> {
    pub child: C,
    pub output: Vec<String>,
}

impl<C: HintProcessorLogicInterceptor> ContractExecutionSyscallHandler<C> {
    /// Wraps this link around `child`, with an empty sink.
    pub fn wrap(child: C) -> (handler: Self)
        ensures
            handler.child == child,
            handler.output@ == Seq::<String>::empty(),
    {
        ContractExecutionSyscallHandler { child, output: Vec::new() }
    }

    /// The next link inward. This link always has one.
    pub fn get_child(&self) -> (child: Option<&C>)
        ensures
            child == Some(&self.child),
    {
        Some(&self.child)
    }

    /// The next link inward, to be changed in place. The sink stays as
    /// it is.
    pub fn get_child_mut(&mut self) -> (child: Option<&mut C>)
        ensures
            child is Some,
            *child.unwrap() == old(self).child,
            final(self).child == *final(child.unwrap()),
            final(self).output == old(self).output,
    {
        Some(&mut self.child)
    }

    /// Takes the emitted lines out of the sink, oldest first, and leaves
    /// it empty.
    pub fn take_output(&mut self) -> (lines: Vec<String>)
        ensures
            lines == old(self).output,
            final(self).output@ == Seq::<String>::empty(),
            final(self).child == old(self).child,
    {
        let mut lines = Vec::new();
        std::mem::swap(&mut self.output, &mut lines);
        lines
    }

    /// Whether intercepting `hint` on this link, with the machine as
    /// `vm`, may end with the link as `next` and `answer` returned.
    ///
    /// A hint that is no cheatcode request is not handled, and nothing
    /// is touched. A cheatcode request is answered for good: its inputs
    /// are read, and `print` emits a line for each of them into the sink.
    pub open spec fn intercepts(
        &self,
        next: &Self,
        vm: VirtualMachine,
        hint: &HintInstruction<'_, C::Payload>,
        answer: Option<Result<(), HintFailure>>,
    ) -> bool {
        match *hint {
            HintInstruction::Cheatcode(cheatcode) => {
                let outcome = cheatcode_outcome(
                    cheatcode.selector@,
                    input_values(vm, cheatcode.input_start, cheatcode.input_end),
                );
                &&& answer == Some(outcome.0)
                &&& texts(next.output@) == texts(self.output@) + outcome.1
                &&& next.child == self.child
            },
            HintInstruction::Other(_) => answer is None && *next == *self,
        }
    }

    /// Offers a hint to this link. The machine and the scopes are left
    /// as they were, whatever the hint.
    pub fn intercept_execute_hint(
        &mut self,
        vm: &mut VirtualMachine,
        exec_scopes: &mut ExecutionScopes,
        hint: &HintInstruction<'_, C::Payload>,
        constants: &HashMap<String, Felt252>,
    ) -> (answer: Option<Result<(), HintFailure>>)
        requires
            hint.well_formed(),
        ensures
            old(self).intercepts(final(self), *old(vm), hint, answer),
            *final(vm) == *old(vm),
            *final(exec_scopes) == *old(exec_scopes),
            answer is None <==> hint is Other,
            hint is Other ==> *final(self) == *old(self),
    {
        match hint {
            HintInstruction::Cheatcode(cheatcode) => {
                let inputs = match extract_input(
                    vm,
                    &cheatcode.input_start,
                    &cheatcode.input_end,
                ) {
                    Ok(inputs) => inputs,
                    Err(failure) => {
                        assert(texts(self.output@) + Seq::<Seq<char>>::empty() =~= texts(
                            self.output@,
                        ));
                        return Some(Err(failure));
                    },
                };
                Some(dispatch_cheatcode(cheatcode.selector.as_slice(), &inputs, &mut self.output))
            },
            HintInstruction::Other(_) => None,
        }
    }
}

impl<C: HintProcessorLogicInterceptor> HintProcessorLogicInterceptor for ContractExecutionSyscallHandler<
    C,
> {
    type Payload = C::Payload;

    type Compiled = C::Compiled;

    /// The answer of this link where it handles the hint itself, and
    /// that of its child, with the sink untouched, where it does not.
    open spec fn executes(
        &self,
        next: &Self,
        vm: VirtualMachine,
        vm_next: VirtualMachine,
        exec_scopes: ExecutionScopes,
        exec_scopes_next: ExecutionScopes,
        hint: &HintInstruction<'_, Self::Payload>,
        constants: &HashMap<String, Felt252>,
        result: Result<(), HintFailure>,
    ) -> bool {
        match *hint {
            HintInstruction::Cheatcode(_) => {
                &&& self.intercepts(next, vm, hint, Some(result))
                &&& vm_next == vm
                &&& exec_scopes_next == exec_scopes
            },
            HintInstruction::Other(_) => {
                &&& self.child.executes(
                    &next.child,
                    vm,
                    vm_next,
                    exec_scopes,
                    exec_scopes_next,
                    hint,
                    constants,
                    result,
                )
                &&& next.output == self.output
            },
        }
    }

    fn execute_hint(
        &mut self,
        vm: &mut VirtualMachine,
        exec_scopes: &mut ExecutionScopes,
        hint: &HintInstruction<'_, Self::Payload>,
        constants: &HashMap<String, Felt252>,
    ) -> (result: Result<(), HintFailure>) {
        match self.intercept_execute_hint(vm, exec_scopes, hint, constants) {
            Some(result) => result,
            None => self.child.execute_hint(vm, exec_scopes, hint, constants),
        }
    }

    /// The answer of the child.
    open spec fn compiles(
        &self,
        hint_code: &str,
        ap_tracking_data: &ApTracking,
        reference_ids: &HashMap<String, usize>,
        references: &[HintReference],
        accessible_scopes: &[String],
        constants: Arc<HashMap<String, Felt252>>,
        result: Result<Self::Compiled, VirtualMachineError>,
    ) -> bool {
        self.child.compiles(
            hint_code,
            ap_tracking_data,
            reference_ids,
            references,
            accessible_scopes,
            constants,
            result,
        )
    }

    fn compile_hint(
        &self,
        hint_code: &str,
        ap_tracking_data: &ApTracking,
        reference_ids: &HashMap<String, usize>,
        references: &[HintReference],
        accessible_scopes: &[String],
        constants: Arc<HashMap<String, Felt252>>,
    ) -> (result: Result<Self::Compiled, VirtualMachineError>) {
        self.child.compile_hint(
            hint_code,
            ap_tracking_data,
            reference_ids,
            references,
            accessible_scopes,
            constants,
        )
    }

    /// The reading of the child.
    open spec fn spec_consumed(&self) -> bool {
        self.child.spec_consumed()
    }

    fn consumed(&self) -> (exhausted: bool) {
        self.child.consumed()
    }

    /// The child consumes the step; the sink stays as it is.
    open spec fn consumes_step(&self, next: &Self) -> bool {
        self.child.consumes_step(&next.child) && next.output == self.output
    }

    fn consume_step(&mut self) {
        self.child.consume_step();
    }

    /// The reading of the child.
    open spec fn spec_n_steps(&self) -> Option<usize> {
        self.child.spec_n_steps()
    }

    fn get_n_steps(&self) -> (steps: Option<usize>) {
        self.child.get_n_steps()
    }

    /// The budget of the child.
    open spec fn spec_run_resources(&self) -> RunResources {
        self.child.spec_run_resources()
    }

    fn run_resources(&self) -> (resources: &RunResources) {
        self.child.run_resources()
    }
}

} // verus!
