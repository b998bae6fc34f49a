//! What holds of the handler on every request, stated over the
//! specification functions that its contracts use.

use crate::chain::HintProcessorLogicInterceptor;
use crate::cheatcode::{is_print, print_line, print_lines, texts};
use crate::error::HintFailure;
use crate::felt::{decimal, short_string, FieldElement};
use crate::handler::ContractExecutionSyscallHandler;
use crate::hint::{Cheatcode, HintInstruction, Operand};
use crate::vm::{input_values, resolved, vm_integers, Address};
use cairo_vm::hint_processor::hint_processor_definition::HintReference;
use cairo_vm::serde::deserialize_program::ApTracking;
use cairo_vm::types::exec_scope::ExecutionScopes;
use cairo_vm::vm::errors::vm_errors::VirtualMachineError;
use cairo_vm::vm::vm_core::VirtualMachine;
use cairo_vm::Felt252;
use std::collections::HashMap;
use std::sync::Arc;
use vstd::prelude::*;

verus! {

/// A hint that is no cheatcode request is not handled: the handler gives
/// no answer and stays exactly as it was, sink included.
pub proof fn other_hints_are_not_handled<C: HintProcessorLogicInterceptor>(
    handler: ContractExecutionSyscallHandler<C>,
    next: ContractExecutionSyscallHandler<C>,
    vm: VirtualMachine,
    payload: &C::Payload,
    answer: Option<Result<(), HintFailure>>,
)
    requires
        handler.intercepts(&next, vm, &HintInstruction::Other(payload), answer),
    ensures
        answer is None,
        next == handler,
{
}

/// A cheatcode request is always answered, whatever its selector and
/// whatever became of its inputs, and the child is left as it was.
pub proof fn cheatcodes_are_always_answered<C: HintProcessorLogicInterceptor>(
    handler: ContractExecutionSyscallHandler<C>,
    next: ContractExecutionSyscallHandler<C>,
    vm: VirtualMachine,
    cheatcode: Cheatcode,
    answer: Option<Result<(), HintFailure>>,
)
    requires
        handler.intercepts(&next, vm, &HintInstruction::Cheatcode(cheatcode), answer),
    ensures
        answer is Some,
        next.child == handler.child,
{
}

/// A cheatcode request never reaches the child, and leaves the machine
/// and the scopes as they were, whether it succeeds or fails.
pub proof fn cheatcodes_touch_neither_machine_nor_scopes<C: HintProcessorLogicInterceptor>(
    handler: ContractExecutionSyscallHandler<C>,
    next: ContractExecutionSyscallHandler<C>,
    vm: VirtualMachine,
    vm_next: VirtualMachine,
    exec_scopes: ExecutionScopes,
    exec_scopes_next: ExecutionScopes,
    cheatcode: Cheatcode,
    constants: &HashMap<String, Felt252>,
    result: Result<(), HintFailure>,
)
    requires
        handler.executes(
            &next,
            vm,
            vm_next,
            exec_scopes,
            exec_scopes_next,
            &HintInstruction::Cheatcode(cheatcode),
            constants,
            result,
        ),
    ensures
        vm_next == vm,
        exec_scopes_next == exec_scopes,
        next.child == handler.child,
        handler.intercepts(&next, vm, &HintInstruction::Cheatcode(cheatcode), Some(result)),
{
}

/// `print` with readable inputs succeeds and adds to the sink exactly
/// one line for each input, in the order of the inputs; with no input it
/// adds none.
pub proof fn print_emits_one_line_for_each_input<C: HintProcessorLogicInterceptor>(
    handler: ContractExecutionSyscallHandler<C>,
    next: ContractExecutionSyscallHandler<C>,
    vm: VirtualMachine,
    cheatcode: Cheatcode,
    inputs: Seq<FieldElement>,
    answer: Option<Result<(), HintFailure>>,
)
    requires
        handler.intercepts(&next, vm, &HintInstruction::Cheatcode(cheatcode), answer),
        is_print(cheatcode.selector@),
        input_values(vm, cheatcode.input_start, cheatcode.input_end) == Some(inputs),
    ensures
        answer == Some(Ok::<(), HintFailure>(())),
        next.output@.len() == handler.output@.len() + inputs.len(),
        forall|i: int|
            0 <= i < handler.output@.len() ==> (#[trigger] next.output@[i])@ == handler.output@[i]@,
        forall|i: int|
            0 <= i < inputs.len() ==> (#[trigger] next.output@[handler.output@.len() + i])@
                == print_line(inputs[i]),
        inputs.len() == 0 ==> texts(next.output@) == texts(handler.output@),
{
    let before = texts(handler.output@);
    let after = texts(next.output@);
    let added = print_lines(inputs);
    assert(after == before + added);
    assert(after.len() == before.len() + added.len());
    assert forall|i: int| 0 <= i < handler.output@.len() implies (#[trigger] next.output@[i])@
        == handler.output@[i]@ by {
        assert(after[i] == before[i]);
    }
    assert forall|i: int| 0 <= i < inputs.len() implies (#[trigger] next.output@[handler.output@.len()
        + i])@ == print_line(inputs[i]) by {
        assert(after[before.len() + i] == added[i]);
    }
    if inputs.len() == 0 {
        assert(after =~= before);
    }
}

/// Any other selector with readable inputs fails as an unsupported
/// cheatcode, and adds no line to the sink.
pub proof fn other_cheatcodes_are_refused<C: HintProcessorLogicInterceptor>(
    handler: ContractExecutionSyscallHandler<C>,
    next: ContractExecutionSyscallHandler<C>,
    vm: VirtualMachine,
    cheatcode: Cheatcode,
    inputs: Seq<FieldElement>,
    answer: Option<Result<(), HintFailure>>,
)
    requires
        handler.intercepts(&next, vm, &HintInstruction::Cheatcode(cheatcode), answer),
        !is_print(cheatcode.selector@),
        input_values(vm, cheatcode.input_start, cheatcode.input_end) == Some(inputs),
    ensures
        answer == Some(Err::<(), HintFailure>(HintFailure::UnsupportedCheatcode)),
        texts(next.output@) == texts(handler.output@),
{
    assert(texts(handler.output@) + Seq::<Seq<char>>::empty() =~= texts(handler.output@));
}

/// The inputs of a cheatcode are the field elements of the cells from
/// the start of its range up to the end, the end left out, in the order
/// of their offsets.
pub proof fn inputs_are_read_in_the_order_of_their_offsets(
    vm: VirtualMachine,
    input_start: Operand,
    input_end: Operand,
    start: Address,
    end: Address,
    inputs: Seq<FieldElement>,
)
    requires
        resolved(vm, input_start) == Some(start),
        resolved(vm, input_end) == Some(end),
        input_values(vm, input_start, input_end) == Some(inputs),
    ensures
        start.segment_index == end.segment_index,
        inputs.len() == end.offset - start.offset,
        forall|i: int|
            0 <= i < inputs.len() ==> #[trigger] inputs[i] == vm_integers(vm)[(
                start.segment_index as int,
                start.offset + i,
            )],
{
}

/// A range one of whose ends does not resolve cannot be read; an operand
/// that has not the shape of a buffer's end never resolves.
pub proof fn a_range_without_both_ends_cannot_be_read(
    vm: VirtualMachine,
    input_start: Operand,
    input_end: Operand,
)
    requires
        resolved(vm, input_start) is None || resolved(vm, input_end) is None,
    ensures
        input_values(vm, input_start, input_end) is None,
        resolved(vm, Operand::Other) is None,
{
}

/// A range that starts after its end, or whose ends lie in two segments,
/// cannot be read.
pub proof fn a_range_that_runs_backwards_cannot_be_read(
    vm: VirtualMachine,
    input_start: Operand,
    input_end: Operand,
    start: Address,
    end: Address,
)
    requires
        resolved(vm, input_start) == Some(start),
        resolved(vm, input_end) == Some(end),
        start.segment_index != end.segment_index || start.offset > end.offset,
    ensures
        input_values(vm, input_start, input_end) is None,
{
}

/// A range one of whose cells holds no field element cannot be read.
pub proof fn a_range_over_an_unreadable_cell_cannot_be_read(
    vm: VirtualMachine,
    input_start: Operand,
    input_end: Operand,
    start: Address,
    end: Address,
    offset: int,
)
    requires
        resolved(vm, input_start) == Some(start),
        resolved(vm, input_end) == Some(end),
        start.offset <= offset < end.offset,
        !vm_integers(vm).contains_key((start.segment_index as int, offset)),
    ensures
        input_values(vm, input_start, input_end) is None,
{
}

/// Inputs that cannot be read fail as a memory-read error whatever the
/// selector, and add no line to the sink.
pub proof fn unreadable_inputs_fail_before_dispatch<C: HintProcessorLogicInterceptor>(
    handler: ContractExecutionSyscallHandler<C>,
    next: ContractExecutionSyscallHandler<C>,
    vm: VirtualMachine,
    cheatcode: Cheatcode,
    answer: Option<Result<(), HintFailure>>,
)
    requires
        handler.intercepts(&next, vm, &HintInstruction::Cheatcode(cheatcode), answer),
        input_values(vm, cheatcode.input_start, cheatcode.input_end) is None,
    ensures
        answer == Some(Err::<(), HintFailure>(HintFailure::MemoryReadError)),
        texts(next.output@) == texts(handler.output@),
{
    assert(texts(handler.output@) + Seq::<Seq<char>>::empty() =~= texts(handler.output@));
}

/// The line that reports a value has exactly one of two forms: the
/// number with the short string that it packs, or the number alone where
/// it packs none. The two forms never coincide.
pub proof fn print_line_has_one_of_two_forms(value: FieldElement)
    ensures
        match short_string(value.value()) {
            Some(text) => print_line(value) == "original value: ["@ + decimal(value.value())
                + "], converted to a string: ["@ + text + "]"@,
            None => print_line(value) == "original value: ["@ + decimal(value.value()) + "]"@,
        },
        forall|text: Seq<char>|
            "original value: ["@ + decimal(value.value()) + "], converted to a string: ["@ + text
                + "]"@ != "original value: ["@ + decimal(value.value()) + "]"@,
{
    reveal_strlit("original value: [");
    reveal_strlit("], converted to a string: [");
    reveal_strlit("]");
    assert forall|text: Seq<char>|
        "original value: ["@ + decimal(value.value()) + "], converted to a string: ["@ + text
            + "]"@ != "original value: ["@ + decimal(value.value()) + "]"@ by {
        let with_text = "original value: ["@ + decimal(value.value())
            + "], converted to a string: ["@ + text + "]"@;
        let alone = "original value: ["@ + decimal(value.value()) + "]"@;
        assert(with_text.len() == alone.len() + 27 + text.len());
    }
}

/// On a hint that it does not handle, the handler executes exactly as
/// its child does: the same results, the same changes to the machine and
/// to the scopes, and the child left as the child alone would be. The
/// sink is not touched.
pub proof fn deferred_execution_is_the_childs<C: HintProcessorLogicInterceptor>(
    handler: ContractExecutionSyscallHandler<C>,
    next: ContractExecutionSyscallHandler<C>,
    vm: VirtualMachine,
    vm_next: VirtualMachine,
    exec_scopes: ExecutionScopes,
    exec_scopes_next: ExecutionScopes,
    payload: &C::Payload,
    constants: &HashMap<String, Felt252>,
    result: Result<(), HintFailure>,
)
    ensures
        handler.executes(
            &next,
            vm,
            vm_next,
            exec_scopes,
            exec_scopes_next,
            &HintInstruction::Other(payload),
            constants,
            result,
        ) <==> handler.child.executes(
            &next.child,
            vm,
            vm_next,
            exec_scopes,
            exec_scopes_next,
            &HintInstruction::Other(payload),
            constants,
            result,
        ) && next.output == handler.output,
{
}

/// The handler compiles a hint exactly as its child does.
pub proof fn compilation_is_the_childs<C: HintProcessorLogicInterceptor>(
    handler: ContractExecutionSyscallHandler<C>,
    hint_code: &str,
    ap_tracking_data: &ApTracking,
    reference_ids: &HashMap<String, usize>,
    references: &[HintReference],
    accessible_scopes: &[String],
    constants: Arc<HashMap<String, Felt252>>,
    result: Result<C::Compiled, VirtualMachineError>,
)
    ensures
        handler.compiles(
            hint_code,
            ap_tracking_data,
            reference_ids,
            references,
            accessible_scopes,
            constants,
            result,
        ) <==> handler.child.compiles(
            hint_code,
            ap_tracking_data,
            reference_ids,
            references,
            accessible_scopes,
            constants,
            result,
        ),
{
}

/// The handler reads the budget exactly as its child does, and consumes
/// a step exactly as its child does, with the sink untouched.
pub proof fn resource_readings_are_the_childs<C: HintProcessorLogicInterceptor>(
    handler: ContractExecutionSyscallHandler<C>,
    next: ContractExecutionSyscallHandler<C>,
)
    ensures
        handler.spec_consumed() == handler.child.spec_consumed(),
        handler.spec_n_steps() == handler.child.spec_n_steps(),
        handler.spec_run_resources() == handler.child.spec_run_resources(),
        handler.consumes_step(&next) <==> handler.child.consumes_step(&next.child) && next.output
            == handler.output,
{
}

/// However many handlers are stacked, the budget is read as the link
/// under them reads it: two handlers, one around the other, read it as
/// the child of the inner one does.
pub proof fn stacked_handlers_read_the_same_budget<C: HintProcessorLogicInterceptor>(
    outer: ContractExecutionSyscallHandler<ContractExecutionSyscallHandler<C>>,
)
    ensures
        outer.spec_consumed() == outer.child.child.spec_consumed(),
        outer.spec_n_steps() == outer.child.child.spec_n_steps(),
        outer.spec_run_resources() == outer.child.child.spec_run_resources(),
{
}

} // verus!
