use cairo_vm::hint_processor::hint_processor_definition::HintReference;
use cairo_vm::serde::deserialize_program::ApTracking;
use cairo_vm::types::exec_scope::ExecutionScopes;
use cairo_vm::types::relocatable::Relocatable;
use cairo_vm::vm::errors::hint_errors::HintError;
use cairo_vm::vm::errors::vm_errors::VirtualMachineError;
use cairo_vm::vm::runners::cairo_runner::{ResourceTracker, RunResources};
use cairo_vm::vm::vm_core::VirtualMachine;
use cairo_vm::Felt252;
use cheatnet::chain::HintProcessorLogicInterceptor;
use cheatnet::error::HintFailure;
use cheatnet::handler::ContractExecutionSyscallHandler;
use cheatnet::hint::{CellRef, Cheatcode, HintInstruction, Operand, Register};
use std::collections::HashMap;
use std::sync::Arc;

/// A child that records what reaches it.
struct Recorder {
    resources: RunResources,
    executed: Vec<u32>,
    constants_seen: Vec<usize>,
    fail: bool,
}

fn recorder(steps: usize) -> Recorder {
    Recorder { resources: RunResources::new(steps), executed: vec![], constants_seen: vec![], fail: false }
}

impl HintProcessorLogicInterceptor for Recorder {
    type Payload = u32;
    type Compiled = String;

    fn executes(
        &self,
        _next: &Self,
        _vm: VirtualMachine,
        _vm_next: VirtualMachine,
        _exec_scopes: ExecutionScopes,
        _exec_scopes_next: ExecutionScopes,
        _hint: &HintInstruction<'_, u32>,
        _constants: &HashMap<String, Felt252>,
        _result: Result<(), HintFailure>,
    ) -> bool {
        unreachable!()
    }

    fn execute_hint(
        &mut self,
        vm: &mut VirtualMachine,
        exec_scopes: &mut ExecutionScopes,
        hint: &HintInstruction<'_, u32>,
        constants: &HashMap<String, Felt252>,
    ) -> Result<(), HintFailure> {
        self.constants_seen.push(constants.len());
        match hint {
            HintInstruction::Other(payload) => self.executed.push(**payload),
            HintInstruction::Cheatcode(_) => self.executed.push(u32::MAX),
        }
        if self.fail {
            return Err(HintFailure::Processor(HintError::WrongHintData));
        }
        vm.set_ap(vm.get_ap().offset + 1);
        exec_scopes.enter_scope(HashMap::new());
        Ok(())
    }

    fn compiles(
        &self,
        _hint_code: &str,
        _ap_tracking_data: &ApTracking,
        _reference_ids: &HashMap<String, usize>,
        _references: &[HintReference],
        _accessible_scopes: &[String],
        _constants: Arc<HashMap<String, Felt252>>,
        _result: Result<String, VirtualMachineError>,
    ) -> bool {
        unreachable!()
    }

    fn compile_hint(
        &self,
        hint_code: &str,
        _ap_tracking_data: &ApTracking,
        _reference_ids: &HashMap<String, usize>,
        _references: &[HintReference],
        _accessible_scopes: &[String],
        _constants: Arc<HashMap<String, Felt252>>,
    ) -> Result<String, VirtualMachineError> {
        if hint_code.is_empty() {
            Err(VirtualMachineError::Unexpected)
        } else {
            Ok(format!("compiled:{hint_code}"))
        }
    }

    fn spec_consumed(&self) -> bool {
        unreachable!()
    }

    fn consumed(&self) -> bool {
        self.resources.consumed()
    }

    fn consumes_step(&self, _next: &Self) -> bool {
        unreachable!()
    }

    fn consume_step(&mut self) {
        self.resources.consume_step();
    }

    fn spec_n_steps(&self) -> Option<usize> {
        unreachable!()
    }

    fn get_n_steps(&self) -> Option<usize> {
        self.resources.get_n_steps()
    }

    fn spec_run_resources(&self) -> RunResources {
        unreachable!()
    }

    fn run_resources(&self) -> &RunResources {
        &self.resources
    }
}

fn cell(register: Register, offset: i16) -> Operand {
    Operand::Deref(CellRef { register, offset })
}

/// A machine whose frame pointer stands at (1, 2). The cells [fp] and
/// [fp + 1] hold the two ends of a buffer in segment 2 that holds
/// `values`, and `end` is the offset that the second pointer is given.
fn machine(values: &[u128], end: usize) -> VirtualMachine {
    let mut vm = VirtualMachine::new(false, false);
    vm.add_memory_segment();
    vm.add_memory_segment();
    vm.add_memory_segment();
    vm.set_fp(2);
    vm.set_ap(5);
    vm.insert_value(Relocatable::from((1, 2)), Relocatable::from((2, 0))).unwrap();
    vm.insert_value(Relocatable::from((1, 3)), Relocatable::from((2, end))).unwrap();
    for (i, value) in values.iter().enumerate() {
        vm.insert_value(Relocatable::from((2, i)), Felt252::from(*value)).unwrap();
    }
    vm
}

fn cheatcode(selector: &[u8]) -> HintInstruction<'static, u32> {
    HintInstruction::Cheatcode(Cheatcode {
        selector: selector.to_vec(),
        input_start: cell(Register::FP, 0),
        input_end: cell(Register::FP, 1),
    })
}

const HELLO: u128 = 0x48656c6c6f;

#[test]
fn wrap_keeps_the_child_and_starts_with_an_empty_sink() {
    let handler = ContractExecutionSyscallHandler::wrap(recorder(7));
    assert!(handler.output.is_empty());
    assert_eq!(handler.child.resources.get_n_steps(), Some(7));
    assert!(handler.child.executed.is_empty());
}

#[test]
fn get_child_gives_the_wrapped_link() {
    let mut handler = ContractExecutionSyscallHandler::wrap(recorder(3));
    assert_eq!(handler.get_child().unwrap().get_n_steps(), Some(3));
    handler.get_child_mut().unwrap().consume_step();
    assert_eq!(handler.get_child().unwrap().get_n_steps(), Some(2));
    assert_eq!(handler.child.get_n_steps(), Some(2));
}

#[test]
fn print_reports_a_short_string_beside_its_number() {
    let mut handler = ContractExecutionSyscallHandler::wrap(recorder(1));
    let mut vm = machine(&[HELLO], 1);
    let mut scopes = ExecutionScopes::new();
    let answer = handler.intercept_execute_hint(&mut vm, &mut scopes, &cheatcode(b"print"), &HashMap::new());
    assert!(matches!(answer, Some(Ok(()))));
    assert_eq!(
        handler.output,
        vec!["original value: [310939249775], converted to a string: [Hello]".to_string()]
    );
    assert!(handler.child.executed.is_empty());
}

#[test]
fn print_without_inputs_emits_nothing() {
    let mut handler = ContractExecutionSyscallHandler::wrap(recorder(1));
    let mut vm = machine(&[], 0);
    let mut scopes = ExecutionScopes::new();
    let answer = handler.intercept_execute_hint(&mut vm, &mut scopes, &cheatcode(b"print"), &HashMap::new());
    assert!(matches!(answer, Some(Ok(()))));
    assert!(handler.output.is_empty());
}

#[test]
fn print_emits_one_line_for_each_input_in_order() {
    let mut handler = ContractExecutionSyscallHandler::wrap(recorder(1));
    let mut vm = machine(&[HELLO, 1, 0x6162, 0], 4);
    let mut scopes = ExecutionScopes::new();
    let answer = handler.intercept_execute_hint(&mut vm, &mut scopes, &cheatcode(b"print"), &HashMap::new());
    assert!(matches!(answer, Some(Ok(()))));
    assert_eq!(
        handler.output,
        vec![
            "original value: [310939249775], converted to a string: [Hello]".to_string(),
            "original value: [1]".to_string(),
            "original value: [24930], converted to a string: [ab]".to_string(),
            "original value: [0], converted to a string: []".to_string(),
        ]
    );
}

#[test]
fn print_reads_only_up_to_the_end_of_the_range() {
    let mut handler = ContractExecutionSyscallHandler::wrap(recorder(1));
    let mut vm = machine(&[HELLO, 1, 2], 2);
    let mut scopes = ExecutionScopes::new();
    let answer = handler.intercept_execute_hint(&mut vm, &mut scopes, &cheatcode(b"print"), &HashMap::new());
    assert!(matches!(answer, Some(Ok(()))));
    assert_eq!(handler.output.len(), 2);
    assert_eq!(handler.output[1], "original value: [1]");
}

#[test]
fn print_appends_to_what_the_sink_holds() {
    let mut handler = ContractExecutionSyscallHandler::wrap(recorder(1));
    let mut vm = machine(&[7], 1);
    let mut scopes = ExecutionScopes::new();
    handler.output.push("kept".to_string());
    handler.intercept_execute_hint(&mut vm, &mut scopes, &cheatcode(b"print"), &HashMap::new()).unwrap().unwrap();
    handler.intercept_execute_hint(&mut vm, &mut scopes, &cheatcode(b"print"), &HashMap::new()).unwrap().unwrap();
    assert_eq!(
        handler.output,
        vec![
            "kept".to_string(),
            "original value: [7]".to_string(),
            "original value: [7]".to_string(),
        ]
    );
}

#[test]
fn selector_with_leading_zero_bytes_is_print() {
    let mut handler = ContractExecutionSyscallHandler::wrap(recorder(1));
    let mut vm = machine(&[1], 1);
    let mut scopes = ExecutionScopes::new();
    let answer =
        handler.intercept_execute_hint(&mut vm, &mut scopes, &cheatcode(b"\0\0print"), &HashMap::new());
    assert!(matches!(answer, Some(Ok(()))));
    assert_eq!(handler.output, vec!["original value: [1]".to_string()]);
}

#[test]
fn other_cheatcodes_are_refused() {
    let mut handler = ContractExecutionSyscallHandler::wrap(recorder(4));
    let mut vm = machine(&[HELLO, 2], 2);
    let mut scopes = ExecutionScopes::new();
    let answer = handler.intercept_execute_hint(&mut vm, &mut scopes, &cheatcode(b"mock_call"), &HashMap::new());
    assert!(matches!(answer, Some(Err(HintFailure::UnsupportedCheatcode))));
    assert!(handler.output.is_empty());
    assert!(handler.child.executed.is_empty());
    assert_eq!(handler.child.get_n_steps(), Some(4));
    assert_eq!(vm.get_ap().offset, 5);
    assert_eq!(scopes.data.len(), 1);
}

#[test]
fn selectors_near_print_are_refused() {
    for selector in [&b"Print"[..], b"prin", b"printf", b"print\0", b""] {
        let mut handler = ContractExecutionSyscallHandler::wrap(recorder(1));
        let mut vm = machine(&[1], 1);
        let mut scopes = ExecutionScopes::new();
        let answer = handler.intercept_execute_hint(&mut vm, &mut scopes, &cheatcode(selector), &HashMap::new());
        assert!(matches!(answer, Some(Err(HintFailure::UnsupportedCheatcode))));
        assert!(handler.output.is_empty());
    }
}

#[test]
fn other_hints_are_not_handled() {
    let mut handler = ContractExecutionSyscallHandler::wrap(recorder(1));
    let mut vm = machine(&[HELLO], 1);
    let mut scopes = ExecutionScopes::new();
    let answer = handler.intercept_execute_hint(&mut vm, &mut scopes, &HintInstruction::Other(&9), &HashMap::new());
    assert!(answer.is_none());
    assert!(handler.output.is_empty());
    assert!(handler.child.executed.is_empty());
    assert_eq!(vm.get_ap().offset, 5);
    assert_eq!(scopes.data.len(), 1);
}

#[test]
fn other_hints_reach_the_child_unchanged() {
    let mut handler = ContractExecutionSyscallHandler::wrap(recorder(1));
    let mut vm = machine(&[HELLO], 1);
    let mut scopes = ExecutionScopes::new();
    let mut constants = HashMap::new();
    constants.insert("a".to_string(), Felt252::from(1));
    constants.insert("b".to_string(), Felt252::from(2));
    let result = handler.execute_hint(&mut vm, &mut scopes, &HintInstruction::Other(&41), &constants);
    assert!(result.is_ok());
    let result =
        handler.execute_hint(&mut vm, &mut scopes, &HintInstruction::Other(&42), &HashMap::new());
    assert!(result.is_ok());
    assert_eq!(handler.child.executed, vec![41, 42]);
    assert_eq!(handler.child.constants_seen, vec![2, 0]);
    assert!(handler.output.is_empty());
    // What the child did to the machine and to the scopes is there.
    assert_eq!(vm.get_ap().offset, 7);
    assert_eq!(scopes.data.len(), 3);
}

#[test]
fn wrapping_changes_nothing_of_what_the_child_does() {
    // The same requests, once to the child alone and once through the
    // handler.
    let mut alone = recorder(3);
    let mut vm_alone = machine(&[HELLO], 1);
    let mut scopes_alone = ExecutionScopes::new();
    let mut wrapped = ContractExecutionSyscallHandler::wrap(recorder(3));
    let mut vm_wrapped = machine(&[HELLO], 1);
    let mut scopes_wrapped = ExecutionScopes::new();
    let constants = HashMap::new();
    for payload in [11u32, 12, 13] {
        let hint = HintInstruction::Other(&payload);
        let expected = alone.execute_hint(&mut vm_alone, &mut scopes_alone, &hint, &constants);
        let got = wrapped.execute_hint(&mut vm_wrapped, &mut scopes_wrapped, &hint, &constants);
        assert_eq!(expected.is_ok(), got.is_ok());
        alone.consume_step();
        wrapped.consume_step();
        assert_eq!(alone.consumed(), wrapped.consumed());
        assert_eq!(alone.get_n_steps(), wrapped.get_n_steps());
        assert_eq!(alone.run_resources().get_n_steps(), wrapped.run_resources().get_n_steps());
        assert_eq!(vm_alone.get_ap(), vm_wrapped.get_ap());
        assert_eq!(scopes_alone.data.len(), scopes_wrapped.data.len());
    }
    assert_eq!(alone.executed, wrapped.child.executed);
    assert_eq!(alone.constants_seen, wrapped.child.constants_seen);
    assert!(wrapped.consumed());
    assert!(wrapped.output.is_empty());
    let text = "memory[ap] = 1";
    let tracking = ApTracking::new();
    let expected =
        alone.compile_hint(text, &tracking, &HashMap::new(), &[], &[], Arc::new(HashMap::new()));
    let got = wrapped.compile_hint(
        text,
        &tracking,
        &HashMap::new(),
        &[],
        &[],
        Arc::new(HashMap::new()),
    );
    assert_eq!(expected.unwrap(), got.unwrap());
}

#[test]
fn a_failure_of_the_child_comes_back_as_it_is() {
    let mut child = recorder(1);
    child.fail = true;
    let mut handler = ContractExecutionSyscallHandler::wrap(child);
    let mut vm = machine(&[], 0);
    let mut scopes = ExecutionScopes::new();
    let result = handler.execute_hint(&mut vm, &mut scopes, &HintInstruction::Other(&5), &HashMap::new());
    assert!(matches!(result, Err(HintFailure::Processor(HintError::WrongHintData))));
    assert_eq!(handler.child.executed, vec![5]);
}

#[test]
fn cheatcodes_never_reach_the_child() {
    let mut handler = ContractExecutionSyscallHandler::wrap(recorder(1));
    let mut vm = machine(&[HELLO], 1);
    let mut scopes = ExecutionScopes::new();
    assert!(handler.execute_hint(&mut vm, &mut scopes, &cheatcode(b"print"), &HashMap::new()).is_ok());
    let refused = handler.execute_hint(&mut vm, &mut scopes, &cheatcode(b"warp"), &HashMap::new());
    assert!(matches!(refused, Err(HintFailure::UnsupportedCheatcode)));
    assert!(handler.child.executed.is_empty());
    assert_eq!(handler.output.len(), 1);
    assert_eq!(vm.get_ap().offset, 5);
    assert_eq!(scopes.data.len(), 1);
}

#[test]
fn start_after_end_is_a_memory_read_error() {
    let mut handler = ContractExecutionSyscallHandler::wrap(recorder(1));
    let mut vm = machine(&[1, 2, 3], 3);
    let mut scopes = ExecutionScopes::new();
    let hint = HintInstruction::Cheatcode(Cheatcode {
        selector: b"print".to_vec(),
        input_start: cell(Register::FP, 1),
        input_end: cell(Register::FP, 0),
    });
    let answer = handler.intercept_execute_hint(&mut vm, &mut scopes, &hint, &HashMap::new());
    assert!(matches!(answer, Some(Err(HintFailure::MemoryReadError))));
    assert!(handler.output.is_empty());
}

#[test]
fn a_range_beyond_the_written_cells_is_a_memory_read_error() {
    let mut handler = ContractExecutionSyscallHandler::wrap(recorder(1));
    let mut vm = machine(&[1, 2], 5);
    let mut scopes = ExecutionScopes::new();
    let answer = handler.intercept_execute_hint(&mut vm, &mut scopes, &cheatcode(b"print"), &HashMap::new());
    assert!(matches!(answer, Some(Err(HintFailure::MemoryReadError))));
    assert!(handler.output.is_empty());
}

#[test]
fn unreadable_inputs_fail_before_the_selector_is_looked_at() {
    let mut handler = ContractExecutionSyscallHandler::wrap(recorder(1));
    let mut vm = machine(&[1, 2], 5);
    let mut scopes = ExecutionScopes::new();
    let answer = handler.intercept_execute_hint(&mut vm, &mut scopes, &cheatcode(b"mock_call"), &HashMap::new());
    assert!(matches!(answer, Some(Err(HintFailure::MemoryReadError))));
    assert!(handler.output.is_empty());
}

#[test]
fn a_cell_that_holds_no_pointer_is_a_memory_read_error() {
    let mut handler = ContractExecutionSyscallHandler::wrap(recorder(1));
    let mut vm = machine(&[1], 1);
    let mut scopes = ExecutionScopes::new();
    // [fp + 2] was never written.
    let hint = HintInstruction::Cheatcode(Cheatcode {
        selector: b"print".to_vec(),
        input_start: cell(Register::FP, 0),
        input_end: cell(Register::FP, 2),
    });
    let answer = handler.intercept_execute_hint(&mut vm, &mut scopes, &hint, &HashMap::new());
    assert!(matches!(answer, Some(Err(HintFailure::MemoryReadError))));
}

#[test]
fn an_operand_that_marks_no_buffer_is_a_memory_read_error() {
    let mut handler = ContractExecutionSyscallHandler::wrap(recorder(1));
    let mut vm = machine(&[1], 1);
    let mut scopes = ExecutionScopes::new();
    let hint = HintInstruction::Cheatcode(Cheatcode {
        selector: b"print".to_vec(),
        input_start: Operand::Other,
        input_end: cell(Register::FP, 1),
    });
    let answer = handler.intercept_execute_hint(&mut vm, &mut scopes, &hint, &HashMap::new());
    assert!(matches!(answer, Some(Err(HintFailure::MemoryReadError))));
}

#[test]
fn take_output_empties_the_sink() {
    let mut handler = ContractExecutionSyscallHandler::wrap(recorder(1));
    let mut vm = machine(&[1, 2], 2);
    let mut scopes = ExecutionScopes::new();
    handler.intercept_execute_hint(&mut vm, &mut scopes, &cheatcode(b"print"), &HashMap::new()).unwrap().unwrap();
    let lines = handler.take_output();
    assert_eq!(lines, vec!["original value: [1]".to_string(), "original value: [2]".to_string()]);
    assert!(handler.output.is_empty());
    assert!(handler.take_output().is_empty());
}

#[test]
fn the_budget_is_read_and_consumed_through_the_handler() {
    let mut handler = ContractExecutionSyscallHandler::wrap(recorder(2));
    assert!(!handler.consumed());
    assert_eq!(handler.get_n_steps(), Some(2));
    assert_eq!(handler.run_resources().get_n_steps(), Some(2));
    handler.consume_step();
    assert_eq!(handler.get_n_steps(), Some(1));
    assert_eq!(handler.child.get_n_steps(), Some(1));
    handler.consume_step();
    assert!(handler.consumed());
    assert!(handler.child.consumed());
    handler.consume_step();
    assert_eq!(handler.get_n_steps(), Some(0));
    assert_eq!(handler.run_resources().get_n_steps(), Some(0));
}

#[test]
fn stacked_handlers_read_the_budget_of_the_innermost_link() {
    let inner = ContractExecutionSyscallHandler::wrap(recorder(3));
    let mut outer = ContractExecutionSyscallHandler::wrap(inner);
    outer.consume_step();
    assert_eq!(outer.get_n_steps(), Some(2));
    assert_eq!(outer.child.get_n_steps(), Some(2));
    assert_eq!(outer.child.child.get_n_steps(), Some(2));
    assert!(!outer.consumed());
    let mut vm = machine(&[HELLO], 1);
    let mut scopes = ExecutionScopes::new();
    assert!(outer.execute_hint(&mut vm, &mut scopes, &HintInstruction::Other(&3), &HashMap::new()).is_ok());
    assert_eq!(outer.child.child.executed, vec![3]);
    // The outermost link answers a cheatcode; the inner one never sees it.
    assert!(outer.execute_hint(&mut vm, &mut scopes, &cheatcode(b"print"), &HashMap::new()).is_ok());
    assert_eq!(outer.output.len(), 1);
    assert!(outer.child.output.is_empty());
}

#[test]
fn compilation_is_passed_on_to_the_child() {
    let handler = ContractExecutionSyscallHandler::wrap(recorder(1));
    let compiled = handler.compile_hint(
        "memory[ap] = 1",
        &ApTracking::new(),
        &HashMap::new(),
        &[],
        &[],
        Arc::new(HashMap::new()),
    );
    assert_eq!(compiled.unwrap(), "compiled:memory[ap] = 1");
    let failed = handler.compile_hint(
        "",
        &ApTracking::new(),
        &HashMap::new(),
        &[],
        &[],
        Arc::new(HashMap::new()),
    );
    assert!(matches!(failed, Err(VirtualMachineError::Unexpected)));
}

#[test]
fn a_hint_is_well_formed_when_its_selector_is_text() {
    assert!(cheatcode(b"print").is_well_formed());
    assert!(cheatcode(b"").is_well_formed());
    assert!(cheatcode("h\u{e9}llo".as_bytes()).is_well_formed());
    assert!(!cheatcode(&[0xff, 0x70]).is_well_formed());
    assert!(!cheatcode(&[0x00, 0xc3]).is_well_formed());
    assert!(HintInstruction::<u32>::Other(&0).is_well_formed());
}
