//! The machine's memory as this layer reads it: the two operands of a
//! buffer are resolved to addresses, and the field elements between them
//! are read out in order.

use crate::error::HintFailure;
use crate::felt::FieldElement;
use crate::hint::{CellRef, Operand, Register};
use cairo_lang_casm::operand::{
    BinOpOperand, CellRef as CasmCellRef, DerefOrImmediate, Operation, Register as CasmRegister,
    ResOperand,
};
use cairo_lang_runner::casm_run::{extract_relocatable, vm_get_range};
use cairo_vm::types::relocatable::Relocatable;
use cairo_vm::vm::vm_core::VirtualMachine;
use cairo_vm::Felt252;
use vstd::prelude::*;

verus! {

/// The virtual machine. Opaque here: it is a store of memory cells, and
/// what this layer needs of it is named by the four functions below.
#[verifier::external_type_specification]
#[verifier::external_body]
pub struct ExVirtualMachine(VirtualMachine);

/// An address in the machine's memory: a segment and an offset in it.
#[derive(Clone, Copy, Debug)]
pub struct Address {
    pub segment_index: isize,
    pub offset: usize,
}

/// The offset that the machine's allocation pointer stands at.
pub uninterp spec fn vm_ap(vm: VirtualMachine) -> int;

/// The offset that the machine's frame pointer stands at.
pub uninterp spec fn vm_fp(vm: VirtualMachine) -> int;

/// The address that the machine resolves a buffer operand to, if it
/// resolves it.
pub uninterp spec fn vm_resolved(vm: VirtualMachine, operand: Operand) -> Option<Address>;

/// The field elements that the machine's memory holds, each under the
/// segment and the offset of its cell. A cell that was never written, or
/// that holds a pointer, has no entry.
pub uninterp spec fn vm_integers(vm: VirtualMachine) -> Map<(int, int), FieldElement>;

/// The offset of the register that a cell is addressed from.
pub open spec fn register_offset(vm: VirtualMachine, register: Register) -> int {
    match register {
        Register::AP => vm_ap(vm),
        Register::FP => vm_fp(vm),
    }
}

/// Whether a cell lies at an offset that an address can hold.
pub open spec fn cell_in_memory(vm: VirtualMachine, cell: CellRef) -> bool {
    0 <= register_offset(vm, cell.register) + cell.offset <= usize::MAX
}

/// Whether an operand can be handed to the machine as the end of a
/// buffer: it has the shape of one, and its cell lies in memory.
pub open spec fn resolvable(vm: VirtualMachine, operand: Operand) -> bool {
    match operand {
        Operand::Deref(cell) => cell_in_memory(vm, cell),
        Operand::AddImmediate(cell, _) => cell_in_memory(vm, cell),
        Operand::Other => false,
    }
}

/// The address of a buffer's end: what the machine resolves the operand
/// to where it can be handed to it, and nothing elsewhere.
pub open spec fn resolved(vm: VirtualMachine, operand: Operand) -> Option<Address> {
    if resolvable(vm, operand) {
        vm_resolved(vm, operand)
    } else {
        None
    }
}

/// Whether the cells from `start` up to `end`, `end` left out, can be
/// read: the two addresses lie in one segment, `start` not after `end`,
/// and every cell between them holds a field element.
pub open spec fn readable(vm: VirtualMachine, start: Address, end: Address) -> bool {
    &&& start.segment_index == end.segment_index
    &&& start.offset <= end.offset
    &&& forall|offset: int|
        start.offset <= offset < end.offset ==> #[trigger] vm_integers(vm).contains_key(
            (start.segment_index as int, offset),
        )
}

/// The field elements in the cells from `start` up to `end`, `end` left
/// out, in the order of their offsets.
pub open spec fn range_values(vm: VirtualMachine, start: Address, end: Address) -> Seq<
    FieldElement,
>
    recommends
        readable(vm, start, end),
{
    Seq::new(
        (end.offset - start.offset) as nat,
        |i: int| vm_integers(vm)[(start.segment_index as int, start.offset + i)],
    )
}

/// The inputs of a cheatcode: the field elements between the addresses
/// that its two operands resolve to, where both resolve and the cells
/// between them can be read.
pub open spec fn input_values(vm: VirtualMachine, input_start: Operand, input_end: Operand)
    -> Option<Seq<FieldElement>> {
    match (resolved(vm, input_start), resolved(vm, input_end)) {
        (Some(start), Some(end)) => if readable(vm, start, end) {
            Some(range_values(vm, start, end))
        } else {
            None
        },
        _ => None,
    }
}

/// Whether the cell lies at an offset that an address can hold.
fn cell_is_in_memory(vm: &VirtualMachine, cell: &CellRef) -> (inside: bool)
    ensures
        inside == cell_in_memory(*vm, *cell),
{
    let base: usize = match cell.register {
        Register::AP => ap_offset(vm),
        Register::FP => fp_offset(vm),
    };
    if cell.offset >= 0 {
        base <= usize::MAX - (cell.offset as usize)
    } else {
        let back: i32 = -(cell.offset as i32);
        base >= back as usize
    }
}

/// Resolves the operand of a buffer's end against the machine's memory.
pub fn resolve(vm: &VirtualMachine, operand: &Operand) -> (address: Option<Address>)
    ensures
        address == resolved(*vm, *operand),
{
    let inside = match operand {
        Operand::Deref(cell) => cell_is_in_memory(vm, cell),
        Operand::AddImmediate(cell, _) => cell_is_in_memory(vm, cell),
        Operand::Other => false,
    };
    if inside {
        resolve_operand(vm, operand)
    } else {
        None
    }
}

/// Reads the inputs of a cheatcode out of the machine's memory, in index
/// order. The machine is left as it was.
pub fn extract_input(vm: &mut VirtualMachine, input_start: &Operand, input_end: &Operand) -> (inputs:
    Result<Vec<FieldElement>, HintFailure>)
    ensures
        *final(vm) == *old(vm),
        match input_values(*old(vm), *input_start, *input_end) {
            Some(values) => inputs is Ok && inputs.unwrap()@ == values,
            None => inputs == Err::<Vec<FieldElement>, HintFailure>(HintFailure::MemoryReadError),
        },
{
    let start = match resolve(vm, input_start) {
        Some(start) => start,
        None => { return Err(HintFailure::MemoryReadError); },
    };
    let end = match resolve(vm, input_end) {
        Some(end) => end,
        None => { return Err(HintFailure::MemoryReadError); },
    };
    let ghost before = *vm;
    match read_range(vm, start, end) {
        Some(values) => {
            assert(values@ =~= range_values(before, start, end));
            Ok(values)
        },
        None => Err(HintFailure::MemoryReadError),
    }
}

/// `VirtualMachine::get_ap`. Trusted: its offset is what `vm_ap` names.
#[verifier::external_body]
fn ap_offset(vm: &VirtualMachine) -> (offset: usize)
    ensures
        offset == vm_ap(*vm),
{
    vm.get_ap().offset
}

/// `VirtualMachine::get_fp`. Trusted: its offset is what `vm_fp` names.
#[verifier::external_body]
fn fp_offset(vm: &VirtualMachine) -> (offset: usize)
    ensures
        offset == vm_fp(*vm),
{
    vm.get_fp().offset
}

/// `cairo_lang_runner::casm_run::extract_relocatable`, on the operand
/// written in the machine's own types. Trusted: its result, an error
/// taken as nothing, is what `vm_resolved` names. It aborts on an operand
/// that has not the shape of a buffer's end, and on a cell whose offset
/// from its register leaves the range of addresses; `requires` keeps both
/// out.
#[verifier::external_body]
fn resolve_operand(vm: &VirtualMachine, operand: &Operand) -> (address: Option<Address>)
    requires
        resolvable(*vm, *operand),
    ensures
        address == vm_resolved(*vm, *operand),
{
    let register = |register| match register {
        Register::AP => CasmRegister::AP,
        Register::FP => CasmRegister::FP,
    };
    let cell = |c: &CellRef| CasmCellRef { register: register(c.register), offset: c.offset };
    let operand = match operand {
        Operand::Deref(a) => ResOperand::Deref(cell(a)),
        Operand::AddImmediate(a, b) => {
            let b = DerefOrImmediate::Immediate(Felt252::from_bytes_be(&b.bytes).to_bigint().into());
            ResOperand::BinOp(BinOpOperand { op: Operation::Add, a: cell(a), b })
        },
        Operand::Other => return None,
    };
    let address = extract_relocatable(vm, &operand).ok()?;
    Some(Address { segment_index: address.segment_index, offset: address.offset })
}

/// `cairo_lang_runner::casm_run::vm_get_range`, an error taken as
/// nothing. Trusted: it only reads the machine. It steps from `start` by
/// one offset at a time until it stands at `end`, and takes the field
/// element of each cell it passes; it fails at the first cell that holds
/// none. So it gives values exactly where the cells are readable, and it
/// gives them in the order of their offsets. (A walk that starts after
/// `end`, or in another segment, never stands at `end`, and fails where
/// the written cells end.)
#[verifier::external_body]
fn read_range(vm: &mut VirtualMachine, start: Address, end: Address) -> (values: Option<
    Vec<FieldElement>,
>)
    ensures
        *final(vm) == *old(vm),
        values is Some <==> readable(*old(vm), start, end),
        values is Some ==> values.unwrap()@.len() == end.offset - start.offset,
        values is Some ==> forall|i: int|
            0 <= i < values.unwrap()@.len() ==> #[trigger] values.unwrap()@[i] == vm_integers(
                *old(vm),
            )[(start.segment_index as int, start.offset + i)],
{
    let start = Relocatable { segment_index: start.segment_index, offset: start.offset };
    let end = Relocatable { segment_index: end.segment_index, offset: end.offset };
    let values = vm_get_range(vm, start, end).ok()?;
    Some(values.iter().map(|felt| FieldElement { bytes: felt.to_bytes_be() }).collect())
}

} // verus!
