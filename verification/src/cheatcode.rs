//! What a cheatcode request does once its inputs are read: `print`
//! reports each input on a line of its own, and nothing else is
//! available while a contract executes.

use crate::error::HintFailure;
use crate::felt::{decimal, short_string, FieldElement};
use crate::hint::{decode_selector, selector_is_text, selector_text};
use vstd::prelude::*;
use vstd::string::StringExecFns;

verus! {

/// The line that reports one value: the number itself and, where it
/// packs a short string, the string beside it.
pub open spec fn print_line(value: FieldElement) -> Seq<char> {
    match short_string(value.value()) {
        Some(text) => "original value: ["@ + decimal(value.value())
            + "], converted to a string: ["@ + text + "]"@,
        None => "original value: ["@ + decimal(value.value()) + "]"@,
    }
}

/// The lines that report a sequence of values, one for each, in order.
pub open spec fn print_lines(values: Seq<FieldElement>) -> Seq<Seq<char>> {
    Seq::new(values.len(), |i: int| print_line(values[i]))
}

/// The text of each line of a sink.
pub open spec fn texts(lines: Seq<String>) -> Seq<Seq<char>> {
    Seq::new(lines.len(), |i: int| lines[i]@)
}

/// Whether a selector names the `print` cheatcode.
pub open spec fn is_print(selector: Seq<u8>) -> bool {
    selector_text(selector) == "print"@
}

/// What a cheatcode request comes to, given what reading its inputs
/// gave: the result, and the lines it emits. Unreadable inputs fail
/// before the selector is looked at.
pub open spec fn cheatcode_outcome(selector: Seq<u8>, inputs: Option<Seq<FieldElement>>) -> (
    Result<(), HintFailure>,
    Seq<Seq<char>>,
) {
    match inputs {
        None => (Err(HintFailure::MemoryReadError), Seq::empty()),
        Some(values) => if is_print(selector) {
            (Ok(()), print_lines(values))
        } else {
            (Err(HintFailure::UnsupportedCheatcode), Seq::empty())
        },
    }
}

/// Writes the line that reports `value`.
pub fn format_value(value: &FieldElement) -> (line: String)
    ensures
        line@ == print_line(*value),
{
    let mut line = String::from_str("original value: [");
    let number = value.to_decimal();
    line.append(number.as_str());
    match value.to_short_string() {
        Some(text) => {
            line.append("], converted to a string: [");
            line.append(text.as_str());
            line.append("]");
        },
        None => {
            line.append("]");
        },
    }
    line
}

/// Appends to `sink` the lines that report `values`, in order.
pub fn print_values(values: &Vec<FieldElement>, sink: &mut Vec<String>)
    ensures
        texts(final(sink)@) == texts(old(sink)@) + print_lines(values@),
{
    let ghost before = texts(sink@);
    let mut i: usize = 0;
    while i < values.len()
        invariant
            i <= values@.len(),
            texts(sink@) == before + print_lines(values@.take(i as int)),
        decreases values@.len() - i,
    {
        let line = format_value(&values[i]);
        let ghost prev = sink@;
        sink.push(line);
        proof {
            assert(texts(sink@) =~= texts(prev).push(line@));
            assert(print_lines(values@.take(i + 1)) =~= print_lines(values@.take(i as int)).push(
                print_line(values@[i as int]),
            ));
            assert(texts(sink@) =~= before + print_lines(values@.take(i + 1)));
        }
        i = i + 1;
    }
    assert(values@.take(i as int) =~= values@);
}

/// Whether `selector` names the `print` cheatcode.
pub fn selector_is_print(selector: &[u8]) -> (print: bool)
    requires
        selector_is_text(selector@),
    ensures
        print == is_print(selector@),
{
    match decode_selector(selector) {
        Some(text) => text.to_owned() == String::from_str("print"),
        None => false,
    }
}

/// Carries out a cheatcode request whose inputs were read: `print`
/// appends one line for each input to `sink` and succeeds; any other
/// selector fails and appends nothing.
pub fn dispatch_cheatcode(selector: &[u8], inputs: &Vec<FieldElement>, sink: &mut Vec<String>) -> (result:
    Result<(), HintFailure>)
    requires
        selector_is_text(selector@),
    ensures
        result == cheatcode_outcome(selector@, Some(inputs@)).0,
        texts(final(sink)@) == texts(old(sink)@) + cheatcode_outcome(selector@, Some(inputs@)).1,
        is_print(selector@) ==> result is Ok && texts(final(sink)@).len() == texts(old(sink)@).len()
            + inputs@.len(),
        !is_print(selector@) ==> result == Err::<(), HintFailure>(
            HintFailure::UnsupportedCheatcode,
        ) && final(sink)@ == old(sink)@,
{
    if selector_is_print(selector) {
        print_values(inputs, sink);
        Ok(())
    } else {
        assert(texts(sink@) + Seq::<Seq<char>>::empty() =~= texts(sink@));
        Err(HintFailure::UnsupportedCheatcode)
    }
}

} // verus!
