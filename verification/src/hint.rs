//! The compiled hint as this layer reads it: a cheatcode request with its
//! selector and its input range, or anything else, carried unread.

use crate::felt::FieldElement;
use vstd::prelude::*;
use vstd::slice::slice_subrange;
use vstd::utf8::{decode_utf8, valid_utf8};

verus! {

/// The register that a cell is addressed from.
#[derive(Clone, Copy, Debug)]
pub enum Register {
    AP,
    FP,
}

/// A memory cell, at an offset from a register.
#[derive(Clone, Copy, Debug)]
pub struct CellRef {
    pub register: Register,
    pub offset: i16,
}

/// An operand that marks one end of a buffer. A buffer's end is the
/// pointer held in a cell, or that pointer moved on by an immediate; no
/// other operand marks one.
#[derive(Clone, Copy, Debug)]
pub enum Operand {
    /// The pointer held in the cell.
    Deref(CellRef),
    /// The pointer held in the cell, plus the immediate.
    AddImmediate(CellRef, FieldElement),
    /// An operand of any other shape.
    Other,
}

/// A cheatcode request: the command's name, packed as the big-endian
/// bytes of an integer, and the two ends of its argument array.
#[derive(Debug)]
pub struct Cheatcode {
    pub selector: Vec<u8>,
    pub input_start: Operand,
    pub input_end: Operand,
}

/// One compiled hint. Every hint but a cheatcode request is opaque here:
/// it is the payload it came in, borrowed, so that no link can change it
/// on its way inward.
#[derive(Debug)]
pub enum HintInstruction<'a, P> {
    Cheatcode(Cheatcode),
    Other(&'a P),
}

/// The bytes of an integer without its leading zero bytes.
pub open spec fn significant(bytes: Seq<u8>) -> Seq<u8>
    decreases bytes.len(),
{
    if bytes.len() > 0 && bytes[0] == 0 {
        significant(bytes.skip(1))
    } else {
        bytes
    }
}

/// Whether the significant bytes of a selector are text.
pub open spec fn selector_is_text(selector: Seq<u8>) -> bool {
    valid_utf8(significant(selector))
}

/// The command name that a selector packs.
pub open spec fn selector_text(selector: Seq<u8>) -> Seq<char>
    recommends
        selector_is_text(selector),
{
    decode_utf8(significant(selector))
}

impl<'a, P> HintInstruction<'a, P> {
    /// A hint is well formed when its selector, if it has one, is text.
    pub open spec fn well_formed(&self) -> bool {
        match self {
            HintInstruction::Cheatcode(cheatcode) => selector_is_text(cheatcode.selector@),
            HintInstruction::Other(_) => true,
        }
    }

    /// Whether the hint is well formed.
    pub fn is_well_formed(&self) -> (valid: bool)
        ensures
            valid == self.well_formed(),
    {
        match self {
            HintInstruction::Cheatcode(cheatcode) => decode_selector(
                cheatcode.selector.as_slice(),
            ).is_some(),
            HintInstruction::Other(_) => true,
        }
    }
}

/// The bytes of `bytes` from its first non-zero byte on.
pub fn significant_bytes(bytes: &[u8]) -> (tail: &[u8])
    ensures
        tail@ == significant(bytes@),
{
    let mut start: usize = 0;
    assert(bytes@.skip(0) =~= bytes@);
    while start < bytes.len() && bytes[start] == 0
        invariant
            start <= bytes@.len(),
            significant(bytes@) == significant(bytes@.skip(start as int)),
        decreases bytes@.len() - start,
    {
        assert(bytes@.skip(start as int).skip(1) =~= bytes@.skip(start + 1));
        start = start + 1;
    }
    assert(bytes@.skip(start as int) =~= bytes@.subrange(start as int, bytes@.len() as int));
    slice_subrange(bytes, start, bytes.len())
}

/// The command name that a selector packs, where its significant bytes
/// are text.
pub fn decode_selector(selector: &[u8]) -> (text: Option<&str>)
    ensures
        text is Some <==> selector_is_text(selector@),
        text is Some ==> text.unwrap()@ == selector_text(selector@),
{
    utf8_text(significant_bytes(selector))
}

/// `core::str::from_utf8`. Trusted: it gives the text that the bytes
/// encode where they are well-formed UTF-8, and nothing where they are
/// not.
#[verifier::external_body]
fn utf8_text(bytes: &[u8]) -> (text: Option<&str>)
    ensures
        text is Some <==> valid_utf8(bytes@),
        text is Some ==> text.unwrap()@ == decode_utf8(bytes@),
{
    std::str::from_utf8(bytes).ok()
}

} // verus!
