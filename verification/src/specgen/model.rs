//! Records of instruction forms as read from the architecture XML.
use vstd::prelude::*;

verus! {

/// A run of encoding bits `hi` down to `hi - width + 1`.
#[derive(Clone, Debug)]
pub struct FieldSlice {
    pub name: String,
    pub hi: u8,
    pub width: u8,
    pub variable: bool,
}

impl FieldSlice {
    /// The lowest bit of the run.
    pub fn lo(&self) -> (r: u8)
        requires
            self.hi < 255,
            self.width <= self.hi + 1,
        ensures
            r == self.hi + 1 - self.width,
    {
        self.hi + 1 - self.width
    }
}

/// One operand of the assembler syntax, with its link and hover text.
#[derive(Clone, Debug)]
pub struct AsmOperand {
    pub text: String,
    pub link: String,
    pub hover: String,
}

/// An encoding field as the generated code uses it.
#[derive(Clone, Debug)]
pub struct FieldSpec {
    pub name: String,
    pub hi: u8,
    pub lo: u8,
    pub width: u8,
    pub shift: u8,
    pub mask: String,
    pub variable: bool,
}

/// One encoding of an instruction form, as the generated code describes it.
#[derive(Debug)]
pub struct VariantSpec {
    pub section_id: String,
    pub heading: String,
    pub title: String,
    pub iclass: String,
    pub encoding_name: String,
    pub encoding_label: String,
    pub mnemonic: String,
    pub docvars: indexmap::IndexMap<String, String>,
    pub asm_operands: Vec<AsmOperand>,
    pub mask: String,
    pub value: String,
    pub fields: Vec<FieldSpec>,
    pub operand_roles: Vec<OperandRoleSpec>,
    pub assembly: String,
}

/// One instruction file: its section and its encodings.
#[derive(Debug)]
pub struct InstructionSpec {
    pub source_file: String,
    pub section_id: String,
    pub heading: String,
    pub title: String,
    pub docvars: indexmap::IndexMap<String, String>,
    pub variants: Vec<VariantSpec>,
}

/// What a form does with one of its fields.
#[derive(Clone, Debug, Eq, Ord, PartialEq, PartialOrd)]
pub struct OperandRoleSpec {
    pub kind: String,
    pub field: String,
    pub width: String,
}

} // verus!
