//! Translation of typed instructions into target assembly text.
//!
//! Each instruction maps to a fixed sequence of assembly lines. Stack
//! pushes and pops address one of eight memory segments; comparisons
//! realize a structured if/else with a pair of control-flow labels made
//! unique by the caller-supplied line index; a fixed scratch register
//! stages indirect store addresses.

use vstd::prelude::*;
use vstd::string::{StrSliceExecFns, StringExecFns};

use crate::error::{ErrKind, HackError};
use crate::parser::{
    arith_operator, Arithmetic, Constant, Instruction, InstructionV, StackManipulation,
    StackManipulationV, Symbol,
};
use crate::text::{dec_rep, num_text, str_eq};

verus! {

// ---------------------------------------------------------------------------
// Segment
// ---------------------------------------------------------------------------

/// Each Segment is a virtual memory location, addressed through
/// predefined symbols.
#[derive(Debug, Clone, Copy, PartialEq, Eq, Structural)]
pub enum Segment {
    /// Constants: a value source only. A constant can be pushed on to the
    /// stack, but nothing can be popped into this segment.
    Constant,
    /// The function-local segment, reached through its base pointer.
    Local,
    /// The argument segment, reached through its base pointer.
    Argument,
    /// The `this` segment, reached through its base pointer.
    This,
    /// The `that` segment, reached through its base pointer.
    That,
    /// The per-file static segment, reached through named symbols.
    Static,
    /// A fixed eight-slot scratch window starting at address 5.
    Temp,
    /// The pair of base registers of `this` and `that`.
    Pointer,
}

/// The segment named by `s`, if any.
pub open spec fn seg_of(s: Seq<char>) -> Option<Segment> {
    if s == ("constant")@ {
        Some(Segment::Constant)
    } else if s == ("local")@ {
        Some(Segment::Local)
    } else if s == ("argument")@ {
        Some(Segment::Argument)
    } else if s == ("this")@ {
        Some(Segment::This)
    } else if s == ("that")@ {
        Some(Segment::That)
    } else if s == ("static")@ {
        Some(Segment::Static)
    } else if s == ("temp")@ {
        Some(Segment::Temp)
    } else if s == ("pointer")@ {
        Some(Segment::Pointer)
    } else {
        None
    }
}

/// Whether a segment is reached through a base pointer held in memory.
pub open spec fn has_base(segment: Segment) -> bool {
    segment matches Segment::Local || segment matches Segment::Argument || segment
        matches Segment::This || segment matches Segment::That
}

/// The predefined symbol holding a base-pointer segment's start address.
pub open spec fn base_name(segment: Segment) -> Seq<char> {
    match segment {
        Segment::Local => ("LCL")@,
        Segment::Argument => ("ARG")@,
        Segment::This => ("THIS")@,
        Segment::That => ("THAT")@,
        _ => Seq::<char>::empty(),
    }
}

impl Segment {
    /// Some segments have special predefined symbols which point to the
    /// memory holding their start address. Returns that symbol when it
    /// exists; the other segments have none, which is an internal error
    /// to ask for.
    pub fn base(&self) -> (r: Result<&'static str, HackError>)
        ensures
            has_base(*self) ==> (r matches Ok(s) && s@ == base_name(*self)),
            !has_base(*self) ==> (r matches Err(e) && e == HackError::Internal),
    {
        match self {
            Segment::Local => Ok("LCL"),
            Segment::Argument => Ok("ARG"),
            Segment::This => Ok("THIS"),
            Segment::That => Ok("THAT"),
            _ => Err(HackError::Internal),
        }
    }

    /// Classifies a symbol as one of the eight segment names, failing on
    /// anything else.
    pub fn try_from(symbol: &Symbol) -> (r: Result<Segment, HackError>)
        ensures
            match seg_of(symbol@) {
                Some(seg) => r matches Ok(s) && s == seg,
                None => r matches Err(e) && e.kind() == ErrKind::Format,
            },
    {
        let text = symbol.literal_representation();
        if str_eq(text, "constant") {
            Ok(Segment::Constant)
        } else if str_eq(text, "local") {
            Ok(Segment::Local)
        } else if str_eq(text, "argument") {
            Ok(Segment::Argument)
        } else if str_eq(text, "this") {
            Ok(Segment::This)
        } else if str_eq(text, "that") {
            Ok(Segment::That)
        } else if str_eq(text, "static") {
            Ok(Segment::Static)
        } else if str_eq(text, "temp") {
            Ok(Segment::Temp)
        } else if str_eq(text, "pointer") {
            Ok(Segment::Pointer)
        } else {
            Err(
                HackError::FromStrError(
                    String::from_str("\"").concat(text).concat(
                        "\" is not a recognized segment",
                    ),
                ),
            )
        }
    }
}

// ---------------------------------------------------------------------------
// The generated assembly, as mathematics
// ---------------------------------------------------------------------------

/// The fixed tail writing the data register to the top of the stack and
/// advancing the stack pointer.
pub open spec fn push_d_lines() -> Seq<Seq<char>> {
    seq![("@SP")@, ("A=M")@, ("M=D")@, ("@SP")@, ("M=M+1")@]
}

/// The address-literal line `@n`.
pub open spec fn at_line(n: nat) -> Seq<char> {
    ("@")@ + dec_rep(n)
}

/// The address line of the per-file static slot `file_name.i`.
pub open spec fn static_line(file_name: Seq<char>, i: nat) -> Seq<char> {
    ("@")@ + file_name + (".")@ + dec_rep(i)
}

/// The address line of a base-pointer segment's predefined symbol.
pub open spec fn base_line(segment: Segment) -> Seq<char> {
    ("@")@ + base_name(segment)
}

/// The lines that push the value of a segment slot on to the stack, or
/// the error rejecting an out-of-range temp or pointer index.
pub open spec fn spec_push(segment: Segment, i: u16, file_name: Seq<char>) -> Result<
    Seq<Seq<char>>,
    ErrKind,
> {
    match segment {
        Segment::Constant => Ok(seq![at_line(i as nat), ("D=A")@] + push_d_lines()),
        Segment::Local | Segment::Argument | Segment::This | Segment::That => Ok(
            seq![
                at_line(i as nat),
                ("D=A")@,
                base_line(segment),
                ("A=D+M")@,
                ("D=M")@,
            ] + push_d_lines(),
        ),
        Segment::Static => Ok(seq![static_line(file_name, i as nat), ("D=M")@] + push_d_lines()),
        Segment::Temp => if i <= 7 {
            Ok(seq![at_line((i + 5) as nat), ("D=M")@] + push_d_lines())
        } else {
            Err(ErrKind::Illegal)
        },
        Segment::Pointer => if i == 0 {
            Ok(seq![("@THIS")@, ("D=M")@] + push_d_lines())
        } else if i == 1 {
            Ok(seq![("@THAT")@, ("D=M")@] + push_d_lines())
        } else {
            Err(ErrKind::Illegal)
        },
    }
}

/// The address line `@Rn` of a general-purpose scratch register.
pub open spec fn general_register_label(number: u8) -> Seq<char> {
    if number == 13 {
        ("@R13")@
    } else if number == 14 {
        ("@R14")@
    } else {
        ("@R15")@
    }
}

/// The lines that stash the data register in a scratch register.
pub open spec fn save_general_lines(number: u8) -> Seq<Seq<char>> {
    seq![general_register_label(number), ("M=D")@]
}

/// The lines that pop the top of the stack into the cell whose address a
/// scratch register holds.
pub open spec fn pop_general_lines(number: u8) -> Seq<Seq<char>> {
    seq![
        ("@SP")@,
        ("AM=M-1")@,
        ("D=M")@,
        general_register_label(number),
        ("A=M")@,
        ("M=D")@,
    ]
}

/// The fixed tail of every pop: stash the destination address in scratch
/// register 13, then pop the stack through it.
pub open spec fn pop_tail_lines() -> Seq<Seq<char>> {
    save_general_lines(13) + pop_general_lines(13)
}

/// The lines that pop the top of the stack into a segment slot, or the
/// error rejecting the constant segment and out-of-range indices.
pub open spec fn spec_pop(segment: Segment, i: u16, file_name: Seq<char>) -> Result<
    Seq<Seq<char>>,
    ErrKind,
> {
    match segment {
        Segment::Constant => Err(ErrKind::Illegal),
        Segment::Local | Segment::Argument | Segment::This | Segment::That => Ok(
            seq![at_line(i as nat), ("D=A")@, base_line(segment), ("D=D+M")@] + pop_tail_lines(),
        ),
        Segment::Static => Ok(seq![static_line(file_name, i as nat), ("D=A")@] + pop_tail_lines()),
        Segment::Temp => if i <= 7 {
            Ok(seq![at_line((i + 5) as nat), ("D=A")@] + pop_tail_lines())
        } else {
            Err(ErrKind::Illegal)
        },
        Segment::Pointer => if i == 0 {
            Ok(seq![("@THIS")@, ("D=A")@] + pop_tail_lines())
        } else if i == 1 {
            Ok(seq![("@THAT")@, ("D=A")@] + pop_tail_lines())
        } else {
            Err(ErrKind::Illegal)
        },
    }
}

/// The in-place rewrite of the top of the stack for a unary operation.
pub open spec fn unary_combine_line(op: Arithmetic) -> Seq<char> {
    ("M=")@ + arith_operator(op) + ("M")@
}

/// The rewrite of the new top of the stack for a commutative binary
/// operation.
pub open spec fn commutative_combine_line(op: Arithmetic) -> Seq<char> {
    ("M=D")@ + arith_operator(op) + ("M")@
}

/// The fixed setup of every binary operation: pop the right operand into
/// the data register and point at the left operand.
pub open spec fn binary_setup_lines() -> Seq<Seq<char>> {
    seq![("@SP")@, ("AM=M-1")@, ("D=M")@, ("A=A-1")@]
}

/// The reference line of the comparison crash label for one line index.
pub open spec fn crash_label_ref(n: nat) -> Seq<char> {
    ("@CRASH_")@ + dec_rep(n)
}

/// The reference line of the comparison burn label for one line index.
pub open spec fn burn_label_ref(n: nat) -> Seq<char> {
    ("@BURN_")@ + dec_rep(n)
}

/// The definition line of the comparison crash label for one line index.
pub open spec fn crash_label_def(n: nat) -> Seq<char> {
    ("(CRASH_")@ + dec_rep(n) + (")")@
}

/// The definition line of the comparison burn label for one line index.
pub open spec fn burn_label_def(n: nat) -> Seq<char> {
    ("(BURN_")@ + dec_rep(n) + (")")@
}

/// The conditional jump on the comparison's own mnemonic.
pub open spec fn compare_jump_line(op: Arithmetic) -> Seq<char> {
    ("D;")@ + arith_operator(op)
}

/// The comparison epilogue: jump to the crash label when the comparison
/// holds; on the fall-through path write false and jump to the burn
/// label; at the crash label write true; the burn label closes the block.
pub open spec fn compare_lines(op: Arithmetic, n: nat) -> Seq<Seq<char>> {
    seq![
        ("D=M-D")@,
        crash_label_ref(n),
        compare_jump_line(op),
        ("@SP")@,
        ("A=M-1")@,
        ("M=0")@,
        burn_label_ref(n),
        ("0;JMP")@,
        crash_label_def(n),
        ("@SP")@,
        ("A=M-1")@,
        ("M=-1")@,
        burn_label_def(n),
    ]
}

/// The lines of an arithmetic or logic operation at the given line index.
pub open spec fn spec_arithmetic(op: Arithmetic, line_number: nat) -> Seq<Seq<char>> {
    match op {
        Arithmetic::Negative | Arithmetic::Not => seq![
            ("@SP")@,
            ("A=M-1")@,
            unary_combine_line(op),
        ],
        Arithmetic::Add | Arithmetic::And | Arithmetic::Or => binary_setup_lines() + seq![
            commutative_combine_line(op),
        ],
        Arithmetic::Subtract => binary_setup_lines() + seq![("M=M-D")@],
        Arithmetic::Equal | Arithmetic::GreaterThan | Arithmetic::Lessthan => binary_setup_lines()
            + compare_lines(op, line_number),
    }
}

/// The lines implementing one instruction, or the error rejecting a
/// semantically illegal one. Only stack-manipulation and arithmetic
/// instructions are translatable; see [`translatable`].
pub open spec fn spec_translate(iv: InstructionV, line_number: nat, file_name: Seq<char>) -> Result<
    Seq<Seq<char>>,
    ErrKind,
> {
    match iv {
        InstructionV::StackManipulation(sm) => match sm {
            StackManipulationV::Push { symbol, value } => match seg_of(symbol) {
                Some(segment) => spec_push(segment, value, file_name),
                None => Err(ErrKind::Format),
            },
            StackManipulationV::Pop { symbol, value } => match seg_of(symbol) {
                Some(segment) => spec_pop(segment, value, file_name),
                None => Err(ErrKind::Format),
            },
        },
        InstructionV::Arithmetic(op) => Ok(spec_arithmetic(op, line_number)),
        InstructionV::Branching(_) => arbitrary(),
        InstructionV::Functional(_) => arbitrary(),
    }
}

/// The instructions this translator generates code for: branching and
/// function-related instructions are parsed but outside translation
/// scope.
pub open spec fn translatable(iv: InstructionV) -> bool {
    iv matches InstructionV::StackManipulation(_) || iv matches InstructionV::Arithmetic(_)
}

// ---------------------------------------------------------------------------
// The translator
// ---------------------------------------------------------------------------

/// Builds the address-literal line `@n`.
fn at_number(n: u16) -> (s: String)
    ensures
        s@ == at_line(n as nat),
{
    let number = num_text(n as usize);
    String::from_str("@").concat(number.as_str())
}

/// Builds the address line of the static slot `file_name.i`.
fn static_address(file_name: &str, i: Constant) -> (s: String)
    ensures
        s@ == static_line(file_name@, i@ as nat),
{
    let number = i.text();
    String::from_str("@").concat(file_name).concat(".").concat(number.as_str())
}

/// A namespace for the associated functions that translate VM
/// instructions into target assembly; it is never instantiated.
pub struct Translator {}

impl Translator {
    /// Translates one VM instruction into target assembly lines. The line
    /// number makes the control-flow labels of comparisons unique within
    /// the output file; the file name names static-segment slots.
    /// Branching and functional instructions are outside translation
    /// scope and are excluded by precondition.
    pub fn translate(line_number: usize, instruction: &Instruction, file_name: &str) -> (r: Result<
        Vec<String>,
        HackError,
    >)
        requires
            translatable(instruction@),
        ensures
            match spec_translate(instruction@, line_number as nat, file_name@) {
                Ok(lines) => r matches Ok(v) && v.deep_view() == lines,
                Err(k) => r matches Err(e) && e.kind() == k,
            },
    {
        match instruction {
            Instruction::StackManipulation(stack_manipulation) => match stack_manipulation {
                StackManipulation::Push { symbol, value } => {
                    match Segment::try_from(symbol) {
                        Ok(seg) => Self::push(&seg, *value, file_name),
                        Err(error) => Err(error),
                    }
                },
                StackManipulation::Pop { symbol, value } => {
                    match Segment::try_from(symbol) {
                        Ok(seg) => Self::pop(&seg, *value, file_name),
                        Err(error) => Err(error),
                    }
                },
            },
            Instruction::Arithmetic(arithmetic) => Ok(Self::arithmetic(*arithmetic, line_number)),
            Instruction::Branching(_) => {
                proof {
                    assert(false);
                }
                Err(HackError::Internal)
            },
            Instruction::Functional(_) => {
                proof {
                    assert(false);
                }
                Err(HackError::Internal)
            },
        }
    }

    /// Translates an arithmetic or logic instruction.
    pub fn arithmetic(op: Arithmetic, line_number: usize) -> (r: Vec<String>)
        ensures
            r.deep_view() == spec_arithmetic(op, line_number as nat),
    {
        let mut lines: Vec<String> = Vec::new();
        match op {
            Arithmetic::Negative | Arithmetic::Not => {
                let ops = op.identify();
                lines.push(String::from_str("@SP"));
                lines.push(String::from_str("A=M-1"));
                lines.push(String::from_str("M=").concat(ops[1]).concat("M"));
                proof {
                    assert(lines.deep_view() =~= spec_arithmetic(op, line_number as nat));
                }
            },
            Arithmetic::Add
            | Arithmetic::Subtract
            | Arithmetic::Equal
            | Arithmetic::GreaterThan
            | Arithmetic::Lessthan
            | Arithmetic::And
            | Arithmetic::Or => {
                lines.push(String::from_str("@SP"));
                lines.push(String::from_str("AM=M-1"));
                lines.push(String::from_str("D=M"));
                lines.push(String::from_str("A=A-1"));
                match op {
                    Arithmetic::Lessthan | Arithmetic::GreaterThan | Arithmetic::Equal => {
                        let ops = op.identify();
                        let number = num_text(line_number);
                        lines.push(String::from_str("D=M-D"));
                        lines.push(String::from_str("@CRASH_").concat(number.as_str()));
                        lines.push(String::from_str("D;").concat(ops[1]));
                        lines.push(String::from_str("@SP"));
                        lines.push(String::from_str("A=M-1"));
                        lines.push(String::from_str("M=0"));
                        lines.push(String::from_str("@BURN_").concat(number.as_str()));
                        lines.push(String::from_str("0;JMP"));
                        lines.push(String::from_str("(CRASH_").concat(number.as_str()).concat(")"));
                        lines.push(String::from_str("@SP"));
                        lines.push(String::from_str("A=M-1"));
                        lines.push(String::from_str("M=-1"));
                        lines.push(String::from_str("(BURN_").concat(number.as_str()).concat(")"));
                    },
                    Arithmetic::And | Arithmetic::Add | Arithmetic::Or => {
                        let ops = op.identify();
                        lines.push(String::from_str("M=D").concat(ops[1]).concat("M"));
                    },
                    Arithmetic::Subtract => {
                        lines.push(String::from_str("M=M-D"));
                    },
                    Arithmetic::Not | Arithmetic::Negative => {
                        proof {
                            assert(false);
                        }
                    },
                }
                proof {
                    assert(lines.deep_view() =~= spec_arithmetic(op, line_number as nat));
                }
            },
        }
        lines
    }

    /// Helper function. Returns the assembly that pushes the current
    /// value of the data register on to the stack.
    pub fn push_from_data_register() -> (r: Vec<String>)
        ensures
            r.deep_view() == push_d_lines(),
    {
        let mut lines: Vec<String> = Vec::new();
        lines.push(String::from_str("@SP"));
        lines.push(String::from_str("A=M"));
        lines.push(String::from_str("M=D"));
        lines.push(String::from_str("@SP"));
        lines.push(String::from_str("M=M+1"));
        proof {
            assert(lines.deep_view() =~= push_d_lines());
        }
        lines
    }

    /// Pushes a value from the chosen segment on to the stack.
    pub fn push(segment: &Segment, i: Constant, file_name: &str) -> (r: Result<
        Vec<String>,
        HackError,
    >)
        ensures
            match spec_push(*segment, i@, file_name@) {
                Ok(lines) => r matches Ok(v) && v.deep_view() == lines,
                Err(k) => r matches Err(e) && e.kind() == k,
            },
    {
        proof {
            use_type_invariant(&i);
        }
        let mut unique: Vec<String> = Vec::new();
        match segment {
            Segment::Constant => {
                unique.push(at_number(i.literal_representation()));
                unique.push(String::from_str("D=A"));
            },
            Segment::Argument | Segment::This | Segment::That | Segment::Local => {
                let base = match segment.base() {
                    Ok(base) => base,
                    Err(error) => {
                        proof {
                            assert(false);
                        }
                        return Err(error);
                    },
                };
                unique.push(at_number(i.literal_representation()));
                unique.push(String::from_str("D=A"));
                unique.push(String::from_str("@").concat(base));
                unique.push(String::from_str("A=D+M"));
                unique.push(String::from_str("D=M"));
            },
            Segment::Static => {
                unique.push(static_address(file_name, i));
                unique.push(String::from_str("D=M"));
            },
            Segment::Temp => {
                let address: u16 = i.literal_representation() + 5;
                if address <= 12 {
                    unique.push(at_number(address));
                    unique.push(String::from_str("D=M"));
                } else {
                    let number = i.text();
                    return Err(
                        HackError::IllegalInstruction(
                            String::from_str("\"").concat(number.as_str()).concat(
                                "\" is not a valid index for temp, must be 0 <= i <= 7",
                            ),
                        ),
                    );
                }
            },
            Segment::Pointer => {
                let index = i.literal_representation();
                if index == 0 {
                    unique.push(String::from_str("@THIS"));
                    unique.push(String::from_str("D=M"));
                } else if index == 1 {
                    unique.push(String::from_str("@THAT"));
                    unique.push(String::from_str("D=M"));
                } else {
                    let number = i.text();
                    return Err(
                        HackError::IllegalInstruction(
                            String::from_str("\"").concat(number.as_str()).concat(
                                "\" is not a valid index for pointer, must be 0 <= i <= 1",
                            ),
                        ),
                    );
                }
            },
        }
        let mut tail = Self::push_from_data_register();
        let ghost head = unique.deep_view();
        unique.append(&mut tail);
        proof {
            assert(unique.deep_view() =~= head + push_d_lines());
        }
        Ok(unique)
    }

    /// Helper function. Returns the assembly that moves the data register
    /// into the selected general-purpose scratch register; only registers
    /// 13 to 15 are general-purpose.
    pub fn save_data_register_in_general(number: u8) -> (r: Result<Vec<String>, HackError>)
        ensures
            13 <= number <= 15 ==> (r matches Ok(v) && v.deep_view() == save_general_lines(number)),
            !(13 <= number <= 15) ==> (r matches Err(e) && e == HackError::Internal),
    {
        let label: &'static str = if number == 13 {
            "@R13"
        } else if number == 14 {
            "@R14"
        } else if number == 15 {
            "@R15"
        } else {
            return Err(HackError::Internal);
        };
        let mut lines: Vec<String> = Vec::new();
        lines.push(String::from_str(label));
        lines.push(String::from_str("M=D"));
        proof {
            assert(lines.deep_view() =~= save_general_lines(number));
        }
        Ok(lines)
    }

    /// Helper function. Returns the assembly that pops the top of the
    /// stack into the cell whose address the selected general-purpose
    /// scratch register holds; only registers 13 to 15 are
    /// general-purpose.
    pub fn pop_to_general(number: u8) -> (r: Result<Vec<String>, HackError>)
        ensures
            13 <= number <= 15 ==> (r matches Ok(v) && v.deep_view() == pop_general_lines(number)),
            !(13 <= number <= 15) ==> (r matches Err(e) && e == HackError::Internal),
    {
        let label: &'static str = if number == 13 {
            "@R13"
        } else if number == 14 {
            "@R14"
        } else if number == 15 {
            "@R15"
        } else {
            return Err(HackError::Internal);
        };
        let mut lines: Vec<String> = Vec::new();
        lines.push(String::from_str("@SP"));
        lines.push(String::from_str("AM=M-1"));
        lines.push(String::from_str("D=M"));
        lines.push(String::from_str(label));
        lines.push(String::from_str("A=M"));
        lines.push(String::from_str("M=D"));
        proof {
            assert(lines.deep_view() =~= pop_general_lines(number));
        }
        Ok(lines)
    }

    /// Pops the top of the stack into the selected segment slot.
    pub fn pop(segment: &Segment, i: Constant, file_name: &str) -> (r: Result<
        Vec<String>,
        HackError,
    >)
        ensures
            match spec_pop(*segment, i@, file_name@) {
                Ok(lines) => r matches Ok(v) && v.deep_view() == lines,
                Err(k) => r matches Err(e) && e.kind() == k,
            },
    {
        proof {
            use_type_invariant(&i);
        }
        let mut unique: Vec<String> = Vec::new();
        match segment {
            Segment::That | Segment::Local | Segment::Argument | Segment::This => {
                let base = match segment.base() {
                    Ok(base) => base,
                    Err(error) => {
                        proof {
                            assert(false);
                        }
                        return Err(error);
                    },
                };
                unique.push(at_number(i.literal_representation()));
                unique.push(String::from_str("D=A"));
                unique.push(String::from_str("@").concat(base));
                unique.push(String::from_str("D=D+M"));
            },
            Segment::Static => {
                unique.push(static_address(file_name, i));
                unique.push(String::from_str("D=A"));
            },
            Segment::Temp => {
                let address: u16 = i.literal_representation() + 5;
                if address <= 12 {
                    unique.push(at_number(address));
                    unique.push(String::from_str("D=A"));
                } else {
                    let number = i.text();
                    return Err(
                        HackError::IllegalInstruction(
                            String::from_str("\"").concat(number.as_str()).concat(
                                "\" is not a valid index for temp, must be 0 <= i <= 7",
                            ),
                        ),
                    );
                }
            },
            Segment::Pointer => {
                let index = i.literal_representation();
                if index == 0 {
                    unique.push(String::from_str("@THIS"));
                    unique.push(String::from_str("D=A"));
                } else if index == 1 {
                    unique.push(String::from_str("@THAT"));
                    unique.push(String::from_str("D=A"));
                } else {
                    let number = i.text();
                    return Err(
                        HackError::IllegalInstruction(
                            String::from_str("\"").concat(number.as_str()).concat(
                                "\" is not a valid index for pointer, must be 0 <= i <= 1",
                            ),
                        ),
                    );
                }
            },
            Segment::Constant => {
                return Err(
                    HackError::IllegalInstruction(
                        String::from_str(
                            "\"pop constant n\" is never a valid instruction, regardless of the value of n",
                        ),
                    ),
                );
            },
        }
        let ghost head = unique.deep_view();
        let mut save = match Self::save_data_register_in_general(13) {
            Ok(lines) => lines,
            Err(error) => {
                proof {
                    assert(false);
                }
                return Err(error);
            },
        };
        unique.append(&mut save);
        let mut tail = match Self::pop_to_general(13) {
            Ok(lines) => lines,
            Err(error) => {
                proof {
                    assert(false);
                }
                return Err(error);
            },
        };
        unique.append(&mut tail);
        proof {
            assert(unique.deep_view() =~= head + pop_tail_lines());
        }
        Ok(unique)
    }
}

// ---------------------------------------------------------------------------
// Laws of the generated assembly
// ---------------------------------------------------------------------------

/// Translating `Add` yields exactly five lines at every line index, and
/// none of them defines a label: no line opens with `(`.
pub proof fn lemma_add_emits_no_labels(line_number: nat)
    ensures
        spec_arithmetic(Arithmetic::Add, line_number).len() == 5,
        forall|i: int|
            0 <= i < 5 ==> #[trigger] spec_arithmetic(Arithmetic::Add, line_number)[i].len() > 0
                && spec_arithmetic(Arithmetic::Add, line_number)[i][0] != '(',
{
    reveal_strlit("@SP");
    reveal_strlit("AM=M-1");
    reveal_strlit("D=M");
    reveal_strlit("A=A-1");
    reveal_strlit("M=D");
    reveal_strlit("+");
    reveal_strlit("M");
    let lines = spec_arithmetic(Arithmetic::Add, line_number);
    assert(("@SP")@.len() == 3 && ("@SP")@[0] == '@');
    assert(("AM=M-1")@.len() == 6 && ("AM=M-1")@[0] == 'A');
    assert(("D=M")@.len() == 3 && ("D=M")@[0] == 'D');
    assert(("A=A-1")@.len() == 5 && ("A=A-1")@[0] == 'A');
    assert(("M=D")@.len() == 3 && ("M=D")@[0] == 'M');
    assert(lines[4] == commutative_combine_line(Arithmetic::Add));
    assert(lines[4][0] == ("M=D")@[0]);
    assert forall|i: int| 0 <= i < 5 implies #[trigger] lines[i].len() > 0 && lines[i][0]
        != '(' by {
        if i < 4 {
            assert(lines[i] == binary_setup_lines()[i]);
        }
    }
}

/// The comparison labels generated for distinct line indices are
/// disjoint: no crash or burn label of one index equals any crash or
/// burn label of the other.
pub proof fn lemma_compare_labels_disjoint(k1: nat, k2: nat)
    requires
        k1 != k2,
    ensures
        crash_label_ref(k1) != crash_label_ref(k2),
        burn_label_ref(k1) != burn_label_ref(k2),
        crash_label_def(k1) != crash_label_def(k2),
        burn_label_def(k1) != burn_label_def(k2),
        crash_label_def(k1) != burn_label_def(k2),
        burn_label_def(k1) != crash_label_def(k2),
{
    if dec_rep(k1) == dec_rep(k2) {
        crate::text::lemma_dec_rep_inj(k1, k2);
    }
    if crash_label_ref(k1) == crash_label_ref(k2) {
        crate::text::lemma_concat_cancel_left(("@CRASH_")@, dec_rep(k1), dec_rep(k2));
    }
    if burn_label_ref(k1) == burn_label_ref(k2) {
        crate::text::lemma_concat_cancel_left(("@BURN_")@, dec_rep(k1), dec_rep(k2));
    }
    if crash_label_def(k1) == crash_label_def(k2) {
        crate::text::lemma_concat_cancel_mid(("(CRASH_")@, dec_rep(k1), dec_rep(k2), (")")@);
    }
    if burn_label_def(k1) == burn_label_def(k2) {
        crate::text::lemma_concat_cancel_mid(("(BURN_")@, dec_rep(k1), dec_rep(k2), (")")@);
    }
    reveal_strlit("(CRASH_");
    reveal_strlit("(BURN_");
    assert(("(CRASH_")@.len() == 7 && ("(CRASH_")@[1] == 'C');
    assert(("(BURN_")@.len() == 6 && ("(BURN_")@[1] == 'B');
    if crash_label_def(k1) == burn_label_def(k2) {
        assert(crash_label_def(k1)[1] == 'C');
        assert(burn_label_def(k2)[1] == 'B');
    }
    if burn_label_def(k1) == crash_label_def(k2) {
        assert(burn_label_def(k1)[1] == 'B');
        assert(crash_label_def(k2)[1] == 'C');
    }
}

/// Translating `Equal` at line index `k` yields seventeen lines whose
/// control-flow labels carry the decimal text of `k` itself: the crash
/// and burn labels are referenced before they are defined, and both are
/// built around `dec_rep(k)`.
pub proof fn lemma_equal_labels(k: nat)
    ensures
        spec_arithmetic(Arithmetic::Equal, k).len() == 17,
        spec_arithmetic(Arithmetic::Equal, k)[5] == ("@CRASH_")@ + dec_rep(k),
        spec_arithmetic(Arithmetic::Equal, k)[10] == ("@BURN_")@ + dec_rep(k),
        spec_arithmetic(Arithmetic::Equal, k)[12] == ("(CRASH_")@ + dec_rep(k) + (")")@,
        spec_arithmetic(Arithmetic::Equal, k)[16] == ("(BURN_")@ + dec_rep(k) + (")")@,
{
    let lines = spec_arithmetic(Arithmetic::Equal, k);
    assert(lines[5] == compare_lines(Arithmetic::Equal, k)[1]);
    assert(lines[10] == compare_lines(Arithmetic::Equal, k)[6]);
    assert(lines[12] == compare_lines(Arithmetic::Equal, k)[8]);
    assert(lines[16] == compare_lines(Arithmetic::Equal, k)[12]);
}

/// Pop into the constant segment always fails as semantically illegal,
/// whatever the index and the file name.
pub proof fn lemma_pop_constant_always_fails(i: u16, file_name: Seq<char>)
    ensures
        spec_pop(Segment::Constant, i, file_name) matches Err(k) && k == ErrKind::Illegal,
{
}

/// A temp-segment push succeeds exactly for indices up to seven, and the
/// address it references is five more than the index.
pub proof fn lemma_push_temp_range(i: u16, file_name: Seq<char>)
    ensures
        i > 7 ==> (spec_push(Segment::Temp, i, file_name) matches Err(k) && k == ErrKind::Illegal),
        i <= 7 ==> (spec_push(Segment::Temp, i, file_name) matches Ok(lines) && lines[0] == at_line(
            (i + 5) as nat,
        )),
{
}

/// Translation is a pure function of the instruction, the line index and
/// the file name: two translations of the same inputs agree exactly, so
/// repeating a translation reproduces its output byte for byte.
pub proof fn lemma_translate_deterministic(
    iv: InstructionV,
    line_number: nat,
    file_name: Seq<char>,
    r1: Result<Seq<Seq<char>>, ErrKind>,
    r2: Result<Seq<Seq<char>>, ErrKind>,
)
    requires
        r1 == spec_translate(iv, line_number, file_name),
        r2 == spec_translate(iv, line_number, file_name),
    ensures
        r1 == r2,
{
}

} // verus!
