//! Parsing of VM source text into typed instructions.
//!
//! A file's text is split into physical lines; blank lines and comment
//! lines are discarded; each surviving line is tokenized by whitespace and
//! classified by token count into one of the instruction families. The
//! whole parse fails on the first line that fails.

use vstd::prelude::*;
use vstd::string::{StrSliceExecFns, StringExecFns};

use crate::error::{ErrKind, HackError};
use crate::text::{
    all_digits, dec_rep, dec_val, digit_val, is_digit, lemma_dec_val_mono, lemma_dec_val_step,
    num_text,
};

verus! {

// ---------------------------------------------------------------------------
// Symbol
// ---------------------------------------------------------------------------

/// A character permitted in a symbol: an ASCII letter or digit, or one of
/// `_`, `:`, `.`, `$`.
pub open spec fn is_symbol_char(c: char) -> bool {
    ('a' <= c && c <= 'z') || ('A' <= c && c <= 'Z') || is_digit(c) || c == '_' || c == ':' || c
        == '.' || c == '$'
}

/// A valid symbol: non-empty, made of permitted characters only, and not
/// beginning with a digit.
pub open spec fn is_symbol(s: Seq<char>) -> bool {
    &&& s.len() > 0
    &&& forall|i: int| 0 <= i < s.len() ==> is_symbol_char(s[i])
    &&& !is_digit(s[0])
}

/// A validated identifier. Every value of this type satisfies
/// [`is_symbol`]; there is no mutation after construction.
#[derive(Debug, Hash, PartialEq, Eq)]
pub struct Symbol {
    /// The text of this symbol.
    literal_representation: String,
}

impl View for Symbol {
    type V = Seq<char>;

    closed spec fn view(&self) -> Seq<char> {
        self.literal_representation@
    }
}

impl Symbol {
    /// Every constructed symbol holds valid symbol text.
    #[verifier::type_invariant]
    pub open spec fn wf(self) -> bool {
        is_symbol(self@)
    }

    /// Borrows the text of this symbol.
    pub fn literal_representation(&self) -> (r: &str)
        ensures
            r@ == self@,
    {
        self.literal_representation.as_str()
    }

    /// Decides whether `string` is a valid symbol: a non-empty sequence of
    /// letters (a-z || A-Z), digits (0-9), underscores (_), dots (.),
    /// dollar signs ($), and/or colons (:) that does not begin with a
    /// digit.
    pub fn is_allowed_symbol(string: &str) -> (r: bool)
        ensures
            r == is_symbol(string@),
    {
        let n = string.unicode_len();
        if n == 0 {
            return false;
        }
        let first = string.get_char(0);
        let fu = first as u32;
        if 48 <= fu && fu <= 57 {
            return false;
        }
        let mut i: usize = 0;
        while i < n
            invariant
                i <= n,
                n == string@.len(),
                forall|j: int| 0 <= j < i ==> is_symbol_char(string@[j]),
            decreases n - i,
        {
            let c = string.get_char(i);
            let u = c as u32;
            let allowed = (97 <= u && u <= 122) || (65 <= u && u <= 90) || (48 <= u && u <= 57) || c
                == '_' || c == ':' || c == '.' || c == '$';
            if !allowed {
                return false;
            }
            i += 1;
        }
        true
    }

    /// Parses `s` as a symbol. Succeeds exactly when `s` satisfies
    /// [`is_symbol`]; rejected text yields
    /// [`HackError::SymbolHasForbiddenCharacter`].
    pub fn from_str(s: &str) -> (r: Result<Symbol, HackError>)
        ensures
            is_symbol(s@) ==> (r matches Ok(sym) && sym@ == s@),
            !is_symbol(s@) ==> (r matches Err(e) && e == HackError::SymbolHasForbiddenCharacter),
    {
        if Self::is_allowed_symbol(s) {
            Ok(Symbol { literal_representation: s.to_owned() })
        } else {
            Err(HackError::SymbolHasForbiddenCharacter)
        }
    }
}

impl Clone for Symbol {
    /// Clones the symbol, keeping its text.
    fn clone(&self) -> (r: Self)
        ensures
            r@ == self@,
    {
        proof {
            use_type_invariant(self);
        }
        Symbol { literal_representation: self.literal_representation.clone() }
    }
}

// ---------------------------------------------------------------------------
// Constant
// ---------------------------------------------------------------------------

/// The highest constant the target machine's constant-loading instruction
/// can hold: the 15-bit maximum.
pub const MAX_VALID_CONSTANT: u16 = 0x7FFF;

/// The outcome of reading a decimal constant from text: the value when the
/// text is all digits and in range, [`ErrKind::Overflow`] when it is all
/// digits but out of range, and [`ErrKind::Format`] otherwise.
pub open spec fn const_of(s: Seq<char>) -> Result<u16, ErrKind> {
    if !(s.len() > 0 && all_digits(s)) {
        Err(ErrKind::Format)
    } else if dec_val(s) > MAX_VALID_CONSTANT {
        Err(ErrKind::Overflow)
    } else {
        Ok(dec_val(s) as u16)
    }
}

/// A validated constant in `[0, 32767]`, the non-negative range of the
/// target machine's constant-loading instruction.
#[derive(Debug, Clone, Copy, Hash, PartialEq, Eq)]
pub struct Constant {
    /// The value of this constant.
    literal_representation: u16,
}

impl View for Constant {
    type V = u16;

    closed spec fn view(&self) -> u16 {
        self.literal_representation
    }
}

impl Constant {
    /// Every constructed constant is within the valid range.
    #[verifier::type_invariant]
    pub open spec fn wf(self) -> bool {
        self@ <= MAX_VALID_CONSTANT
    }

    /// The value of this constant.
    pub fn literal_representation(self) -> (r: u16)
        ensures
            r == self@,
    {
        self.literal_representation
    }

    /// Renders this constant in decimal.
    pub fn text(self) -> (r: String)
        ensures
            r@ == dec_rep(self@ as nat),
    {
        num_text(self.literal_representation as usize)
    }

    /// Builds a constant from an integer. Succeeds exactly when the value
    /// is at most [`MAX_VALID_CONSTANT`]; larger values yield
    /// [`HackError::Overflow`].
    pub fn from_u16(value: u16) -> (r: Result<Constant, HackError>)
        ensures
            value <= MAX_VALID_CONSTANT ==> (r matches Ok(c) && c@ == value),
            value > MAX_VALID_CONSTANT ==> (r matches Err(e) && e == HackError::Overflow),
    {
        if value <= MAX_VALID_CONSTANT {
            Ok(Constant { literal_representation: value })
        } else {
            Err(HackError::Overflow)
        }
    }

    /// Parses `s` as a decimal constant, succeeding exactly when
    /// [`const_of`] does and failing with the matching error kind.
    pub fn from_str(s: &str) -> (r: Result<Constant, HackError>)
        ensures
            match const_of(s@) {
                Ok(v) => r matches Ok(c) && c@ == v,
                Err(k) => r matches Err(e) && e.kind() == k,
            },
    {
        let n = s.unicode_len();
        if n == 0 {
            return Err(
                HackError::FromStrError(String::from_str("invalid constant: empty text")),
            );
        }
        let mut i: usize = 0;
        while i < n
            invariant
                i <= n,
                n == s@.len(),
                forall|j: int| 0 <= j < i ==> is_digit(s@[j]),
            decreases n - i,
        {
            let c = s.get_char(i);
            let u = c as u32;
            if !(48 <= u && u <= 57) {
                return Err(
                    HackError::FromStrError(
                        String::from_str("invalid constant: expected only decimal digits"),
                    ),
                );
            }
            i += 1;
        }
        let mut val: u32 = 0;
        i = 0;
        proof {
            assert(s@.take(0) =~= Seq::<char>::empty());
        }
        while i < n
            invariant
                i <= n,
                n == s@.len(),
                all_digits(s@),
                val == dec_val(s@.take(i as int)),
                val <= MAX_VALID_CONSTANT,
            decreases n - i,
        {
            let c = s.get_char(i);
            let d: u32 = (c as u32) - 48;
            proof {
                lemma_dec_val_step(s@, i as int + 1);
                assert(digit_val(s@[i as int]) == d);
            }
            val = val * 10 + d;
            if val > MAX_VALID_CONSTANT as u32 {
                proof {
                    lemma_dec_val_mono(s@, i as int + 1, n as int);
                    assert(s@.take(n as int) =~= s@);
                }
                return Err(HackError::Overflow);
            }
            i += 1;
        }
        proof {
            assert(s@.take(n as int) =~= s@);
        }
        Ok(Constant { literal_representation: val as u16 })
    }
}

// ---------------------------------------------------------------------------
// Laws of the value types
// ---------------------------------------------------------------------------

/// Every string accepted as a symbol is non-empty, made only of permitted
/// characters, and does not begin with a digit; and a symbol built from
/// accepted text renders back as that very text. Acceptance is exactly
/// [`is_symbol`] by the contract of [`Symbol::from_str`], and rendering
/// is the view by the contract of [`Symbol::literal_representation`], so
/// a symbol whose view is the accepted text round-trips unchanged.
pub proof fn lemma_symbol_round_trip(s: Seq<char>, sym: Symbol)
    requires
        is_symbol(s),
        sym@ == s,
    ensures
        s.len() > 0,
        forall|i: int| 0 <= i < s.len() ==> is_symbol_char(s[i]),
        !is_digit(s[0]),
        sym@ == s,
{
}

/// The rendered text of a valid constant is the decimal form of its
/// value: every character is a digit and the text reads back as the value
/// itself. Together with the contracts of [`Constant::from_u16`] (success
/// exactly up to [`MAX_VALID_CONSTANT`], overflow beyond) and
/// [`Constant::text`], this is the constant-construction law.
pub proof fn lemma_constant_text(n: u16)
    requires
        n <= MAX_VALID_CONSTANT,
    ensures
        all_digits(dec_rep(n as nat)),
        dec_val(dec_rep(n as nat)) == n,
{
    crate::text::lemma_dec_rep_val(n as nat);
}

// ---------------------------------------------------------------------------
// Arithmetic and logic instructions
// ---------------------------------------------------------------------------

/// Arithmetic and logic instructions.
#[derive(Debug, Clone, Copy, Hash, PartialEq, Eq, Structural)]
pub enum Arithmetic {
    /// Pop two values off the stack, add them, and push the sum back.
    Add,
    /// Pop two values off the stack, subtract them, and push the
    /// difference back.
    Subtract,
    /// Pop a value off the stack, make it negative, and push the result
    /// back.
    Negative,
    /// Pop two values off the stack, compare them for equality, and push
    /// the result back.
    Equal,
    /// Pop two values off the stack, do a greater than comparison, and
    /// push the result back.
    GreaterThan,
    /// Pop two values off the stack, do a less than comparison, and push
    /// the result back.
    Lessthan,
    /// Pop two values off the stack, perform a bitwise AND on them, and
    /// push the result back.
    And,
    /// Pop two values off the stack, perform a bitwise OR on them, and
    /// push the result back.
    Or,
    /// Pop a value off the stack, perform a bitwise NOT on it, and push
    /// the result back.
    Not,
}

/// The VM-source keyword of an arithmetic operation.
pub open spec fn arith_command(op: Arithmetic) -> Seq<char> {
    match op {
        Arithmetic::Add => ("add")@,
        Arithmetic::Subtract => ("sub")@,
        Arithmetic::Negative => ("neg")@,
        Arithmetic::Equal => ("eq")@,
        Arithmetic::GreaterThan => ("gt")@,
        Arithmetic::Lessthan => ("lt")@,
        Arithmetic::And => ("and")@,
        Arithmetic::Or => ("or")@,
        Arithmetic::Not => ("not")@,
    }
}

/// The target-assembly operator of an arithmetic operation; for
/// comparisons, the corresponding jump mnemonic.
pub open spec fn arith_operator(op: Arithmetic) -> Seq<char> {
    match op {
        Arithmetic::Add => ("+")@,
        Arithmetic::Subtract => ("-")@,
        Arithmetic::Negative => ("-")@,
        Arithmetic::Equal => ("JEQ")@,
        Arithmetic::GreaterThan => ("JGT")@,
        Arithmetic::Lessthan => ("JLT")@,
        Arithmetic::And => ("&")@,
        Arithmetic::Or => ("|")@,
        Arithmetic::Not => ("!")@,
    }
}

/// The arithmetic operation named by `t`, if any.
pub open spec fn arith_of(t: Seq<char>) -> Option<Arithmetic> {
    if t == ("add")@ {
        Some(Arithmetic::Add)
    } else if t == ("sub")@ {
        Some(Arithmetic::Subtract)
    } else if t == ("neg")@ {
        Some(Arithmetic::Negative)
    } else if t == ("eq")@ {
        Some(Arithmetic::Equal)
    } else if t == ("gt")@ {
        Some(Arithmetic::GreaterThan)
    } else if t == ("lt")@ {
        Some(Arithmetic::Lessthan)
    } else if t == ("and")@ {
        Some(Arithmetic::And)
    } else if t == ("or")@ {
        Some(Arithmetic::Or)
    } else if t == ("not")@ {
        Some(Arithmetic::Not)
    } else {
        None
    }
}

impl Arithmetic {
    /// The keyword of this operation and the associated operator text.
    /// For comparisons the "operator" is the assembly jump mnemonic,
    /// i.e. `JLT` for less than.
    pub fn identify(self) -> (r: [&'static str; 2])
        ensures
            r@[0]@ == arith_command(self),
            r@[1]@ == arith_operator(self),
    {
        match self {
            Arithmetic::Add => ["add", "+"],
            Arithmetic::Subtract => ["sub", "-"],
            Arithmetic::Negative => ["neg", "-"],
            Arithmetic::Equal => ["eq", "JEQ"],
            Arithmetic::GreaterThan => ["gt", "JGT"],
            Arithmetic::Lessthan => ["lt", "JLT"],
            Arithmetic::And => ["and", "&"],
            Arithmetic::Or => ["or", "|"],
            Arithmetic::Not => ["not", "!"],
        }
    }

    /// Parses an arithmetic keyword, succeeding exactly when [`arith_of`]
    /// names an operation.
    pub fn from_str(s: &str) -> (r: Result<Arithmetic, HackError>)
        ensures
            match arith_of(s@) {
                Some(op) => r matches Ok(o) && o == op,
                None => r matches Err(e) && e.kind() == ErrKind::Format,
            },
    {
        if crate::text::str_eq(s, "add") {
            Ok(Arithmetic::Add)
        } else if crate::text::str_eq(s, "sub") {
            Ok(Arithmetic::Subtract)
        } else if crate::text::str_eq(s, "neg") {
            Ok(Arithmetic::Negative)
        } else if crate::text::str_eq(s, "eq") {
            Ok(Arithmetic::Equal)
        } else if crate::text::str_eq(s, "gt") {
            Ok(Arithmetic::GreaterThan)
        } else if crate::text::str_eq(s, "lt") {
            Ok(Arithmetic::Lessthan)
        } else if crate::text::str_eq(s, "and") {
            Ok(Arithmetic::And)
        } else if crate::text::str_eq(s, "or") {
            Ok(Arithmetic::Or)
        } else if crate::text::str_eq(s, "not") {
            Ok(Arithmetic::Not)
        } else {
            Err(
                HackError::FromStrError(
                    String::from_str("invalid arithmetic operation: \"").concat(s).concat("\""),
                ),
            )
        }
    }
}


/// The command keywords of the grammar are pairwise distinct, so no token
/// can be classified into two instruction families at once.
pub proof fn lemma_keywords_distinct()
    ensures
        ("push")@ != ("pop")@,
        ("label")@ != ("goto")@,
        ("label")@ != ("if-goto")@,
        ("goto")@ != ("if-goto")@,
        ("function")@ != ("call")@,
        ("push")@ != ("function")@,
        ("push")@ != ("call")@,
        ("pop")@ != ("function")@,
        ("pop")@ != ("call")@,
        ("add")@ != ("return")@,
        ("sub")@ != ("return")@,
        ("neg")@ != ("return")@,
        ("eq")@ != ("return")@,
        ("gt")@ != ("return")@,
        ("lt")@ != ("return")@,
        ("and")@ != ("return")@,
        ("or")@ != ("return")@,
        ("not")@ != ("return")@,
{
    reveal_strlit("push");
    reveal_strlit("pop");
    reveal_strlit("label");
    reveal_strlit("goto");
    reveal_strlit("if-goto");
    reveal_strlit("function");
    reveal_strlit("call");
    reveal_strlit("add");
    reveal_strlit("sub");
    reveal_strlit("neg");
    reveal_strlit("eq");
    reveal_strlit("gt");
    reveal_strlit("lt");
    reveal_strlit("and");
    reveal_strlit("or");
    reveal_strlit("not");
    reveal_strlit("return");
    assert(("push")@.len() == 4);
    assert(("pop")@.len() == 3);
    assert(("label")@.len() == 5);
    assert(("goto")@.len() == 4);
    assert(("if-goto")@.len() == 7);
    assert(("function")@.len() == 8);
    assert(("call")@.len() == 4);
    assert(("add")@.len() == 3);
    assert(("sub")@.len() == 3);
    assert(("neg")@.len() == 3);
    assert(("eq")@.len() == 2);
    assert(("gt")@.len() == 2);
    assert(("lt")@.len() == 2);
    assert(("and")@.len() == 3);
    assert(("or")@.len() == 2);
    assert(("not")@.len() == 3);
    assert(("return")@.len() == 6);
    assert(("push")@[0] == 'p');
    assert(("call")@[0] == 'c');
}

// ---------------------------------------------------------------------------
// Stack manipulation instructions
// ---------------------------------------------------------------------------

/// The mathematical value of a [`StackManipulation`] instruction.
pub enum StackManipulationV {
    /// Push the value of a segment slot on to the stack.
    Push {
        /// The segment name.
        symbol: Seq<char>,
        /// The slot index.
        value: u16,
    },
    /// Pop the top of the stack into a segment slot.
    Pop {
        /// The segment name.
        symbol: Seq<char>,
        /// The slot index.
        value: u16,
    },
}

/// Stack manipulation instructions.
#[derive(Debug, Clone, Hash, PartialEq, Eq)]
pub enum StackManipulation {
    /// Push a value on to the stack.
    Push {
        /// Where to get the value from.
        symbol: Symbol,
        /// The index.
        value: Constant,
    },
    /// Pop a value off of the stack.
    Pop {
        /// Where to store the value.
        symbol: Symbol,
        /// The index.
        value: Constant,
    },
}

impl View for StackManipulation {
    type V = StackManipulationV;

    open spec fn view(&self) -> StackManipulationV {
        match self {
            StackManipulation::Push { symbol, value } => StackManipulationV::Push {
                symbol: symbol@,
                value: value@,
            },
            StackManipulation::Pop { symbol, value } => StackManipulationV::Pop {
                symbol: symbol@,
                value: value@,
            },
        }
    }
}

impl StackManipulation {
    /// The keyword of this instruction: `push` or `pop`.
    pub fn name(&self) -> (r: &'static str)
        ensures
            self@ matches StackManipulationV::Push { .. } ==> r@ == ("push")@,
            self@ matches StackManipulationV::Pop { .. } ==> r@ == ("pop")@,
    {
        match self {
            StackManipulation::Push { .. } => "push",
            StackManipulation::Pop { .. } => "pop",
        }
    }

    /// Builds a stack-manipulation instruction from a keyword and its
    /// operands. Succeeds exactly for the keywords `push` and `pop`.
    pub fn from_parts(command: &str, symbol: &Symbol, value: Constant) -> (r: Result<
        StackManipulation,
        HackError,
    >)
        ensures
            command@ == ("push")@ ==> (r matches Ok(sm) && sm@ == StackManipulationV::Push {
                symbol: symbol@,
                value: value@,
            }),
            command@ == ("pop")@ ==> (r matches Ok(sm) && sm@ == StackManipulationV::Pop {
                symbol: symbol@,
                value: value@,
            }),
            command@ != ("push")@ && command@ != ("pop")@ ==> (r matches Err(e) && e.kind()
                == ErrKind::Format),
    {
        proof {
            lemma_keywords_distinct();
        }
        if crate::text::str_eq(command, "push") {
            Ok(StackManipulation::Push { symbol: symbol.clone(), value })
        } else if crate::text::str_eq(command, "pop") {
            Ok(StackManipulation::Pop { symbol: symbol.clone(), value })
        } else {
            Err(
                HackError::FromStrError(
                    String::from_str("invalid stack manipulation operation: \"").concat(
                        command,
                    ).concat("\""),
                ),
            )
        }
    }
}

// ---------------------------------------------------------------------------
// Branching instructions
// ---------------------------------------------------------------------------

/// The mathematical value of a [`Branching`] instruction.
pub enum BranchingV {
    /// A label definition.
    Label {
        /// The label name.
        symbol: Seq<char>,
    },
    /// An unconditional jump.
    GoTo {
        /// The target label name.
        symbol: Seq<char>,
    },
    /// A conditional jump.
    IfGoTo {
        /// The target label name.
        symbol: Seq<char>,
    },
}

/// Branching instructions. Parsed and typed, but out of translation
/// scope.
#[derive(Debug, Clone, Hash, PartialEq, Eq)]
pub enum Branching {
    /// Defines a label at the current position.
    Label {
        /// The label name.
        symbol: Symbol,
    },
    /// Jumps to a label unconditionally.
    GoTo {
        /// The target label name.
        symbol: Symbol,
    },
    /// Jumps to a label if the top of the stack is true.
    IfGoTo {
        /// The target label name.
        symbol: Symbol,
    },
}

impl View for Branching {
    type V = BranchingV;

    open spec fn view(&self) -> BranchingV {
        match self {
            Branching::Label { symbol } => BranchingV::Label { symbol: symbol@ },
            Branching::GoTo { symbol } => BranchingV::GoTo { symbol: symbol@ },
            Branching::IfGoTo { symbol } => BranchingV::IfGoTo { symbol: symbol@ },
        }
    }
}

impl Branching {
    /// The keyword of this instruction: `label`, `goto` or `if-goto`.
    pub fn name(&self) -> (r: &'static str)
        ensures
            self@ matches BranchingV::Label { .. } ==> r@ == ("label")@,
            self@ matches BranchingV::GoTo { .. } ==> r@ == ("goto")@,
            self@ matches BranchingV::IfGoTo { .. } ==> r@ == ("if-goto")@,
    {
        match self {
            Branching::Label { .. } => "label",
            Branching::GoTo { .. } => "goto",
            Branching::IfGoTo { .. } => "if-goto",
        }
    }

    /// Builds a branching instruction from a keyword and its operand.
    /// Succeeds exactly for the keywords `label`, `goto` and `if-goto`.
    pub fn from_parts(command: &str, symbol: &Symbol) -> (r: Result<Branching, HackError>)
        ensures
            command@ == ("label")@ ==> (r matches Ok(b) && b@ == BranchingV::Label {
                symbol: symbol@,
            }),
            command@ == ("goto")@ ==> (r matches Ok(b) && b@ == BranchingV::GoTo {
                symbol: symbol@,
            }),
            command@ == ("if-goto")@ ==> (r matches Ok(b) && b@ == BranchingV::IfGoTo {
                symbol: symbol@,
            }),
            command@ != ("label")@ && command@ != ("goto")@ && command@ != ("if-goto")@ ==> (
            r matches Err(e) && e.kind() == ErrKind::Format),
    {
        proof {
            lemma_keywords_distinct();
        }
        if crate::text::str_eq(command, "label") {
            Ok(Branching::Label { symbol: symbol.clone() })
        } else if crate::text::str_eq(command, "goto") {
            Ok(Branching::GoTo { symbol: symbol.clone() })
        } else if crate::text::str_eq(command, "if-goto") {
            Ok(Branching::IfGoTo { symbol: symbol.clone() })
        } else {
            Err(
                HackError::FromStrError(
                    String::from_str("invalid branching operation: \"").concat(command).concat(
                        "\"",
                    ),
                ),
            )
        }
    }
}

// ---------------------------------------------------------------------------
// Functional instructions
// ---------------------------------------------------------------------------

/// The mathematical value of a [`Functional`] instruction.
pub enum FunctionalV {
    /// A function entry point.
    Function {
        /// The function name.
        symbol: Seq<char>,
        /// The number of local variables.
        value: u16,
    },
    /// A function call.
    Call {
        /// The function name.
        symbol: Seq<char>,
        /// The number of arguments.
        value: u16,
    },
    /// A return from the current function.
    Return,
}

/// Function-related instructions. Parsed and typed, but out of
/// translation scope.
#[derive(Debug, Clone, Hash, PartialEq, Eq)]
pub enum Functional {
    /// Declares a function entry point.
    Function {
        /// The function name.
        symbol: Symbol,
        /// The number of local variables.
        value: Constant,
    },
    /// Calls a function.
    Call {
        /// The function name.
        symbol: Symbol,
        /// The number of arguments.
        value: Constant,
    },
    /// Returns from the current function.
    Return,
}

impl View for Functional {
    type V = FunctionalV;

    open spec fn view(&self) -> FunctionalV {
        match self {
            Functional::Function { symbol, value } => FunctionalV::Function {
                symbol: symbol@,
                value: value@,
            },
            Functional::Call { symbol, value } => FunctionalV::Call {
                symbol: symbol@,
                value: value@,
            },
            Functional::Return => FunctionalV::Return,
        }
    }
}

impl Functional {
    /// The keyword of this instruction: `function`, `call` or `return`.
    pub fn name(&self) -> (r: &'static str)
        ensures
            self@ matches FunctionalV::Function { .. } ==> r@ == ("function")@,
            self@ matches FunctionalV::Call { .. } ==> r@ == ("call")@,
            self@ matches FunctionalV::Return ==> r@ == ("return")@,
    {
        match self {
            Functional::Function { .. } => "function",
            Functional::Call { .. } => "call",
            Functional::Return => "return",
        }
    }

    /// Builds a functional instruction from a keyword and its operands.
    /// Succeeds exactly for the keywords `function` and `call`.
    pub fn from_parts(command: &str, symbol: &Symbol, value: Constant) -> (r: Result<
        Functional,
        HackError,
    >)
        ensures
            command@ == ("function")@ ==> (r matches Ok(f) && f@ == FunctionalV::Function {
                symbol: symbol@,
                value: value@,
            }),
            command@ == ("call")@ ==> (r matches Ok(f) && f@ == FunctionalV::Call {
                symbol: symbol@,
                value: value@,
            }),
            command@ != ("function")@ && command@ != ("call")@ ==> (r matches Err(e) && e.kind()
                == ErrKind::Format),
    {
        proof {
            lemma_keywords_distinct();
        }
        if crate::text::str_eq(command, "function") {
            Ok(Functional::Function { symbol: symbol.clone(), value })
        } else if crate::text::str_eq(command, "call") {
            Ok(Functional::Call { symbol: symbol.clone(), value })
        } else {
            Err(
                HackError::FromStrError(
                    String::from_str("invalid functional operation: \"").concat(command).concat(
                        "\"",
                    ),
                ),
            )
        }
    }

    /// Parses a lone functional keyword; only `return` stands alone.
    pub fn from_str(s: &str) -> (r: Result<Functional, HackError>)
        ensures
            s@ == ("return")@ ==> (r matches Ok(f) && f@ == FunctionalV::Return),
            s@ != ("return")@ ==> (r matches Err(e) && e.kind() == ErrKind::Format),
    {
        if crate::text::str_eq(s, "return") {
            Ok(Functional::Return)
        } else {
            Err(
                HackError::FromStrError(
                    String::from_str("invalid functional operation: \"").concat(s).concat("\""),
                ),
            )
        }
    }
}

// ---------------------------------------------------------------------------
// Instruction
// ---------------------------------------------------------------------------

/// The mathematical value of an [`Instruction`].
pub enum InstructionV {
    /// A stack manipulating instruction.
    StackManipulation(StackManipulationV),
    /// A branching instruction.
    Branching(BranchingV),
    /// A functional instruction.
    Functional(FunctionalV),
    /// An arithmetic or logic instruction.
    Arithmetic(Arithmetic),
}

/// A representation of a valid VM instruction, as one of the four closed
/// instruction families.
#[derive(Debug, Clone, Hash, PartialEq, Eq)]
pub enum Instruction {
    /// A discriminant for stack manipulating instructions.
    StackManipulation(StackManipulation),
    /// A discriminant for branching instructions.
    Branching(Branching),
    /// A discriminant for functional instructions.
    Functional(Functional),
    /// A discriminant for arithmetic and logical instructions.
    Arithmetic(Arithmetic),
}

impl View for Instruction {
    type V = InstructionV;

    open spec fn view(&self) -> InstructionV {
        match self {
            Instruction::StackManipulation(sm) => InstructionV::StackManipulation(sm@),
            Instruction::Branching(b) => InstructionV::Branching(b@),
            Instruction::Functional(f) => InstructionV::Functional(f@),
            Instruction::Arithmetic(a) => InstructionV::Arithmetic(*a),
        }
    }
}

impl DeepView for Instruction {
    type V = InstructionV;

    open spec fn deep_view(&self) -> InstructionV {
        self.view()
    }
}

/// The instruction named by a lone token: an arithmetic operation, or
/// `return`; anything else is unrecognized.
pub open spec fn parse_single(t: Seq<char>) -> Result<InstructionV, ErrKind> {
    match arith_of(t) {
        Some(op) => Ok(InstructionV::Arithmetic(op)),
        None => if t == ("return")@ {
            Ok(InstructionV::Functional(FunctionalV::Return))
        } else {
            Err(ErrKind::Unrecognized)
        },
    }
}

/// The instruction formed by a two-token line whose second token is the
/// valid symbol `s`: one of the branching commands.
pub open spec fn classify_pair(c: Seq<char>, s: Seq<char>) -> Result<InstructionV, ErrKind> {
    if c == ("label")@ {
        Ok(InstructionV::Branching(BranchingV::Label { symbol: s }))
    } else if c == ("goto")@ {
        Ok(InstructionV::Branching(BranchingV::GoTo { symbol: s }))
    } else if c == ("if-goto")@ {
        Ok(InstructionV::Branching(BranchingV::IfGoTo { symbol: s }))
    } else {
        Err(ErrKind::Format)
    }
}

/// The outcome of a two-token line: the symbol must be valid, then the
/// command must be a branching keyword.
pub open spec fn parse_pair(c: Seq<char>, s: Seq<char>) -> Result<InstructionV, ErrKind> {
    if is_symbol(s) {
        classify_pair(c, s)
    } else {
        Err(ErrKind::BadSymbol)
    }
}

/// The instruction formed by a three-token line whose operands parsed to
/// the valid symbol `s` and constant `v`: a stack-manipulation or
/// function-related command.
pub open spec fn classify_triple(c: Seq<char>, s: Seq<char>, v: u16) -> Result<
    InstructionV,
    ErrKind,
> {
    if c == ("push")@ {
        Ok(InstructionV::StackManipulation(StackManipulationV::Push { symbol: s, value: v }))
    } else if c == ("pop")@ {
        Ok(InstructionV::StackManipulation(StackManipulationV::Pop { symbol: s, value: v }))
    } else if c == ("function")@ {
        Ok(InstructionV::Functional(FunctionalV::Function { symbol: s, value: v }))
    } else if c == ("call")@ {
        Ok(InstructionV::Functional(FunctionalV::Call { symbol: s, value: v }))
    } else {
        Err(ErrKind::Unrecognized)
    }
}

/// The outcome of a three-token line. When both the symbol and the
/// constant are malformed, both causes surface as one unrecognized-
/// instruction error; a single malformed operand reports its own error;
/// with both operands valid, the command keyword decides.
pub open spec fn parse_triple(c: Seq<char>, s: Seq<char>, v: Seq<char>) -> Result<
    InstructionV,
    ErrKind,
> {
    let cv = const_of(v);
    if !is_symbol(s) && cv is Err {
        Err(ErrKind::Unrecognized)
    } else if !is_symbol(s) {
        Err(ErrKind::BadSymbol)
    } else if cv is Err {
        Err(cv->Err_0)
    } else {
        classify_triple(c, s, cv->Ok_0)
    }
}

/// The outcome of one surviving source line, dispatched on token count:
/// one token parses alone, two tokens name a symbol, three tokens name a
/// symbol and a constant, and any other count is illegal.
pub open spec fn parse_line(toks: Seq<Seq<char>>) -> Result<InstructionV, ErrKind> {
    if toks.len() == 1 {
        parse_single(toks[0])
    } else if toks.len() == 2 {
        parse_pair(toks[0], toks[1])
    } else if toks.len() == 3 {
        parse_triple(toks[0], toks[1], toks[2])
    } else {
        Err(ErrKind::Illegal)
    }
}

impl Instruction {
    /// Parses a one-token line, trying the arithmetic operations and the
    /// lone `return` keyword; matching both would be an internal error,
    /// and the disjointness of the keyword sets rules it out.
    pub fn from_single(s: &str) -> (r: Result<Instruction, HackError>)
        ensures
            match parse_single(s@) {
                Ok(iv) => r matches Ok(i) && i@ == iv,
                Err(k) => r matches Err(e) && e.kind() == k,
            },
    {
        let both = (Arithmetic::from_str(s), Functional::from_str(s));
        match both {
            (Ok(arithmetic), Err(_)) => Ok(Instruction::Arithmetic(arithmetic)),
            (Err(_), Ok(return_command)) => Ok(Instruction::Functional(return_command)),
            (Err(_), Err(_)) => Err(HackError::UnrecognizedInstruction(s.to_owned())),
            (Ok(_), Ok(_)) => {
                proof {
                    lemma_keywords_distinct();
                    assert(false);
                }
                Err(HackError::Internal)
            },
        }
    }

    /// Parses a two-token line whose symbol operand already parsed; only
    /// the branching commands take this shape.
    pub fn from_pair(command: &str, symbol: Symbol) -> (r: Result<Instruction, HackError>)
        ensures
            match classify_pair(command@, symbol@) {
                Ok(iv) => r matches Ok(i) && i@ == iv,
                Err(k) => r matches Err(e) && e.kind() == k,
            },
    {
        match Branching::from_parts(command, &symbol) {
            Ok(branching) => Ok(Instruction::Branching(branching)),
            Err(error) => Err(error),
        }
    }

    /// Parses a three-token line whose operands already parsed, trying the
    /// stack-manipulation and the functional commands; matching both would
    /// be an internal error, and the disjointness of the keyword sets
    /// rules it out.
    pub fn from_triple(command: &str, symbol: Symbol, value: Constant) -> (r: Result<
        Instruction,
        HackError,
    >)
        ensures
            match classify_triple(command@, symbol@, value@) {
                Ok(iv) => r matches Ok(i) && i@ == iv,
                Err(k) => r matches Err(e) && e.kind() == k,
            },
    {
        let both = (
            StackManipulation::from_parts(command, &symbol, value),
            Functional::from_parts(command, &symbol, value),
        );
        match both {
            (Ok(stack_manipulation), Err(_)) => Ok(
                Instruction::StackManipulation(stack_manipulation),
            ),
            (Err(_), Ok(functional)) => Ok(Instruction::Functional(functional)),
            (Err(_), Err(_)) => {
                let symbol_text = symbol.literal_representation();
                let value_text = value.text();
                Err(
                    HackError::UnrecognizedInstruction(
                        command.to_owned().concat(" ").concat(symbol_text).concat(" ").concat(
                            value_text.as_str(),
                        ),
                    ),
                )
            },
            (Ok(_), Ok(_)) => {
                proof {
                    lemma_keywords_distinct();
                    assert(false);
                }
                Err(HackError::Internal)
            },
        }
    }
}

// ---------------------------------------------------------------------------
// Whole-file parsing
// ---------------------------------------------------------------------------

/// A trimmed line that opens with the line-comment marker `//`.
pub open spec fn is_comment(t: Seq<char>) -> bool {
    t.len() >= 2 && t[0] == '/' && t[1] == '/'
}

/// A trimmed line survives filtering when it is non-empty and is not a
/// comment.
pub open spec fn keep_line(t: Seq<char>) -> bool {
    t.len() > 0 && !is_comment(t)
}

/// What one physical line contributes to the token lines of the file:
/// its token list if it survives filtering, nothing otherwise.
pub open spec fn line_contrib(l: Seq<char>) -> Seq<Seq<Seq<char>>> {
    if keep_line(crate::text::trim(l)) {
        seq![crate::text::tokens_of(crate::text::trim(l))]
    } else {
        seq![]
    }
}

/// The token lists of the surviving lines, in order.
pub open spec fn surviving(ls: Seq<Seq<char>>) -> Seq<Seq<Seq<char>>>
    decreases ls.len(),
{
    if ls.len() == 0 {
        seq![]
    } else {
        line_contrib(ls[0]) + surviving(ls.drop_first())
    }
}

/// The token lists of the surviving lines of a file's text.
pub open spec fn token_lines(s: Seq<char>) -> Seq<Seq<Seq<char>>> {
    surviving(crate::text::split_lines(s))
}

/// Splitting off the first physical line splits its contribution off the
/// surviving token lines.
proof fn lemma_surviving_cons(x: Seq<char>, r: Seq<Seq<char>>)
    ensures
        surviving(seq![x] + r) == line_contrib(x) + surviving(r),
{
    let ls = seq![x] + r;
    assert(ls[0] == x);
    assert(ls.drop_first() =~= r);
}

/// The outcome of the lines after the first, prefixed by the
/// instructions already parsed.
pub open spec fn with_prefix(acc: Seq<InstructionV>, r: Result<Seq<InstructionV>, ErrKind>) -> Result<
    Seq<InstructionV>,
    ErrKind,
> {
    match r {
        Ok(rest) => Ok(acc + rest),
        Err(k) => Err(k),
    }
}

/// The outcome of a whole file's surviving token lines: the instruction
/// of every line in order, or the first line-level error.
pub open spec fn parse_lines(tls: Seq<Seq<Seq<char>>>) -> Result<Seq<InstructionV>, ErrKind>
    decreases tls.len(),
{
    if tls.len() == 0 {
        Ok(seq![])
    } else {
        match parse_line(tls[0]) {
            Ok(iv) => with_prefix(seq![iv], parse_lines(tls.drop_first())),
            Err(k) => Err(k),
        }
    }
}

/// The outcome of parsing a whole file's text.
pub open spec fn spec_parse(s: Seq<char>) -> Result<Seq<InstructionV>, ErrKind> {
    parse_lines(token_lines(s))
}

/// Reads the text of one source file and deserializes it.
///
/// The parser turns the held text into [`Instruction`]s that the
/// translator can consume, line by line, failing on the first malformed
/// line.
#[derive(Debug, Clone, Hash)]
pub struct Parser {
    /// The contents of the file as a String.
    file: String,
}

impl View for Parser {
    type V = Seq<char>;

    closed spec fn view(&self) -> Seq<char> {
        self.file@
    }
}

/// Appends what `line` contributes to the surviving token lines.
fn push_surviving(out: &mut Vec<Vec<String>>, line: &str)
    ensures
        final(out).deep_view() == old(out).deep_view() + line_contrib(line@),
{
    let ghost prev = out.deep_view();
    let trimmed = crate::text::trim_str(line);
    let m = trimmed.unicode_len();
    if m == 0 {
        proof {
            assert(out.deep_view() =~= prev + line_contrib(line@));
        }
        return ;
    }
    if m >= 2 && trimmed.get_char(0) == '/' && trimmed.get_char(1) == '/' {
        proof {
            assert(out.deep_view() =~= prev + line_contrib(line@));
        }
        return ;
    }
    let toks = crate::text::tokenize(trimmed);
    out.push(toks);
    proof {
        assert(out.deep_view() =~= prev + line_contrib(line@));
    }
}

impl Parser {
    /// Wraps a file's text for parsing.
    pub fn new(file: String) -> (p: Parser)
        ensures
            p@ == file@,
    {
        Parser { file }
    }

    /// Returns a more workable form of the file contents: the surviving
    /// lines of the held text, trimmed, filtered for comments and blank
    /// lines, and split by whitespace into token lists.
    pub fn lines(&self) -> (r: Vec<Vec<String>>)
        ensures
            r.deep_view() == token_lines(self@),
    {
        let t = self.file.as_str();
        let n = t.unicode_len();
        let mut out: Vec<Vec<String>> = Vec::new();
        let mut i: usize = 0;
        let mut j: usize = 0;
        proof {
            assert(t@.skip(0) =~= t@);
            assert(out.deep_view() + surviving(crate::text::split_lines(t@)) =~= surviving(
                crate::text::split_lines(t@),
            ));
        }
        loop
            invariant_except_break
                i <= j <= n,
                n == t@.len(),
                t@ == self@,
                forall|k: int| i <= k < j ==> t@[k] != '\n',
                token_lines(t@) == out.deep_view() + surviving(
                    crate::text::split_lines(t@.skip(i as int)),
                ),
            ensures
                out.deep_view() == token_lines(self@),
            decreases n - j,
        {
            if j >= n {
                let line = t.substring_char(i, j);
                let ghost prev = out.deep_view();
                push_surviving(&mut out, line);
                proof {
                    crate::text::lemma_split_lines_head(t@, i as int, j as int);
                    let x = t@.subrange(i as int, j as int);
                    assert(seq![x] =~= seq![x] + Seq::<Seq<char>>::empty());
                    lemma_surviving_cons(x, Seq::<Seq<char>>::empty());
                    assert(surviving(Seq::<Seq<char>>::empty()) =~= Seq::<Seq<Seq<char>>>::empty());
                    assert(surviving(seq![x]) =~= line_contrib(x));
                    assert(out.deep_view() =~= prev + line_contrib(x));
                }
                break ;
            }
            let c = t.get_char(j);
            if c == '\n' {
                let line = t.substring_char(i, j);
                let ghost prev = out.deep_view();
                push_surviving(&mut out, line);
                proof {
                    crate::text::lemma_split_lines_head(t@, i as int, j as int);
                    let x = t@.subrange(i as int, j as int);
                    lemma_surviving_cons(x, crate::text::split_lines(t@.skip(j as int + 1)));
                    assert(prev + (line_contrib(x) + surviving(
                        crate::text::split_lines(t@.skip(j as int + 1)),
                    )) =~= (prev + line_contrib(x)) + surviving(
                        crate::text::split_lines(t@.skip(j as int + 1)),
                    ));
                }
                i = j + 1;
                j = j + 1;
            } else {
                j += 1;
            }
        }
        out
    }

    /// Classifies the token list of one surviving line.
    fn parse_tokens(line: &Vec<String>) -> (r: Result<Instruction, HackError>)
        ensures
            match parse_line(line.deep_view()) {
                Ok(iv) => r matches Ok(i) && i@ == iv,
                Err(k) => r matches Err(e) && e.kind() == k,
            },
    {
        let len = line.len();
        if len == 1 {
            Instruction::from_single(line[0].as_str())
        } else if len == 2 {
            match Symbol::from_str(line[1].as_str()) {
                Ok(symbol) => Instruction::from_pair(line[0].as_str(), symbol),
                Err(symbol_error) => Err(symbol_error),
            }
        } else if len == 3 {
            let symbol_result = Symbol::from_str(line[1].as_str());
            let constant_result = Constant::from_str(line[2].as_str());
            match (symbol_result, constant_result) {
                (Ok(symbol), Ok(constant)) => Instruction::from_triple(
                    line[0].as_str(),
                    symbol,
                    constant,
                ),
                (Err(symbol_error), Err(constant_error)) => {
                    let first = symbol_error.message();
                    let second = constant_error.message();
                    Err(
                        HackError::UnrecognizedInstruction(
                            first.concat("\n\n").concat(second.as_str()),
                        ),
                    )
                },
                (Err(symbol_error), Ok(_)) => Err(symbol_error),
                (Ok(_), Err(constant_error)) => Err(constant_error),
            }
        } else {
            Err(HackError::IllegalInstruction(String::from_str("received an illegal instruction")))
        }
    }

    /// Deserializes surviving token lines into [`Instruction`]s, in
    /// order, stopping at the first line that fails.
    pub fn to_internal_types(token_lists: Vec<Vec<String>>) -> (r: Result<
        Vec<Instruction>,
        HackError,
    >)
        ensures
            match parse_lines(token_lists.deep_view()) {
                Ok(ivs) => r matches Ok(v) && v.deep_view() == ivs,
                Err(k) => r matches Err(e) && e.kind() == k,
            },
    {
        let ghost tls = token_lists.deep_view();
        let mut out: Vec<Instruction> = Vec::new();
        let mut idx: usize = 0;
        proof {
            assert(tls.skip(0) =~= tls);
            assert(with_prefix(out.deep_view(), parse_lines(tls)) =~= with_prefix(
                Seq::<InstructionV>::empty(),
                parse_lines(tls),
            ));
            if parse_lines(tls) is Ok {
                assert(Seq::<InstructionV>::empty() + parse_lines(tls)->Ok_0 =~= parse_lines(
                    tls,
                )->Ok_0);
            }
        }
        while idx < token_lists.len()
            invariant
                idx <= token_lists.len(),
                tls == token_lists.deep_view(),
                parse_lines(tls) == with_prefix(out.deep_view(), parse_lines(tls.skip(idx as int))),
            decreases token_lists.len() - idx,
        {
            let line = &token_lists[idx];
            proof {
                assert(line.deep_view() == tls[idx as int]);
                assert(tls.skip(idx as int)[0] == tls[idx as int]);
                assert(tls.skip(idx as int).drop_first() =~= tls.skip(idx as int + 1));
            }
            match Self::parse_tokens(line) {
                Ok(instruction) => {
                    let ghost prev = out.deep_view();
                    let ghost iv = instruction@;
                    out.push(instruction);
                    proof {
                        assert(out.deep_view() =~= prev.push(iv));
                        if parse_lines(tls.skip(idx as int + 1)) is Ok {
                            let rest = parse_lines(tls.skip(idx as int + 1))->Ok_0;
                            assert(prev + (seq![iv] + rest) =~= prev.push(iv) + rest);
                        }
                    }
                    idx += 1;
                },
                Err(error) => {
                    return Err(error);
                },
            }
        }
        proof {
            assert(tls.skip(token_lists.len() as int) =~= Seq::<Seq<Seq<char>>>::empty());
            assert(out.deep_view() + Seq::<InstructionV>::empty() =~= out.deep_view());
        }
        Ok(out)
    }

    /// Deserializes the held file contents into [`Instruction`]s: the
    /// instruction of every surviving line in order, each implicitly
    /// numbered by its position, or the first error encountered.
    pub fn parse(&self) -> (r: Result<Vec<Instruction>, HackError>)
        ensures
            match spec_parse(self@) {
                Ok(ivs) => r matches Ok(v) && v.deep_view() == ivs,
                Err(k) => r matches Err(e) && e.kind() == k,
            },
    {
        Self::to_internal_types(self.lines())
    }
}

} // verus!
