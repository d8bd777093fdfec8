//! The failures that parsing and translation can report.
//!
//! Every rejection is terminal: a single bad line or instruction aborts the
//! whole file's translation, and the error value classifies the failure
//! precisely enough for a caller to render an actionable message.

use vstd::prelude::*;
use vstd::string::StringExecFns;

use crate::text::{dec_rep, num_text};

verus! {

/// The classification of a [`HackError`], with payloads stripped.
///
/// Contracts speak of error kinds rather than of the carried message text:
/// the kind of the error is pinned exactly, the wording of a diagnostic
/// message is not.
#[derive(Clone, Copy, Debug, PartialEq, Eq, Structural)]
pub enum ErrKind {
    /// The input file could not be read.
    CannotReadFile,
    /// A symbol used a forbidden character or began with a digit.
    BadSymbol,
    /// No grammar rule matched the instruction.
    Unrecognized,
    /// The command line held the wrong number of arguments.
    Misconfiguration,
    /// The output file could not be created safely.
    FileExists,
    /// The input file did not carry the expected extension.
    BadFileType,
    /// The output could not be written.
    Write,
    /// A supposedly-exhaustive classification misfired: a logic defect,
    /// never a data error.
    Internal,
    /// Text could not be turned into an internal value.
    Format,
    /// A constant exceeded the 15-bit maximum.
    Overflow,
    /// The grammar matched but the instruction is semantically invalid.
    Illegal,
}

/// An error of the translator: everything that can go wrong between
/// reading VM source text and writing assembly text.
#[derive(Clone, Debug, Hash, PartialEq, Eq)]
pub enum HackError {
    /// The file at the given path could not be read; the payload carries
    /// the rendered cause.
    CannotReadFileFromPath(String),
    /// A label or address used a character not permitted in symbols, or
    /// began with a digit. Symbols are sequences of ASCII letters, digits,
    /// underscores, dots, dollar signs and colons that do not begin with a
    /// digit.
    SymbolHasForbiddenCharacter,
    /// An instruction no grammar rule matches; the payload carries the
    /// offending text.
    UnrecognizedInstruction(String),
    /// The wrong number of command-line arguments, carried in the payload.
    Misconfiguration(usize),
    /// The output file could not be created.
    FileExistsError {
        /// True when the target is known to exist already.
        certain: bool,
    },
    /// The input file does not end in the expected extension.
    BadFileTypeError,
    /// Writing the output failed; the payload carries the rendered cause.
    WriteError(String),
    /// An internal misuse or logic error. Report this!
    Internal,
    /// Text could not be turned into an internal value; the payload
    /// carries additional information.
    FromStrError(String),
    /// A constant exceeded the highest value the target machine can load,
    /// `32767`.
    Overflow,
    /// An instruction that is well-formed but semantically illegal, such
    /// as one accessing an index out of its segment's range.
    IllegalInstruction(String),
}

impl HackError {
    /// The classification of this error, with payloads stripped.
    pub open spec fn kind(self) -> ErrKind {
        match self {
            HackError::CannotReadFileFromPath(_) => ErrKind::CannotReadFile,
            HackError::SymbolHasForbiddenCharacter => ErrKind::BadSymbol,
            HackError::UnrecognizedInstruction(_) => ErrKind::Unrecognized,
            HackError::Misconfiguration(_) => ErrKind::Misconfiguration,
            HackError::FileExistsError { .. } => ErrKind::FileExists,
            HackError::BadFileTypeError => ErrKind::BadFileType,
            HackError::WriteError(_) => ErrKind::Write,
            HackError::Internal => ErrKind::Internal,
            HackError::FromStrError(_) => ErrKind::Format,
            HackError::Overflow => ErrKind::Overflow,
            HackError::IllegalInstruction(_) => ErrKind::Illegal,
        }
    }

    /// The text that [`HackError::message`] renders for this error.
    pub open spec fn message_spec(self) -> Seq<char> {
        match self {
            HackError::CannotReadFileFromPath(s) => s@,
            HackError::SymbolHasForbiddenCharacter => (
            "symbols must be a sequence of letters (a-z || A-Z), digits (0-9), underscores (_), dots (.), dollar signs ($), and/or colons (:) that does not begin with a digit")@,
            HackError::UnrecognizedInstruction(s) => ("could not determine instruction type for \"")@
                + s@ + ("\"")@,
            HackError::Misconfiguration(n) => ("expected 1 argument (file.asm), found ")@ + dec_rep(
                n as nat,
            ) + (" arguments")@,
            HackError::FileExistsError { certain } => if certain {
                ("the target output file already exists, and this program refuses to overwrite it")@
            } else {
                (
                "there is uncertainty about whether or not it is safe to create a new file of the target name")@
            },
            HackError::BadFileTypeError => ("the target file must have the \".asm\" extension")@,
            HackError::WriteError(s) => s@,
            HackError::Internal => ("internal error, please report this incident")@,
            HackError::FromStrError(s) => s@,
            HackError::Overflow => (
            "constants must be non-negative integers which are less than or equal to 32767")@,
            HackError::IllegalInstruction(s) => s@,
        }
    }

    /// Renders the error message for this error.
    pub fn message(&self) -> (r: String)
        ensures
            r@ == self.message_spec(),
    {
        match self {
            HackError::CannotReadFileFromPath(s) => s.clone(),
            HackError::SymbolHasForbiddenCharacter => String::from_str(
                "symbols must be a sequence of letters (a-z || A-Z), digits (0-9), underscores (_), dots (.), dollar signs ($), and/or colons (:) that does not begin with a digit",
            ),
            HackError::UnrecognizedInstruction(s) => String::from_str(
                "could not determine instruction type for \"",
            ).concat(s.as_str()).concat("\""),
            HackError::Misconfiguration(n) => {
                let count = num_text(*n);
                String::from_str("expected 1 argument (file.asm), found ").concat(
                    count.as_str(),
                ).concat(" arguments")
            },
            HackError::FileExistsError { certain } => {
                if *certain {
                    String::from_str(
                        "the target output file already exists, and this program refuses to overwrite it",
                    )
                } else {
                    String::from_str(
                        "there is uncertainty about whether or not it is safe to create a new file of the target name",
                    )
                }
            },
            HackError::BadFileTypeError => String::from_str(
                "the target file must have the \".asm\" extension",
            ),
            HackError::WriteError(s) => s.clone(),
            HackError::Internal => String::from_str("internal error, please report this incident"),
            HackError::FromStrError(s) => s.clone(),
            HackError::Overflow => String::from_str(
                "constants must be non-negative integers which are less than or equal to 32767",
            ),
            HackError::IllegalInstruction(s) => s.clone(),
        }
    }
}

} // verus!
