//! The configuration a command-line invocation produces: the path of the
//! file to translate, validated to be the one and only argument.

use vstd::prelude::*;

use crate::error::HackError;

verus! {

/// The basic configuration of the program, storing the result of a
/// successful command-line invocation.
#[derive(Debug, Hash)]
pub struct Config {
    /// The path to the target VM source file.
    file_path: String,
}

impl View for Config {
    type V = Seq<char>;

    closed spec fn view(&self) -> Seq<char> {
        self.file_path@
    }
}

impl Config {
    /// Builds a configuration from the command-line arguments, the
    /// program name first.
    ///
    /// Exactly one argument must follow the program name: the path to a
    /// VM source file (or a directory of such files). With no argument
    /// the error reports zero arguments; with several it reports how
    /// many were passed.
    pub fn build(args: Vec<String>) -> (r: Result<Config, HackError>)
        ensures
            args@.len() <= 1 ==> (r matches Err(e) && e == HackError::Misconfiguration(0)),
            args@.len() == 2 ==> (r matches Ok(c) && c@ == args@[1]@),
            args@.len() >= 3 ==> (r matches Err(e) && e == HackError::Misconfiguration(
                (args@.len() - 1) as usize,
            )),
    {
        let mut args = args;
        if args.len() <= 1 {
            Err(HackError::Misconfiguration(0))
        } else if args.len() == 2 {
            let file_path = args.remove(1);
            Ok(Config { file_path })
        } else {
            Err(HackError::Misconfiguration(args.len() - 1))
        }
    }

    /// Borrows the path this configuration targets.
    pub fn file_path(&self) -> (r: &String)
        ensures
            r@ == self@,
    {
        &self.file_path
    }
}

} // verus!
