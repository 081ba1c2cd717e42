//! Options of the `genpass` command.

use vstd::prelude::*;
use vstd::utf8::{encode_utf8, is_ascii_chars};
use crate::command::{CmdExecutor, Inputs, Output};
use crate::error::TextError;
use crate::process::gen_pass::{classes, is_password, process_gen_pass};

verus! {

/// Options of `genpass`.
#[derive(Debug)]
pub struct GenPassOpts {
    /// Number of characters of the password.
    pub length: u8,
    /// Whether upper-case letters are drawn from.
    pub upper: bool,
    /// Whether lower-case letters are drawn from.
    pub lower: bool,
    /// Whether digits are drawn from.
    pub number: bool,
    /// Whether symbols are drawn from.
    pub symbol: bool,
}

impl GenPassOpts {
    /// Whether a password can be made to these options: there is room for one
    /// character of each enabled class, and a password that is not empty has
    /// a class to draw from.
    pub open spec fn consistent(&self) -> bool {
        &&& classes(self.upper, self.lower, self.number, self.symbol) <= self.length
        &&& classes(self.upper, self.lower, self.number, self.symbol) > 0 || self.length == 0
    }

    /// Whether a password can be made to these options.
    pub fn is_consistent(&self) -> (ok: bool)
        ensures
            ok == self.consistent(),
    {
        let mut enabled: u8 = 0;
        if self.upper {
            enabled += 1;
        }
        if self.lower {
            enabled += 1;
        }
        if self.number {
            enabled += 1;
        }
        if self.symbol {
            enabled += 1;
        }
        enabled <= self.length && (enabled > 0 || self.length == 0)
    }

    /// The output is a password of the length and over the classes asked for.
    pub open spec fn outcome(&self, inputs: &Inputs, output: &Result<Output, TextError>) -> bool {
        match *output {
            Ok(Output::Password(password)) => {
                &&& is_ascii_chars(password@)
                &&& password@.len() == self.length
                &&& is_password(
                    encode_utf8(password@),
                    self.length as nat,
                    self.upper,
                    self.lower,
                    self.number,
                    self.symbol,
                )
            },
            _ => false,
        }
    }

    /// Runs the command. It reads nothing.
    pub fn run(self, inputs: &Inputs) -> (output: Result<Output, TextError>)
        requires
            self.consistent(),
        ensures
            self.outcome(inputs, &output),
    {
        Ok(Output::Password(process_gen_pass(self.length, self.upper, self.lower, self.number, self.symbol)))
    }
}

impl CmdExecutor for GenPassOpts {
    open spec fn runnable(&self) -> bool {
        self.consistent()
    }

    open spec fn yields(&self, inputs: &Inputs, output: &Result<Output, TextError>) -> bool {
        self.outcome(inputs, output)
    }

    fn execute(self, inputs: &Inputs) -> (output: Result<Output, TextError>) {
        self.run(inputs)
    }
}

} // verus!
