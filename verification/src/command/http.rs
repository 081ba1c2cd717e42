//! Options of the `http` sub-commands.

use vstd::prelude::*;
use crate::command::{CmdExecutor, Inputs, Output};
use crate::error::TextError;

verus! {

/// The `http` sub-commands.
#[derive(Debug)]
pub enum HttpSubCommand {
    /// Serve a directory over HTTP.
    Serve(HttpServeOpts),
}

/// Options of `http serve`.
#[derive(Debug)]
pub struct HttpServeOpts {
    /// The directory to serve.
    pub dir: String,
    /// The port of the local host to listen on.
    pub port: u16,
}

impl HttpServeOpts {
    /// The output asks for exactly this directory to be served on this port.
    pub open spec fn outcome(&self, inputs: &Inputs, output: &Result<Output, TextError>) -> bool {
        match *output {
            Ok(Output::Serve { dir, port }) => dir@ == self.dir@ && port == self.port,
            _ => false,
        }
    }

    /// Runs the command. It reads nothing; the serving is the caller's.
    pub fn run(self, inputs: &Inputs) -> (output: Result<Output, TextError>)
        ensures
            self.outcome(inputs, &output),
    {
        Ok(Output::Serve { dir: self.dir, port: self.port })
    }
}

impl CmdExecutor for HttpServeOpts {
    open spec fn runnable(&self) -> bool {
        true
    }

    open spec fn yields(&self, inputs: &Inputs, output: &Result<Output, TextError>) -> bool {
        self.outcome(inputs, output)
    }

    fn execute(self, inputs: &Inputs) -> (output: Result<Output, TextError>) {
        self.run(inputs)
    }
}

impl HttpSubCommand {
    /// Whether `output` is an outcome of the chosen command on `inputs`.
    pub open spec fn outcome(&self, inputs: &Inputs, output: &Result<Output, TextError>) -> bool {
        match self {
            HttpSubCommand::Serve(opts) => opts.outcome(inputs, output),
        }
    }

    /// Runs the chosen command on `inputs`.
    pub fn run(self, inputs: &Inputs) -> (output: Result<Output, TextError>)
        ensures
            self.outcome(inputs, &output),
    {
        match self {
            HttpSubCommand::Serve(opts) => opts.run(inputs),
        }
    }
}

impl CmdExecutor for HttpSubCommand {
    open spec fn runnable(&self) -> bool {
        true
    }

    open spec fn yields(&self, inputs: &Inputs, output: &Result<Output, TextError>) -> bool {
        self.outcome(inputs, output)
    }

    fn execute(self, inputs: &Inputs) -> (output: Result<Output, TextError>) {
        self.run(inputs)
    }
}

} // verus!
