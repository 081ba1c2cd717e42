//! Options of the `base64` sub-commands.

use vstd::prelude::*;
use vstd::slice::slice_to_vec;
use vstd::utf8::{decode_utf8, valid_utf8};
use crate::backend::codec::{base64_len, base64_text, text_from_utf8};
use crate::command::{CmdExecutor, Inputs, Output};
use crate::error::TextError;
use crate::format::Base64Format;
use crate::process::b64::{decoded, process_base64_decode, process_base64_encode, url_safe};

verus! {

/// The `base64` sub-commands.
#[derive(Debug)]
pub enum Base64SubCommand {
    /// Encode the input as base64.
    Encode(EncodeOpts),
    /// Decode the input from base64.
    Decode(DecodeOpts),
}

/// Options of `base64 encode`.
#[derive(Debug)]
pub struct EncodeOpts {
    /// Where the input is read from: a file's name, or `-` for standard input.
    pub input: String,
    /// The base64 format to write.
    pub format: Base64Format,
}

/// Options of `base64 decode`.
#[derive(Debug)]
pub struct DecodeOpts {
    /// Where the input is read from: a file's name, or `-` for standard input.
    pub input: String,
    /// The base64 format to read.
    pub format: Base64Format,
}

impl EncodeOpts {
    /// The line is the base64 text of the input; only an input too long to
    /// encode on this machine fails.
    pub open spec fn outcome(&self, inputs: &Inputs, output: &Result<Output, TextError>) -> bool {
        match *output {
            Ok(Output::Line(line)) => {
                &&& base64_len(inputs.input@.len(), !url_safe(self.format)) <= usize::MAX
                &&& line@ == base64_text(url_safe(self.format), inputs.input@)
            },
            Ok(_) => false,
            Err(e) => {
                &&& base64_len(inputs.input@.len(), !url_safe(self.format)) > usize::MAX
                &&& e == TextError::CodecError
            },
        }
    }

    /// Runs the command on `inputs`.
    pub fn run(self, inputs: &Inputs) -> (output: Result<Output, TextError>)
        ensures
            self.outcome(inputs, &output),
    {
        match process_base64_encode(inputs.input.as_slice(), self.format) {
            Ok(text) => Ok(Output::Line(text)),
            Err(e) => Err(e),
        }
    }
}

impl CmdExecutor for EncodeOpts {
    open spec fn runnable(&self) -> bool {
        true
    }

    open spec fn yields(&self, inputs: &Inputs, output: &Result<Output, TextError>) -> bool {
        self.outcome(inputs, output)
    }

    fn execute(self, inputs: &Inputs) -> (output: Result<Output, TextError>) {
        self.run(inputs)
    }
}

impl DecodeOpts {
    /// The line that decoding `input` in `format` shows: the input is read as
    /// text and decoded, and the bytes that come out are read as text again.
    pub open spec fn shown(input: Seq<u8>, format: Base64Format) -> Result<Seq<char>, TextError> {
        if !valid_utf8(input) {
            Err(TextError::CodecError)
        } else {
            match decoded(decode_utf8(input), format) {
                Some(bytes) => if valid_utf8(bytes) {
                    Ok(decode_utf8(bytes))
                } else {
                    Err(TextError::InvalidUtf8Output)
                },
                None => Err(TextError::CodecError),
            }
        }
    }
}

impl DecodeOpts {
    /// Whether `output` is an outcome of this command on `inputs`.
    pub open spec fn outcome(&self, inputs: &Inputs, output: &Result<Output, TextError>) -> bool {
        match *output {
            Ok(Output::Line(line)) => Self::shown(inputs.input@, self.format) == Ok::<
                Seq<char>,
                TextError,
            >(line@),
            Ok(_) => false,
            Err(e) => Self::shown(inputs.input@, self.format) == Err::<Seq<char>, TextError>(e),
        }
    }

    /// Runs the command on `inputs`.
    pub fn run(self, inputs: &Inputs) -> (output: Result<Output, TextError>)
        ensures
            self.outcome(inputs, &output),
    {
        let text = match text_from_utf8(slice_to_vec(inputs.input.as_slice())) {
            Ok(text) => text,
            Err(_) => { return Err(TextError::CodecError); },
        };
        let bytes = match process_base64_decode(text.as_str(), self.format) {
            Ok(bytes) => bytes,
            Err(e) => { return Err(e); },
        };
        match text_from_utf8(bytes) {
            Ok(line) => Ok(Output::Line(line)),
            Err(_) => Err(TextError::InvalidUtf8Output),
        }
    }
}

impl CmdExecutor for DecodeOpts {
    open spec fn runnable(&self) -> bool {
        true
    }

    open spec fn yields(&self, inputs: &Inputs, output: &Result<Output, TextError>) -> bool {
        self.outcome(inputs, output)
    }

    fn execute(self, inputs: &Inputs) -> (output: Result<Output, TextError>) {
        self.run(inputs)
    }
}

impl Base64SubCommand {
    /// Whether `output` is an outcome of the chosen command on `inputs`.
    pub open spec fn outcome(&self, inputs: &Inputs, output: &Result<Output, TextError>) -> bool {
        match self {
            Base64SubCommand::Encode(opts) => opts.outcome(inputs, output),
            Base64SubCommand::Decode(opts) => opts.outcome(inputs, output),
        }
    }

    /// Runs the chosen command on `inputs`.
    pub fn run(self, inputs: &Inputs) -> (output: Result<Output, TextError>)
        ensures
            self.outcome(inputs, &output),
    {
        match self {
            Base64SubCommand::Encode(opts) => opts.run(inputs),
            Base64SubCommand::Decode(opts) => opts.run(inputs),
        }
    }
}

impl CmdExecutor for Base64SubCommand {
    open spec fn runnable(&self) -> bool {
        true
    }

    open spec fn yields(&self, inputs: &Inputs, output: &Result<Output, TextError>) -> bool {
        self.outcome(inputs, output)
    }

    fn execute(self, inputs: &Inputs) -> (output: Result<Output, TextError>) {
        self.run(inputs)
    }
}

} // verus!
