//! The options of each sub-command, and the checks made on them when the
//! command line is read.

pub mod base64;
pub mod gen_pass;
pub mod http;
pub mod jwt;
pub mod text;

use vstd::prelude::*;
use crate::ascii::same_text;
use crate::backend::path::{path_exists, path_is_dir};
use crate::command::base64::Base64SubCommand;
use crate::command::gen_pass::GenPassOpts;
use crate::command::http::HttpSubCommand;
use crate::command::text::TextSubCommand;
use crate::error::TextError;

verus! {

/// The command line as a whole.
#[derive(Debug)]
pub struct Opts {
    /// The command that was chosen.
    pub cmd: SubCommand,
}

/// The commands.
#[derive(Debug)]
pub enum SubCommand {
    /// Generate a random password.
    GenPass(GenPassOpts),
    /// Base64 encode or decode.
    Base64(Base64SubCommand),
    /// Text signing, verification and encryption.
    Text(TextSubCommand),
    /// HTTP server.
    Http(HttpSubCommand),
}

/// What has been read for a command before it runs: the whole of its input,
/// and the whole of its key file. A command that takes no input or no key
/// is handed that part empty.
#[derive(Debug)]
pub struct Inputs {
    /// Every byte of the input, be it a file or standard input.
    pub input: Vec<u8>,
    /// Every byte of the key file.
    pub key: Vec<u8>,
}

/// A key file to be written: its name within the output directory, and its
/// contents.
#[derive(Debug)]
pub struct KeyFile {
    /// The file's name, without any directory.
    pub name: String,
    /// The file's contents.
    pub content: Vec<u8>,
}

/// What a command hands back when it has run, for its caller to carry out.
#[derive(Debug)]
pub enum Output {
    /// A line to print on standard output.
    Line(String),
    /// A fresh password: to be printed, and to be rated for its strength.
    Password(String),
    /// Key files to write into the directory `dir`.
    KeyFiles { dir: String, files: Vec<KeyFile> },
    /// A directory to serve over HTTP on a port of the local host.
    Serve { dir: String, port: u16 },
}

/// A command that can be run once its inputs have been read.
///
/// Running computes and nothing else: reading the inputs beforehand, and
/// printing or writing the output afterwards, are the caller's.
pub trait CmdExecutor {
    /// Whether the options allow the command to run at all.
    spec fn runnable(&self) -> bool;

    /// Whether `output` is an outcome of this command on `inputs`. Commands
    /// that draw random numbers have many.
    spec fn yields(&self, inputs: &Inputs, output: &Result<Output, TextError>) -> bool;

    /// Runs the command on `inputs`.
    fn execute(self, inputs: &Inputs) -> (output: Result<Output, TextError>)
        requires
            self.runnable(),
        ensures
            self.yields(inputs, &output),
    ;
}

/// The answer to an input that is neither `-` nor an existing file.
pub const INPUT_NOT_FOUND: &'static str = "input file not found";

/// The answer to an output path that is no existing directory.
pub const PATH_NOT_FOUND: &'static str = "path not found or is not a directory";

/// Accepts `filename` as an input where it is `-`, which stands for standard
/// input, or where `present` says that a file of that name is there.
pub fn accept_file(filename: &str, present: bool) -> (accepted: Result<String, &'static str>)
    ensures
        match accepted {
            Ok(name) => name@ == filename@ && (filename@ == "-"@ || present),
            Err(reason) => reason@ == INPUT_NOT_FOUND@ && filename@ != "-"@ && !present,
        },
{
    proof {
        reveal_strlit("-");
    }
    if present || same_text(filename, "-") {
        Ok(filename.to_owned())
    } else {
        Err(INPUT_NOT_FOUND)
    }
}

/// Accepts `path` as an output directory where it exists and is a directory.
pub fn accept_path(path: &str, present: bool, is_dir: bool) -> (accepted: Result<String, &'static str>)
    ensures
        match accepted {
            Ok(dir) => dir@ == path@ && present && is_dir,
            Err(reason) => reason@ == PATH_NOT_FOUND@ && !(present && is_dir),
        },
{
    if present && is_dir {
        Ok(path.to_owned())
    } else {
        Err(PATH_NOT_FOUND)
    }
}

/// Checks the value of `--input` or `--key`: `-`, or the name of a file that
/// exists. The file system is asked only where the name is not `-`.
pub fn verify_file(filename: &str) -> (accepted: Result<String, &'static str>)
    ensures
        filename@ == "-"@ ==> accepted is Ok,
        accepted matches Ok(name) ==> name@ == filename@,
        accepted matches Err(reason) ==> reason@ == INPUT_NOT_FOUND@,
{
    proof {
        reveal_strlit("-");
    }
    let present = same_text(filename, "-") || path_exists(filename);
    accept_file(filename, present)
}

/// Checks the value of `--output` or `--dir`: the name of a directory that
/// exists.
pub fn verify_path(path: &str) -> (accepted: Result<String, &'static str>)
    ensures
        accepted matches Ok(dir) ==> dir@ == path@,
        accepted matches Err(reason) ==> reason@ == PATH_NOT_FOUND@,
{
    let present = path_exists(path);
    let is_dir = present && path_is_dir(path);
    accept_path(path, present, is_dir)
}

impl SubCommand {
    /// Whether the chosen command can run: only the options of `genpass` can
    /// be such that it cannot.
    pub open spec fn consistent(&self) -> bool {
        match self {
            SubCommand::GenPass(opts) => opts.consistent(),
            _ => true,
        }
    }

    /// Whether the chosen command can run.
    pub fn is_consistent(&self) -> (ok: bool)
        ensures
            ok == self.consistent(),
    {
        match self {
            SubCommand::GenPass(opts) => opts.is_consistent(),
            _ => true,
        }
    }

    /// Whether `output` is an outcome of the chosen command on `inputs`.
    pub open spec fn outcome(&self, inputs: &Inputs, output: &Result<Output, TextError>) -> bool {
        match self {
            SubCommand::GenPass(opts) => opts.outcome(inputs, output),
            SubCommand::Base64(cmd) => cmd.outcome(inputs, output),
            SubCommand::Text(cmd) => cmd.outcome(inputs, output),
            SubCommand::Http(cmd) => cmd.outcome(inputs, output),
        }
    }

    /// Runs the chosen command on `inputs`.
    pub fn run(self, inputs: &Inputs) -> (output: Result<Output, TextError>)
        requires
            self.consistent(),
        ensures
            self.outcome(inputs, &output),
    {
        match self {
            SubCommand::GenPass(opts) => opts.run(inputs),
            SubCommand::Base64(cmd) => cmd.run(inputs),
            SubCommand::Text(cmd) => cmd.run(inputs),
            SubCommand::Http(cmd) => cmd.run(inputs),
        }
    }
}

impl CmdExecutor for SubCommand {
    open spec fn runnable(&self) -> bool {
        self.consistent()
    }

    open spec fn yields(&self, inputs: &Inputs, output: &Result<Output, TextError>) -> bool {
        self.outcome(inputs, output)
    }

    fn execute(self, inputs: &Inputs) -> (output: Result<Output, TextError>) {
        self.run(inputs)
    }
}

} // verus!
