//! Options of the `text` sub-commands.

use vstd::prelude::*;
use vstd::slice::slice_to_vec;
use crate::backend::codec::base64_text;
use crate::command::{CmdExecutor, Inputs, KeyFile, Output};
use crate::error::TextError;
use crate::format::TextSignFormat;
use crate::process::text::{
    decrypted, encrypted, encryptable_as_text, process_text_decrypt, process_text_encrypt,
    process_text_generate, process_text_sign, process_text_verify, signature_len, signed,
    verified, Blake3,
    ChaCha20, Ed25519Signer, KeyGenerator, KEY_LEN,
};

verus! {

/// The `text` sub-commands.
#[derive(Debug)]
pub enum TextSubCommand {
    /// Sign a message with a private or shared key.
    Sign(TextSignOpts),
    /// Verify a signed message.
    Verify(TextVerifyOpts),
    /// Generate a key, or a key pair.
    Generate(GenerateOpts),
    /// Encrypt a message.
    Encrypt(EncryptOpts),
    /// Decrypt a message.
    Decrypt(DecryptOpts),
}

/// Options of `text sign`.
#[derive(Debug)]
pub struct TextSignOpts {
    /// Where the message is read from: a file's name, or `-` for standard input.
    pub input: String,
    /// The key file's name.
    pub key: String,
    /// The algorithm to sign with.
    pub format: TextSignFormat,
}

/// Options of `text verify`.
#[derive(Debug)]
pub struct TextVerifyOpts {
    /// Where the message is read from: a file's name, or `-` for standard input.
    pub input: String,
    /// The key file's name.
    pub key: String,
    /// The algorithm the signature was made with.
    pub format: TextSignFormat,
    /// The signature, as URL-safe base64 without padding.
    pub sig: String,
}

/// Options of `text generate`.
#[derive(Debug)]
pub struct GenerateOpts {
    /// The algorithm to make key material for.
    pub format: TextSignFormat,
    /// The directory to write the key files into.
    pub output: String,
}

/// Options of `text encrypt`.
#[derive(Debug)]
pub struct EncryptOpts {
    /// Where the message is read from: a file's name, or `-` for standard input.
    pub input: String,
    /// The key file's name.
    pub key: String,
}

/// Options of `text decrypt`.
#[derive(Debug)]
pub struct DecryptOpts {
    /// Where the envelope is read from: a file's name, or `-` for standard input.
    pub input: String,
    /// The key file's name.
    pub key: String,
}

/// The names of the key files of each format, in the order of the blobs that
/// key generation returns.
pub open spec fn key_file_names(format: TextSignFormat) -> Seq<Seq<char>> {
    match format {
        TextSignFormat::Blake3 => seq!["blake3.key"@],
        TextSignFormat::Ed25519 => seq!["ed25519.sk"@, "ed25519.pk"@],
        TextSignFormat::Chacha => seq!["chacha.key"@],
    }
}

/// The contents of a list of key files.
pub open spec fn contents(files: Seq<KeyFile>) -> Seq<Vec<u8>> {
    Seq::new(files.len(), |i: int| files[i].content)
}

/// Whether `files` are the key files of `format` holding the blobs `keys`:
/// as many as there are blobs, each under its fixed name.
pub open spec fn files_hold(files: Seq<KeyFile>, format: TextSignFormat, keys: Seq<Vec<u8>>) -> bool {
    &&& files.len() == key_file_names(format).len()
    &&& files.len() == keys.len()
    &&& forall|i: int|
        0 <= i < files.len() ==> (#[trigger] files[i]).name@ == key_file_names(format)[i]
            && files[i].content@ == keys[i]@
}

/// Names the blobs of freshly generated key material: `<format>.key` for a
/// single key, `<format>.sk` and `<format>.pk` for a key pair.
pub fn key_files(format: TextSignFormat, keys: &Vec<Vec<u8>>) -> (files: Vec<KeyFile>)
    requires
        keys@.len() == key_file_names(format).len(),
    ensures
        files_hold(files@, format, keys@),
{
    let mut files: Vec<KeyFile> = Vec::new();
    match format {
        TextSignFormat::Blake3 => {
            files.push(KeyFile { name: "blake3.key".to_owned(), content: slice_to_vec(keys[0].as_slice()) });
        },
        TextSignFormat::Ed25519 => {
            files.push(KeyFile { name: "ed25519.sk".to_owned(), content: slice_to_vec(keys[0].as_slice()) });
            files.push(KeyFile { name: "ed25519.pk".to_owned(), content: slice_to_vec(keys[1].as_slice()) });
        },
        TextSignFormat::Chacha => {
            files.push(KeyFile { name: "chacha.key".to_owned(), content: slice_to_vec(keys[0].as_slice()) });
        },
    }
    files
}

/// The word that a verdict is printed as.
pub open spec fn verdict_word(valid: bool) -> Seq<char> {
    if valid {
        "true"@
    } else {
        "false"@
    }
}

impl TextSignOpts {
    /// The line is the signature of the input, as URL-safe base64 without
    /// padding.
    pub open spec fn outcome(&self, inputs: &Inputs, output: &Result<Output, TextError>) -> bool {
        match *output {
            Ok(Output::Line(line)) => {
                &&& signed(inputs.input@, inputs.key@, self.format) matches Ok(sig)
                &&& sig.len() == signature_len(self.format)
                &&& line@ == base64_text(true, sig)
            },
            Ok(_) => false,
            Err(e) => signed(inputs.input@, inputs.key@, self.format) == Err::<Seq<u8>, TextError>(e),
        }
    }

    /// Runs the command on `inputs`.
    pub fn run(self, inputs: &Inputs) -> (output: Result<Output, TextError>)
        ensures
            self.outcome(inputs, &output),
    {
        match process_text_sign(inputs.input.as_slice(), inputs.key.as_slice(), self.format) {
            Ok(text) => Ok(Output::Line(text)),
            Err(e) => Err(e),
        }
    }
}

impl CmdExecutor for TextSignOpts {
    open spec fn runnable(&self) -> bool {
        true
    }

    open spec fn yields(&self, inputs: &Inputs, output: &Result<Output, TextError>) -> bool {
        self.outcome(inputs, output)
    }

    fn execute(self, inputs: &Inputs) -> (output: Result<Output, TextError>) {
        self.run(inputs)
    }
}

impl TextVerifyOpts {
    /// The line is `true` or `false`: the verdict on the signature.
    pub open spec fn outcome(&self, inputs: &Inputs, output: &Result<Output, TextError>) -> bool {
        match *output {
            Ok(Output::Line(line)) => {
                &&& verified(inputs.input@, inputs.key@, self.sig@, self.format) matches Ok(valid)
                &&& line@ == verdict_word(valid)
            },
            Ok(_) => false,
            Err(e) => verified(inputs.input@, inputs.key@, self.sig@, self.format) == Err::<
                bool,
                TextError,
            >(e),
        }
    }

    /// Runs the command on `inputs`.
    pub fn run(self, inputs: &Inputs) -> (output: Result<Output, TextError>)
        ensures
            self.outcome(inputs, &output),
    {
        match process_text_verify(
            inputs.input.as_slice(),
            inputs.key.as_slice(),
            self.sig.as_str(),
            self.format,
        ) {
            Ok(true) => Ok(Output::Line("true".to_owned())),
            Ok(false) => Ok(Output::Line("false".to_owned())),
            Err(e) => Err(e),
        }
    }
}

impl CmdExecutor for TextVerifyOpts {
    open spec fn runnable(&self) -> bool {
        true
    }

    open spec fn yields(&self, inputs: &Inputs, output: &Result<Output, TextError>) -> bool {
        self.outcome(inputs, output)
    }

    fn execute(self, inputs: &Inputs) -> (output: Result<Output, TextError>) {
        self.run(inputs)
    }
}

impl GenerateOpts {
    /// The key files are those of the format, they go to the output
    /// directory, and they hold freshly generated key material.
    pub open spec fn outcome(&self, inputs: &Inputs, output: &Result<Output, TextError>) -> bool {
        match *output {
            Ok(Output::KeyFiles { dir, files }) => {
                &&& dir@ == self.output@
                &&& files_hold(files@, self.format, contents(files@))
                &&& match self.format {
                    TextSignFormat::Blake3 => Blake3::generated(contents(files@)),
                    TextSignFormat::Ed25519 => Ed25519Signer::generated(contents(files@)),
                    TextSignFormat::Chacha => ChaCha20::generated(contents(files@)),
                }
            },
            _ => false,
        }
    }

    /// Runs the command on `inputs`.
    pub fn run(self, inputs: &Inputs) -> (output: Result<Output, TextError>)
        ensures
            self.outcome(inputs, &output),
    {
        let keys = process_text_generate(self.format);
        let files = key_files(self.format, &keys);
        Ok(Output::KeyFiles { dir: self.output, files })
    }
}

impl CmdExecutor for GenerateOpts {
    open spec fn runnable(&self) -> bool {
        true
    }

    open spec fn yields(&self, inputs: &Inputs, output: &Result<Output, TextError>) -> bool {
        self.outcome(inputs, output)
    }

    fn execute(self, inputs: &Inputs) -> (output: Result<Output, TextError>) {
        self.run(inputs)
    }
}

impl EncryptOpts {
    /// The line is an encryption of the input: URL-safe base64 without
    /// padding of an envelope of the input, which `text decrypt` under the
    /// same key reads back.
    pub open spec fn outcome(&self, inputs: &Inputs, output: &Result<Output, TextError>) -> bool {
        match *output {
            Ok(Output::Line(line)) => {
                &&& inputs.key@.len() >= KEY_LEN
                &&& encryptable_as_text(inputs.input@.len())
                &&& encrypted(inputs.input@, inputs.key@, line@)
            },
            Ok(_) => false,
            Err(e) => e == (if inputs.key@.len() < KEY_LEN {
                TextError::KeyTooShort
            } else {
                TextError::EncryptionFailed
            }) && !(inputs.key@.len() >= KEY_LEN && encryptable_as_text(inputs.input@.len())),
        }
    }

    /// Runs the command on `inputs`.
    pub fn run(self, inputs: &Inputs) -> (output: Result<Output, TextError>)
        ensures
            self.outcome(inputs, &output),
    {
        match process_text_encrypt(inputs.input.as_slice(), inputs.key.as_slice()) {
            Ok(text) => Ok(Output::Line(text)),
            Err(e) => Err(e),
        }
    }
}

impl CmdExecutor for EncryptOpts {
    open spec fn runnable(&self) -> bool {
        true
    }

    open spec fn yields(&self, inputs: &Inputs, output: &Result<Output, TextError>) -> bool {
        self.outcome(inputs, output)
    }

    fn execute(self, inputs: &Inputs) -> (output: Result<Output, TextError>) {
        self.run(inputs)
    }
}

impl DecryptOpts {
    /// The line is the plaintext of the envelope, as text.
    pub open spec fn outcome(&self, inputs: &Inputs, output: &Result<Output, TextError>) -> bool {
        match *output {
            Ok(Output::Line(line)) => decrypted(inputs.input@, inputs.key@) == Ok::<
                Seq<char>,
                TextError,
            >(line@),
            Ok(_) => false,
            Err(e) => decrypted(inputs.input@, inputs.key@) == Err::<Seq<char>, TextError>(e),
        }
    }

    /// Runs the command on `inputs`.
    pub fn run(self, inputs: &Inputs) -> (output: Result<Output, TextError>)
        ensures
            self.outcome(inputs, &output),
    {
        match process_text_decrypt(inputs.input.as_slice(), inputs.key.as_slice()) {
            Ok(text) => Ok(Output::Line(text)),
            Err(e) => Err(e),
        }
    }
}

impl CmdExecutor for DecryptOpts {
    open spec fn runnable(&self) -> bool {
        true
    }

    open spec fn yields(&self, inputs: &Inputs, output: &Result<Output, TextError>) -> bool {
        self.outcome(inputs, output)
    }

    fn execute(self, inputs: &Inputs) -> (output: Result<Output, TextError>) {
        self.run(inputs)
    }
}

impl TextSubCommand {
    /// Whether `output` is an outcome of the chosen command on `inputs`.
    pub open spec fn outcome(&self, inputs: &Inputs, output: &Result<Output, TextError>) -> bool {
        match self {
            TextSubCommand::Sign(opts) => opts.outcome(inputs, output),
            TextSubCommand::Verify(opts) => opts.outcome(inputs, output),
            TextSubCommand::Generate(opts) => opts.outcome(inputs, output),
            TextSubCommand::Encrypt(opts) => opts.outcome(inputs, output),
            TextSubCommand::Decrypt(opts) => opts.outcome(inputs, output),
        }
    }

    /// Runs the chosen command on `inputs`.
    pub fn run(self, inputs: &Inputs) -> (output: Result<Output, TextError>)
        ensures
            self.outcome(inputs, &output),
    {
        match self {
            TextSubCommand::Sign(opts) => opts.run(inputs),
            TextSubCommand::Verify(opts) => opts.run(inputs),
            TextSubCommand::Generate(opts) => opts.run(inputs),
            TextSubCommand::Encrypt(opts) => opts.run(inputs),
            TextSubCommand::Decrypt(opts) => opts.run(inputs),
        }
    }
}

impl CmdExecutor for TextSubCommand {
    open spec fn runnable(&self) -> bool {
        true
    }

    open spec fn yields(&self, inputs: &Inputs, output: &Result<Output, TextError>) -> bool {
        self.outcome(inputs, output)
    }

    fn execute(self, inputs: &Inputs) -> (output: Result<Output, TextError>) {
        self.run(inputs)
    }
}

} // verus!
