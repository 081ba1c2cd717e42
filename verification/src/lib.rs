//! A small toolbox for text processing: keyed hashing, signatures,
//! authenticated encryption and base64 transport, with every rule of the
//! engine stated as a contract and proved.
//!
//! The library computes and nothing else. Its callers read the inputs and the
//! key files, hand their bytes in, and print or write what comes back.

pub mod ascii;
pub mod backend;
pub mod bytes;
pub mod command;
pub mod error;
pub mod format;
pub mod process;

pub use command::base64::{Base64SubCommand, DecodeOpts, EncodeOpts};
pub use command::gen_pass::GenPassOpts;
pub use command::http::{HttpServeOpts, HttpSubCommand};
pub use command::jwt::{JwtSignOpts, JwtSubCommand, JwtVerifyOpts};
pub use command::text::{
    key_files, DecryptOpts, EncryptOpts, GenerateOpts, TextSignOpts, TextSubCommand,
    TextVerifyOpts,
};
pub use command::{
    accept_file, accept_path, verify_file, verify_path, CmdExecutor, Inputs, KeyFile, Opts,
    Output, SubCommand,
};
pub use error::TextError;
pub use format::{parse_base64_format, parse_sign_format, Base64Format, TextSignFormat};
pub use process::b64::{encodable, process_base64_decode, process_base64_encode};
pub use process::gen_pass::{password_bytes, process_gen_pass};
pub use process::jwt::{
    claims, has_too_many_digits, str_to_timestamp, timestamp_after, JwtClaims, JwtKey,
};
pub use process::text::{
    key_pair, password_key, process_text_decrypt, process_text_encrypt, process_text_generate,
    process_text_sign, process_text_verify, Blake3, ChaCha20, Ed25519Signer, Ed25519Verifier,
    KeyGenerator, KeyLoader, TextDecrypt, TextEncrypt, TextSign, TextVerify,
};
