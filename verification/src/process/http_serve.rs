//! What the directory server answers, once the file system has been asked.

use vstd::prelude::*;
use vstd::string::StringExecFns;

verus! {

/// The status of an answer that carries what was asked for.
pub const STATUS_OK: u16 = 200;

/// The status of an answer to a path where nothing is.
pub const STATUS_NOT_FOUND: u16 = 404;

/// The status of an answer to a path that could not be read.
pub const STATUS_INTERNAL_SERVER_ERROR: u16 = 500;

/// One entry of a directory listing.
#[derive(Debug)]
pub struct ServeFile {
    /// The entry's name within its directory.
    pub name: String,
    /// The path that the entry is served under.
    pub path: String,
}

/// The path that the entry `name` of the directory served under `pathname` is
/// served under. The root directory has the empty `pathname`.
pub open spec fn entry_path(pathname: Seq<char>, name: Seq<char>) -> Seq<char> {
    if pathname.len() == 0 {
        "/"@ + name
    } else {
        "/"@ + pathname + "/"@ + name
    }
}

/// The listing entry for `name` in the directory served under `pathname`.
pub fn serve_file(pathname: &str, name: &str) -> (file: ServeFile)
    ensures
        file.name@ == name@,
        file.path@ == entry_path(pathname@, name@),
{
    let prefix = if pathname.is_empty() {
        String::new()
    } else {
        String::from_str("/").concat(pathname)
    };
    let path = prefix.concat("/").concat(name);
    proof {
        if pathname@.len() == 0 {
            assert(path@ =~= "/"@ + name@);
        } else {
            assert(path@ =~= "/"@ + pathname@ + "/"@ + name@);
        }
    }
    ServeFile { name: String::from_str(name), path }
}

/// What the file system gave for a path.
#[derive(Debug)]
pub enum Found {
    /// Nothing is there.
    Missing,
    /// A file, with its contents as text, or the reason why it was not read.
    File(Result<String, String>),
    /// A directory, with its listing as HTML, or the reason why it was not
    /// listed.
    Directory(Result<String, String>),
}

/// An answer of the server.
#[derive(Debug)]
pub struct Reply {
    /// The HTTP status.
    pub status: u16,
    /// The content type, where the body is what was asked for.
    pub content_type: Option<&'static str>,
    /// The body.
    pub body: String,
}

/// The body of the answer to a path where nothing is.
pub open spec fn not_found_body(path: Seq<char>) -> Seq<char> {
    "File "@ + path + " not found"@
}

/// The body of the answer to a path that could not be read.
pub open spec fn error_body(reason: Seq<char>) -> Seq<char> {
    "Error: "@ + reason
}

/// Whether `reply` is the answer to a request for `path`, given what the
/// file system gave for it.
pub open spec fn answers(reply: Reply, path: Seq<char>, found: Found) -> bool {
    match found {
        Found::Missing => {
            &&& reply.status == STATUS_NOT_FOUND
            &&& reply.content_type is None
            &&& reply.body@ == not_found_body(path)
        },
        Found::File(Ok(content)) => {
            &&& reply.status == STATUS_OK
            &&& reply.content_type matches Some(t)
            &&& t@ == "text/plain"@
            &&& reply.body@ == content@
        },
        Found::Directory(Ok(listing)) => {
            &&& reply.status == STATUS_OK
            &&& reply.content_type matches Some(t)
            &&& t@ == "text/html"@
            &&& reply.body@ == listing@
        },
        Found::File(Err(reason)) | Found::Directory(Err(reason)) => {
            &&& reply.status == STATUS_INTERNAL_SERVER_ERROR
            &&& reply.content_type is None
            &&& reply.body@ == error_body(reason@)
        },
    }
}

/// The answer to a request for `path`: a file as plain text, a directory as
/// HTML, a failure to read as a server error, nothing as not found.
pub fn file_reply(path: &str, found: Found) -> (reply: Reply)
    ensures
        answers(reply, path@, found),
{
    match found {
        Found::Missing => Reply {
            status: STATUS_NOT_FOUND,
            content_type: None,
            body: String::from_str("File ").concat(path).concat(" not found"),
        },
        Found::File(Ok(content)) => Reply {
            status: STATUS_OK,
            content_type: Some("text/plain"),
            body: content,
        },
        Found::Directory(Ok(listing)) => Reply {
            status: STATUS_OK,
            content_type: Some("text/html"),
            body: listing,
        },
        Found::File(Err(reason)) => Reply {
            status: STATUS_INTERNAL_SERVER_ERROR,
            content_type: None,
            body: String::from_str("Error: ").concat(reason.as_str()),
        },
        Found::Directory(Err(reason)) => Reply {
            status: STATUS_INTERNAL_SERVER_ERROR,
            content_type: None,
            body: String::from_str("Error: ").concat(reason.as_str()),
        },
    }
}

} // verus!
