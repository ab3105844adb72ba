use vstd::prelude::*;

verus! {

/// The failures of the library's operations.
#[derive(Debug)]
pub enum Error {
    /// The server was started while one is running.
    AlreadyRunning,
    /// The listening socket could not be bound.
    BindFailure(String),
    /// A candidate address did not answer as a peer.
    PeerUnreachable(String),
    /// No record matched the id.
    NotFound,
    /// A file could not be opened, read or recognised.
    FilesystemError(String),
    /// The catalog's storage failed or holds inconsistent rows.
    CatalogError(String),
    /// A helper command failed.
    CommandExecutionFailure(String),
}

/// The human-readable text of an error.
pub open spec fn error_text(e: Error) -> Seq<char> {
    match e {
        Error::AlreadyRunning => "The server is already running"@,
        Error::BindFailure(d) => "Cannot listen on the peer port: "@ + d@,
        Error::PeerUnreachable(d) => "Peer unreachable: "@ + d@,
        Error::NotFound => "File not found"@,
        Error::FilesystemError(d) => "File system error: "@ + d@,
        Error::CatalogError(d) => "Catalog error: "@ + d@,
        Error::CommandExecutionFailure(d) => "Command ran and returned error: "@ + d@,
    }
}

impl Error {
    /// The human-readable text of this error.
    pub fn message(&self) -> (r: String)
        ensures
            r@ == error_text(*self),
    {
        match self {
            Error::AlreadyRunning => "The server is already running".to_owned(),
            Error::BindFailure(d) => "Cannot listen on the peer port: ".to_owned().concat(
                d.as_str(),
            ),
            Error::PeerUnreachable(d) => "Peer unreachable: ".to_owned().concat(d.as_str()),
            Error::NotFound => "File not found".to_owned(),
            Error::FilesystemError(d) => "File system error: ".to_owned().concat(d.as_str()),
            Error::CatalogError(d) => "Catalog error: ".to_owned().concat(d.as_str()),
            Error::CommandExecutionFailure(d) => "Command ran and returned error: ".to_owned().concat(
                d.as_str(),
            ),
        }
    }
}

} // verus!
