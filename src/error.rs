use vstd::prelude::*;

verus! {

/// Failures reported by the hotkey library.
#[derive(Debug, Clone, PartialEq, Eq)]
pub enum Error {
    /// A key combination could not be parsed.
    InvalidKey(String),
    /// Registering or releasing a hotkey failed.
    HotkeyOperation(String),
    /// Communication with the peer failed.
    Ipc(String),
    /// An operating-system input or output operation failed.
    Io(String),
    /// A message could not be encoded or decoded.
    Serialization(String),
}

/// The text that precedes an error's detail when it is displayed.
pub open spec fn error_prefix(e: Error) -> Seq<char> {
    match e {
        Error::InvalidKey(_) => "Invalid key: "@,
        Error::HotkeyOperation(_) => "Hotkey error: "@,
        Error::Ipc(_) => "IPC error: "@,
        Error::Io(_) => "IO error: "@,
        Error::Serialization(_) => "Serialization error: "@,
    }
}

/// The detail carried by an error.
pub open spec fn error_detail(e: Error) -> Seq<char> {
    match e {
        Error::InvalidKey(s) => s@,
        Error::HotkeyOperation(s) => s@,
        Error::Ipc(s) => s@,
        Error::Io(s) => s@,
        Error::Serialization(s) => s@,
    }
}

impl Error {
    /// The human-readable form of the error.
    pub fn message(&self) -> (r: String)
        ensures
            r@ == error_prefix(*self) + error_detail(*self),
    {
        let (prefix, detail) = match self {
            Error::InvalidKey(s) => ("Invalid key: ", s),
            Error::HotkeyOperation(s) => ("Hotkey error: ", s),
            Error::Ipc(s) => ("IPC error: ", s),
            Error::Io(s) => ("IO error: ", s),
            Error::Serialization(s) => ("Serialization error: ", s),
        };
        String::from_str(prefix).concat(detail.as_str())
    }
}

} // verus!
