//! The errors that the layer reports.

use vstd::prelude::*;
use vstd::string::StringExecFns;

verus! {

/// Why an operation of the layer was refused.
#[derive(Debug)]
pub enum Error {
    /// A text handed to the native library held a zero byte.
    Nul,
    /// The named subsystem has not been turned on yet.
    SubsystemNotInitialized(&'static str),
    /// The named subsystem was turned on a second time.
    SubsystemAlreadyInitialized(&'static str),
    /// A native loader returned a value that its validity check refused.
    UnableToLoad(&'static str),
    /// A text that came from the native library was not UTF-8.
    Utf8,
    /// Reading or writing a file failed.
    Io,
    /// The named lock is already held.
    ThreadAlreadyLocked(&'static str),
    /// The operation is not implemented for the target surface.
    OperationNotSupported { verb: &'static str, noun: &'static str },
    /// Any other failure, with its message.
    Generic(String),
}

impl Error {
    /// `SubsystemNotInitialized` of the subsystem called `name`.
    pub open spec fn is_not_initialized(&self, name: Seq<char>) -> bool {
        self matches Error::SubsystemNotInitialized(n) && n@ == name
    }

    /// `SubsystemAlreadyInitialized` of the subsystem called `name`.
    pub open spec fn is_already_initialized(&self, name: Seq<char>) -> bool {
        self matches Error::SubsystemAlreadyInitialized(n) && n@ == name
    }

    /// `UnableToLoad` of the resource kind called `name`.
    pub open spec fn is_unable_to_load(&self, name: Seq<char>) -> bool {
        self matches Error::UnableToLoad(n) && n@ == name
    }

    /// `ThreadAlreadyLocked` of the lock called `name`.
    pub open spec fn is_already_locked(&self, name: Seq<char>) -> bool {
        self matches Error::ThreadAlreadyLocked(n) && n@ == name
    }

    /// `OperationNotSupported` with the given verb and noun.
    pub open spec fn is_not_supported(&self, verb: Seq<char>, noun: Seq<char>) -> bool {
        self matches Error::OperationNotSupported { verb: v, noun: n } && v@ == verb && n@ == noun
    }
}

impl Error {
    /// The text of the error, for a reader.
    pub open spec fn spec_message(&self) -> Seq<char> {
        match self {
            Error::Nul => "text holds a zero byte"@,
            Error::SubsystemNotInitialized(name) => name@ + " subsystem has not yet been initialized"@,
            Error::SubsystemAlreadyInitialized(name) => name@
                + " subsystem has already been initialized"@,
            Error::UnableToLoad(kind) => "Unable to load "@ + kind@,
            Error::Utf8 => "text is not valid UTF-8"@,
            Error::Io => "reading or writing failed"@,
            Error::ThreadAlreadyLocked(name) => "Can't acquire "@ + name@
                + " lock as another thread already holds it"@,
            Error::OperationNotSupported { verb, noun } => verb@ + " operation not supported by "@
                + noun@,
            Error::Generic(text) => text@,
        }
    }

    pub fn message(&self) -> (r: String)
        ensures
            r@ == self.spec_message(),
    {
        match self {
            Error::Nul => String::from_str("text holds a zero byte"),
            Error::SubsystemNotInitialized(name) => {
                let mut text = String::from_str(name);
                text.append(" subsystem has not yet been initialized");
                text
            },
            Error::SubsystemAlreadyInitialized(name) => {
                let mut text = String::from_str(name);
                text.append(" subsystem has already been initialized");
                text
            },
            Error::UnableToLoad(kind) => {
                let mut text = String::from_str("Unable to load ");
                text.append(kind);
                text
            },
            Error::Utf8 => String::from_str("text is not valid UTF-8"),
            Error::Io => String::from_str("reading or writing failed"),
            Error::ThreadAlreadyLocked(name) => {
                let mut text = String::from_str("Can't acquire ");
                text.append(name);
                text.append(" lock as another thread already holds it");
                text
            },
            Error::OperationNotSupported { verb, noun } => {
                let mut text = String::from_str(verb);
                text.append(" operation not supported by ");
                text.append(noun);
                text
            },
            Error::Generic(text) => text.clone(),
        }
    }
}

impl From<String> for Error {
    fn from(text: String) -> (r: Error)
    {
        Error::Generic(text)
    }
}

impl vstd::std_specs::convert::FromSpecImpl<String> for Error {
    open spec fn obeys_from_spec() -> bool {
        true
    }

    open spec fn from_spec(text: String) -> Error {
        Error::Generic(text)
    }
}

impl<'a> From<&'a str> for Error {
    /// An error with `text` as its message.
    fn from(text: &'a str) -> (r: Error)
        ensures
            r matches Error::Generic(message) && message@ == text@,
    {
        Error::Generic(text.to_owned())
    }
}

impl<'a> vstd::std_specs::convert::FromSpecImpl<&'a str> for Error {
    /// The result is a new text, of which only its characters are
    /// stated: see `from`.
    open spec fn obeys_from_spec() -> bool {
        false
    }

    open spec fn from_spec(text: &'a str) -> Error {
        arbitrary()
    }
}

pub type Result<T> = std::result::Result<T, Error>;

} // verus!
