use vstd::prelude::*;

verus! {

/// Which part of the boundary a failure comes from.
#[derive(Debug, Clone, Copy, PartialEq, Eq, Structural)]
pub enum ErrorKind {
    /// The engine returned a negative status.
    Native,
    /// A path or string could not be handed to the engine.
    Encoding,
    /// A revision expression parsed to a shape this layer does not handle.
    UnsupportedRevspec,
}

/// The engine's last-error slot, as read right after a failed call.
#[derive(Debug, Clone)]
pub struct LastError {
    pub klass: i32,
    pub message: String,
}

/// A failure reported to callers.
#[derive(Debug, Clone)]
pub struct Error {
    pub kind: ErrorKind,
    /// The engine's status code (negative), or `GENERIC_CODE` for failures
    /// found on this side of the boundary.
    pub code: i32,
    /// The engine's error class, `CLASS_NONE` when none was reported.
    pub klass: i32,
    pub message: Option<String>,
}

/// The engine's generic failure status.
pub const GENERIC_CODE: i32 = -1;

/// The engine's error class for "no class".
pub const CLASS_NONE: i32 = 0;

/// The engine's error class for invalid input.
pub const CLASS_INVALID: i32 = 3;

impl Error {
    pub open spec fn is_native(self, code: int) -> bool {
        &&& self.kind == ErrorKind::Native
        &&& self.code == code
    }

    /// This is the error for a failed native call with status `code`, with
    /// the class and message that the engine left in `last`.
    pub open spec fn reports(self, code: int, last: Option<LastError>) -> bool {
        &&& self.is_native(code)
        &&& self.klass == (match last {
            Some(l) => l.klass,
            None => CLASS_NONE,
        })
        &&& self.message == (match last {
            Some(l) => Some(l.message),
            None => None::<String>,
        })
    }

    /// The error for a failed native call with status `code`, carrying what
    /// the engine left in its last-error slot.
    pub fn from_native(code: i32, last: Option<LastError>) -> (e: Error)
        ensures
            e.reports(code as int, last),
    {
        match last {
            Some(l) => Error { kind: ErrorKind::Native, code, klass: l.klass, message: Some(l.message) },
            None => Error { kind: ErrorKind::Native, code, klass: CLASS_NONE, message: None },
        }
    }

    /// An error found on this side of the boundary.
    pub fn local(kind: ErrorKind, klass: i32, message: String) -> (e: Error)
        ensures
            e.kind == kind,
            e.code == GENERIC_CODE,
            e.klass == klass,
            e.message == Some(message),
    {
        Error { kind, code: GENERIC_CODE, klass, message: Some(message) }
    }

    pub fn kind(&self) -> (r: ErrorKind)
        ensures
            r == self.kind,
    {
        self.kind
    }

    pub fn raw_code(&self) -> (r: i32)
        ensures
            r == self.code,
    {
        self.code
    }

    pub fn raw_class(&self) -> (r: i32)
        ensures
            r == self.klass,
    {
        self.klass
    }

    /// The message, or the empty string when the engine gave none.
    pub fn message(&self) -> (r: String)
        ensures
            self.message is Some ==> r@ == self.message->0@,
            self.message is None ==> r@.len() == 0,
    {
        match &self.message {
            Some(m) => m.clone(),
            None => String::new(),
        }
    }
}

/// Translates the integer status of one native call. A status of zero or
/// more is success and is handed back, since some calls return a value that
/// way; a negative one is a failure, described by `last`, which the caller
/// reads from the engine before making any other native call.
pub fn doit(code: i32, last: Option<LastError>) -> (r: Result<i32, Error>)
    ensures
        code >= 0 <==> r is Ok,
        code >= 0 ==> r == Ok::<i32, Error>(code),
        code < 0 ==> r->Err_0.reports(code as int, last),
{
    if code >= 0 {
        Ok(code)
    } else {
        Err(Error::from_native(code, last))
    }
}

/// Translates the status of a native yes/no query that can fail: one
/// means yes, any other non-negative status means no.
pub fn doit_flag(code: i32, last: Option<LastError>) -> (r: Result<bool, Error>)
    ensures
        code >= 0 <==> r is Ok,
        code >= 0 ==> r == Ok::<bool, Error>(code == 1),
        code < 0 ==> r->Err_0.reports(code as int, last),
{
    match doit(code, last) {
        Ok(c) => Ok(c == 1),
        Err(e) => Err(e),
    }
}

/// Reads the answer of a native yes/no query that cannot fail on a valid
/// handle: one means yes.
pub fn native_bool(code: i32) -> (r: bool)
    ensures
        r == (code == 1),
{
    code == 1
}

} // verus!
