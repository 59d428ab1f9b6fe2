//! Native errors as typed, classified error values.

use crate::foreign::ForeignCall;
use crate::handle::Handle;
use vstd::prelude::*;
use vstd::string::*;

verus! {

/// The coarse kinds into which native errors are classified by their message.
#[derive(Debug, Clone, Copy, PartialEq, Eq, Structural, Hash)]
pub enum ErrorKind {
    /// A frame did not arrive within the given time.
    Timeout,
    /// The object has no such option.
    UnsupportedOption,
    /// Any other failure of the native runtime.
    Other,
}

/// The words a timeout's message starts with.
pub open spec fn timeout_prefix() -> Seq<char> {
    "Frame didn't arrive within "@
}

/// The words with which the message of an unsupported option starts.
pub open spec fn unsupported_option_prefix() -> Seq<char> {
    "object doesn't support option #"@
}

/// The kind of a native error, read off the start of its message.
pub open spec fn classify_spec(message: Seq<char>) -> ErrorKind {
    if timeout_prefix().is_prefix_of(message) {
        ErrorKind::Timeout
    } else if unsupported_option_prefix().is_prefix_of(message) {
        ErrorKind::UnsupportedOption
    } else {
        ErrorKind::Other
    }
}

/// Whether `text` starts with `prefix`, character by character.
pub fn starts_with(text: &str, prefix: &str) -> (found: bool)
    ensures
        found == prefix@.is_prefix_of(text@),
{
    let n = prefix.unicode_len();
    let m = text.unicode_len();
    if n > m {
        return false;
    }
    let mut i: usize = 0;
    while i < n
        invariant
            i <= n,
            n == prefix@.len(),
            m == text@.len(),
            n <= m,
            forall|j: int| 0 <= j < i ==> prefix@[j] == text@[j],
        decreases n - i,
    {
        if prefix.get_char(i) != text.get_char(i) {
            return false;
        }
        i += 1;
    }
    true
}

/// Classifies a native error by the start of its message.
pub fn classify(message: &str) -> (kind: ErrorKind)
    ensures
        kind == classify_spec(message@),
{
    if starts_with(message, "Frame didn't arrive within ") {
        ErrorKind::Timeout
    } else if starts_with(message, "object doesn't support option #") {
        ErrorKind::UnsupportedOption
    } else {
        ErrorKind::Other
    }
}

/// A message is classified by the words it starts with: as a timeout exactly
/// when it starts with the timeout's words, as an unsupported option exactly
/// when it starts with that error's words, and as another failure otherwise.
/// No message starts with both.
pub proof fn lemma_classification_by_prefix(message: Seq<char>)
    ensures
        classify_spec(message) == ErrorKind::Timeout <==> timeout_prefix().is_prefix_of(message),
        classify_spec(message) == ErrorKind::UnsupportedOption
            <==> unsupported_option_prefix().is_prefix_of(message),
        classify_spec(message) == ErrorKind::Other <==> !timeout_prefix().is_prefix_of(message)
            && !unsupported_option_prefix().is_prefix_of(message),
{
    reveal_strlit("Frame didn't arrive within ");
    reveal_strlit("object doesn't support option #");
    if timeout_prefix().is_prefix_of(message) && unsupported_option_prefix().is_prefix_of(
        message,
    ) {
        assert(timeout_prefix()[0] == 'F');
        assert(unsupported_option_prefix()[0] == 'o');
    }
}

/// An error of this layer: a local failure to convert a string, or a native
/// error, classified, together with the native resource that it owns.
#[derive(Debug, PartialEq, Eq)]
pub enum Error {
    /// A string could not be handed to the native runtime.
    ToCStrConversion(&'static str),
    /// A frame did not arrive in time.
    Timeout { error: Handle, message: String },
    /// The object has no such option.
    UnsupportedOption { error: Handle, message: String },
    /// Any other native failure.
    Other { error: Handle, message: String },
}

impl Error {
    /// The native error that this value owns, if it owns one.
    pub open spec fn ptr_spec(&self) -> Option<Handle> {
        match self {
            Error::ToCStrConversion(_) => None,
            Error::Timeout { error, .. } => Some(*error),
            Error::UnsupportedOption { error, .. } => Some(*error),
            Error::Other { error, .. } => Some(*error),
        }
    }

    /// The message of this error.
    pub open spec fn message_spec(&self) -> Seq<char> {
        match self {
            Error::ToCStrConversion(reason) => reason@,
            Error::Timeout { message, .. } => message@,
            Error::UnsupportedOption { message, .. } => message@,
            Error::Other { message, .. } => message@,
        }
    }

    /// The kind of a native error; `None` for a local failure.
    pub open spec fn kind_spec(&self) -> Option<ErrorKind> {
        match self {
            Error::ToCStrConversion(_) => None,
            Error::Timeout { .. } => Some(ErrorKind::Timeout),
            Error::UnsupportedOption { .. } => Some(ErrorKind::UnsupportedOption),
            Error::Other { .. } => Some(ErrorKind::Other),
        }
    }

    /// The message of this error: that of the native error, or the reason of
    /// the local failure.
    pub fn error_message(&self) -> (message: &str)
        ensures
            message@ == self.message_spec(),
    {
        match self {
            Error::ToCStrConversion(reason) => reason,
            Error::Timeout { message, .. } => message.as_str(),
            Error::UnsupportedOption { message, .. } => message.as_str(),
            Error::Other { message, .. } => message.as_str(),
        }
    }

    /// The native error that this value owns, if it owns one.
    pub fn ptr(&self) -> (error: Option<Handle>)
        ensures
            error == self.ptr_spec(),
    {
        match self {
            Error::ToCStrConversion(_) => None,
            Error::Timeout { error, .. } => Some(*error),
            Error::UnsupportedOption { error, .. } => Some(*error),
            Error::Other { error, .. } => Some(*error),
        }
    }

    /// The kind of a native error; `None` for a local failure.
    pub fn kind(&self) -> (kind: Option<ErrorKind>)
        ensures
            kind == self.kind_spec(),
    {
        match self {
            Error::ToCStrConversion(_) => None,
            Error::Timeout { .. } => Some(ErrorKind::Timeout),
            Error::UnsupportedOption { .. } => Some(ErrorKind::UnsupportedOption),
            Error::Other { .. } => Some(ErrorKind::Other),
        }
    }

    /// Gives up the native error to the caller, who from now on owes its
    /// release. A local failure owns none.
    pub fn into_raw(self) -> (error: Option<Handle>)
        ensures
            error == self.ptr_spec(),
    {
        self.ptr()
    }

    /// The call that is owed when this value is destroyed: the native error is
    /// freed, once, if the value owns one.
    pub fn release(&self) -> (call: Option<ForeignCall>)
        ensures
            call == (match self.ptr_spec() {
                Some(error) => Some(ForeignCall::FreeError { error }),
                None => None,
            }),
    {
        match self.ptr() {
            Some(error) => Some(ForeignCall::FreeError { error }),
            None => None,
        }
    }
}

/// The error slot of one foreign call. The call may leave a native error in
/// it; `check` consumes the slot and says what it held.
#[derive(Debug)]
pub struct ErrorChecker {
    slot: Option<Handle>,
}

impl ErrorChecker {
    /// The native error that the call left, if any.
    pub closed spec fn slot(&self) -> Option<Handle> {
        self.slot
    }

    /// An empty slot.
    pub fn new() -> (checker: ErrorChecker)
        ensures
            checker.slot() is None,
    {
        ErrorChecker { slot: None }
    }

    /// Stores what the foreign call wrote into its error slot: the address of
    /// a native error, or null.
    pub fn record(&mut self, raw: usize)
        ensures
            raw == 0 ==> final(self).slot() is None,
            raw != 0 ==> final(self).slot() is Some && final(self).slot().unwrap().addr_spec()
                == raw,
    {
        self.slot = Handle::new(raw);
    }

    /// The call that reads the message of the native error in the slot; `None`
    /// while the slot is empty.
    pub fn message_call(&self) -> (call: Option<ForeignCall>)
        ensures
            call == (match self.slot() {
                Some(error) => Some(ForeignCall::GetErrorMessage { error }),
                None => None,
            }),
    {
        match self.slot {
            Some(error) => Some(ForeignCall::GetErrorMessage { error }),
            None => None,
        }
    }

    /// Looks at the slot. An empty slot is success. A native error is
    /// classified by `message`, the text read from it, and from then on owned
    /// by the returned error value.
    pub fn check(self, message: &str) -> (result: Result<(), Error>)
        ensures
            self.slot() is None <==> result is Ok,
            result matches Err(e) ==> ({
                &&& e.ptr_spec() == self.slot()
                &&& e.message_spec() == message@
                &&& e.kind_spec() == Some(classify_spec(message@))
            }),
    {
        match self.slot {
            None => Ok(()),
            Some(error) => {
                let kind = classify(message);
                let message = String::from_str(message);
                Err(
                    match kind {
                        ErrorKind::Timeout => Error::Timeout { error, message },
                        ErrorKind::UnsupportedOption => Error::UnsupportedOption {
                            error,
                            message,
                        },
                        ErrorKind::Other => Error::Other { error, message },
                    },
                )
            },
        }
    }
}

} // verus!
