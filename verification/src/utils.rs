//! Text-sink abstraction and small result helpers shared by the emitter.

use vstd::prelude::*;
use vstd::string::StringExecFns;

verus! {

/// Error returned when a text sink rejects a write. Once a sink has rejected
/// a write, the text already handed to it must be considered corrupt.
#[derive(Debug, Clone, Copy, PartialEq, Eq, Structural)]
pub struct WriteError;

impl WriteError {
    /// A human-readable description of the failure.
    pub fn message(&self) -> (r: &'static str)
        ensures
            r@ == "the text sink rejected a write"@,
    {
        "the text sink rejected a write"
    }
}

/// A sink accepting UTF-8 text. Emission is unbuffered: every write lands in
/// the sink at the point of the call, so observed text order is call order.
pub trait WriteStr {
    /// The text the sink has accepted so far.
    spec fn contents(&self) -> Seq<char>;

    /// Whether the sink accepts every write. A sink that is reliable never
    /// returns `WriteError` and stays reliable.
    spec fn reliable(&self) -> bool;

    /// Appends `s` to the sink.
    fn write_str(&mut self, s: &str) -> (r: Result<(), WriteError>)
        ensures
            r is Ok ==> final(self).contents() == old(self).contents() + s@,
            final(self).reliable() == old(self).reliable(),
            old(self).reliable() ==> r is Ok,
    ;
}

/// A sink that accumulates all text in a `String`; its writes never fail.
pub struct StringWriter(pub String);

impl WriteStr for StringWriter {
    open spec fn contents(&self) -> Seq<char> {
        self.0@
    }

    open spec fn reliable(&self) -> bool {
        true
    }

    fn write_str(&mut self, s: &str) -> (r: Result<(), WriteError>) {
        self.0.append(s);
        Ok(())
    }
}

impl StringWriter {
    /// An empty sink.
    pub fn new() -> (w: StringWriter)
        ensures
            w.0@ == Seq::<char>::empty(),
    {
        StringWriter(String::new())
    }

    /// Appends `s`; unlike the trait method, this never fails.
    pub fn push_str(&mut self, s: &str)
        ensures
            final(self).0@ == old(self).0@ + s@,
    {
        self.0.append(s);
    }
}

/// Extension methods for `Result`.
pub trait ResultExt<T>: Sized {
    /// The success value, if any.
    spec fn spec_ok(self) -> Option<T>;

    /// The text the error is rendered to.
    spec fn spec_err_string(self) -> Seq<char>;

    /// Turns the error into a `String`.
    fn err_to_string(self) -> (r: Result<T, String>)
        ensures
            match r {
                Ok(v) => self.spec_ok() == Some(v),
                Err(e) => self.spec_ok() is None && e@ == self.spec_err_string(),
            },
    ;
}

impl<T> ResultExt<T> for Result<T, WriteError> {
    open spec fn spec_ok(self) -> Option<T> {
        match self {
            Ok(v) => Some(v),
            Err(_) => None,
        }
    }

    open spec fn spec_err_string(self) -> Seq<char> {
        "the text sink rejected a write"@
    }

    fn err_to_string(self) -> (r: Result<T, String>) {
        match self {
            Ok(v) => Ok(v),
            Err(e) => Err(String::from_str(e.message())),
        }
    }
}

/// Combines the streams of a C compiler's version query into the final
/// outcome: the collected text is the answer on success and the diagnostic on
/// failure.
pub fn cc_version_outcome(out: String, stderr: &str, success: bool) -> (r: Result<String, String>)
    ensures
        success ==> (r matches Ok(s) && s@ == out@ + stderr@),
        !success ==> (r matches Err(s) && s@ == out@ + stderr@),
{
    let mut combined = out;
    combined.append(stderr);
    if success {
        Ok(combined)
    } else {
        Err(combined)
    }
}

} // verus!
