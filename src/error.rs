//! Errors of the library: a kind, carrying a message.
use vstd::prelude::*;

verus! {

broadcast use vstd::string::group_string_axioms;

/// Error of the library, by kind, each carrying a payload (a message).
#[derive(Debug, Clone, PartialEq)]
pub enum RanError<T> {
    /// The wrapped random data is not of the type asked for.
    Type(T),
    /// Requested dimensions are zero or too small.
    Dimensions(T),
    /// An inclusive range is empty, or too wide to be sampled.
    Range(T),
    /// Another failure, converted.
    Other(T),
}

/// Error with a message payload.
pub type Re = RanError<String>;

impl<T> RanError<T> {
    /// True of the `Dimensions` kind.
    pub open spec fn is_dimensions(&self) -> bool {
        self is Dimensions
    }

    /// True of the `Range` kind.
    pub open spec fn is_range(&self) -> bool {
        self is Range
    }

    /// True of the `Type` kind.
    pub open spec fn is_type(&self) -> bool {
        self is Type
    }
}

/// Builds an `Err` of the kind named by `kind` ("type", "dimensions",
/// "range" or "other") with the message `msg`; an unknown kind gives an
/// `Other` error that says so.
pub fn rerror<T>(kind: &str, msg: String) -> (r: Result<T, Re>)
    ensures
        kind@ == "type"@ ==> (r matches Err(RanError::Type(m)) && m@ == msg@),
        kind@ == "dimensions"@ ==> (r matches Err(RanError::Dimensions(m)) && m@ == msg@),
        kind@ == "range"@ ==> (r matches Err(RanError::Range(m)) && m@ == msg@),
        kind@ == "other"@ ==> (r matches Err(RanError::Other(m)) && m@ == msg@),
        kind@ != "type"@ && kind@ != "dimensions"@ && kind@ != "range"@ && kind@ != "other"@
            ==> r matches Err(RanError::Other(_)),
{
    proof {
        reveal_strlit("type");
        reveal_strlit("dimensions");
        reveal_strlit("range");
        reveal_strlit("other");
        assert("range"@[0] != "other"@[0]);
        assert("type"@.len() != "range"@.len());
    }
    let k = kind.to_string();
    if k == "type".to_string() {
        Err(RanError::Type(msg))
    } else if k == "dimensions".to_string() {
        Err(RanError::Dimensions(msg))
    } else if k == "range".to_string() {
        Err(RanError::Range(msg))
    } else if k == "other".to_string() {
        Err(RanError::Other(msg))
    } else {
        Err(RanError::Other("Wrong error kind given to rerror".to_string()))
    }
}


/// Relies on `format!` with std's `Display` of `usize`: the name of the
/// operation followed by the two dimensions, for a `Dimensions` message.
#[verifier::external_body]
pub(crate) fn dims_message(op: &str, a: usize, b: usize) -> (r: String) {
    format!("{op}: {a} {b}")
}

} // verus!
