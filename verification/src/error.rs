//! The error a failed parse reports: which kind of identifier was wanted and
//! what its string form was expected to look like.

use vstd::prelude::*;

verus! {

/// A recoverable parse failure. `typename` is the display name of the
/// identifier kind the caller asked for; `expected` describes the accepted
/// string forms, naming every accepted prefix.
#[derive(Debug)]
pub struct ParseIdError {
    pub typename: String,
    pub expected: String,
}

impl Clone for ParseIdError {
    fn clone(&self) -> (r: Self)
        ensures
            r.typename@ == self.typename@,
            r.expected@ == self.expected@,
    {
        ParseIdError { typename: self.typename.clone(), expected: self.expected.clone() }
    }
}

impl ParseIdError {
    /// The full human-readable report, built from the two fields.
    pub fn message(&self) -> (m: String)
        ensures
            m@ == "invalid `"@ + self.typename@ + "`, expected "@ + self.expected@,
    {
        let mut m = String::new();
        m.append("invalid `");
        m.append(self.typename.as_str());
        m.append("`, expected ");
        m.append(self.expected.as_str());
        proof {
            assert(m@ =~= "invalid `"@ + self.typename@ + "`, expected "@ + self.expected@);
        }
        m
    }
}

} // verus!
