use vstd::prelude::*;

verus! {

use vstd::string::StringExecFns;

/// The failures that extraction can surface to a caller.
///
/// `InvalidSelector` carries the exact selector text that failed to
/// compile; `RequestError` carries the transport's message; `Other` is a
/// reserved catch-all that no extraction path produces.
#[derive(Debug)]
pub enum ScraperError {
    InvalidSelector(String),
    RequestError(String),
    Other(String),
}

impl ScraperError {
    /// The human-readable description of the failure, naming its kind and
    /// carrying its associated text.
    pub fn message(&self) -> (r: String)
        ensures
            self matches ScraperError::InvalidSelector(t) ==> r@ == "Invalid selector: "@ + t@,
            self matches ScraperError::RequestError(t) ==> r@ == "HTTP request error: "@ + t@,
            self matches ScraperError::Other(t) ==> r@ == "Other error: "@ + t@,
    {
        match self {
            ScraperError::InvalidSelector(t) => {
                let mut s: String = "Invalid selector: ".to_owned();
                s.append(t.as_str());
                s
            },
            ScraperError::RequestError(t) => {
                let mut s: String = "HTTP request error: ".to_owned();
                s.append(t.as_str());
                s
            },
            ScraperError::Other(t) => {
                let mut s: String = "Other error: ".to_owned();
                s.append(t.as_str());
                s
            },
        }
    }
}

} // verus!
