//! Transport failures.

use vstd::prelude::*;

verus! {

/// Why a transport failed.
#[derive(Debug, Clone, PartialEq, Eq)]
#[non_exhaustive]
pub enum TransportError {
    /// The port could not be opened.
    Open {
        /// What was being opened.
        path: String,
        /// Why it failed.
        reason: String,
    },
    /// A read or write failed.
    Io {
        /// Which operation.
        operation: &'static str,
        /// Why it failed.
        reason: String,
    },
    /// The other end went away.
    Closed,
}

impl TransportError {
    /// The sentence that reports this error.
    pub open spec fn message(self) -> Seq<char> {
        match self {
            TransportError::Open { path, reason } => "cannot open "@ + path@ + ": "@ + reason@,
            TransportError::Io { operation, reason } => operation@ + " failed: "@ + reason@,
            TransportError::Closed => "the transport closed"@,
        }
    }

    /// This error as one sentence.
    pub fn to_string(&self) -> (res: String)
        ensures
            res@ == self.message(),
    {
        let mut out = String::new();
        match self {
            TransportError::Open { path, reason } => {
                out.append("cannot open ");
                out.append(path.as_str());
                out.append(": ");
                out.append(reason.as_str());
            },
            TransportError::Io { operation, reason } => {
                out.append(operation);
                out.append(" failed: ");
                out.append(reason.as_str());
            },
            TransportError::Closed => {
                out.append("the transport closed");
            },
        }
        proof {
            assert(out@ =~= self.message());
        }
        out
    }
}

} // verus!
