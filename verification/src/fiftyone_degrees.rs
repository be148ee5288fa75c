//! Value-typed model of the foreign collaborator's call protocol: the
//! out-of-band exception object, the status codes, and the prefix tags that
//! classify evidence sources.

use vstd::prelude::*;

verus! {

/// Status code of an exception slot that no foreign call has written to:
/// the collaborator's "not set" member of its status enumeration.  The
/// boundary layer maps the native enumeration onto these values when it
/// copies an exception out.
pub const STATUS_NOT_SET: u32 = 7;

/// Status value the foreign initializer returns on success.
pub const EXIT_SUCCESS: u32 = 0;

/// Prefix tag for evidence taken from an HTTP header value.
pub const EVIDENCE_PREFIX_HEADER_STRING: u32 = 1;

/// Prefix tag for evidence taken from a header holding IP addresses.
pub const EVIDENCE_PREFIX_HEADER_IP_ADDRESSES: u32 = 2;

/// Prefix tag for evidence supplied by the server itself.
pub const EVIDENCE_PREFIX_SERVER: u32 = 4;

/// Prefix tag for evidence taken from a query parameter.
pub const EVIDENCE_PREFIX_QUERY: u32 = 8;

/// Prefix tag for evidence taken from a cookie.
pub const EVIDENCE_PREFIX_COOKIE: u32 = 16;

/// A value-typed snapshot of the foreign call's out-parameter exception.
///
/// A fresh slot is produced before each foreign call that accepts one; a
/// status equal to [`STATUS_NOT_SET`] after the call means success, any
/// other value is an error.  `file`, `func` and `line` locate where the
/// collaborator raised the exception, when it reported them.
#[derive(Debug)]
pub struct Exception {
    pub status: u32,
    pub file: Option<String>,
    pub func: Option<String>,
    pub line: i32,
}

impl Exception {
    /// The exception slot was never written: the foreign call succeeded.
    pub open spec fn spec_is_ok(&self) -> bool {
        self.status == STATUS_NOT_SET
    }

    /// True exactly when no exception fired: the status still reads "not set".
    #[verifier::when_used_as_spec(spec_is_ok)]
    pub fn is_ok(&self) -> (r: bool)
        ensures
            r == self.spec_is_ok(),
    {
        self.status == STATUS_NOT_SET
    }
}

impl Default for Exception {
    /// A fresh exception slot, as handed to a foreign call: status "not
    /// set", no source location.
    fn default() -> (r: Self)
        ensures
            r.spec_is_ok(),
            r.status == STATUS_NOT_SET,
            r.file is None,
            r.func is None,
            r.line == -1,
    {
        Exception { status: STATUS_NOT_SET, file: None, func: None, line: -1 }
    }
}

} // verus!
