use vstd::prelude::*;

verus! {

/// Operation succeeded.
pub const NGX_OK: isize = 0;

/// Operation failed.
pub const NGX_ERROR: isize = -1;

/// Operation incomplete; call the function again.
pub const NGX_AGAIN: isize = -2;

/// Resource is not available.
pub const NGX_BUSY: isize = -3;

/// Operation complete or continued elsewhere. Also used as an alternative success code.
pub const NGX_DONE: isize = -4;

/// Operation rejected, for example, because it is disabled in the configuration.
pub const NGX_DECLINED: isize = -5;

/// Function was aborted. Also used as an alternative error code.
pub const NGX_ABORT: isize = -6;

/// Rust native wrapper for nginx status codes.
#[derive(PartialEq, Eq, Structural, PartialOrd, Ord, Clone, Copy, Debug)]
pub struct Status(pub isize);

impl Status {
    /// Is this status equivalent to `NGX_OK`?
    pub fn is_ok(&self) -> (r: bool)
        ensures
            r == (self.0 == NGX_OK),
    {
        self.0 == NGX_OK
    }

    /// The raw nginx code carried by this status.
    pub fn code(self) -> (r: isize)
        ensures
            r == self.0,
    {
        self.0
    }
}

/// Converts an nginx status code to an `Option`: `NGX_ERROR` becomes `None`,
/// every other code is kept.
pub fn ngx_make_opt(code: isize) -> (r: Option<isize>)
    ensures
        code != NGX_ERROR ==> r == Some(code),
        code == NGX_ERROR ==> r.is_none(),
{
    if code != NGX_ERROR {
        Some(code)
    } else {
        None
    }
}

} // verus!
