//! Sub-requests issued to nginx and awaited through a completion callback.
use vstd::prelude::*;

use crate::status::{NGX_ERROR, NGX_OK};

verus! {

/// The sub-request's output is kept in memory.
pub const NGX_HTTP_SUBREQUEST_IN_MEMORY: usize = 2;

/// The parent is resumed only once the sub-request has completed.
pub const NGX_HTTP_SUBREQUEST_WAITED: usize = 4;

/// The sub-request runs in the background.
pub const NGX_HTTP_SUBREQUEST_BACKGROUND: usize = 16;

/// A builder for creating asynchronous subrequests.
pub struct AsyncSubRequestBuilder {
    uri: String,
    args: Option<String>,
    flags: usize,
}

/// An error type for asynchronous subrequest operations.
#[derive(PartialEq, Eq, Structural, Clone, Copy, Debug)]
pub enum AsyncSubRequestError {
    /// Indicates that the subrequest allocation failed.
    RequestAllocFailed,
    /// Indicates that the post subrequest allocation failed.
    PostRequestAllocFailed,
    /// Indicates that the URI allocation failed.
    UriAllocFailed,
    /// Indicates that the arguments allocation failed.
    ArgsAllocFailed,
    /// Indicates that the subrequest creation failed.
    CreationFailed,
}

impl AsyncSubRequestError {
    /// Human-readable description of the error.
    pub fn message(&self) -> (r: &'static str)
        ensures
            r@ == subrequest_error_message(*self),
    {
        match self {
            AsyncSubRequestError::RequestAllocFailed => "Subrequest allocation failed",
            AsyncSubRequestError::PostRequestAllocFailed => "Post subrequest allocation failed",
            AsyncSubRequestError::UriAllocFailed => "URI allocation failed",
            AsyncSubRequestError::ArgsAllocFailed => "Arguments allocation failed",
            AsyncSubRequestError::CreationFailed => "Subrequest creation failed",
        }
    }
}

/// What `AsyncSubRequestError::message` returns.
pub open spec fn subrequest_error_message(e: AsyncSubRequestError) -> Seq<char> {
    match e {
        AsyncSubRequestError::RequestAllocFailed => "Subrequest allocation failed"@,
        AsyncSubRequestError::PostRequestAllocFailed => "Post subrequest allocation failed"@,
        AsyncSubRequestError::UriAllocFailed => "URI allocation failed"@,
        AsyncSubRequestError::ArgsAllocFailed => "Arguments allocation failed"@,
        AsyncSubRequestError::CreationFailed => "Subrequest creation failed"@,
    }
}

impl AsyncSubRequestBuilder {
    pub closed spec fn spec_uri(&self) -> Seq<char> {
        self.uri@
    }

    pub closed spec fn spec_args(&self) -> Option<Seq<char>> {
        match self.args {
            Some(a) => Some(a@),
            None => None,
        }
    }

    pub closed spec fn spec_flags(&self) -> usize {
        self.flags
    }

    /// Creates a new `AsyncSubRequestBuilder` with the specified URI, no
    /// arguments and no flags.
    pub fn new(uri: &str) -> (r: Self)
        ensures
            r.spec_uri() == uri@,
            r.spec_args().is_none(),
            r.spec_flags() == 0,
    {
        AsyncSubRequestBuilder { uri: uri.to_owned(), args: None, flags: 0 }
    }

    /// Sets the arguments for the subrequest.
    pub fn args(self, args: &str) -> (r: Self)
        ensures
            r.spec_uri() == self.spec_uri(),
            r.spec_args() == Some(args@),
            r.spec_flags() == self.spec_flags(),
    {
        AsyncSubRequestBuilder { uri: self.uri, args: Some(args.to_owned()), flags: self.flags }
    }

    /// Sets the subrequest to be in-memory.
    pub fn in_memory(self) -> (r: Self)
        ensures
            r.spec_uri() == self.spec_uri(),
            r.spec_args() == self.spec_args(),
            r.spec_flags() == self.spec_flags() | NGX_HTTP_SUBREQUEST_IN_MEMORY,
    {
        AsyncSubRequestBuilder {
            uri: self.uri,
            args: self.args,
            flags: self.flags | NGX_HTTP_SUBREQUEST_IN_MEMORY,
        }
    }

    /// Sets the subrequest to be waited.
    pub fn waited(self) -> (r: Self)
        ensures
            r.spec_uri() == self.spec_uri(),
            r.spec_args() == self.spec_args(),
            r.spec_flags() == self.spec_flags() | NGX_HTTP_SUBREQUEST_WAITED,
    {
        AsyncSubRequestBuilder {
            uri: self.uri,
            args: self.args,
            flags: self.flags | NGX_HTTP_SUBREQUEST_WAITED,
        }
    }

    /// Sets the subrequest to be a background request.
    pub fn background(self) -> (r: Self)
        ensures
            r.spec_uri() == self.spec_uri(),
            r.spec_args() == self.spec_args(),
            r.spec_flags() == self.spec_flags() | NGX_HTTP_SUBREQUEST_BACKGROUND,
    {
        AsyncSubRequestBuilder {
            uri: self.uri,
            args: self.args,
            flags: self.flags | NGX_HTTP_SUBREQUEST_BACKGROUND,
        }
    }

    /// The URI of the subrequest.
    pub fn uri(&self) -> (r: &str)
        ensures
            r@ == self.spec_uri(),
    {
        self.uri.as_str()
    }

    /// The arguments of the subrequest, if any were set.
    pub fn arguments(&self) -> (r: Option<&str>)
        ensures
            r.is_some() == self.spec_args().is_some(),
            r matches Some(a) ==> self.spec_args() == Some(a@),
    {
        match &self.args {
            Some(a) => Some(a.as_str()),
            None => None,
        }
    }

    /// The flags handed to nginx when the subrequest is issued.
    pub fn flags(&self) -> (r: usize)
        ensures
            r == self.spec_flags(),
    {
        self.flags
    }

    /// The outcome of issuing the subrequest, given what each of nginx's
    /// steps gave: the first step that failed decides the error, in the
    /// order the steps are taken; the argument copy counts only when
    /// arguments are set. When every step succeeded and nginx answered
    /// `NGX_OK`, the subrequest is issued and no completion is recorded yet.
    pub fn build<W>(&self, issue: &SubRequestIssue) -> (r: Result<AsyncSubRequest<W>, AsyncSubRequestError>)
        ensures
            r == build_spec::<W>(self.spec_args().is_some(), *issue),
    {
        if !issue.state_allocated {
            Err(AsyncSubRequestError::RequestAllocFailed)
        } else if !issue.uri_allocated {
            Err(AsyncSubRequestError::UriAllocFailed)
        } else if self.args.is_some() && !issue.args_allocated {
            Err(AsyncSubRequestError::ArgsAllocFailed)
        } else if !issue.post_allocated {
            Err(AsyncSubRequestError::PostRequestAllocFailed)
        } else if issue.rc != NGX_OK {
            Err(AsyncSubRequestError::CreationFailed)
        } else {
            Ok(AsyncSubRequest::new(Some(issue.subrequest)))
        }
    }
}

/// What nginx's steps gave when a subrequest was issued: the allocation of
/// the shared state, of the URI, of the arguments (when set) and of the
/// post-subrequest handler, then the code of `ngx_http_subrequest` and the
/// subrequest it created. A step after a failed one is not looked at.
#[derive(PartialEq, Eq, Structural, Clone, Copy, Debug)]
pub struct SubRequestIssue {
    pub state_allocated: bool,
    pub uri_allocated: bool,
    pub args_allocated: bool,
    pub post_allocated: bool,
    pub rc: isize,
    pub subrequest: usize,
}

/// The outcome of issuing a subrequest (with arguments or without).
pub open spec fn build_spec<W>(has_args: bool, issue: SubRequestIssue) -> Result<AsyncSubRequest<W>, AsyncSubRequestError> {
    if !issue.state_allocated {
        Err(AsyncSubRequestError::RequestAllocFailed)
    } else if !issue.uri_allocated {
        Err(AsyncSubRequestError::UriAllocFailed)
    } else if has_args && !issue.args_allocated {
        Err(AsyncSubRequestError::ArgsAllocFailed)
    } else if !issue.post_allocated {
        Err(AsyncSubRequestError::PostRequestAllocFailed)
    } else if issue.rc != NGX_OK {
        Err(AsyncSubRequestError::CreationFailed)
    } else {
        Ok(AsyncSubRequest::issued(issue.subrequest))
    }
}

/// The state shared between a subrequest future and nginx's completion
/// callback. `W` is the waker of the task awaiting the subrequest.
pub struct AsyncSubRequest<W> {
    /// The subrequest, while it has not been handed out.
    pub sr: Option<usize>,
    /// The waker of the most recent poll.
    pub waker: Option<W>,
    /// The code the subrequest completed with, once it has.
    pub rc: Option<isize>,
    /// Set once the awaiting task is gone: a late completion is then dropped.
    pub detached: bool,
}

/// What a poll of a subrequest future yields.
pub enum SubRequestPoll {
    Pending,
    /// The completion code, and the subrequest whose output may now be read
    /// (`None` if the subrequest was never created).
    Ready(isize, Option<usize>),
}

impl<W> AsyncSubRequest<W> {
    /// A subrequest that has just been issued (or, with `None`, one that
    /// failed to start).
    pub open spec fn issued(sr: usize) -> Self {
        AsyncSubRequest { sr: Some(sr), waker: None, rc: None, detached: false }
    }

    /// The state after a poll with waker `w`, and what the poll yields.
    pub open spec fn poll_spec(self, w: W) -> (Self, SubRequestPoll) {
        let s = AsyncSubRequest { waker: Some(w), ..self };
        match self.sr {
            None => (s, SubRequestPoll::Ready(NGX_ERROR, None)),
            Some(sr) => match self.rc {
                None => (s, SubRequestPoll::Pending),
                Some(rc) => (AsyncSubRequest { sr: None, ..s }, SubRequestPoll::Ready(rc, Some(sr))),
            },
        }
    }

    /// The state after nginx's completion callback reports `rc`, and the
    /// waker to wake, if any.
    pub open spec fn complete_spec(self, rc: isize) -> (Self, Option<W>) {
        if self.detached {
            (self, None)
        } else {
            (AsyncSubRequest { rc: Some(rc), waker: None, ..self }, self.waker)
        }
    }

    /// The state once the awaiting task is gone.
    pub open spec fn detach_spec(self) -> Self {
        AsyncSubRequest { waker: None, detached: true, ..self }
    }

    /// Creates the shared state for `sr`, with no completion recorded yet.
    pub fn new(sr: Option<usize>) -> (r: Self)
        ensures
            r.sr == sr,
            r.waker.is_none(),
            r.rc.is_none(),
            !r.detached,
    {
        AsyncSubRequest { sr, waker: None, rc: None, detached: false }
    }

    /// Polls the subrequest future: the waker `w` replaces any earlier one;
    /// a subrequest that failed to start resolves at once to `NGX_ERROR`
    /// with no output; an unfinished one stays pending; a completed one
    /// resolves to its code and hands out the subrequest.
    pub fn poll(&mut self, w: W) -> (r: SubRequestPoll)
        ensures
            (*final(self), r) == old(self).poll_spec(w),
    {
        self.waker = Some(w);
        match self.sr {
            None => SubRequestPoll::Ready(NGX_ERROR, None),
            Some(sr) => match self.rc {
                None => SubRequestPoll::Pending,
                Some(rc) => {
                    self.sr = None;
                    SubRequestPoll::Ready(rc, Some(sr))
                },
            },
        }
    }

    /// nginx's completion callback: records `rc` and hands back the waker
    /// of the most recent poll, to be woken. After the awaiting task is gone
    /// the result is dropped and nothing is woken.
    pub fn complete(&mut self, rc: isize) -> (r: Option<W>)
        ensures
            (*final(self), r) == old(self).complete_spec(rc),
    {
        if self.detached {
            None
        } else {
            self.rc = Some(rc);
            self.waker.take()
        }
    }

    /// Marks the awaiting task as gone (the future was dropped before
    /// completion), so that a later completion callback is a no-op.
    pub fn detach(&mut self)
        ensures
            *final(self) == old(self).detach_spec(),
    {
        self.waker = None;
        self.detached = true;
    }

    /// Whether the subrequest has reported completion.
    pub fn is_complete(&self) -> (r: bool)
        ensures
            r == self.rc.is_some(),
    {
        self.rc.is_some()
    }
}

/// A subrequest future polled with `w1` and then with `w2` before it
/// completes wakes only `w2` when the completion arrives: the stale waker
/// is never used.
pub proof fn lemma_latest_waker_wins<W>(s: AsyncSubRequest<W>, w1: W, w2: W, rc: isize)
    requires
        s.sr.is_some(),
        s.rc.is_none(),
        !s.detached,
    ensures
        ({
            let s1 = s.poll_spec(w1).0;
            let s2 = s1.poll_spec(w2).0;
            let (s3, woken) = s2.complete_spec(rc);
            &&& s1.poll_spec(w2).1 is Pending
            &&& woken == Some(w2)
            &&& s3.waker.is_none()
            &&& s3.rc == Some(rc)
        }),
{
}

/// Once the awaiting task is gone, any number of completion callbacks
/// wake nothing and leave the shared state as it is, with no waker kept.
pub proof fn lemma_completion_after_detach_is_inert<W>(s: AsyncSubRequest<W>, codes: Seq<isize>)
    ensures
        ({
            let d = s.detach_spec();
            &&& d.waker.is_none()
            &&& forall|i: int| 0 <= i < codes.len() ==> #[trigger] d.complete_spec(codes[i]) == (d, None::<W>)
        }),
{
}

} // verus!
