//! The parts of an nginx HTTP request that module code reads and writes.
use vstd::prelude::*;
use vstd::string::StrSliceExecFns;

verus! {

pub const NGX_HTTP_UNKNOWN: usize = 0x0001;
pub const NGX_HTTP_GET: usize = 0x0002;
pub const NGX_HTTP_HEAD: usize = 0x0004;
pub const NGX_HTTP_POST: usize = 0x0008;
pub const NGX_HTTP_PUT: usize = 0x0010;
pub const NGX_HTTP_DELETE: usize = 0x0020;
pub const NGX_HTTP_MKCOL: usize = 0x0040;
pub const NGX_HTTP_COPY: usize = 0x0080;
pub const NGX_HTTP_MOVE: usize = 0x0100;
pub const NGX_HTTP_OPTIONS: usize = 0x0200;
pub const NGX_HTTP_PROPFIND: usize = 0x0400;
pub const NGX_HTTP_PROPPATCH: usize = 0x0800;
pub const NGX_HTTP_LOCK: usize = 0x1000;
pub const NGX_HTTP_UNLOCK: usize = 0x2000;
pub const NGX_HTTP_PATCH: usize = 0x4000;
pub const NGX_HTTP_TRACE: usize = 0x8000;
pub const NGX_HTTP_CONNECT: usize = 0x10000;

/// An HTTP response status code.
#[derive(PartialEq, Eq, Structural, Clone, Copy, Debug)]
pub struct HTTPStatus(pub usize);

/// The request fields this library reads and writes, as nginx holds them.
pub struct Request {
    /// Identity of this request.
    pub id: usize,
    /// Identity of the main request this one belongs to.
    pub main: usize,
    /// The client connection.
    pub connection: usize,
    /// `headers_out.status`.
    pub status: usize,
    /// The reference count (a 16-bit field in nginx).
    pub count: u16,
    /// `headers_out.content_length_n`.
    pub content_length_n: i64,
    /// The `header_only` flag.
    pub header_only: bool,
    /// The method, as nginx's `NGX_HTTP_*` bit.
    pub method: usize,
    /// Subrequests this request may still create, plus one.
    pub subrequests: u32,
}

impl Request {
    /// Is this the main request (as opposed to a subrequest)?
    pub fn is_main(&self) -> (r: bool)
        ensures
            r == (self.main == self.id),
    {
        self.main == self.id
    }

    /// The client connection.
    pub fn connection(&self) -> (r: usize)
        ensures
            r == self.connection,
    {
        self.connection
    }

    /// Set HTTP status of response.
    pub fn set_status(&mut self, status: HTTPStatus)
        ensures
            *final(self) == (Request { status: status.0, ..*old(self) }),
    {
        self.status = status.0;
    }

    /// Get HTTP status of response.
    pub fn get_status(&self) -> (r: HTTPStatus)
        ensures
            r == HTTPStatus(self.status),
    {
        HTTPStatus(self.status)
    }

    /// Add one to the request's reference count, which wraps at 16 bits as
    /// nginx's field does.
    pub fn increment_cycle_count(&mut self)
        ensures
            *final(self) == (Request { count: ((old(self).count + 1) % 0x10000) as u16, ..*old(self) }),
    {
        self.count = self.count.wrapping_add(1);
    }

    /// Set response body Content-Length.
    pub fn set_content_length_n(&mut self, n: usize)
        ensures
            *final(self) == (Request { content_length_n: n as i64, ..*old(self) }),
    {
        self.content_length_n = n as i64;
    }

    /// Flag indicating that the output does not require a body, as for
    /// `HEAD` requests.
    pub fn header_only(&self) -> (r: bool)
        ensures
            r == self.header_only,
    {
        self.header_only
    }

    /// The request method.
    pub fn method(&self) -> (r: Method)
        ensures
            r == method_from_ngx(self.method),
    {
        Method::from_ngx(self.method)
    }

    /// How many subrequests this request may still make.
    pub fn subrequests_available(&self) -> (r: u32)
        requires
            self.subrequests >= 1,
        ensures
            r == self.subrequests - 1,
    {
        self.subrequests - 1
    }
}

/// The methods nginx knows.
#[derive(PartialEq, Eq, Structural, Clone, Copy, Debug)]
pub enum MethodInner {
    Unknown,
    Get,
    Head,
    Post,
    Put,
    Delete,
    Mkcol,
    Copy,
    Move,
    Options,
    Propfind,
    Proppatch,
    Lock,
    Unlock,
    Patch,
    Trace,
    Connect,
}

/// Request method verb.
#[derive(PartialEq, Eq, Structural, Clone, Copy, Debug)]
pub struct Method(pub MethodInner);

/// A possible error value when converting `Method`.
#[derive(Clone, Copy, Debug)]
pub struct InvalidMethod {
    _priv: (),
}

impl InvalidMethod {
    pub fn new() -> (r: InvalidMethod) {
        InvalidMethod { _priv: () }
    }

    /// Human-readable description of the error.
    pub fn message(&self) -> (r: &'static str)
        ensures
            r@ == "invalid HTTP method"@,
    {
        "invalid HTTP method"
    }
}

/// The method whose nginx bit is `t`; any other value is unknown.
pub open spec fn method_from_ngx(t: usize) -> Method {
    if t == NGX_HTTP_GET {
        Method(MethodInner::Get)
    } else if t == NGX_HTTP_HEAD {
        Method(MethodInner::Head)
    } else if t == NGX_HTTP_POST {
        Method(MethodInner::Post)
    } else if t == NGX_HTTP_PUT {
        Method(MethodInner::Put)
    } else if t == NGX_HTTP_DELETE {
        Method(MethodInner::Delete)
    } else if t == NGX_HTTP_MKCOL {
        Method(MethodInner::Mkcol)
    } else if t == NGX_HTTP_COPY {
        Method(MethodInner::Copy)
    } else if t == NGX_HTTP_MOVE {
        Method(MethodInner::Move)
    } else if t == NGX_HTTP_OPTIONS {
        Method(MethodInner::Options)
    } else if t == NGX_HTTP_PROPFIND {
        Method(MethodInner::Propfind)
    } else if t == NGX_HTTP_PROPPATCH {
        Method(MethodInner::Proppatch)
    } else if t == NGX_HTTP_LOCK {
        Method(MethodInner::Lock)
    } else if t == NGX_HTTP_UNLOCK {
        Method(MethodInner::Unlock)
    } else if t == NGX_HTTP_PATCH {
        Method(MethodInner::Patch)
    } else if t == NGX_HTTP_TRACE {
        Method(MethodInner::Trace)
    } else if t == NGX_HTTP_CONNECT {
        Method(MethodInner::Connect)
    } else {
        Method(MethodInner::Unknown)
    }
}

/// Whether the bytes `t` spell the ASCII text `s`.
pub open spec fn bytes_spell(t: Seq<u8>, s: Seq<char>) -> bool {
    t.len() == s.len() && forall|i: int| 0 <= i < t.len() ==> #[trigger] t[i] as u32 == s[i] as u32
}

/// The method whose upper-case name the bytes `t` spell, if any; the
/// name `UNKNOWN` stands for no method.
pub open spec fn method_from_bytes(t: Seq<u8>) -> Option<Method> {
    if bytes_spell(t, "GET"@) {
        Some(Method(MethodInner::Get))
    } else if bytes_spell(t, "HEAD"@) {
        Some(Method(MethodInner::Head))
    } else if bytes_spell(t, "POST"@) {
        Some(Method(MethodInner::Post))
    } else if bytes_spell(t, "PUT"@) {
        Some(Method(MethodInner::Put))
    } else if bytes_spell(t, "DELETE"@) {
        Some(Method(MethodInner::Delete))
    } else if bytes_spell(t, "MKCOL"@) {
        Some(Method(MethodInner::Mkcol))
    } else if bytes_spell(t, "COPY"@) {
        Some(Method(MethodInner::Copy))
    } else if bytes_spell(t, "MOVE"@) {
        Some(Method(MethodInner::Move))
    } else if bytes_spell(t, "OPTIONS"@) {
        Some(Method(MethodInner::Options))
    } else if bytes_spell(t, "PROPFIND"@) {
        Some(Method(MethodInner::Propfind))
    } else if bytes_spell(t, "PROPPATCH"@) {
        Some(Method(MethodInner::Proppatch))
    } else if bytes_spell(t, "LOCK"@) {
        Some(Method(MethodInner::Lock))
    } else if bytes_spell(t, "UNLOCK"@) {
        Some(Method(MethodInner::Unlock))
    } else if bytes_spell(t, "PATCH"@) {
        Some(Method(MethodInner::Patch))
    } else if bytes_spell(t, "TRACE"@) {
        Some(Method(MethodInner::Trace))
    } else if bytes_spell(t, "CONNECT"@) {
        Some(Method(MethodInner::Connect))
    } else {
        None
    }
}

/// Whether the bytes `t` spell the ASCII text `s`.
fn spells(t: &[u8], s: &str) -> (r: bool)
    ensures
        r == bytes_spell(t@, s@),
{
    let n = s.unicode_len();
    if t.len() != n {
        return false;
    }
    let mut i: usize = 0;
    while i < n
        invariant
            n == s@.len() == t@.len(),
            0 <= i <= n,
            forall|j: int| 0 <= j < i ==> #[trigger] t@[j] as u32 == s@[j] as u32,
        decreases n - i,
    {
        let c = s.get_char(i);
        if t[i] as u32 != c as u32 {
            return false;
        }
        i = i + 1;
    }
    true
}

/// The name of a method, in upper case.
pub open spec fn method_name(m: Method) -> Seq<char> {
    match m.0 {
        MethodInner::Unknown => "UNKNOWN"@,
        MethodInner::Get => "GET"@,
        MethodInner::Head => "HEAD"@,
        MethodInner::Post => "POST"@,
        MethodInner::Put => "PUT"@,
        MethodInner::Delete => "DELETE"@,
        MethodInner::Mkcol => "MKCOL"@,
        MethodInner::Copy => "COPY"@,
        MethodInner::Move => "MOVE"@,
        MethodInner::Options => "OPTIONS"@,
        MethodInner::Propfind => "PROPFIND"@,
        MethodInner::Proppatch => "PROPPATCH"@,
        MethodInner::Lock => "LOCK"@,
        MethodInner::Unlock => "UNLOCK"@,
        MethodInner::Patch => "PATCH"@,
        MethodInner::Trace => "TRACE"@,
        MethodInner::Connect => "CONNECT"@,
    }
}

impl Method {
    /// The method's name, in upper case.
    pub fn as_str(&self) -> (r: &'static str)
        ensures
            r@ == method_name(*self),
    {
        match self.0 {
            MethodInner::Unknown => "UNKNOWN",
            MethodInner::Get => "GET",
            MethodInner::Head => "HEAD",
            MethodInner::Post => "POST",
            MethodInner::Put => "PUT",
            MethodInner::Delete => "DELETE",
            MethodInner::Mkcol => "MKCOL",
            MethodInner::Copy => "COPY",
            MethodInner::Move => "MOVE",
            MethodInner::Options => "OPTIONS",
            MethodInner::Propfind => "PROPFIND",
            MethodInner::Proppatch => "PROPPATCH",
            MethodInner::Lock => "LOCK",
            MethodInner::Unlock => "UNLOCK",
            MethodInner::Patch => "PATCH",
            MethodInner::Trace => "TRACE",
            MethodInner::Connect => "CONNECT",
        }
    }

    /// The method whose upper-case name the bytes `t` spell.
    pub fn from_bytes(t: &[u8]) -> (r: Result<Method, InvalidMethod>)
        ensures
            r.is_ok() == method_from_bytes(t@).is_some(),
            r matches Ok(m) ==> method_from_bytes(t@) == Some(m),
    {
        if spells(t, "GET") {
            Ok(Method(MethodInner::Get))
        } else if spells(t, "HEAD") {
            Ok(Method(MethodInner::Head))
        } else if spells(t, "POST") {
            Ok(Method(MethodInner::Post))
        } else if spells(t, "PUT") {
            Ok(Method(MethodInner::Put))
        } else if spells(t, "DELETE") {
            Ok(Method(MethodInner::Delete))
        } else if spells(t, "MKCOL") {
            Ok(Method(MethodInner::Mkcol))
        } else if spells(t, "COPY") {
            Ok(Method(MethodInner::Copy))
        } else if spells(t, "MOVE") {
            Ok(Method(MethodInner::Move))
        } else if spells(t, "OPTIONS") {
            Ok(Method(MethodInner::Options))
        } else if spells(t, "PROPFIND") {
            Ok(Method(MethodInner::Propfind))
        } else if spells(t, "PROPPATCH") {
            Ok(Method(MethodInner::Proppatch))
        } else if spells(t, "LOCK") {
            Ok(Method(MethodInner::Lock))
        } else if spells(t, "UNLOCK") {
            Ok(Method(MethodInner::Unlock))
        } else if spells(t, "PATCH") {
            Ok(Method(MethodInner::Patch))
        } else if spells(t, "TRACE") {
            Ok(Method(MethodInner::Trace))
        } else if spells(t, "CONNECT") {
            Ok(Method(MethodInner::Connect))
        } else {
            Err(InvalidMethod::new())
        }
    }

    /// The method nginx denotes by the bit `t`; `UNKNOWN` for any other value.
    pub fn from_ngx(t: usize) -> (r: Method)
        ensures
            r == method_from_ngx(t),
    {
        if t == NGX_HTTP_GET {
            Method(MethodInner::Get)
        } else if t == NGX_HTTP_HEAD {
            Method(MethodInner::Head)
        } else if t == NGX_HTTP_POST {
            Method(MethodInner::Post)
        } else if t == NGX_HTTP_PUT {
            Method(MethodInner::Put)
        } else if t == NGX_HTTP_DELETE {
            Method(MethodInner::Delete)
        } else if t == NGX_HTTP_MKCOL {
            Method(MethodInner::Mkcol)
        } else if t == NGX_HTTP_COPY {
            Method(MethodInner::Copy)
        } else if t == NGX_HTTP_MOVE {
            Method(MethodInner::Move)
        } else if t == NGX_HTTP_OPTIONS {
            Method(MethodInner::Options)
        } else if t == NGX_HTTP_PROPFIND {
            Method(MethodInner::Propfind)
        } else if t == NGX_HTTP_PROPPATCH {
            Method(MethodInner::Proppatch)
        } else if t == NGX_HTTP_LOCK {
            Method(MethodInner::Lock)
        } else if t == NGX_HTTP_UNLOCK {
            Method(MethodInner::Unlock)
        } else if t == NGX_HTTP_PATCH {
            Method(MethodInner::Patch)
        } else if t == NGX_HTTP_TRACE {
            Method(MethodInner::Trace)
        } else if t == NGX_HTTP_CONNECT {
            Method(MethodInner::Connect)
        } else {
            Method(MethodInner::Unknown)
        }
    }
}

/// Distinct methods have distinct names: `as_str` tells every method apart.
pub proof fn lemma_method_names_distinct(a: Method, b: Method)
    requires
        method_name(a) == method_name(b),
    ensures
        a == b,
{
    reveal_strlit("UNKNOWN");
    reveal_strlit("GET");
    reveal_strlit("HEAD");
    reveal_strlit("POST");
    reveal_strlit("PUT");
    reveal_strlit("DELETE");
    reveal_strlit("MKCOL");
    reveal_strlit("COPY");
    reveal_strlit("MOVE");
    reveal_strlit("OPTIONS");
    reveal_strlit("PROPFIND");
    reveal_strlit("PROPPATCH");
    reveal_strlit("LOCK");
    reveal_strlit("UNLOCK");
    reveal_strlit("PATCH");
    reveal_strlit("TRACE");
    reveal_strlit("CONNECT");
    let (x, y) = (method_name(a), method_name(b));
    assert(x.len() == y.len());
    assert(x.len() > 2 ==> x[0] == y[0] && x[1] == y[1] && x[2] == y[2]);
    assert(x.len() > 4 ==> x[3] == y[3] && x[4] == y[4]);
}

} // verus!
