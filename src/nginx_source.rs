//! Where the nginx sources and the configured build tree are.
use vstd::prelude::*;
use vstd::string::StringSliceAdditionalSpecFns;

verus! {

/// What `Path::join` makes of `base` and `rel`.
pub uninterp spec fn joined_path(base: Seq<char>, rel: Seq<char>) -> Seq<char>;

/// What `Path::parent` gives for `p`: `None` for a root or an empty path.
pub uninterp spec fn parent_path(p: Seq<char>) -> Option<Seq<char>>;

/// Relies on `std::path::Path::join`: `rel` appended to `base` as a path component.
#[verifier::external_body]
fn join_path(base: &str, rel: &str) -> (r: String)
    ensures
        r@ == joined_path(base@, rel@),
{
    std::path::Path::new(base).join(rel).to_string_lossy().into_owned()
}

/// Relies on `std::path::Path::parent`: the path without its last component.
#[verifier::external_body]
fn parent_of(p: &str) -> (r: Option<String>)
    ensures
        r.is_some() == parent_path(p@).is_some(),
        r matches Some(s) ==> parent_path(p@) == Some(s@),
{
    std::path::Path::new(p).parent().map(|q| q.to_string_lossy().into_owned())
}

/// The nginx source directory and the build directory its `configure` script made.
pub struct NginxSource {
    pub source_dir: String,
    pub build_dir: String,
}

impl NginxSource {
    /// The pair of directories, once both have been found to be nginx's.
    pub fn new(source_dir: &str, build_dir: &str) -> (r: Self)
        ensures
            r.source_dir@ == source_dir@,
            r.build_dir@ == build_dir@,
    {
        NginxSource { source_dir: source_dir.to_owned(), build_dir: build_dir.to_owned() }
    }

    /// A source tree configured in place: its build directory is `objs` inside it.
    pub fn from_source_dir(source_dir: &str) -> (r: Self)
        ensures
            r.source_dir@ == source_dir@,
            r.build_dir@ == joined_path(source_dir@, "objs"@),
    {
        let build_dir = join_path(source_dir, "objs");
        NginxSource::new(source_dir, build_dir.as_str())
    }

    /// A build directory whose parent is the source tree.
    pub fn from_build_dir(build_dir: &str) -> (r: Self)
        requires
            parent_path(build_dir@).is_some(),
        ensures
            Some(r.source_dir@) == parent_path(build_dir@),
            r.build_dir@ == build_dir@,
    {
        let source_dir = parent_of(build_dir);
        NginxSource::new(source_dir.unwrap().as_str(), build_dir)
    }

    /// `from_build_dir` where `build_dir` has a parent; `None` where it has none.
    pub fn try_from_build_dir(build_dir: &str) -> (r: Option<Self>)
        ensures
            parent_path(build_dir@).is_none() ==> r.is_none(),
            parent_path(build_dir@).is_some() ==> (r matches Some(s) && Some(s.source_dir@) == parent_path(build_dir@)
                && s.build_dir@ == build_dir@),
    {
        if parent_of(build_dir).is_some() {
            Some(NginxSource::from_build_dir(build_dir))
        } else {
            None
        }
    }
}

/// `s` as a NUL-terminated C string.
pub open spec fn c_string(s: Seq<u8>) -> Seq<u8> {
    s.push(0u8)
}

/// The bytes of `prefix` followed by a terminating NUL, as nginx expects a
/// path prefix.
pub fn str_to_uchar(prefix: &str) -> (r: Vec<u8>)
    ensures
        r@ == c_string(prefix.spec_bytes()),
{
    let bytes = prefix.as_bytes();
    let mut u_chars: Vec<u8> = Vec::new();
    let mut i: usize = 0;
    while i < bytes.len()
        invariant
            0 <= i <= bytes@.len(),
            bytes@ == prefix.spec_bytes(),
            u_chars@ == bytes@.take(i as int),
        decreases bytes@.len() - i,
    {
        u_chars.push(bytes[i]);
        assert(u_chars@ =~= bytes@.take(i + 1));
        i = i + 1;
    }
    assert(bytes@.take(i as int) =~= bytes@);
    u_chars.push(0);
    u_chars
}

} // verus!
