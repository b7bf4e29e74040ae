//! nginx's configuration as its preprocessed headers report it: lines of
//! the form `RUST_CONF_<NAME>=<value>`.
use vstd::prelude::*;

use crate::text::{
    ascii_lower, ascii_upper, chars_of, lines_of, push_str, std_lines, string_of, to_ascii_lowercase,
    to_ascii_uppercase, trim_of, trimmed,
};

verus! {

/// C string literals to merge: each quoted part, and the white space after it.
pub const UNQUOTE_PATTERN: &'static str = "\"(.*?[^\\\\])\"\\s*";

/// For each successive match of regular expression `pattern` in `s`, the
/// text of its capture group 1 (`None` where that group took no part);
/// `None` when `pattern` is not a valid expression.
pub uninterp spec fn group_one_texts(pattern: Seq<char>, s: Seq<char>) -> Option<Seq<Option<Seq<char>>>>;

/// The views of optional strings.
pub open spec fn pieces_view(v: Seq<Option<String>>) -> Seq<Option<Seq<char>>> {
    v.map_values(|o: Option<String>| match o {
        Some(t) => Some(t@),
        None => None,
    })
}

/// Relies on `regex::Regex::new`, `Regex::captures_iter` and `Captures::get`:
/// compiles `pattern`, then takes group 1 of each match in `s`, in order.
#[verifier::external_body]
fn captures_group_one(pattern: &str, s: &str) -> (r: Option<Vec<Option<String>>>)
    ensures
        r.is_some() == group_one_texts(pattern@, s@).is_some(),
        r matches Some(v) ==> group_one_texts(pattern@, s@) == Some(pieces_view(v@)),
{
    match regex::Regex::new(pattern) {
        Ok(re) => Some(re.captures_iter(s).map(|c| c.get(1).map(|m| m.as_str().to_owned())).collect()),
        Err(_) => None,
    }
}

/// The pieces joined in order; `None` if a piece is missing.
pub open spec fn joined_pieces(pieces: Seq<Option<Seq<char>>>) -> Option<Seq<char>>
    decreases pieces.len(),
{
    if pieces.len() == 0 {
        Some(Seq::empty())
    } else {
        match (joined_pieces(pieces.drop_last()), pieces.last()) {
            (Some(a), Some(b)) => Some(a + b),
            _ => None,
        }
    }
}

/// The merged text of the C string literals in `s`: the quoted parts,
/// joined; `None` if they cannot be taken apart.
pub open spec fn unquoted(s: Seq<char>) -> Option<Seq<char>> {
    match group_one_texts(UNQUOTE_PATTERN@, s) {
        None => None,
        Some(pieces) => joined_pieces(pieces),
    }
}

proof fn lemma_joined_pieces_missing(pieces: Seq<Option<Seq<char>>>, k: int)
    requires
        0 <= k <= pieces.len(),
        joined_pieces(pieces.take(k)).is_none(),
    ensures
        joined_pieces(pieces).is_none(),
    decreases pieces.len() - k,
{
    if k == pieces.len() {
        assert(pieces.take(k) =~= pieces);
    } else {
        assert(pieces.take(k + 1).drop_last() =~= pieces.take(k));
        lemma_joined_pieces_missing(pieces, k + 1);
    }
}

/// Joins the pieces in order; `None` if one of them is missing.
pub fn join_pieces(pieces: &Vec<Option<String>>) -> (r: Option<String>)
    ensures
        r.is_some() == joined_pieces(pieces_view(pieces@)).is_some(),
        r matches Some(t) ==> joined_pieces(pieces_view(pieces@)) == Some(t@),
{
    let ghost pv = pieces_view(pieces@);
    let mut out = String::new();
    let mut i: usize = 0;
    proof {
        assert(pv.take(0) =~= Seq::<Option<Seq<char>>>::empty());
        assert(out@ =~= Seq::<char>::empty());
    }
    while i < pieces.len()
        invariant
            0 <= i <= pieces@.len(),
            pv == pieces_view(pieces@),
            joined_pieces(pv.take(i as int)) == Some(out@),
        decreases pieces@.len() - i,
    {
        proof {
            assert(pv.take(i + 1).drop_last() =~= pv.take(i as int));
            assert(pv.take(i + 1).last() == pv[i as int]);
        }
        match &pieces[i] {
            Some(t) => {
                push_str(&mut out, t.as_str());
            },
            None => {
                proof {
                    lemma_joined_pieces_missing(pv, i + 1);
                }
                return None;
            },
        }
        i = i + 1;
    }
    assert(pv.take(i as int) =~= pv);
    Some(out)
}

/// Merges the C string literals in `s` into the text they spell.
pub fn unquote(s: &str) -> (r: Option<String>)
    ensures
        r.is_some() == unquoted(s@).is_some(),
        r matches Some(t) ==> unquoted(s@) == Some(t@),
{
    match captures_group_one(UNQUOTE_PATTERN, s) {
        None => None,
        Some(pieces) => join_pieces(&pieces),
    }
}

/// The configuration features that are recognised.
pub open spec fn conf_features() -> Seq<Seq<char>> {
    seq![
        "compat"@, "debug"@, "have_epollrdhup"@, "have_file_aio"@, "have_kqueue"@,
        "have_memalign"@, "have_posix_memalign"@, "have_sched_yield"@, "have_variadic_macros"@,
        "http"@, "http_cache"@, "http_dav"@, "http_gzip"@, "http_realip"@, "http_ssi"@,
        "http_ssl"@, "http_upstream_zone"@, "http_v2"@, "http_v3"@, "http_x_forwarded_for"@,
        "pcre"@, "pcre2"@, "quic"@, "ssl"@, "stream"@, "stream_ssl"@, "stream_upstream_zone"@,
        "threads"@,
    ]
}

/// The operating systems nginx's `configure` knows.
pub open spec fn conf_os() -> Seq<Seq<char>> {
    seq!["darwin"@, "freebsd"@, "gnu_hurd"@, "hpux"@, "linux"@, "solaris"@, "tru64"@, "win32"@]
}

/// The recognised configuration features.
pub fn conf_features_list() -> (r: Vec<&'static str>)
    ensures
        r@.map_values(|s: &str| s@) == conf_features(),
{
    let r = vec![
        "compat", "debug", "have_epollrdhup", "have_file_aio", "have_kqueue", "have_memalign",
        "have_posix_memalign", "have_sched_yield", "have_variadic_macros", "http", "http_cache",
        "http_dav", "http_gzip", "http_realip", "http_ssi", "http_ssl", "http_upstream_zone",
        "http_v2", "http_v3", "http_x_forwarded_for", "pcre", "pcre2", "quic", "ssl", "stream",
        "stream_ssl", "stream_upstream_zone", "threads",
    ];
    assert(r@.map_values(|s: &str| s@) =~= conf_features());
    r
}

/// The operating systems nginx's `configure` knows.
pub fn conf_os_list() -> (r: Vec<&'static str>)
    ensures
        r@.map_values(|s: &str| s@) == conf_os(),
{
    let r = vec!["darwin", "freebsd", "gnu_hurd", "hpux", "linux", "solaris", "tru64", "win32"];
    assert(r@.map_values(|s: &str| s@) =~= conf_os());
    r
}

/// The prefix of a configuration line.
pub open spec fn conf_prefix() -> Seq<char> {
    seq!['R', 'U', 'S', 'T', '_', 'C', 'O', 'N', 'F', '_']
}

/// The first `=` in `s` at or after `from`.
pub open spec fn first_eq(s: Seq<char>, from: int) -> Option<int>
    decreases s.len() - from,
{
    if from < 0 || from >= s.len() {
        None
    } else if s[from] == '=' {
        Some(from)
    } else {
        first_eq(s, from + 1)
    }
}

/// The name (trimmed, lower case) and value (trimmed) of a configuration
/// line; `None` for any other line.
pub open spec fn conf_entry(line: Seq<char>) -> Option<(Seq<char>, Seq<char>)> {
    let t = trimmed(line);
    if t.len() >= 10 && t.take(10) == conf_prefix() {
        let rest = t.skip(10);
        match first_eq(rest, 0) {
            None => None,
            Some(i) => Some((ascii_lower(trimmed(rest.take(i))), trimmed(rest.skip(i + 1)))),
        }
    } else {
        None
    }
}

/// What the lines say, as views: the metadata entries in order, the
/// operating system (the last one named), and the enabled features.
pub type ConfView = (Seq<(Seq<char>, Seq<char>)>, Seq<char>, Seq<Seq<char>>);

/// The configuration after one more line; `None` once a string value could
/// not be unquoted.
pub open spec fn conf_step(acc: Option<ConfView>, line: Seq<char>) -> Option<ConfView> {
    match acc {
        None => None,
        Some((md, os, fs)) => match conf_entry(line) {
            None => acc,
            Some((n, v)) => if n == "nginx_build"@ {
                match unquoted(v) {
                    Some(u) => Some((md.push(("build"@, u)), os, fs)),
                    None => None,
                }
            } else if n == "nginx_version"@ {
                match unquoted(v) {
                    Some(u) => Some((md.push(("version"@, u)), os, fs)),
                    None => None,
                }
            } else if n == "nginx_version_number"@ {
                Some((md.push(("version_number"@, v)), os, fs))
            } else if conf_os().contains(n) {
                Some((md, n, fs))
            } else if conf_features().contains(n) && v != "0"@ {
                Some((md, os, fs.push(n)))
            } else {
                acc
            },
        },
    }
}

/// The configuration that the lines `lines` report.
pub open spec fn conf_of(lines: Seq<Seq<char>>) -> Option<ConfView>
    decreases lines.len(),
{
    if lines.len() == 0 {
        Some((Seq::empty(), Seq::empty(), Seq::empty()))
    } else {
        conf_step(conf_of(lines.drop_last()), lines.last())
    }
}

proof fn lemma_conf_failure_stays(lines: Seq<Seq<char>>, k: int)
    requires
        0 <= k <= lines.len(),
        conf_of(lines.take(k)).is_none(),
    ensures
        conf_of(lines).is_none(),
    decreases lines.len() - k,
{
    if k == lines.len() {
        assert(lines.take(k) =~= lines);
    } else {
        assert(lines.take(k + 1).drop_last() =~= lines.take(k));
        lemma_conf_failure_stays(lines, k + 1);
    }
}

/// nginx's configuration: metadata entries (`build`, `version`,
/// `version_number`) in order, the operating system and the enabled features.
pub struct NginxConf {
    pub metadata: Vec<(String, String)>,
    pub os: String,
    pub features: Vec<String>,
}

impl NginxConf {
    pub open spec fn view(&self) -> ConfView {
        (
            self.metadata@.map_values(|e: (String, String)| (e.0@, e.1@)),
            self.os@,
            self.features@.map_values(|f: String| f@),
        )
    }
}

/// Whether `n` is one of `list`.
fn is_one_of(list: &Vec<&'static str>, n: &String) -> (r: bool)
    ensures
        r == list@.map_values(|s: &str| s@).contains(n@),
{
    let ghost names = list@.map_values(|s: &str| s@);
    let mut i: usize = 0;
    while i < list.len()
        invariant
            0 <= i <= list@.len(),
            names == list@.map_values(|s: &str| s@),
            forall|j: int| 0 <= j < i ==> #[trigger] names[j] != n@,
        decreases list@.len() - i,
    {
        if list[i].to_owned() == *n {
            assert(names[i as int] == n@);
            return true;
        }
        i = i + 1;
    }
    false
}

/// The first `=` in `s` at or after `from`.
fn find_eq(s: &Vec<char>, from: usize) -> (r: Option<usize>)
    requires
        from <= s@.len(),
    ensures
        r matches Some(i) ==> (first_eq(s@, from as int) == Some(i as int) && from <= i < s@.len()),
        r.is_none() ==> first_eq(s@, from as int).is_none(),
    decreases s@.len() - from,
{
    if from >= s.len() {
        None
    } else if s[from] == '=' {
        Some(from)
    } else {
        find_eq(s, from + 1)
    }
}

proof fn lemma_first_eq_shift(s: Seq<char>, k: int, from: int)
    requires
        0 <= k <= s.len(),
        0 <= from,
    ensures
        first_eq(s.skip(k), from) == match first_eq(s, k + from) {
            Some(i) => Some(i - k),
            None => None::<int>,
        },
    decreases s.len() - k - from,
{
    if from < s.skip(k).len() {
        lemma_first_eq_shift(s, k, from + 1);
    }
}

/// The name and value of a configuration line.
fn conf_line(line: &str) -> (r: Option<(String, String)>)
    ensures
        r.is_some() == conf_entry(line@).is_some(),
        r matches Some(e) ==> conf_entry(line@) == Some((e.0@, e.1@)),
{
    let t = trim_of(line);
    let c = chars_of(t.as_str());
    if c.len() < 10 || !(c[0] == 'R' && c[1] == 'U' && c[2] == 'S' && c[3] == 'T' && c[4] == '_'
        && c[5] == 'C' && c[6] == 'O' && c[7] == 'N' && c[8] == 'F' && c[9] == '_') {
        proof {
            if c@.len() >= 10 && c@.take(10) == conf_prefix() {
                assert(c@.take(10)[0] == 'R' && c@.take(10)[1] == 'U' && c@.take(10)[2] == 'S');
                assert(c@.take(10)[3] == 'T' && c@.take(10)[4] == '_' && c@.take(10)[5] == 'C');
                assert(c@.take(10)[6] == 'O' && c@.take(10)[7] == 'N' && c@.take(10)[8] == 'F');
                assert(c@.take(10)[9] == '_');
            }
        }
        return None;
    }
    assert(c@.take(10) =~= conf_prefix());
    proof {
        lemma_first_eq_shift(c@, 10, 0);
    }
    match find_eq(&c, 10) {
        None => None,
        Some(i) => {
            let name = string_of(&c.as_slice()[10..i]);
            let value = string_of(&c.as_slice()[i + 1..c.len()]);
            proof {
                let rest = c@.skip(10);
                assert(name@ =~= rest.take(i - 10));
                assert(value@ =~= rest.skip(i - 10 + 1));
            }
            let name = trim_of(name.as_str());
            let name = to_ascii_lowercase(name.as_str());
            let value = trim_of(value.as_str());
            Some((name, value))
        },
    }
}

/// Reads nginx's configuration from the preprocessed text `expanded`;
/// `None` if a string value could not be unquoted.
pub fn parse_conf(expanded: &str) -> (r: Option<NginxConf>)
    ensures
        r.is_some() == conf_of(std_lines(expanded@)).is_some(),
        r matches Some(c) ==> conf_of(std_lines(expanded@)) == Some(c.view()),
{
    let lines = lines_of(expanded);
    let ghost ls = std_lines(expanded@);
    let features_list = conf_features_list();
    let os_list = conf_os_list();
    let mut conf = NginxConf { metadata: Vec::new(), os: String::new(), features: Vec::new() };
    proof {
        assert(ls.take(0) =~= Seq::<Seq<char>>::empty());
        assert(conf.view().0 =~= Seq::<(Seq<char>, Seq<char>)>::empty());
        assert(conf.view().2 =~= Seq::<Seq<char>>::empty());
        assert(conf.view() == (Seq::<(Seq<char>, Seq<char>)>::empty(), Seq::<char>::empty(), Seq::<Seq<char>>::empty()));
    }
    let mut i: usize = 0;
    while i < lines.len()
        invariant
            0 <= i <= lines@.len(),
            ls == std_lines(expanded@),
            lines@.map_values(|l: String| l@) == ls,
            features_list@.map_values(|s: &str| s@) == conf_features(),
            os_list@.map_values(|s: &str| s@) == conf_os(),
            conf_of(ls.take(i as int)) == Some(conf.view()),
        decreases lines@.len() - i,
    {
        proof {
            assert(ls.take(i + 1).drop_last() =~= ls.take(i as int));
            assert(ls.take(i + 1).last() == lines@[i as int]@);
        }
        let ghost md0 = conf.metadata@;
        let ghost fs0 = conf.features@;
        match conf_line(lines[i].as_str()) {
            None => {},
            Some((n, v)) => {
                if n == "nginx_build".to_owned() || n == "nginx_version".to_owned() {
                    let key = if n == "nginx_build".to_owned() { "build" } else { "version" };
                    match unquote(v.as_str()) {
                        Some(u) => {
                            conf.metadata.push((key.to_owned(), u));
                            proof {
                                assert(conf.metadata@.map_values(|e: (String, String)| (e.0@, e.1@))
                                    =~= md0.map_values(|e: (String, String)| (e.0@, e.1@)).push((key@, u@)));
                            }
                        },
                        None => {
                            proof {
                                assert(conf_of(ls.take(i + 1)).is_none());
                                lemma_conf_failure_stays(ls, i + 1);
                            }
                            return None;
                        },
                    }
                } else if n == "nginx_version_number".to_owned() {
                    conf.metadata.push(("version_number".to_owned(), v));
                    proof {
                        assert(conf.metadata@.map_values(|e: (String, String)| (e.0@, e.1@))
                            =~= md0.map_values(|e: (String, String)| (e.0@, e.1@)).push(("version_number"@, v@)));
                    }
                } else if is_one_of(&os_list, &n) {
                    conf.os = n;
                } else if is_one_of(&features_list, &n) && v != "0".to_owned() {
                    conf.features.push(n);
                    proof {
                        assert(conf.features@.map_values(|f: String| f@) =~= fs0.map_values(|f: String| f@).push(n@));
                    }
                }
            },
        }
        i = i + 1;
    }
    proof {
        assert(ls.take(i as int) =~= ls);
    }
    Some(conf)
}

/// The start of the C source whose preprocessing reports the configuration.
pub const EXPAND_HEADER: &'static str = "\n#include <ngx_config.h>\n#include <ngx_core.h>\n\n/* C23 or Clang/GCC/MSVC >= 15.3 extension */\n#if defined(__has_include)\n\n#if __has_include(<ngx_http.h>)\nRUST_CONF_HTTP=1\n#endif\n\n#if __has_include(<ngx_stream.h>)\nRUST_CONF_STREAM=1\n#endif\n\n#else\n/* fallback */\nRUST_CONF_HTTP=1\n#endif\n\nRUST_CONF_NGINX_BUILD=NGINX_VER_BUILD\nRUST_CONF_NGINX_VERSION=NGINX_VER\nRUST_CONF_NGINX_VERSION_NUMBER=nginx_version\n";

/// The lines that report whether nginx defines `NGX_<F>`, for a flag whose
/// upper-case form is `f`.
pub open spec fn flag_block(f: Seq<char>) -> Seq<char> {
    "\n#if defined(NGX_"@ + f + ")\nRUST_CONF_"@ + f + "=NGX_"@ + f + "\n#endif"@
}

/// The blocks for each of `flags`, in order.
pub open spec fn flag_blocks(flags: Seq<Seq<char>>) -> Seq<char>
    decreases flags.len(),
{
    if flags.len() == 0 {
        Seq::empty()
    } else {
        flag_blocks(flags.drop_last()) + flag_block(ascii_upper(flags.last()))
    }
}

/// The C source to preprocess: the fixed header, then one block per
/// recognised feature and per operating system.
pub open spec fn expand_text() -> Seq<char> {
    EXPAND_HEADER@ + flag_blocks(conf_features() + conf_os())
}

/// The C source whose preprocessing reports nginx's configuration.
pub fn expand_source() -> (r: String)
    ensures
        r@ == expand_text(),
{
    let mut out = String::new();
    push_str(&mut out, EXPAND_HEADER);
    let mut flags = conf_features_list();
    let mut os = conf_os_list();
    flags.append(&mut os);
    let ghost fs = conf_features() + conf_os();
    proof {
        assert(flags@.map_values(|s: &str| s@) =~= fs);
        assert(fs.take(0) =~= Seq::<Seq<char>>::empty());
        assert(out@ =~= EXPAND_HEADER@ + flag_blocks(fs.take(0)));
    }
    let mut i: usize = 0;
    while i < flags.len()
        invariant
            0 <= i <= flags@.len(),
            fs == conf_features() + conf_os(),
            flags@.map_values(|s: &str| s@) == fs,
            out@ == EXPAND_HEADER@ + flag_blocks(fs.take(i as int)),
        decreases flags@.len() - i,
    {
        let f = to_ascii_uppercase(flags[i]);
        push_str(&mut out, "\n#if defined(NGX_");
        push_str(&mut out, f.as_str());
        push_str(&mut out, ")\nRUST_CONF_");
        push_str(&mut out, f.as_str());
        push_str(&mut out, "=NGX_");
        push_str(&mut out, f.as_str());
        push_str(&mut out, "\n#endif");
        proof {
            assert(fs.take(i + 1).drop_last() =~= fs.take(i as int));
            assert(fs.take(i + 1).last() == flags@[i as int]@);
            assert(out@ =~= EXPAND_HEADER@ + flag_blocks(fs.take(i + 1)));
        }
        i = i + 1;
    }
    assert(fs.take(i as int) =~= fs);
    out
}

} // verus!
