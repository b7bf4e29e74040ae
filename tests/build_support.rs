use ngx::{
    str_to_uchar, to_ngx_level, Crate, DeriveTrait, LogLevel, LogTarget, Logger,
    NgxBindgenCallbacks, NginxSource, TypeFlags, NGX_LOG_DEBUG, NGX_LOG_ERR, NGX_LOG_INFO,
    NGX_LOG_WARN, TYPE_FLAG_COPY, TYPE_FLAG_DEBUG, TYPE_FLAG_HASH,
};

fn entry(name: &str, flags: u8) -> (String, TypeFlags) {
    (name.to_string(), TypeFlags(flags))
}

#[test]
fn type_flags_implements() {
    let f = TypeFlags(TYPE_FLAG_COPY).union(TypeFlags(TYPE_FLAG_HASH));
    assert!(f.implements(DeriveTrait::Copy));
    assert!(f.implements(DeriveTrait::Hash));
    assert!(!f.implements(DeriveTrait::Debug));
    assert!(!f.implements(DeriveTrait::PartialEqOrPartialOrd));
    assert!(f.contains(TypeFlags(TYPE_FLAG_COPY)));
}

#[test]
fn crate_keeps_last_flags_per_name() {
    let c = Crate::new("nginx_sys", &vec![entry("a", 1), entry("b", 2), entry("a", 4)]);
    assert_eq!(c.type_names(), vec!["a".to_string(), "b".to_string()]);
    assert_eq!(c.flags_of("a"), Some(TypeFlags(4)));
    assert_eq!(c.flags_of("c"), None);
}

#[test]
fn crate_uses_line() {
    let c = Crate::new("ngx_str", &vec![entry("ngx_str_t", 1), entry("u_char", 2)]);
    assert_eq!(
        c.uses(),
        Some("\n#[allow(unused_imports)]\npub use ngx_str::{ngx_str_t,u_char};\n".to_string())
    );
    assert_eq!(Crate::new("empty", &vec![]).uses(), None);
}

#[test]
fn callbacks_blocklist_and_uses() {
    let mut cb = NgxBindgenCallbacks::new();
    assert_eq!(cb.blocklist(), "");
    assert_eq!(cb.uses(), "");
    cb.add_external_types("a", &vec![entry("x", TYPE_FLAG_COPY)]);
    cb.add_external_types("b", &vec![entry("y", TYPE_FLAG_DEBUG)]);
    cb.add_external_types("a", &vec![entry("z", TYPE_FLAG_COPY)]);
    assert_eq!(cb.blocklist(), "x|z|y");
    assert_eq!(
        cb.uses(),
        "\n#[allow(unused_imports)]\npub use a::{x,z};\n\n\n#[allow(unused_imports)]\npub use b::{y};\n"
    );
    assert_eq!(cb.find("y"), Some((1, TypeFlags(TYPE_FLAG_DEBUG))));
    assert_eq!(cb.find("w"), None);
}

#[test]
fn callbacks_blocklisted_type_traits() {
    let mut cb = NgxBindgenCallbacks::new();
    cb.add_external_types("a", &vec![entry("ngx_str_t", TYPE_FLAG_COPY | TYPE_FLAG_DEBUG)]);
    let words = |s: &str| s.split_ascii_whitespace().map(String::from).collect::<Vec<_>>();
    assert_eq!(cb.blocklisted_type_implements_trait(&words("const struct ngx_str_t"), DeriveTrait::Copy), Some(true));
    assert_eq!(cb.blocklisted_type_implements_trait(&words("struct ngx_str_t"), DeriveTrait::Debug), Some(true));
    assert_eq!(cb.blocklisted_type_implements_trait(&words("ngx_str_t"), DeriveTrait::Hash), Some(false));
    assert_eq!(cb.blocklisted_type_implements_trait(&words("const other"), DeriveTrait::Copy), Some(false));
    assert_eq!(cb.blocklisted_type_implements_trait(&words("union a b"), DeriveTrait::Copy), None);
}

#[test]
fn nginx_source_dirs() {
    let s = NginxSource::from_source_dir("/src/nginx");
    assert_eq!(s.source_dir, "/src/nginx");
    assert_eq!(s.build_dir, "/src/nginx/objs");
    let b = NginxSource::from_build_dir("/src/nginx/objs");
    assert_eq!(b.source_dir, "/src/nginx");
    assert_eq!(b.build_dir, "/src/nginx/objs");
    assert!(NginxSource::try_from_build_dir("/").is_none());
    assert_eq!(NginxSource::try_from_build_dir("/a/b").map(|s| s.source_dir), Some("/a".to_string()));
}

#[test]
fn prefix_is_nul_terminated() {
    assert_eq!(str_to_uchar("/usr"), vec![b'/', b'u', b's', b'r', 0]);
    assert_eq!(str_to_uchar(""), vec![0]);
}

#[test]
fn log_levels_map_to_nginx() {
    assert_eq!(to_ngx_level(LogLevel::Error), NGX_LOG_ERR);
    assert_eq!(to_ngx_level(LogLevel::Warn), NGX_LOG_WARN);
    assert_eq!(to_ngx_level(LogLevel::Info), NGX_LOG_INFO);
    assert_eq!(to_ngx_level(LogLevel::Debug), NGX_LOG_DEBUG);
    assert_eq!(to_ngx_level(LogLevel::Trace), NGX_LOG_DEBUG);
}

#[test]
fn logger_enabled_by_level_and_mask() {
    let l = Logger;
    assert!(!l.enabled(LogTarget::Unset, LogLevel::Error, 8));
    assert!(l.enabled(LogTarget::Cycle, LogLevel::Error, 5));
    assert!(!l.enabled(LogTarget::Cycle, LogLevel::Info, 5));
    assert!(l.enabled(LogTarget::Cycle, LogLevel::Debug, 0x10));
    assert!(!l.enabled(LogTarget::Cycle, LogLevel::Debug, 0x20));
    assert!(l.enabled(LogTarget::Specific(0x20, 3), LogLevel::Trace, 0x20));
}
