use ngx::{conf_features_list, conf_os_list, expand_source, join_pieces, parse_conf, unquote};

#[test]
fn conf_reads_metadata_os_and_features() {
    let expanded = "# 1 \"expand.c\"\n\
        RUST_CONF_HTTP=1\n\
        RUST_CONF_NGINX_BUILD=\"nginx/\" \"1.27.4\"\n\
        RUST_CONF_NGINX_VERSION=\"1.27.4\"\n\
        RUST_CONF_NGINX_VERSION_NUMBER=1027004\n\
        RUST_CONF_LINUX=1\n\
        RUST_CONF_DEBUG=0\n\
        \x20 RUST_CONF_THREADS = 1 \n\
        RUST_CONF_UNKNOWN=1\n\
        RUST_CONF_SSL\n";
    let conf = parse_conf(expanded).unwrap();
    assert_eq!(
        conf.metadata,
        vec![
            ("build".to_string(), "nginx/1.27.4".to_string()),
            ("version".to_string(), "1.27.4".to_string()),
            ("version_number".to_string(), "1027004".to_string()),
        ]
    );
    assert_eq!(conf.os, "linux");
    assert_eq!(conf.features, vec!["http".to_string(), "threads".to_string()]);
}

#[test]
fn conf_empty_input() {
    let conf = parse_conf("").unwrap();
    assert!(conf.metadata.is_empty());
    assert_eq!(conf.os, "");
    assert!(conf.features.is_empty());
}

#[test]
fn conf_last_os_wins() {
    let conf = parse_conf("RUST_CONF_FREEBSD=1\nRUST_CONF_DARWIN=1\n").unwrap();
    assert_eq!(conf.os, "darwin");
}

#[test]
fn conf_lists() {
    assert_eq!(conf_features_list().len(), 28);
    assert_eq!(conf_os_list(), vec!["darwin", "freebsd", "gnu_hurd", "hpux", "linux", "solaris", "tru64", "win32"]);
}

#[test]
fn pieces_join_in_order() {
    assert_eq!(join_pieces(&vec![Some("nginx/".to_string()), Some("1.2".to_string())]), Some("nginx/1.2".to_string()));
    assert_eq!(join_pieces(&vec![]), Some(String::new()));
    assert_eq!(join_pieces(&vec![Some("a".to_string()), None]), None);
}

#[test]
fn unquote_merges_literals() {
    assert_eq!(unquote("\"nginx/\" \"1.27.4\""), Some("nginx/1.27.4".to_string()));
    assert_eq!(unquote("1027004"), Some(String::new()));
}

#[test]
fn expand_source_lists_every_flag() {
    let text = expand_source();
    assert!(text.starts_with("\n#include <ngx_config.h>\n#include <ngx_core.h>\n"));
    assert!(text.contains("RUST_CONF_NGINX_VERSION_NUMBER=nginx_version\n"));
    assert!(text.contains("\n#if defined(NGX_HTTP_V2)\nRUST_CONF_HTTP_V2=NGX_HTTP_V2\n#endif"));
    assert!(text.ends_with("\n#if defined(NGX_WIN32)\nRUST_CONF_WIN32=NGX_WIN32\n#endif"));
    assert_eq!(text.matches("#if defined(NGX_").count(), 36);
}
