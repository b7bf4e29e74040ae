use ngx::parse_includes_from_makefile;

#[test]
fn includes_listed_under_all_incs() {
    let mk = "CC =\tcc\nALL_INCS = -I src/core \\\n\t-I src/event \\\n\t-I objs \\\n\t-I src/http\n\nobjs/nginx:\tobjs/src/core/nginx.o\n";
    assert_eq!(
        parse_includes_from_makefile(mk),
        vec!["src/core".to_string(), "src/event".to_string(), "objs".to_string(), "src/http".to_string()]
    );
}

#[test]
fn includes_with_crlf_line_endings() {
    let mk = "ALL_INCS = -I a \\\r\n\t-I b\r\nx\r\n";
    assert_eq!(parse_includes_from_makefile(mk), vec!["a".to_string(), "b".to_string()]);
}

#[test]
fn includes_stop_at_first_line_without_flag() {
    let mk = "ALL_INCS = \\\n\t-I one \\\n\tfoo\n\t-I two\n";
    assert_eq!(parse_includes_from_makefile(mk), vec!["one".to_string()]);
}

#[test]
fn includes_piece_ends_at_next_flag() {
    assert_eq!(parse_includes_from_makefile("ALL_INCS = -I a -I b"), vec!["a ".to_string()]);
}

#[test]
fn includes_absent() {
    assert!(parse_includes_from_makefile("").is_empty());
    assert!(parse_includes_from_makefile("CFLAGS = -I x\n").is_empty());
}
