use ngx::list_iterator;

fn h(k: &str, v: &str) -> (String, String) {
    (k.to_string(), v.to_string())
}

#[test]
fn list_iterator_walks_all_parts() {
    let mut it = list_iterator(vec![vec![h("Host", "a"), h("Accept", "*/*")], vec![h("X-One", "1")]]);
    assert_eq!(it.next(), Some(h("Host", "a")));
    assert_eq!(it.next(), Some(h("Accept", "*/*")));
    assert_eq!(it.next(), Some(h("X-One", "1")));
    assert_eq!(it.next(), None);
    assert_eq!(it.next(), None);
}

#[test]
fn list_iterator_empty_list() {
    let mut it = list_iterator(vec![vec![]]);
    assert_eq!(it.next(), None);
    assert_eq!(it.next(), None);
}
