use mojo_backend::header::{close_file, Header, IncludeSet};

#[test]
fn fresh_header_is_empty() {
    let h = Header::new(String::from("foo.mojo"));
    assert_eq!(h.path, "foo.mojo");
    assert!(h.includes.is_empty());
    assert_eq!(h.includes.len(), 0);
    assert!(h.decl_include.is_none());
    assert_eq!(h.body, "");
    assert_eq!(h.indent_str, "  ");
}

#[test]
fn fresh_header_renders_placeholder() {
    let h = Header::new(String::from("foo.mojo"));
    let body = h.rendered_body();
    assert_eq!(body, "// No Content\n\n");
    assert!(!body.is_empty());
}

#[test]
fn written_body_replaces_tabs_by_indentation() {
    let mut h = Header::new(String::from("foo.mojo"));
    h.write_str("struct Foo:\n\tfield1: c_uint8\n\t\tnested\n");
    assert_eq!(h.rendered_body(), "struct Foo:\n  field1: c_uint8\n    nested\n");
}

#[test]
fn indentation_token_is_used_as_given() {
    let mut h = Header::new(String::from("foo.mojo"));
    h.indent_str = "    ";
    h.write_char('\t');
    h.write_char('x');
    assert_eq!(h.rendered_body(), "    x");
}

#[test]
fn write_str_and_write_char_append() {
    let mut h = Header::new(String::from("foo.mojo"));
    h.write_str("ab");
    h.write_char('c');
    h.write_str("");
    h.write_str("dé");
    assert_eq!(h.body, "abcdé");
    assert_eq!(h.path, "foo.mojo");
    assert!(h.includes.is_empty());
}

#[test]
fn header_guard_substitutes_suffixes() {
    assert_eq!(Header::new(String::from("Foo.d.h")).header_guard(), "Foo_D_H");
    assert_eq!(Header::new(String::from("Foo.h")).header_guard(), "Foo_H");
    assert_eq!(Header::new(String::from("foo.mojo")).header_guard(), "foo.mojo");
    assert_eq!(Header::new(String::from("foo_d.mojo")).header_guard(), "foo_d.mojo");
}

#[test]
fn header_guard_substitutes_every_match_from_the_left() {
    assert_eq!(Header::new(String::from("a.h.h")).header_guard(), "a_H_H");
    assert_eq!(Header::new(String::from("a.d.h.d.h")).header_guard(), "a_D_H_D_H");
    assert_eq!(Header::new(String::from(".d.d.h")).header_guard(), ".d_D_H");
    assert_eq!(Header::new(String::from("")).header_guard(), "");
}

#[test]
fn include_set_keeps_each_path_once() {
    let mut s = IncludeSet::new();
    assert!(s.insert(String::from("b_d.mojo")));
    assert!(s.insert(String::from("a_d.mojo")));
    assert!(!s.insert(String::from("b_d.mojo")));
    assert_eq!(s.len(), 2);
    assert!(s.contains("a_d.mojo"));
    assert!(s.contains("b_d.mojo"));
    assert!(!s.contains("c_d.mojo"));
    let mut paths = s.paths().clone();
    paths.sort();
    assert_eq!(paths, vec![String::from("a_d.mojo"), String::from("b_d.mojo")]);
}

#[test]
fn include_set_remove() {
    let mut s = IncludeSet::new();
    s.insert(String::from("a"));
    s.insert(String::from("b"));
    s.insert(String::from("c"));
    assert!(s.remove("b"));
    assert!(!s.remove("b"));
    assert!(!s.remove("zzz"));
    assert_eq!(s.len(), 2);
    assert!(s.contains("a"));
    assert!(!s.contains("b"));
    assert!(s.contains("c"));
    assert!(s.remove("a"));
    assert!(s.remove("c"));
    assert!(s.is_empty());
}

#[test]
fn closing_a_file_appends_one_newline() {
    assert_eq!(close_file(String::from("body")), "body\n");
    assert_eq!(close_file(String::from("body\n")), "body\n\n");
    assert_eq!(close_file(String::new()), "\n");
}

#[test]
fn default_header_is_blank() {
    let h = Header::default();
    assert_eq!(h.path, "");
    assert!(h.includes.is_empty());
    assert!(h.decl_include.is_none());
    assert_eq!(h.body, "");
    assert_eq!(h.indent_str, "");
    assert_eq!(h.rendered_body(), "// No Content\n\n");
}
