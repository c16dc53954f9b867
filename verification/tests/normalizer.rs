use typescript_validator::normalize::normalize;

#[test]
fn wraps_bare_type_expression() {
    assert_eq!(normalize("5"), "type __ValidationType = 5;");
}

#[test]
fn wraps_bare_object_type() {
    assert_eq!(
        normalize("{ a: string }"),
        "type __ValidationType = { a: string };"
    );
}

#[test]
fn wraps_unbalanced_braces() {
    assert_eq!(normalize("{{{"), "type __ValidationType = {{{;");
}

#[test]
fn wraps_empty_input() {
    assert_eq!(normalize(""), "type __ValidationType = ;");
}

#[test]
fn passes_through_export() {
    let s = "export type A = number;";
    assert_eq!(normalize(s), s);
}

#[test]
fn passes_through_type_alias() {
    let s = "type A = string;";
    assert_eq!(normalize(s), s);
}

#[test]
fn passes_through_interface() {
    let s = "interface Foo { bar: string }";
    assert_eq!(normalize(s), s);
}

#[test]
fn passes_through_declare() {
    let s = "declare const x: number;";
    assert_eq!(normalize(s), s);
}

#[test]
fn trims_leading_whitespace_before_keyword_check() {
    let s = "  \t\n interface Foo { bar: string }";
    assert_eq!(normalize(s), s);
}

#[test]
fn trims_unicode_whitespace_before_keyword_check() {
    let s = "\u{00A0}\u{2028}export const x = 1;";
    assert_eq!(normalize(s), s);
}

#[test]
fn keyword_type_needs_trailing_space() {
    assert_eq!(normalize("typeof x"), "type __ValidationType = typeof x;");
}

#[test]
fn keyword_export_needs_no_trailing_space() {
    let s = "exports";
    assert_eq!(normalize(s), s);
}

#[test]
fn keyword_inside_text_does_not_count() {
    assert_eq!(
        normalize("my interface thing"),
        "type __ValidationType = my interface thing;"
    );
}
