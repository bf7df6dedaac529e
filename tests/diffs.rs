use zia::diff::{enrich_diff_htmlf, mark_changes, mark_line, LineTag};

#[test]
fn equal_texts_give_no_diff() {
    let a = "one\ntwo\n".to_string();
    assert_eq!(enrich_diff_htmlf(&a, &a.clone()), None);
    assert_eq!(enrich_diff_htmlf(&String::new(), &String::new()), None);
}

#[test]
fn one_added_line_is_inserted_and_the_rest_equal() {
    let a = "alpha\nbeta\n".to_string();
    let b = "alpha\nbeta\ngamma\n".to_string();
    let d = enrich_diff_htmlf(&a, &b).unwrap();
    assert_eq!(
        d,
        vec![
            "<span>alpha</span>".to_string(),
            "<span>beta</span>".to_string(),
            "<span class='text-success'>gamma</span>".to_string(),
        ]
    );
}

#[test]
fn changed_line_is_deleted_then_inserted() {
    let a = "x\ny\n".to_string();
    let b = "x\nz\n".to_string();
    let d = enrich_diff_htmlf(&a, &b).unwrap();
    assert_eq!(
        d,
        vec![
            "<span>x</span>".to_string(),
            "<span class='text-danger'>y</span>".to_string(),
            "<span class='text-success'>z</span>".to_string(),
        ]
    );
}

#[test]
fn different_texts_give_a_diff() {
    assert!(enrich_diff_htmlf(&"a".to_string(), &"b".to_string()).is_some());
    assert!(enrich_diff_htmlf(&"a".to_string(), &"a\n".to_string()).is_some());
}

#[test]
fn mark_line_trims_trailing_whitespace() {
    assert_eq!(mark_line(LineTag::Delete, "gone  \t\n"), "<span class='text-danger'>gone</span>");
    assert_eq!(mark_line(LineTag::Equal, "  kept\n"), "<span>  kept</span>");
}

#[test]
fn mark_changes_keeps_order() {
    let cs = vec![
        (LineTag::Insert, "b\n".to_string()),
        (LineTag::Equal, "a\n".to_string()),
    ];
    assert_eq!(
        mark_changes(&cs),
        vec!["<span class='text-success'>b</span>".to_string(), "<span>a</span>".to_string()]
    );
    assert!(mark_changes(&Vec::new()).is_empty());
}

#[test]
fn mark_line_trims_unicode_whitespace_only() {
    assert_eq!(mark_line(LineTag::Insert, "a\u{3000}\u{a0} \r\n"), "<span class='text-success'>a</span>");
    assert_eq!(mark_line(LineTag::Equal, " \t\n"), "<span></span>");
    assert_eq!(mark_line(LineTag::Equal, "a\u{200b}"), "<span>a\u{200b}</span>");
}
