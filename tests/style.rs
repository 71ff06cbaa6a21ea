use ratzilla::style::with_cursor_style;

#[test]
fn cursor_style_on_empty_style() {
    assert_eq!(with_cursor_style("", true), "cursor: pointer");
}

#[test]
fn cursor_style_appended() {
    assert_eq!(with_cursor_style("width: 10px;;", false), "width: 10px; cursor: default");
    assert_eq!(with_cursor_style("width: 10px", true), "width: 10px; cursor: pointer");
}

#[test]
fn cursor_style_replaced() {
    assert_eq!(
        with_cursor_style("width: 10px; cursor: pointer; height: 2px", false),
        "width: 10px; cursor: default height: 2px"
    );
    assert_eq!(with_cursor_style("cursor:default", true), "cursor: pointer");
}
