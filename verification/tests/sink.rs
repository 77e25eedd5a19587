use minifmt::{Error, FormatFile};

fn text_after(write: fn(&mut FormatFile)) -> String {
    let mut sink = FormatFile::new();
    write(&mut sink);
    sink.finish()
}

#[test]
fn new_sink_is_empty_and_at_line_start() {
    let sink = FormatFile::new();
    assert!(sink.is_start_of_line());
    assert_eq!(sink.finish(), "");
}

#[test]
fn write_appends_text_as_it_is_at_depth_zero() {
    let mut sink = FormatFile::new();
    sink.write_str("struct ");
    assert!(!sink.is_start_of_line());
    sink.write_str("Name");
    sink.write_str(";\n");
    assert!(sink.is_start_of_line());
    assert_eq!(sink.finish(), "struct Name;\n");
}

#[test]
fn empty_fragment_changes_nothing() {
    let mut sink = FormatFile::new();
    sink.write_str("");
    assert!(sink.is_start_of_line());
    sink.write_str("a");
    sink.write_str("");
    assert!(!sink.is_start_of_line());
    assert_eq!(sink.finish(), "a\n");
}

#[test]
fn line_start_follows_the_last_character_written() {
    let mut sink = FormatFile::new();
    sink.write_str("a\nb");
    assert!(!sink.is_start_of_line());
    sink.write_str("\n");
    assert!(sink.is_start_of_line());
    sink.write_str("\n");
    assert!(sink.is_start_of_line());
    assert_eq!(sink.finish(), "a\nb\n\n");
}

#[test]
fn every_non_blank_line_in_a_scope_is_indented_by_four_spaces() {
    let text = text_after(|sink| {
        sink.block(|v: &mut FormatFile| v.write_str("first\n\nsecond\nthird\n"));
    });
    assert_eq!(text, "{\n    first\n\n    second\n    third\n}\n");
}

#[test]
fn blank_lines_are_not_indented() {
    let text = text_after(|sink| {
        sink.block(|v: &mut FormatFile| {
            v.write_str("\n");
            v.write_str("\n\n");
            v.write_str("x\n");
        });
    });
    assert_eq!(text, "{\n\n\n\n    x\n}\n");
}

#[test]
fn a_fragment_that_goes_on_with_a_line_is_not_indented_again() {
    let text = text_after(|sink| {
        sink.block(|v: &mut FormatFile| {
            v.write_str("let");
            v.write_str(" x");
            v.write_str(" = 1;\nlet y");
            v.write_str(";\n");
        });
    });
    assert_eq!(text, "{\n    let x = 1;\n    let y;\n}\n");
}

#[test]
fn nested_scopes_indent_by_four_spaces_each() {
    let text = text_after(|sink| {
        sink.write_str("a");
        sink.block(|v: &mut FormatFile| {
            v.write_str("b");
            v.block(|w: &mut FormatFile| {
                w.write_str("c");
                w.block(|x: &mut FormatFile| x.write_str("d\n"));
                w.write_str("e\n");
            });
            v.write_str("f\n");
        });
        sink.write_str("g\n");
    });
    assert_eq!(
        text,
        "a {\n    b {\n        c {\n            d\n        }\n        e\n    }\n    f\n}\ng\n"
    );
}

#[test]
fn push_spaces_writes_the_indentation_in_effect() {
    let text = text_after(|sink| {
        sink.push_spaces();
        sink.write_str("|");
        sink.indent(|v: &mut FormatFile| {
            v.push_spaces();
            v.write_str("|");
            v.indent(|w: &mut FormatFile| {
                w.push_spaces();
                w.write_str("|");
            });
        });
        sink.push_spaces();
        sink.write_str("|");
    });
    assert_eq!(text, "|    |        ||\n");
}

#[test]
fn indent_writes_no_delimiters_and_restores_the_depth() {
    let text = text_after(|sink| {
        sink.write_str("where\n");
        sink.indent(|v: &mut FormatFile| v.write_str("T: Clone,\n"));
        sink.write_str("{\n");
    });
    assert_eq!(text, "where\n    T: Clone,\n{\n");
}

#[test]
fn block_puts_one_space_before_the_brace_inside_a_line() {
    let text = text_after(|sink| {
        sink.write_str("impl Foo");
        sink.block(|_v: &mut FormatFile| ());
    });
    assert_eq!(text, "impl Foo {\n}\n");
}

#[test]
fn block_puts_no_space_before_the_brace_at_a_line_start() {
    let text = text_after(|sink| {
        sink.block(|_v: &mut FormatFile| ());
        sink.write_str("T: Foo,\n");
        sink.block(|_v: &mut FormatFile| ());
    });
    assert_eq!(text, "{\n}\nT: Foo,\n{\n}\n");
}

#[test]
fn block_no_nl_leaves_the_line_open_behind_the_brace() {
    let mut sink = FormatFile::new();
    sink.write_str("if x");
    sink.block_no_nl(|v: &mut FormatFile| v.write_str("y\n"));
    assert!(!sink.is_start_of_line());
    sink.write_str(" else");
    sink.block_no_nl(|v: &mut FormatFile| v.write_str("z\n"));
    assert_eq!(sink.finish(), "if x {\n    y\n} else {\n    z\n}\n");
}

#[test]
fn block_ends_the_line_behind_the_brace() {
    let mut sink = FormatFile::new();
    sink.write_str("mod a");
    sink.block(|_v: &mut FormatFile| ());
    assert!(sink.is_start_of_line());
    assert_eq!(sink.finish(), "mod a {\n}\n");
}

#[test]
fn scopes_hand_back_what_the_closure_returns() {
    let mut sink = FormatFile::new();
    let a = sink.block(|_v: &mut FormatFile| 7u32);
    let b = sink.block_no_nl(|_v: &mut FormatFile| "seven");
    let c = sink.indent(|v: &mut FormatFile| v.is_start_of_line());
    assert_eq!(a, 7);
    assert_eq!(b, "seven");
    assert!(!c);
}

#[test]
fn the_depth_is_restored_when_the_closure_fails() {
    let mut sink = FormatFile::new();
    let failed: Result<(), u8> = sink.block(|v: &mut FormatFile| {
        v.write_str("half\n");
        Err(3)
    });
    assert_eq!(failed, Err(3));
    sink.write_str("after\n");
    assert_eq!(sink.finish(), "{\n    half\n}\nafter\n");
}

#[test]
fn doc_comment_on_an_item() {
    let mut sink = FormatFile::new();
    sink.visit_doc_comment(false, " Hello");
    assert!(sink.is_start_of_line());
    assert_eq!(sink.finish(), "/// Hello\n");
}

#[test]
fn doc_comment_on_the_enclosing_scope() {
    let mut sink = FormatFile::new();
    sink.visit_doc_comment(true, " Hello");
    assert_eq!(sink.finish(), "//! Hello\n");
}

#[test]
fn doc_comments_are_indented_like_any_line() {
    let text = text_after(|sink| {
        sink.block(|v: &mut FormatFile| {
            v.visit_doc_comment(false, " one");
            v.visit_doc_comment(false, "");
            v.visit_doc_comment(true, "two");
        });
    });
    assert_eq!(text, "{\n    /// one\n    ///\n    //!two\n}\n");
}

#[test]
fn finish_adds_a_line_break_to_an_open_line() {
    let mut sink = FormatFile::new();
    sink.write_str("struct Name;");
    assert_eq!(sink.finish(), "struct Name;\n");
}

#[test]
fn finish_adds_nothing_behind_a_line_break() {
    let mut sink = FormatFile::new();
    sink.write_str("a\n");
    assert_eq!(sink.finish(), "a\n");
    let mut sink = FormatFile::new();
    sink.write_str("a\n\n");
    assert_eq!(sink.finish(), "a\n\n");
}

#[test]
fn finish_keeps_characters_beyond_ascii() {
    let mut sink = FormatFile::new();
    sink.write_str("// héllo ✓ 日本");
    sink.block(|v: &mut FormatFile| v.write_str("ß\n"));
    assert_eq!(sink.finish(), "// héllo ✓ 日本 {\n    ß\n}\n");
}

#[test]
fn a_carriage_return_before_a_line_break_is_dropped() {
    let text = text_after(|sink| {
        sink.block(|v: &mut FormatFile| v.write_str("a\r\nb\r\n\r\nc"));
    });
    assert_eq!(text, "{\n    a\n    b\n\n    c}\n");
}

#[test]
fn a_carriage_return_elsewhere_is_kept() {
    let mut sink = FormatFile::new();
    sink.write_str("a\rb\r\r\nc\r");
    assert!(!sink.is_start_of_line());
    assert_eq!(sink.finish(), "a\rb\r\nc\r\n");
}

#[test]
fn a_carriage_return_that_ends_a_fragment_is_kept() {
    let mut sink = FormatFile::new();
    sink.write_str("a\r");
    sink.write_str("\n");
    assert_eq!(sink.finish(), "a\r\n");
}

#[test]
fn errors_can_be_shown_for_debugging() {
    let file = minifmt::syntax::File {
        shebang: true,
        attrs: Vec::new(),
        items: Vec::new(),
    };
    let error: Error = match minifmt::fmt(&file) {
        Ok(text) => panic!("formatted: {}", text),
        Err(e) => e,
    };
    assert!(format!("{:?}", error).contains("Error"));
}
