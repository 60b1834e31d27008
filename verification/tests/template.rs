use wechat_mp_mcp::escape::escape_multiline;
use wechat_mp_mcp::template::{
    finish_render, render_context_json, render_point, validate_non_empty, ActionInput,
    BookMetaInput, BookNoteInput, BookNoteRenderer, CorePointInput, NoteStyle, SectionInput,
};

fn note() -> BookNoteInput {
    BookNoteInput {
        title: None,
        style: NoteStyle::Reading,
        category: None,
        tags: vec![],
        book_meta: None,
        book_name: "系统之美".into(),
        author: "德内拉·梅多斯".into(),
        why_read: "理解系统如何运作。".into(),
        summary: "结构决定行为。".into(),
        core_points: vec![CorePointInput {
            number: Some("01".into()),
            title: "系统思维".into(),
            content: "关注结构，而不只是事件。".into(),
            extension: Some("应用到工作复盘。".into()),
            example: None,
        }],
        sections: None,
        example: Some("书中的反馈回路案例。".into()),
        thoughts: "先看整体，\n再看局部。".into(),
        target_reader: "希望改善思考方式的人。".into(),
        actions: vec![ActionInput {
            text: "画出反馈回路".into(),
        }],
    }
}

#[test]
fn renders_v2_sections() {
    let rendered = BookNoteRenderer::new().unwrap().render(&note()).unwrap();
    assert!(rendered.html.contains("为什么读这本书"));
    assert!(rendered.html.contains("01 · 系统思维"));
    assert!(rendered.html.contains("延伸思考"));
    assert!(rendered.html.contains("✓"));
}

#[test]
fn omits_empty_book_case_section() {
    let mut input = note();
    input.example = None;
    let rendered = BookNoteRenderer::new().unwrap().render(&input).unwrap();
    assert!(!rendered.html.contains("书中案例"));
}

#[test]
fn omits_empty_book_meta_section() {
    let mut input = note();
    input.book_meta = Some(BookMetaInput {
        platform: Some("微信读书".into()),
        rating: None,
        rating_count: None,
        want_to_read: None,
        reading_count: None,
        url: None,
    });
    let rendered = BookNoteRenderer::new().unwrap().render(&input).unwrap();
    assert!(!rendered.html.contains("阅读参考"));
}

#[test]
fn escapes_untrusted_text() {
    let mut input = note();
    input.summary = "<script>alert(\"x\")</script> & {{book_name}}".into();
    let rendered = BookNoteRenderer::new().unwrap().render(&input).unwrap();
    assert!(
        rendered
            .html
            .contains("&lt;script&gt;alert(&quot;x&quot;)&lt;/script&gt; &amp; {{book_name}}")
    );
    assert!(!rendered.html.contains("<script>"));
}

#[test]
fn rejects_missing_sections_and_long_titles() {
    let renderer = BookNoteRenderer::new().unwrap();
    let mut input = note();
    input.actions.clear();
    assert!(renderer.render(&input).unwrap_err().contains("actions"));
    input = note();
    input.title = Some("书".repeat(33));
    assert!(renderer.render(&input).unwrap_err().contains("at most 32"));
}

#[test]
fn renders_book_title_and_author() {
    let rendered = BookNoteRenderer::new().unwrap().render(&note()).unwrap();
    assert!(rendered.html.contains("《系统之美》"));
    assert!(rendered.html.contains("德内拉·梅多斯"));
    assert!(rendered.html.contains("先看整体，<br>再看局部。"));
    assert!(rendered.html.contains("书中案例"));
}

#[test]
fn reports_sizes_of_rendered_html() {
    let rendered = BookNoteRenderer::new().unwrap().render(&note()).unwrap();
    assert_eq!(rendered.char_count, rendered.html.chars().count());
    assert_eq!(rendered.byte_count, rendered.html.len());
}

#[test]
fn shows_book_meta_with_rating() {
    let mut input = note();
    input.book_meta = Some(BookMetaInput {
        platform: Some("  ".into()),
        rating: Some("8.9".into()),
        rating_count: Some("1200".into()),
        want_to_read: None,
        reading_count: None,
        url: None,
    });
    let rendered = BookNoteRenderer::new().unwrap().render(&input).unwrap();
    assert!(rendered.html.contains("阅读参考 · 微信读书"));
    assert!(rendered.html.contains("8.9"));
    assert!(rendered.html.contains("1200"));
}

#[test]
fn every_style_renders() {
    let renderer = BookNoteRenderer::new().unwrap();
    for style in [NoteStyle::Reading, NoteStyle::Business, NoteStyle::Tech, NoteStyle::Invest] {
        let mut input = note();
        input.style = style;
        let rendered = renderer.render(&input).unwrap();
        assert!(rendered.html.contains("《系统之美》"));
        assert!(rendered.html.contains("01 · 系统思维"));
        assert!(rendered.html.contains("画出反馈回路"));
    }
}

#[test]
fn title_of_exactly_32_characters_is_accepted() {
    let renderer = BookNoteRenderer::new().unwrap();
    let mut input = note();
    input.title = Some("书".repeat(32));
    assert!(renderer.render(&input).is_ok());
    input.title = Some("书".repeat(33));
    assert_eq!(
        renderer.render(&input).unwrap_err(),
        "title must contain at most 32 characters; got 33"
    );
    input.title = Some("   ".into());
    assert_eq!(renderer.render(&input).unwrap_err(), "title must not be empty");
}

#[test]
fn required_fields_are_checked_in_order() {
    let renderer = BookNoteRenderer::new().unwrap();
    let mut input = note();
    input.book_name = " \n".into();
    input.author = "".into();
    assert_eq!(renderer.render(&input).unwrap_err(), "book_name must not be empty");
    input = note();
    input.target_reader = "\t".into();
    assert_eq!(renderer.render(&input).unwrap_err(), "target_reader must not be empty");
    input = note();
    input.core_points.clear();
    assert_eq!(
        renderer.render(&input).unwrap_err(),
        "core_points must contain at least one item"
    );
    input = note();
    input.core_points[0].content = " ".into();
    assert_eq!(
        renderer.render(&input).unwrap_err(),
        "core_points[].content must not be empty"
    );
    input = note();
    input.actions[0].text = "".into();
    assert_eq!(renderer.render(&input).unwrap_err(), "actions[].text must not be empty");
}

#[test]
fn sections_replace_core_points() {
    let renderer = BookNoteRenderer::new().unwrap();
    let mut input = note();
    input.sections = Some(vec![
        SectionInput {
            number: None,
            title: "第一节".into(),
            content: "内容一".into(),
            extension: None,
            example: None,
        },
        SectionInput {
            number: Some("  ".into()),
            title: "第二节".into(),
            content: "内容二".into(),
            extension: None,
            example: Some("例子".into()),
        },
    ]);
    let rendered = renderer.render(&input).unwrap();
    assert!(rendered.html.contains("01 · 第一节"));
    assert!(rendered.html.contains("02 · 第二节"));
    assert!(!rendered.html.contains("系统思维"));
}

#[test]
fn escape_multiline_exact_output() {
    assert_eq!(
        escape_multiline("  a&b<c>d\"e'f\r\ng  "),
        "a&amp;b&lt;c&gt;d&quot;e&#x27;f<br>g"
    );
    assert_eq!(escape_multiline(" \t "), "");
    assert_eq!(escape_multiline("一\n二"), "一<br>二");
}

#[test]
fn render_point_numbers_by_position() {
    let point = render_point(0, &None, " 标题 ", "内容", None, None).unwrap();
    assert_eq!(point.number, "01");
    assert_eq!(point.title, "标题");
    assert_eq!(point.practice_html, "");
    assert_eq!(point.extension_html, None);
    let point = render_point(11, &Some(" 七 ".into()), "t", "c", Some(" "), Some("x<y")).unwrap();
    assert_eq!(point.number, "七");
    assert_eq!(point.example_html.as_deref(), Some("x&lt;y"));
    assert_eq!(point.case_html.as_deref(), Some("x&lt;y"));
    let point = render_point(11, &None, "t", "c", None, None).unwrap();
    assert_eq!(point.number, "12");
    assert_eq!(
        render_point(0, &None, "", "c", None, None).unwrap_err(),
        "core_points[].title must not be empty"
    );
}

#[test]
fn context_json_is_valid_json_with_escaped_fields() {
    let json = render_context_json(&note()).unwrap();
    let value: serde_json::Value = serde_json::from_str(&json).unwrap();
    assert_eq!(value["book_name"], "系统之美");
    assert_eq!(value["thoughts_html"], "先看整体，<br>再看局部。");
    assert_eq!(value["core_points"][0]["number"], "01");
    assert_eq!(value["core_points"][0]["extension_html"], "应用到工作复盘。");
    assert!(value["core_points"][0]["example_html"].is_null());
    assert_eq!(value["insights"], value["core_points"]);
    assert!(value["book_meta"].is_null());
    assert_eq!(value["actions"][0]["text_html"], "画出反馈回路");
}

#[test]
fn context_json_escapes_quotes_and_controls() {
    let mut input = note();
    input.book_name = "a\"b\\c\u{1}".into();
    let json = render_context_json(&input).unwrap();
    let value: serde_json::Value = serde_json::from_str(&json).unwrap();
    assert_eq!(value["book_name"], "a\"b\\c\u{1}");
}

#[test]
fn finish_render_enforces_limits() {
    let ok = finish_render("é".repeat(10)).unwrap();
    assert_eq!(ok.char_count, 10);
    assert_eq!(ok.byte_count, 20);
    assert_eq!(
        finish_render("a".repeat(20000)).unwrap_err(),
        "rendered HTML must contain fewer than 20000 characters; got 20000"
    );
    assert!(finish_render("a".repeat(19999)).is_ok());
}

#[test]
fn validate_non_empty_names_the_field() {
    assert_eq!(validate_non_empty("x", " ").unwrap_err(), "x must not be empty");
    assert!(validate_non_empty("x", "y").is_ok());
}

#[test]
fn title_does_not_reach_the_article_body() {
    let mut titled = note();
    titled.title = Some("一个标题".into());
    assert_eq!(render_context_json(&titled).unwrap(), render_context_json(&note()).unwrap());
    let renderer = BookNoteRenderer::new().unwrap();
    assert_eq!(renderer.render(&titled).unwrap().html, renderer.render(&note()).unwrap().html);
}

#[test]
fn category_and_tags_do_not_change_rendering() {
    let mut tagged = note();
    tagged.category = Some("成长".into());
    tagged.tags = vec!["认知".into(), "成长".into()];
    let renderer = BookNoteRenderer::new().unwrap();
    assert_eq!(renderer.render(&tagged).unwrap().html, renderer.render(&note()).unwrap().html);
}
