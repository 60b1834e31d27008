use wechat_mp_mcp::template::{ActionInput, BookNoteInput, BookNoteRenderer, CorePointInput, NoteStyle};
use wechat_mp_mcp::tools::{
    article_fields, delete_published_request, existing_cover_media_id, list_body, optional_trimmed,
    prepare_draft, published_delete_index, require_confirmation, require_confirmed_write,
    require_non_empty, require_write, uploaded_cover_context, uploaded_cover_media_id,
    validate_article_options, ArticleOptions, DeletePublishedScope, DraftList, ListBody,
    media_list_body, MediaList,
};

fn note() -> BookNoteInput {
    BookNoteInput {
        title: Some(" 系统思维读书笔记 ".into()),
        style: NoteStyle::Reading,
        category: None,
        tags: vec![],
        book_meta: None,
        book_name: "系统之美".into(),
        author: "德内拉·梅多斯".into(),
        why_read: "理解系统。".into(),
        summary: "结构决定行为。".into(),
        core_points: vec![CorePointInput {
            number: None,
            title: "系统思维".into(),
            content: "关注结构，而不只是事件。".into(),
            extension: None,
            example: None,
        }],
        sections: None,
        example: None,
        thoughts: "先看整体。".into(),
        target_reader: "所有人".into(),
        actions: vec![ActionInput { text: "画出反馈回路".into() }],
    }
}

#[test]
fn list_defaults_omit_content_and_validate_count() {
    assert_eq!(
        list_body(DraftList { offset: None, count: None, no_content: None }).unwrap(),
        ListBody { offset: 0, count: 10, no_content: 1 }
    );
    assert!(list_body(DraftList { offset: None, count: Some(21), no_content: None }).is_err());
}

#[test]
fn list_body_bounds() {
    assert!(list_body(DraftList { offset: None, count: Some(0), no_content: None }).is_err());
    assert_eq!(
        list_body(DraftList { offset: Some(5), count: Some(20), no_content: Some(false) }).unwrap(),
        ListBody { offset: 5, count: 20, no_content: 0 }
    );
    assert_eq!(
        list_body(DraftList { offset: None, count: Some(21), no_content: None }).unwrap_err(),
        "count must be between 1 and 20"
    );
}

#[test]
fn published_delete_scope_cannot_accidentally_mean_all() {
    let single_missing = published_delete_index(DeletePublishedScope::Single, None);
    assert!(single_missing.is_err());
}

#[test]
fn published_delete_indexes() {
    assert_eq!(published_delete_index(DeletePublishedScope::Single, Some(2)), Ok(2));
    assert!(published_delete_index(DeletePublishedScope::Single, Some(0)).is_err());
    assert_eq!(published_delete_index(DeletePublishedScope::All, None), Ok(0));
    assert_eq!(
        published_delete_index(DeletePublishedScope::All, Some(1)).unwrap_err(),
        "scope=all must not include index"
    );
    assert!(delete_published_request(false, true, "a", DeletePublishedScope::All, None)
        .unwrap_err()
        .contains("write tools are disabled"));
    assert_eq!(
        delete_published_request(true, false, "a", DeletePublishedScope::All, None).unwrap_err(),
        "confirm must be true for this operation"
    );
    assert_eq!(
        delete_published_request(true, true, " ", DeletePublishedScope::All, None).unwrap_err(),
        "article_id must not be empty"
    );
    assert_eq!(delete_published_request(true, true, "a", DeletePublishedScope::Single, Some(1)), Ok(1));
}

#[test]
fn write_tools_are_disabled_before_network_access() {
    let renderer = BookNoteRenderer::new().unwrap();
    let error = prepare_draft(&renderer, false, None, &note(), &ArticleOptions::default()).unwrap_err();
    assert!(error.contains("write tools are disabled"));
    assert!(require_write(false).is_err());
    assert!(require_write(true).is_ok());
}

#[test]
fn prepare_draft_checks_in_order() {
    let renderer = BookNoteRenderer::new().unwrap();
    assert_eq!(
        prepare_draft(&renderer, true, Some(" "), &note(), &ArticleOptions::default()).unwrap_err(),
        "media_id must not be empty"
    );
    let mut bad = note();
    bad.summary = "".into();
    assert_eq!(
        prepare_draft(&renderer, true, None, &bad, &ArticleOptions::default()).unwrap_err(),
        "summary must not be empty"
    );
    let options = ArticleOptions { article_author: Some("作".repeat(17)), ..Default::default() };
    assert_eq!(
        prepare_draft(&renderer, true, None, &note(), &options).unwrap_err(),
        "article_author must contain at most 16 characters; got 17"
    );
    let rendered = prepare_draft(&renderer, true, Some("draft"), &note(), &ArticleOptions::default()).unwrap();
    assert!(rendered.html.contains("《系统之美》"));
}

#[test]
fn article_options_are_checked() {
    let ok = ArticleOptions {
        article_author: Some("作者".into()),
        digest: Some("摘要".into()),
        content_source_url: Some("https://example.com/a".into()),
        need_open_comment: Some(true),
        only_fans_can_comment: None,
    };
    assert!(validate_article_options(&ok).is_ok());
    let mut o = ok.clone();
    o.digest = Some("字".repeat(121));
    assert_eq!(
        validate_article_options(&o).unwrap_err(),
        "digest must contain at most 120 characters; got 121"
    );
    o = ok.clone();
    o.content_source_url = Some("ftp://example.com".into());
    assert_eq!(validate_article_options(&o).unwrap_err(), "content_source_url must use http or https");
    o.content_source_url = Some("not a url".into());
    assert_eq!(
        validate_article_options(&o).unwrap_err(),
        "content_source_url must be a valid http or https URL"
    );
    o.content_source_url = Some(format!("https://example.com/{}", "a".repeat(1010)));
    assert_eq!(
        validate_article_options(&o).unwrap_err(),
        "content_source_url must be smaller than 1024 bytes"
    );
    o.content_source_url = Some("HTTP://EXAMPLE.COM".into());
    assert!(validate_article_options(&o).is_ok());
    o.content_source_url = Some(" ".into());
    assert_eq!(validate_article_options(&o).unwrap_err(), "content_source_url must not be empty");
}

#[test]
fn article_fields_follow_note_and_options() {
    let a = article_fields(&note(), "<p>x</p>".into(), Some("cover-id"), &ArticleOptions::default());
    assert_eq!(a.article_type, "news");
    assert_eq!(a.title, "系统思维读书笔记");
    assert_eq!(a.content, "<p>x</p>");
    assert_eq!(a.digest, "结构决定行为。");
    assert_eq!(a.need_open_comment, 0);
    assert_eq!(a.thumb_media_id.as_deref(), Some("cover-id"));
    assert_eq!(a.author, None);
    let mut untitled = note();
    untitled.title = None;
    untitled.summary = "长".repeat(130);
    let options = ArticleOptions {
        article_author: Some("  作者 ".into()),
        need_open_comment: Some(true),
        only_fans_can_comment: Some(false),
        ..Default::default()
    };
    let a = article_fields(&untitled, String::new(), None, &options);
    assert_eq!(a.title, "系统之美读书笔记");
    assert_eq!(a.digest, "长".repeat(120));
    assert_eq!(a.need_open_comment, 1);
    assert_eq!(a.only_fans_can_comment, 0);
    assert_eq!(a.thumb_media_id, None);
    assert_eq!(a.author.as_deref(), Some("作者"));
}

#[test]
fn cover_ids_and_upload_context() {
    assert_eq!(existing_cover_media_id(" id ").unwrap(), "id");
    assert_eq!(existing_cover_media_id("  ").unwrap_err(), "cover media_id must not be empty");
    assert_eq!(uploaded_cover_media_id(Some("m")).unwrap(), "m");
    assert_eq!(
        uploaded_cover_media_id(Some("")).unwrap_err(),
        "WeChat cover-upload response is missing media_id"
    );
    assert!(uploaded_cover_media_id(None).is_err());
    assert_eq!(
        uploaded_cover_context("boom", Some("m1")),
        "boom; cover upload already succeeded, uploaded_cover_media_id=m1"
    );
    assert_eq!(uploaded_cover_context("boom", None), "boom");
}

#[test]
fn confirmations_and_required_values() {
    assert_eq!(require_confirmation(false).unwrap_err(), "confirm must be true for this operation");
    assert!(require_confirmation(true).is_ok());
    assert_eq!(require_non_empty("media_id", "").unwrap_err(), "media_id must not be empty");
    assert!(require_confirmed_write(false, true, "media_id", "x").unwrap_err().contains("write tools are disabled"));
    assert!(require_confirmed_write(true, true, "media_id", "x").is_ok());
    assert_eq!(optional_trimmed(Some("  a ")).as_deref(), Some("a"));
    assert_eq!(optional_trimmed(Some("   ")), None);
}

#[test]
fn permanent_media_list_defaults_to_images_and_checks_type_and_count() {
    let body = media_list_body(&MediaList { media_type: None, offset: None, count: None }).unwrap();
    assert_eq!(body.media_type, "image");
    assert_eq!(body.offset, 0);
    assert_eq!(body.count, 10);
    let body = media_list_body(&MediaList {
        media_type: Some("image".into()),
        offset: Some(0),
        count: Some(20),
    })
    .unwrap();
    assert_eq!((body.media_type.as_str(), body.offset, body.count), ("image", 0, 20));
    for t in ["voice", "video", "news"] {
        let body = media_list_body(&MediaList { media_type: Some(t.into()), offset: Some(5), count: Some(1) })
            .unwrap();
        assert_eq!((body.media_type.as_str(), body.offset, body.count), (t, 5, 1));
    }
    for t in ["thumb", "IMAGE", " image", ""] {
        assert_eq!(
            media_list_body(&MediaList { media_type: Some(t.into()), offset: None, count: None })
                .unwrap_err(),
            "media_type must be image, voice, video, or news"
        );
    }
    for c in [0, 21] {
        assert_eq!(
            media_list_body(&MediaList { media_type: None, offset: None, count: Some(c) }).unwrap_err(),
            "count must be between 1 and 20"
        );
    }
}
