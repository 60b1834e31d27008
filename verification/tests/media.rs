use wechat_mp_mcp::media::{
    CoverAction, CoverEvent, CoverReader, canonical_media_root, check_cover_bytes, check_cover_location, check_cover_metadata,
    cover_file_name, cover_mime, cover_request_path, path_components, starts_with_path,
};
use std::path::Path;

#[test]
fn rejects_media_outside_root() {
    let error = check_cover_location("/tmp/outside/cover.png", "/tmp/root").unwrap_err();
    assert!(error.contains("outside WECHAT_MEDIA_ROOT"));
    assert!(check_cover_location("/tmp/root/covers/cover.png", "/tmp/root").is_ok());
    assert!(check_cover_location("/tmp/rootx/cover.png", "/tmp/root").is_err());
}

#[test]
fn path_prefix_agrees_with_std() {
    let cases = [
        ("/a/b/c", "/a/b"),
        ("/a/bc", "/a/b"),
        ("/a//b/./c", "/a/b/"),
        ("/a/b", "/a/b"),
        ("a/b", "/a"),
        ("./a", "."),
        ("/", "/"),
        ("/a/../b", "/a"),
        ("", ""),
    ];
    for (p, base) in cases {
        assert_eq!(starts_with_path(p, base), Path::new(p).starts_with(base), "{p} {base}");
        let ours: Vec<String> = path_components(p).into_iter().map(|c| c.into_iter().collect()).collect();
        let std_count = Path::new(p).components().count();
        assert_eq!(ours.len(), std_count, "{p}");
    }
}

#[test]
fn cover_mime_by_extension() {
    assert_eq!(cover_mime("/m/cover.PNG"), Ok("image/png"));
    assert_eq!(cover_mime("/m/a.b.jpeg"), Ok("image/jpeg"));
    assert_eq!(cover_mime("/m/x.Jpg"), Ok("image/jpeg"));
    assert_eq!(cover_mime("/m/x.gif"), Ok("image/gif"));
    assert_eq!(cover_mime("/m/x.bmp"), Ok("image/bmp"));
    assert_eq!(
        cover_mime("/m/.png").unwrap_err(),
        "cover image must use bmp, gif, jpg, jpeg, or png format"
    );
    assert!(cover_mime("/m/cover").is_err());
    assert!(cover_mime("/m/cover.webp").is_err());
}

#[test]
fn cover_file_names() {
    assert_eq!(cover_file_name("/m/cover.png").unwrap(), "cover.png");
    assert_eq!(cover_file_name("/m/sub/").unwrap(), "sub");
    assert_eq!(cover_file_name("/").unwrap_err(), "media filename is not valid UTF-8");
    assert!(cover_file_name("/m/..").is_err());
}

#[test]
fn cover_request_paths() {
    assert_eq!(
        cover_request_path(None, "a.png").unwrap_err(),
        "file uploads are disabled; set WECHAT_MEDIA_ROOT to an allowed directory"
    );
    assert_eq!(cover_request_path(Some("/m"), "  ").unwrap_err(), "file_path must not be empty");
    assert_eq!(cover_request_path(Some("/m"), "covers/a.png").unwrap(), "/m/covers/a.png");
    assert_eq!(cover_request_path(Some("/m/"), "a.png").unwrap(), "/m/a.png");
    assert_eq!(cover_request_path(Some("/m"), "/data/a.png").unwrap(), "/data/a.png");
    assert_eq!(
        Path::new("/m").join("covers/a.png").to_str().unwrap(),
        cover_request_path(Some("/m"), "covers/a.png").unwrap()
    );
}

#[test]
fn cover_sizes() {
    assert!(check_cover_metadata("/m/a.png", true, 1).is_ok());
    assert!(check_cover_metadata("/m/a.png", true, 10 * 1024 * 1024).is_ok());
    assert_eq!(
        check_cover_metadata("/m/a.png", true, 10 * 1024 * 1024 + 1).unwrap_err(),
        "cover image must be between 1 byte and 10 MiB"
    );
    assert!(check_cover_metadata("/m/a.png", true, 0).is_err());
    assert_eq!(
        check_cover_metadata("/m/dir", false, 5).unwrap_err(),
        "media path /m/dir is not a regular file"
    );
    assert!(check_cover_bytes(0).is_err());
    assert!(check_cover_bytes(5).is_ok());
}

#[test]
fn media_root_resolution() {
    assert_eq!(
        canonical_media_root("media", None, false).unwrap_err(),
        "failed to resolve WECHAT_MEDIA_ROOT media"
    );
    assert_eq!(
        canonical_media_root("media", Some("/srv/media"), false).unwrap_err(),
        "WECHAT_MEDIA_ROOT /srv/media is not a directory"
    );
    assert_eq!(canonical_media_root("media", Some("/srv/media"), true).unwrap(), "/srv/media");
}

fn fail_text(action: CoverAction) -> String {
    match action {
        CoverAction::Fail(message) => message,
        _ => panic!("expected the read to fail"),
    }
}

#[test]
fn cover_read_checks_location_then_metadata_then_bytes() {
    let (mut reader, action) = CoverReader::start(Some("/media"), "covers/Book.PNG");
    match action {
        CoverAction::Canonicalize(path) => assert_eq!(path, "/media/covers/Book.PNG"),
        _ => panic!("expected the path to be resolved first"),
    }
    match reader.step(CoverEvent::Canonicalized(Some("/media/covers/Book.PNG".to_string()))) {
        CoverAction::Inspect(path) => assert_eq!(path, "/media/covers/Book.PNG"),
        _ => panic!("expected the metadata to be read next"),
    }
    match reader.step(CoverEvent::Inspected(Ok((true, 3)))) {
        CoverAction::Read(path) => assert_eq!(path, "/media/covers/Book.PNG"),
        _ => panic!("expected the file to be read next"),
    }
    match reader.step(CoverEvent::ReadDone(Ok(vec![1, 2, 3]))) {
        CoverAction::Done(file) => {
            assert_eq!(file.bytes, vec![1, 2, 3]);
            assert_eq!(file.filename, "Book.PNG");
            assert_eq!(file.mime, "image/png");
        }
        _ => panic!("expected the cover"),
    }
}

#[test]
fn cover_read_stops_at_the_first_failed_check() {
    let (_, action) = CoverReader::start(None, "cover.png");
    assert_eq!(
        fail_text(action),
        "file uploads are disabled; set WECHAT_MEDIA_ROOT to an allowed directory"
    );
    let (_, action) = CoverReader::start(Some("/media"), "   ");
    assert_eq!(fail_text(action), "file_path must not be empty");

    let (mut reader, _) = CoverReader::start(Some("/media"), "/elsewhere/cover.png");
    assert_eq!(
        fail_text(reader.step(CoverEvent::Canonicalized(None))),
        "failed to resolve media file /elsewhere/cover.png"
    );

    let (mut reader, _) = CoverReader::start(Some("/media"), "/elsewhere/cover.png");
    assert_eq!(
        fail_text(reader.step(CoverEvent::Canonicalized(Some("/elsewhere/cover.png".into())))),
        "media file /elsewhere/cover.png is outside WECHAT_MEDIA_ROOT /media"
    );

    let (mut reader, _) = CoverReader::start(Some("/media"), "dir");
    reader.step(CoverEvent::Canonicalized(Some("/media/dir".into())));
    assert_eq!(
        fail_text(reader.step(CoverEvent::Inspected(Ok((false, 4096))))),
        "media path /media/dir is not a regular file"
    );

    let (mut reader, _) = CoverReader::start(Some("/media"), "big.png");
    reader.step(CoverEvent::Canonicalized(Some("/media/big.png".into())));
    assert_eq!(
        fail_text(reader.step(CoverEvent::Inspected(Ok((true, 10 * 1024 * 1024 + 1))))),
        "cover image must be between 1 byte and 10 MiB"
    );

    let (mut reader, _) = CoverReader::start(Some("/media"), "cover.webp");
    reader.step(CoverEvent::Canonicalized(Some("/media/cover.webp".into())));
    assert_eq!(
        fail_text(reader.step(CoverEvent::Inspected(Ok((true, 10))))),
        "cover image must use bmp, gif, jpg, jpeg, or png format"
    );

    let (mut reader, _) = CoverReader::start(Some("/media"), "cover.jpg");
    reader.step(CoverEvent::Canonicalized(Some("/media/cover.jpg".into())));
    reader.step(CoverEvent::Inspected(Ok((true, 10))));
    assert_eq!(
        fail_text(reader.step(CoverEvent::ReadDone(Ok(Vec::new())))),
        "cover image must be between 1 byte and 10 MiB"
    );

    let (mut reader, _) = CoverReader::start(Some("/media"), "cover.gif");
    reader.step(CoverEvent::Canonicalized(Some("/media/cover.gif".into())));
    assert_eq!(
        fail_text(reader.step(CoverEvent::Inspected(Err("permission denied".into())))),
        "permission denied"
    );
}
