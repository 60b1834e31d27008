//! The decisions of the article tools: write gating, confirmations, article options, the
//! draft article's fields, list paging and published-article deletion.
use vstd::prelude::*;
use vstd::utf8::encode_utf8;
use crate::client::opt_text;
use crate::template::{render_outcome, rendered_as, BookNoteInput, BookNoteRenderer, RenderedNote};
use crate::text::{blank, chars_of, decimal, is_blank, push_decimal, push_str, str_equal, trim, trimmed, utf8_len_below};

verus! {

/// What `reqwest::Url::parse` gives for `text`: the URL's scheme (lowercase, as the parser
/// stores it), or `None` when the text is not a URL.
pub uninterp spec fn url_scheme(text: Seq<char>) -> Option<Seq<char>>;

/// `reqwest::Url::parse`, keeping only the parsed URL's scheme.
#[verifier::external_body]
fn parse_url_scheme(text: &str) -> (r: Option<String>)
    ensures
        match url_scheme(text@) {
            Some(s) => r matches Some(t) && t@ == s,
            None => r is None,
        },
{
    reqwest::Url::parse(text).ok().map(|url| url.scheme().to_owned())
}

fn owned(text: &str) -> (s: String)
    ensures
        s@ == text@,
{
    let mut s = String::new();
    push_str(&mut s, text);
    proof {
        assert(Seq::<char>::empty() + text@ =~= text@);
    }
    s
}

/// The refusal of a write tool while writing is switched off.
pub open spec fn write_disabled_message() -> Seq<char> {
    "write tools are disabled; set WECHAT_ALLOW_WRITE=true to enable uploads, draft changes, publishing, and deletion"@
}

/// Refuses a write tool unless writing is switched on.
pub fn require_write(allow_write: bool) -> (r: Result<(), String>)
    ensures
        r is Ok <==> allow_write,
        r matches Err(e) ==> e@ == write_disabled_message(),
{
    if allow_write {
        Ok(())
    } else {
        Err(
            owned(
                "write tools are disabled; set WECHAT_ALLOW_WRITE=true to enable uploads, draft changes, publishing, and deletion",
            ),
        )
    }
}

/// Refuses an irreversible or public action unless it is confirmed.
pub fn require_confirmation(confirm: bool) -> (r: Result<(), String>)
    ensures
        r is Ok <==> confirm,
        r matches Err(e) ==> e@ == "confirm must be true for this operation"@,
{
    if confirm {
        Ok(())
    } else {
        Err(owned("confirm must be true for this operation"))
    }
}

/// Refuses a required parameter that holds only whitespace.
pub fn require_non_empty(name: &str, value: &str) -> (r: Result<(), String>)
    ensures
        r is Err <==> blank(value@),
        r matches Err(e) ==> e@ == name@ + " must not be empty"@,
{
    if is_blank(value) {
        let mut m = owned(name);
        push_str(&mut m, " must not be empty");
        Err(m)
    } else {
        Ok(())
    }
}

/// Checks an action on one saved article: writing must
/// be on, then the action confirmed, then the target named.
pub fn require_confirmed_write(allow_write: bool, confirm: bool, name: &str, value: &str) -> (r: Result<(), String>)
    ensures
        !allow_write ==> (r matches Err(e) && e@ == write_disabled_message()),
        allow_write && !confirm ==> (r matches Err(e) && e@ == "confirm must be true for this operation"@),
        allow_write && confirm && blank(value@) ==> (r matches Err(e) && e@ == name@ + " must not be empty"@),
        allow_write && confirm && !blank(value@) ==> r is Ok,
{
    require_write(allow_write)?;
    require_confirmation(confirm)?;
    require_non_empty(name, value)
}

/// An existing cover `media_id`, trimmed; it must not be blank.
pub fn existing_cover_media_id(media_id: &str) -> (r: Result<String, String>)
    ensures
        !blank(media_id@) ==> (r matches Ok(s) && s@ == trim(media_id@)),
        blank(media_id@) ==> (r matches Err(e) && e@ == "cover media_id must not be empty"@),
{
    let id = trimmed(media_id);
    if id.as_str().is_empty() {
        Err(owned("cover media_id must not be empty"))
    } else {
        Ok(id)
    }
}

/// The `media_id` of a cover-upload response; it must be present and not empty.
pub fn uploaded_cover_media_id(media_id: Option<&str>) -> (r: Result<String, String>)
    ensures
        match media_id {
            Some(m) if m@.len() > 0 => r matches Ok(s) && s@ == m@,
            _ => r matches Err(e) && e@ == "WeChat cover-upload response is missing media_id"@,
        },
{
    match media_id {
        Some(m) => if m.is_empty() {
            Err(owned("WeChat cover-upload response is missing media_id"))
        } else {
            Ok(owned(m))
        },
        None => Err(owned("WeChat cover-upload response is missing media_id")),
    }
}

/// The error of a draft request, naming the cover uploaded for it when there is one, so that
/// a retry can reuse it.
pub fn uploaded_cover_context(error: &str, uploaded_cover_media_id: Option<&str>) -> (m: String)
    ensures
        match uploaded_cover_media_id {
            Some(id) => m@ == error@ + "; cover upload already succeeded, uploaded_cover_media_id="@ + id@,
            None => m@ == error@,
        },
{
    let mut m = owned(error);
    if let Some(id) = uploaded_cover_media_id {
        push_str(&mut m, "; cover upload already succeeded, uploaded_cover_media_id=");
        push_str(&mut m, id);
    }
    m
}

/// Options of the draft article.
#[derive(Debug, Clone, Default)]
pub struct ArticleOptions {
    pub article_author: Option<String>,
    pub digest: Option<String>,
    pub content_source_url: Option<String>,
    pub need_open_comment: Option<bool>,
    pub only_fans_can_comment: Option<bool>,
}

/// Why article options are refused, checked in order; `None` when they are accepted.
pub open spec fn options_error(o: ArticleOptions) -> Option<Seq<char>> {
    if o.article_author is Some && blank(o.article_author->0@) {
        Some("article_author"@ + " must not be empty"@)
    } else if o.article_author is Some && o.article_author->0@.len() > 16 {
        Some("article_author must contain at most 16 characters; got "@ + decimal(o.article_author->0@.len()))
    } else if o.digest is Some && blank(o.digest->0@) {
        Some("digest"@ + " must not be empty"@)
    } else if o.digest is Some && o.digest->0@.len() > 120 {
        Some("digest must contain at most 120 characters; got "@ + decimal(o.digest->0@.len()))
    } else if o.content_source_url is Some && blank(o.content_source_url->0@) {
        Some("content_source_url"@ + " must not be empty"@)
    } else if o.content_source_url is Some && encode_utf8(o.content_source_url->0@).len() >= 1024 {
        Some("content_source_url must be smaller than 1024 bytes"@)
    } else if o.content_source_url is Some && url_scheme(o.content_source_url->0@) is None {
        Some("content_source_url must be a valid http or https URL"@)
    } else if o.content_source_url is Some && url_scheme(o.content_source_url->0@)->0 != "http"@
        && url_scheme(o.content_source_url->0@)->0 != "https"@ {
        Some("content_source_url must use http or https"@)
    } else {
        None
    }
}

fn count_error(prefix: &str, count: usize) -> (m: String)
    ensures
        m@ == prefix@ + decimal(count as nat),
{
    let mut m = owned(prefix);
    push_decimal(&mut m, count as u64);
    m
}

/// Checks article options: author at most 16 characters, digest at most 120, a source URL
/// under 1024 bytes that parses with an http or https scheme; none of them blank.
pub fn validate_article_options(options: &ArticleOptions) -> (r: Result<(), String>)
    ensures
        match options_error(*options) {
            Some(e) => r matches Err(m) && m@ == e,
            None => r is Ok,
        },
{
    if let Some(author) = &options.article_author {
        require_non_empty("article_author", author.as_str())?;
        let count = author.as_str().unicode_len();
        if count > 16 {
            return Err(count_error("article_author must contain at most 16 characters; got ", count));
        }
    }
    if let Some(digest) = &options.digest {
        require_non_empty("digest", digest.as_str())?;
        let count = digest.as_str().unicode_len();
        if count > 120 {
            return Err(count_error("digest must contain at most 120 characters; got ", count));
        }
    }
    if let Some(source_url) = &options.content_source_url {
        require_non_empty("content_source_url", source_url.as_str())?;
        if utf8_len_below(source_url.as_str(), 1024).is_none() {
            return Err(owned("content_source_url must be smaller than 1024 bytes"));
        }
        let scheme = match parse_url_scheme(source_url.as_str()) {
            Some(s) => s,
            None => return Err(owned("content_source_url must be a valid http or https URL")),
        };
        if !str_equal(scheme.as_str(), "http") && !str_equal(scheme.as_str(), "https") {
            return Err(owned("content_source_url must use http or https"));
        }
    }
    Ok(())
}

/// What checking a draft article gives: writing must be on, a draft `media_id` (when the tool
/// takes one) must be given, the note must render, and the options must be accepted.
pub open spec fn draft_outcome(
    allow_write: bool,
    media_id: Option<Seq<char>>,
    note: BookNoteInput,
    options: ArticleOptions,
) -> Result<Seq<char>, Seq<char>> {
    if !allow_write {
        Err(write_disabled_message())
    } else if media_id is Some && blank(media_id->0) {
        Err("media_id"@ + " must not be empty"@)
    } else {
        match render_outcome(note) {
            Err(e) => Err(e),
            Ok(html) => match options_error(options) {
                Some(e) => Err(e),
                None => Ok(html),
            },
        }
    }
}

/// The checks before a draft is created or updated, in the order the tools make them; gives
/// the rendered article.
pub fn prepare_draft(
    renderer: &BookNoteRenderer,
    allow_write: bool,
    media_id: Option<&str>,
    note: &BookNoteInput,
    options: &ArticleOptions,
) -> (r: Result<RenderedNote, String>)
    ensures
        match draft_outcome(allow_write, opt_text(media_id), *note, *options) {
            Err(e) => r matches Err(m) && m@ == e,
            Ok(html) => r matches Ok(n) && rendered_as(*note, Ok::<RenderedNote, String>(n)),
        },
{
    require_write(allow_write)?;
    if let Some(id) = media_id {
        require_non_empty("media_id", id)?;
    }
    let rendered = renderer.render(note)?;
    validate_article_options(options)?;
    Ok(rendered)
}

/// Leading and trailing whitespace removed; nothing when that leaves nothing.
pub open spec fn trimmed_opt(o: Option<Seq<char>>) -> Option<Seq<char>> {
    match o {
        Some(s) => if trim(s).len() > 0 {
            Some(trim(s))
        } else {
            None
        },
        None => None,
    }
}

/// An optional field trimmed, kept only when something is left.
pub fn optional_trimmed(value: Option<&str>) -> (r: Option<String>)
    ensures
        opt_string_view(r) == trimmed_opt(opt_text(value)),
{
    match value {
        Some(v) => {
            let t = trimmed(v);
            if t.as_str().is_empty() {
                None
            } else {
                Some(t)
            }
        },
        None => None,
    }
}

/// The text of an optional string.
pub open spec fn opt_string_view(o: Option<String>) -> Option<Seq<char>> {
    match o {
        Some(s) => Some(s@),
        None => None,
    }
}

/// The fields of a draft article, as the draft API takes them.
#[derive(Debug, Clone)]
pub struct ArticleFields {
    pub article_type: String,
    pub title: String,
    pub content: String,
    pub digest: String,
    pub need_open_comment: u8,
    pub only_fans_can_comment: u8,
    pub thumb_media_id: Option<String>,
    pub author: Option<String>,
    pub content_source_url: Option<String>,
}

/// The article title: the note's own title, trimmed, or else the book name followed by 读书笔记.
pub open spec fn article_title(note: BookNoteInput) -> Seq<char> {
    match note.title {
        Some(t) => trim(t@),
        None => trim(note.book_name@) + "读书笔记"@,
    }
}

/// The article digest: the given one, trimmed, or else the first 120 characters of the
/// trimmed summary.
pub open spec fn article_digest(note: BookNoteInput, options: ArticleOptions) -> Seq<char> {
    match options.digest {
        Some(d) => trim(d@),
        None => if trim(note.summary@).len() <= 120 {
            trim(note.summary@)
        } else {
            trim(note.summary@).take(120)
        },
    }
}

/// A digest given with the options becomes the article's digest, trimmed, whatever the note's
/// summary says; only when none is given is the digest taken from the summary: the first 120
/// characters of the trimmed summary, or all of it when shorter.
pub proof fn lemma_digest_source(note: BookNoteInput, options: ArticleOptions)
    ensures
        options.digest matches Some(d) ==> article_digest(note, options) == trim(d@),
        options.digest is None ==> {
            let s = trim(note.summary@);
            let n = if s.len() < 120 { s.len() as int } else { 120 };
            article_digest(note, options) == s.subrange(0, n)
        },
{
    let s = trim(note.summary@);
    if options.digest is None && s.len() <= 120 {
        assert(s.subrange(0, s.len() as int) =~= s);
    }
}

/// A boolean option as the draft API takes it: 1 for true, 0 for false or absent.
pub open spec fn flag_number(o: Option<bool>) -> u8 {
    match o {
        Some(true) => 1,
        _ => 0,
    }
}

fn flag_u8(o: Option<bool>) -> (n: u8)
    ensures
        n == flag_number(o),
{
    match o {
        Some(true) => 1,
        _ => 0,
    }
}

fn opt_ref(o: &Option<String>) -> (r: Option<&str>)
    ensures
        opt_text(r) == opt_string_view(*o),
{
    match o {
        Some(s) => Some(s.as_str()),
        None => None,
    }
}

/// The draft article for a rendered note: a `news` article with the note's title, the HTML,
/// the digest, the comment flags, the cover when given, and the trimmed author and source URL
/// when given.
pub fn article_fields(
    note: &BookNoteInput,
    html: String,
    cover_media_id: Option<&str>,
    options: &ArticleOptions,
) -> (a: ArticleFields)
    ensures
        a.article_type@ == "news"@,
        a.title@ == article_title(*note),
        a.content@ == html@,
        a.digest@ == article_digest(*note, *options),
        a.need_open_comment == flag_number(options.need_open_comment),
        a.only_fans_can_comment == flag_number(options.only_fans_can_comment),
        opt_string_view(a.thumb_media_id) == opt_text(cover_media_id),
        opt_string_view(a.author) == trimmed_opt(opt_string_view(options.article_author)),
        opt_string_view(a.content_source_url) == trimmed_opt(
            opt_string_view(options.content_source_url),
        ),
{
    let title = match &note.title {
        Some(t) => trimmed(t.as_str()),
        None => {
            let mut t = trimmed(note.book_name.as_str());
            push_str(&mut t, "读书笔记");
            t
        },
    };
    let digest = match &options.digest {
        Some(d) => trimmed(d.as_str()),
        None => {
            let summary = crate::text::trimmed_chars(note.summary.as_str());
            let end = if summary.len() <= 120 {
                summary.len()
            } else {
                120
            };
            let mut d = String::new();
            crate::text::push_range(&mut d, &summary, 0, end);
            proof {
                assert(Seq::<char>::empty() + summary@.subrange(0, end as int) =~= if summary@.len()
                    <= 120 {
                    summary@
                } else {
                    summary@.take(120)
                });
            }
            d
        },
    };
    let thumb_media_id = match cover_media_id {
        Some(id) => Some(owned(id)),
        None => None,
    };
    ArticleFields {
        article_type: owned("news"),
        title,
        content: html,
        digest,
        need_open_comment: flag_u8(options.need_open_comment),
        only_fans_can_comment: flag_u8(options.only_fans_can_comment),
        thumb_media_id,
        author: optional_trimmed(opt_ref(&options.article_author)),
        content_source_url: optional_trimmed(opt_ref(&options.content_source_url)),
    }
}

/// Paging parameters of a list tool.
#[derive(Debug, Clone, Copy)]
pub struct DraftList {
    pub offset: Option<u32>,
    pub count: Option<u32>,
    pub no_content: Option<bool>,
}

/// The body of a list request.
#[derive(Debug, Clone, Copy, PartialEq, Eq)]
pub struct ListBody {
    pub offset: u32,
    pub count: u32,
    pub no_content: u8,
}

/// The body of a list request: offset 0 and 10 items unless given, content left out unless
/// asked for; the count must be 1 to 20.
pub fn list_body(p: DraftList) -> (r: Result<ListBody, String>)
    ensures
        ({
            let count = match p.count {
                Some(c) => c,
                None => 10,
            };
            if 1 <= count <= 20 {
                r matches Ok(b) && b.count == count && b.offset == (match p.offset {
                    Some(o) => o,
                    None => 0,
                }) && b.no_content == (match p.no_content {
                    Some(false) => 0u8,
                    _ => 1u8,
                })
            } else {
                r matches Err(e) && e@ == "count must be between 1 and 20"@
            }
        }),
{
    let count = match p.count {
        Some(c) => c,
        None => 10,
    };
    if count < 1 || count > 20 {
        return Err(owned("count must be between 1 and 20"));
    }
    let offset = match p.offset {
        Some(o) => o,
        None => 0,
    };
    let no_content: u8 = match p.no_content {
        Some(false) => 0,
        _ => 1,
    };
    Ok(ListBody { offset, count, no_content })
}

/// Parameters of the permanent-media list.
#[derive(Debug, Clone)]
pub struct MediaList {
    pub media_type: Option<String>,
    pub offset: Option<u32>,
    pub count: Option<u32>,
}

/// The body of a permanent-media list request.
#[derive(Debug, Clone)]
pub struct MediaListBody {
    pub media_type: String,
    pub offset: u32,
    pub count: u32,
}

/// The kinds of permanent media that can be listed.
pub open spec fn listable_media_type(t: Seq<char>) -> bool {
    t == "image"@ || t == "voice"@ || t == "video"@ || t == "news"@
}

/// The media type a permanent-media list asks for: images unless given.
pub open spec fn requested_media_type(p: MediaList) -> Seq<char> {
    match p.media_type {
        Some(t) => t@,
        None => "image"@,
    }
}

/// The body of a permanent-media list request: images, offset 0 and 10 items unless given;
/// the type must be image, voice, video or news, and the count 1 to 20.
pub fn media_list_body(p: &MediaList) -> (r: Result<MediaListBody, String>)
    ensures
        ({
            let t = requested_media_type(*p);
            let count = match p.count {
                Some(c) => c,
                None => 10,
            };
            if !listable_media_type(t) {
                r matches Err(e) && e@ == "media_type must be image, voice, video, or news"@
            } else if !(1 <= count <= 20) {
                r matches Err(e) && e@ == "count must be between 1 and 20"@
            } else {
                r matches Ok(b) && b.media_type@ == t && b.count == count && b.offset == (match p.offset {
                    Some(o) => o,
                    None => 0,
                })
            }
        }),
{
    let t: &str = match &p.media_type {
        Some(t) => t.as_str(),
        None => "image",
    };
    if !(str_equal(t, "image") || str_equal(t, "voice") || str_equal(t, "video") || str_equal(
        t,
        "news",
    )) {
        return Err(owned("media_type must be image, voice, video, or news"));
    }
    let count = match p.count {
        Some(c) => c,
        None => 10,
    };
    if count < 1 || count > 20 {
        return Err(owned("count must be between 1 and 20"));
    }
    let offset = match p.offset {
        Some(o) => o,
        None => 0,
    };
    Ok(MediaListBody { media_type: owned(t), offset, count })
}

/// Which articles of a published collection a deletion removes.
#[derive(Debug, Clone, Copy, PartialEq, Eq)]
pub enum DeletePublishedScope {
    Single,
    All,
}

/// What a deletion's scope and index give: the `index` the delete API takes, a one-based index
/// for one article and 0 for the whole collection, or the error. One article needs an index of
/// at least 1; the whole collection takes none.
pub open spec fn delete_index_outcome(scope: DeletePublishedScope, index: Option<u32>) -> Result<u32, Seq<char>> {
    match (scope, index) {
        (DeletePublishedScope::Single, Some(i)) => if i >= 1 {
            Ok(i)
        } else {
            Err("scope=single requires a one-based index greater than or equal to 1"@)
        },
        (DeletePublishedScope::Single, None) => Err(
            "scope=single requires a one-based index greater than or equal to 1"@,
        ),
        (DeletePublishedScope::All, None) => Ok(0),
        (DeletePublishedScope::All, Some(_)) => Err("scope=all must not include index"@),
    }
}

/// The `index` the delete API takes for a scope and an optional one-based index.
pub fn published_delete_index(scope: DeletePublishedScope, index: Option<u32>) -> (r: Result<u32, String>)
    ensures
        match delete_index_outcome(scope, index) {
            Ok(i) => r == Ok::<u32, String>(i),
            Err(e) => r matches Err(m) && m@ == e,
        },
{
    match (scope, index) {
        (DeletePublishedScope::Single, Some(i)) => if i >= 1 {
            Ok(i)
        } else {
            Err(owned("scope=single requires a one-based index greater than or equal to 1"))
        },
        (DeletePublishedScope::Single, None) => Err(
            owned("scope=single requires a one-based index greater than or equal to 1"),
        ),
        (DeletePublishedScope::All, None) => Ok(0),
        (DeletePublishedScope::All, Some(_)) => Err(owned("scope=all must not include index")),
    }
}

/// Deleting published articles never removes the whole collection unless that is what was
/// asked: the index 0 comes only from the `all` scope, and `single` always names an article
/// by an index of at least 1.
pub proof fn lemma_delete_scope_is_explicit(scope: DeletePublishedScope, index: Option<u32>)
    ensures
        delete_index_outcome(scope, index) == Ok::<u32, Seq<char>>(0) ==> scope
            == DeletePublishedScope::All,
        scope == DeletePublishedScope::Single && delete_index_outcome(scope, index) is Ok
            ==> delete_index_outcome(scope, index)->Ok_0 >= 1,
{
}

/// The checks of a published-article deletion, in order: writing on, confirmed, the article
/// named, and the scope's index; gives the index for the delete API.
pub fn delete_published_request(
    allow_write: bool,
    confirm: bool,
    article_id: &str,
    scope: DeletePublishedScope,
    index: Option<u32>,
) -> (r: Result<u32, String>)
    ensures
        !allow_write ==> (r matches Err(e) && e@ == write_disabled_message()),
        allow_write && !confirm ==> (r matches Err(e) && e@ == "confirm must be true for this operation"@),
        allow_write && confirm && blank(article_id@) ==> (r matches Err(e) && e@ == "article_id"@
            + " must not be empty"@),
        allow_write && confirm && !blank(article_id@) ==> match delete_index_outcome(scope, index) {
            Ok(i) => r == Ok::<u32, String>(i),
            Err(e) => r matches Err(m) && m@ == e,
        },
{
    require_confirmed_write(allow_write, confirm, "article_id", article_id)?;
    published_delete_index(scope, index)
}

} // verus!
