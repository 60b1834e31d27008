//! Book notes: the input model, its checks, and rendering into the article HTML.
use vstd::prelude::*;
use crate::engine::{
    new_registry, register_template_string, registry_stock, registry_strict, registry_templates,
    render_json, strict_render_outcome, registration_outcome, set_strict_mode, Registry,
};
use crate::escape::{escape_multiline, escaped, html_text};
use crate::json::{json_array, json_opt, json_string, join_commas, member, push_json_opt, push_json_string, push_key};
use crate::templates::{BUSINESS_TEMPLATE, INVEST_TEMPLATE, READING_TEMPLATE, TECH_TEMPLATE};
use vstd::utf8::encode_utf8;
use crate::text::{
    chars_of, utf8_len,
    blank, decimal, digit_char, has_sub, is_blank, lemma_has_sub_end, lemma_has_sub_extend, push_char,
    push_decimal, push_str, trim, trimmed,
};

verus! {

/// The most characters an article title may have.
pub const MAX_TITLE_CHARS: usize = 32;

/// The rendered HTML must have fewer characters than this.
pub const MAX_CONTENT_CHARS: usize = 20000;

/// The rendered HTML must be smaller than this many bytes.
pub const MAX_CONTENT_BYTES: usize = 1048576;

/// A structured book note, as a client sends it.
#[derive(Debug, Clone)]
pub struct BookNoteInput {
    /// Article title, at most 32 characters; the book name plus 读书笔记 when absent.
    pub title: Option<String>,
    pub style: NoteStyle,
    pub category: Option<String>,
    pub tags: Vec<String>,
    pub book_meta: Option<BookMetaInput>,
    pub book_name: String,
    pub author: String,
    pub why_read: String,
    pub summary: String,
    pub core_points: Vec<CorePointInput>,
    pub sections: Option<Vec<SectionInput>>,
    pub example: Option<String>,
    pub thoughts: String,
    pub target_reader: String,
    pub actions: Vec<ActionInput>,
}

/// Reading-platform data about the book.
#[derive(Debug, Clone)]
pub struct BookMetaInput {
    pub platform: Option<String>,
    pub rating: Option<String>,
    pub rating_count: Option<String>,
    pub want_to_read: Option<String>,
    pub reading_count: Option<String>,
    pub url: Option<String>,
}

/// Which template renders the note.
#[derive(Debug, Clone, Copy, PartialEq, Eq, Default)]
pub enum NoteStyle {
    #[default]
    Reading,
    Business,
    Tech,
    Invest,
}

/// One core point of a note.
#[derive(Debug, Clone)]
pub struct CorePointInput {
    pub number: Option<String>,
    pub title: String,
    pub content: String,
    pub extension: Option<String>,
    pub example: Option<String>,
}

/// One section of a note; when present, sections take the place of core points.
#[derive(Debug, Clone)]
pub struct SectionInput {
    pub number: Option<String>,
    pub title: String,
    pub content: String,
    pub extension: Option<String>,
    pub example: Option<String>,
}

/// One action item of a note.
#[derive(Debug, Clone)]
pub struct ActionInput {
    pub text: String,
}

/// The article HTML with its size in characters and in bytes.
#[derive(Debug, Clone)]
pub struct RenderedNote {
    pub html: String,
    pub char_count: usize,
    pub byte_count: usize,
}

/// Renders book notes with the built-in templates.
pub struct BookNoteRenderer {
    handlebars: Registry,
}

/// A core point as the templates receive it.
#[derive(Debug, Clone)]
pub struct RenderCorePoint {
    pub number: String,
    pub title: String,
    pub content_html: String,
    pub extension_html: Option<String>,
    pub example_html: Option<String>,
    pub definition_html: String,
    pub practice_html: String,
    pub case_html: Option<String>,
}

/// The text fields of a core point or section.
pub struct PointText {
    pub number: Option<Seq<char>>,
    pub title: Seq<char>,
    pub content: Seq<char>,
    pub extension: Option<Seq<char>>,
    pub example: Option<Seq<char>>,
}

/// The fields of a core point as the templates receive it.
pub struct PointModel {
    pub number: Seq<char>,
    pub title: Seq<char>,
    pub content_html: Seq<char>,
    pub extension_html: Option<Seq<char>>,
    pub example_html: Option<Seq<char>>,
    pub definition_html: Seq<char>,
    pub practice_html: Seq<char>,
    pub case_html: Option<Seq<char>>,
}

/// The reading data as the templates receive it.
pub struct MetaModel {
    pub platform: Seq<char>,
    pub rating: Option<Seq<char>>,
    pub rating_count: Option<Seq<char>>,
    pub want_to_read: Option<Seq<char>>,
    pub reading_count: Option<Seq<char>>,
    pub url: Option<Seq<char>>,
}

impl View for RenderCorePoint {
    type V = PointModel;

    open spec fn view(&self) -> PointModel {
        PointModel {
            number: self.number@,
            title: self.title@,
            content_html: self.content_html@,
            extension_html: opt(self.extension_html),
            example_html: opt(self.example_html),
            definition_html: self.definition_html@,
            practice_html: self.practice_html@,
            case_html: opt(self.case_html),
        }
    }
}

/// The text of an optional string.
pub open spec fn opt(o: Option<String>) -> Option<Seq<char>> {
    match o {
        Some(s) => Some(s@),
        None => None,
    }
}

/// The text of an optional string slice.
pub open spec fn opt_str(o: Option<&str>) -> Option<Seq<char>> {
    match o {
        Some(s) => Some(s@),
        None => None,
    }
}

/// An optional text, kept only when it holds more than whitespace.
pub open spec fn kept(o: Option<Seq<char>>) -> Option<Seq<char>> {
    match o {
        Some(s) => if blank(s) {
            None
        } else {
            Some(s)
        },
        None => None,
    }
}

/// An optional text, escaped when it holds more than whitespace.
pub open spec fn kept_escaped(o: Option<Seq<char>>) -> Option<Seq<char>> {
    match kept(o) {
        Some(s) => Some(escaped(s)),
        None => None,
    }
}

/// The error for a required field that is blank.
pub open spec fn non_empty_error(name: Seq<char>) -> Seq<char> {
    name + " must not be empty"@
}

/// `n` written with at least two digits, as `{:02}` writes it.
pub open spec fn two_digits(n: nat) -> Seq<char> {
    if n < 10 {
        seq!['0', digit_char(n)]
    } else {
        decimal(n)
    }
}

/// The label of the point at `index`: its own number, trimmed, when it has one, else its
/// position counted from one.
pub open spec fn point_number(index: nat, number: Option<Seq<char>>) -> Seq<char> {
    match kept(number) {
        Some(n) => trim(n),
        None => two_digits(index + 1),
    }
}

/// Why a point is refused, if it is.
pub open spec fn point_error(p: PointText) -> Option<Seq<char>> {
    if blank(p.title) {
        Some(non_empty_error("core_points[].title"@))
    } else if blank(p.content) {
        Some(non_empty_error("core_points[].content"@))
    } else {
        None
    }
}

/// The point at `index` as the templates receive it.
pub open spec fn point_model(index: nat, p: PointText) -> PointModel {
    PointModel {
        number: point_number(index, p.number),
        title: trim(p.title),
        content_html: escaped(p.content),
        extension_html: kept_escaped(p.extension),
        example_html: kept_escaped(p.example),
        definition_html: escaped(p.content),
        practice_html: match kept_escaped(p.extension) {
            Some(e) => e,
            None => seq![],
        },
        case_html: kept_escaped(p.example),
    }
}

pub open spec fn core_point_text(p: CorePointInput) -> PointText {
    PointText {
        number: opt(p.number),
        title: p.title@,
        content: p.content@,
        extension: opt(p.extension),
        example: opt(p.example),
    }
}

pub open spec fn section_text(p: SectionInput) -> PointText {
    PointText {
        number: opt(p.number),
        title: p.title@,
        content: p.content@,
        extension: opt(p.extension),
        example: opt(p.example),
    }
}

/// The points that a note renders: its sections when it has them, else its core points.
pub open spec fn note_points(note: BookNoteInput) -> Seq<PointText> {
    match note.sections {
        Some(s) => s@.map_values(|p: SectionInput| section_text(p)),
        None => note.core_points@.map_values(|p: CorePointInput| core_point_text(p)),
    }
}

/// The error of the first refused point, if any.
pub open spec fn first_point_error(ps: Seq<PointText>) -> Option<Seq<char>>
    decreases ps.len(),
{
    if ps.len() == 0 {
        None
    } else {
        match point_error(ps[0]) {
            Some(e) => Some(e),
            None => first_point_error(ps.drop_first()),
        }
    }
}

/// The error of the first action with blank text, if any.
pub open spec fn first_action_error(actions: Seq<ActionInput>) -> Option<Seq<char>>
    decreases actions.len(),
{
    if actions.len() == 0 {
        None
    } else if blank(actions[0].text@) {
        Some(non_empty_error("actions[].text"@))
    } else {
        first_action_error(actions.drop_first())
    }
}

/// The error for a title longer than 32 characters.
pub open spec fn title_length_error(count: nat) -> Seq<char> {
    "title must contain at most 32 characters; got "@ + decimal(count)
}

/// Why a note is refused, checked in order; `None` when it is accepted.
pub open spec fn note_error(note: BookNoteInput) -> Option<Seq<char>> {
    if blank(note.book_name@) {
        Some(non_empty_error("book_name"@))
    } else if blank(note.author@) {
        Some(non_empty_error("author"@))
    } else if blank(note.why_read@) {
        Some(non_empty_error("why_read"@))
    } else if blank(note.summary@) {
        Some(non_empty_error("summary"@))
    } else if blank(note.thoughts@) {
        Some(non_empty_error("thoughts"@))
    } else if blank(note.target_reader@) {
        Some(non_empty_error("target_reader"@))
    } else if note.title is Some && blank(note.title->0@) {
        Some(non_empty_error("title"@))
    } else if note.title is Some && note.title->0@.len() > 32 {
        Some(title_length_error(note.title->0@.len()))
    } else if (note.sections is None || note.sections->0@.len() == 0) && note.core_points@.len()
        == 0 {
        Some("core_points must contain at least one item"@)
    } else if note.actions@.len() == 0 {
        Some("actions must contain at least one item"@)
    } else if first_point_error(note_points(note)) is Some {
        first_point_error(note_points(note))
    } else {
        first_action_error(note.actions@)
    }
}

/// The JSON object of a point.
pub open spec fn point_json(m: PointModel) -> Seq<char> {
    seq!['{'] + json_string("number"@) + seq![':'] + json_string(m.number) + seq![','] + json_string(
        "title"@,
    ) + seq![':'] + json_string(m.title) + seq![','] + json_string("content_html"@) + seq![':']
        + json_string(m.content_html) + seq![','] + json_string("extension_html"@) + seq![':']
        + json_opt(m.extension_html) + seq![','] + json_string("example_html"@) + seq![':']
        + json_opt(m.example_html) + seq![','] + json_string("definition_html"@) + seq![':']
        + json_string(m.definition_html) + seq![','] + json_string("practice_html"@) + seq![':']
        + json_string(m.practice_html) + seq![','] + json_string("case_html"@) + seq![':']
        + json_opt(m.case_html) + seq!['}']
}

/// The JSON array of a note's points, numbered by position.
pub open spec fn points_json(ps: Seq<PointText>) -> Seq<char> {
    json_array(Seq::new(ps.len(), |i: int| point_json(point_model(i as nat, ps[i]))))
}

/// The JSON object of an action.
pub open spec fn action_json(a: ActionInput) -> Seq<char> {
    seq!['{'] + json_string("text_html"@) + seq![':'] + json_string(escaped(a.text@)) + seq!['}']
}

/// The JSON array of a note's actions.
pub open spec fn actions_json(actions: Seq<ActionInput>) -> Seq<char> {
    json_array(Seq::new(actions.len(), |i: int| action_json(actions[i])))
}

/// The reading data of a note as the templates receive it: present only when a rating, a
/// want-to-read count or a reading count is given.
pub open spec fn meta_model(m: BookMetaInput) -> Option<MetaModel> {
    let model = MetaModel {
        platform: match kept(opt(m.platform)) {
            Some(p) => p,
            None => "微信读书"@,
        },
        rating: kept(opt(m.rating)),
        rating_count: kept(opt(m.rating_count)),
        want_to_read: kept(opt(m.want_to_read)),
        reading_count: kept(opt(m.reading_count)),
        url: kept(opt(m.url)),
    };
    if model.rating is Some || model.want_to_read is Some || model.reading_count is Some {
        Some(model)
    } else {
        None
    }
}

/// The reading data of a note, if it shows any.
pub open spec fn note_meta(note: BookNoteInput) -> Option<MetaModel> {
    match note.book_meta {
        Some(m) => meta_model(m),
        None => None,
    }
}

/// The JSON of the reading data, or `null`.
pub open spec fn meta_json(o: Option<MetaModel>) -> Seq<char> {
    match o {
        None => seq!['n', 'u', 'l', 'l'],
        Some(m) => seq!['{'] + json_string("platform"@) + seq![':'] + json_string(m.platform)
            + seq![','] + json_string("rating"@) + seq![':'] + json_opt(m.rating) + seq![',']
            + json_string("rating_count"@) + seq![':'] + json_opt(m.rating_count) + seq![',']
            + json_string("want_to_read"@) + seq![':'] + json_opt(m.want_to_read) + seq![',']
            + json_string("reading_count"@) + seq![':'] + json_opt(m.reading_count) + seq![',']
            + json_string("url"@) + seq![':'] + json_opt(m.url) + seq!['}'],
    }
}

/// The text of an optional field, empty when absent.
pub open spec fn or_empty(o: Option<String>) -> Seq<char> {
    match o {
        Some(s) => s@,
        None => seq![],
    }
}

/// The data every template receives, as JSON text.
#[verifier::opaque]
pub open spec fn context_json(note: BookNoteInput) -> Seq<char> {
    let points = points_json(note_points(note));
    seq!['{'] + json_string("book_name"@) + seq![':'] + json_string(trim(note.book_name@))
        + seq![','] + json_string("author"@) + seq![':'] + json_string(trim(note.author@))
        + seq![','] + json_string("why_read_html"@) + seq![':'] + json_string(
        escaped(note.why_read@),
    ) + seq![','] + json_string("summary_html"@) + seq![':'] + json_string(escaped(note.summary@))
        + seq![','] + json_string("core_points"@) + seq![':'] + points + seq![','] + json_string(
        "example_html"@,
    ) + seq![':'] + json_string(escaped(or_empty(note.example))) + seq![','] + json_string(
        "thoughts_html"@,
    ) + seq![':'] + json_string(escaped(note.thoughts@)) + seq![','] + json_string(
        "target_reader_html"@,
    ) + seq![':'] + json_string(escaped(note.target_reader@)) + seq![','] + json_string(
        "actions"@,
    ) + seq![':'] + actions_json(note.actions@) + seq![','] + json_string("insights"@) + seq![':']
        + points + seq![','] + json_string("concepts"@) + seq![':'] + points + seq![',']
        + json_string("principles"@) + seq![':'] + points + seq![','] + json_string(
        "problem_html"@,
    ) + seq![':'] + json_string(escaped(note.why_read@)) + seq![','] + json_string(
        "business_thoughts_html"@,
    ) + seq![':'] + json_string(escaped(note.thoughts@)) + seq![','] + json_string(
        "architecture_html"@,
    ) + seq![':'] + json_string(escaped(note.summary@)) + seq![','] + json_string(
        "investment_thesis_html"@,
    ) + seq![':'] + json_string(escaped(note.summary@)) + seq![','] + json_string("risk_html"@)
        + seq![':'] + json_string(escaped(or_empty(note.example))) + seq![','] + json_string(
        "book_meta"@,
    ) + seq![':'] + meta_json(note_meta(note)) + seq!['}']
}

/// The trimmed, HTML-escaped text of a note field.
pub open spec fn field_html(s: Seq<char>) -> Seq<char> {
    html_text(trim(s))
}

/// Each text member of the rendering context is the note field it is named after: the book
/// name and author trimmed; `why_read_html`, `summary_html`, `example_html` (empty without an
/// example), `thoughts_html` and `target_reader_html` the trimmed, HTML-escaped text of the
/// field of that name; and the style-specific members `problem_html` (why read),
/// `business_thoughts_html` (thoughts), `architecture_html` and `investment_thesis_html`
/// (summary) and `risk_html` (example) likewise.
pub proof fn lemma_context_fields(note: BookNoteInput)
    ensures
        has_sub(context_json(note), member("book_name"@, json_string(trim(note.book_name@)))),
        has_sub(context_json(note), member("author"@, json_string(trim(note.author@)))),
        has_sub(context_json(note), member("why_read_html"@, json_string(field_html(note.why_read@)))),
        has_sub(context_json(note), member("summary_html"@, json_string(field_html(note.summary@)))),
        has_sub(
            context_json(note),
            member(
                "example_html"@,
                json_string(field_html(match note.example {
                    Some(e) => e@,
                    None => Seq::empty(),
                })),
            ),
        ),
        has_sub(context_json(note), member("thoughts_html"@, json_string(field_html(note.thoughts@)))),
        has_sub(
            context_json(note),
            member("target_reader_html"@, json_string(field_html(note.target_reader@))),
        ),
        has_sub(context_json(note), member("problem_html"@, json_string(field_html(note.why_read@)))),
        has_sub(
            context_json(note),
            member("business_thoughts_html"@, json_string(field_html(note.thoughts@))),
        ),
        has_sub(
            context_json(note),
            member("architecture_html"@, json_string(field_html(note.summary@))),
        ),
        has_sub(
            context_json(note),
            member("investment_thesis_html"@, json_string(field_html(note.summary@))),
        ),
        has_sub(
            context_json(note),
            member(
                "risk_html"@,
                json_string(field_html(match note.example {
                    Some(e) => e@,
                    None => Seq::empty(),
                })),
            ),
        ),
{
    reveal(context_json);
    assert(or_empty(note.example) == match note.example {
        Some(e) => e@,
        None => Seq::<char>::empty(),
    });
    assert forall|x: Seq<char>, y: Seq<char>, pat: Seq<char>| has_sub(x, pat) implies #[trigger] has_sub(
        x + y,
        pat,
    ) by {
        lemma_has_sub_extend(x, y, pat);
    }
    assert forall|x: Seq<char>, k: Seq<char>, v: Seq<char>| #[trigger] has_sub(
        x + json_string(k) + seq![':'] + v,
        member(k, v),
    ) by {
        assert(x + json_string(k) + seq![':'] + v =~= x + member(k, v));
        lemma_has_sub_end(x, member(k, v));
    }
}

/// Checks that a required field holds more than whitespace.
pub fn validate_non_empty(name: &str, value: &str) -> (r: Result<(), String>)
    ensures
        r is Err <==> blank(value@),
        r matches Err(e) ==> e@ == non_empty_error(name@),
{
    if is_blank(value) {
        let mut message = String::new();
        push_str(&mut message, name);
        push_str(&mut message, " must not be empty");
        Err(message)
    } else {
        Ok(())
    }
}

/// An optional field, kept only when it holds more than whitespace.
fn kept_text(o: Option<&str>) -> (r: Option<&str>)
    ensures
        opt_str(r) == kept(opt_str(o)),
{
    match o {
        Some(s) => if is_blank(s) {
            None
        } else {
            Some(s)
        },
        None => None,
    }
}

/// An optional field, escaped when it holds more than whitespace.
fn kept_escaped_text(o: Option<&str>) -> (r: Option<String>)
    ensures
        opt(r) == kept_escaped(opt_str(o)),
{
    match kept_text(o) {
        Some(s) => Some(escape_multiline(s)),
        None => None,
    }
}

/// Renders one core point for the templates; `index` counts from zero.
pub fn render_point(
    index: usize,
    number: &Option<String>,
    title: &str,
    content: &str,
    extension: Option<&str>,
    example: Option<&str>,
) -> (r: Result<RenderCorePoint, String>)
    requires
        index < usize::MAX,
    ensures
        ({
            let p = PointText {
                number: opt(*number),
                title: title@,
                content: content@,
                extension: opt_str(extension),
                example: opt_str(example),
            };
            match point_error(p) {
                Some(e) => r matches Err(m) && m@ == e,
                None => r matches Ok(point) && point@ == point_model(index as nat, p),
            }
        }),
{
    validate_non_empty("core_points[].title", title)?;
    validate_non_empty("core_points[].content", content)?;
    let own = match number {
        Some(n) => kept_text(Some(n.as_str())),
        None => None,
    };
    let label = match own {
        Some(n) => trimmed(n),
        None => {
            let mut s = String::new();
            let position = (index + 1) as u64;
            if position < 10 {
                push_char(&mut s, '0');
            }
            push_decimal(&mut s, position);
            proof {
                if position < 10 {
                    assert(decimal(position as nat) == seq![digit_char(position as nat)]);
                    assert(s@ =~= two_digits(index as nat + 1));
                } else {
                    assert(s@ =~= two_digits(index as nat + 1));
                }
            }
            s
        },
    };
    let extension_html = kept_escaped_text(extension);
    let practice_html = match kept_escaped_text(extension) {
        Some(e) => e,
        None => String::new(),
    };
    Ok(RenderCorePoint {
        number: label,
        title: trimmed(title),
        content_html: escape_multiline(content),
        extension_html,
        example_html: kept_escaped_text(example),
        definition_html: escape_multiline(content),
        practice_html,
        case_html: kept_escaped_text(example),
    })
}


/// The text of an optional string, borrowed.
fn opt_as_str(o: &Option<String>) -> (r: Option<&str>)
    ensures
        opt_str(r) == opt(*o),
{
    match o {
        Some(s) => Some(s.as_str()),
        None => None,
    }
}

/// The JSON object of a rendered point.
fn point_json_text(p: &RenderCorePoint) -> (out: String)
    ensures
        out@ == point_json(p@),
{
    let mut out = String::new();
    push_char(&mut out, '{');
    assert(out@ == seq!['{']);
    push_key(&mut out, "number");
    push_json_string(&mut out, p.number.as_str());
    push_char(&mut out, ',');
    push_key(&mut out, "title");
    push_json_string(&mut out, p.title.as_str());
    push_char(&mut out, ',');
    push_key(&mut out, "content_html");
    push_json_string(&mut out, p.content_html.as_str());
    push_char(&mut out, ',');
    push_key(&mut out, "extension_html");
    push_json_opt(&mut out, &p.extension_html);
    push_char(&mut out, ',');
    push_key(&mut out, "example_html");
    push_json_opt(&mut out, &p.example_html);
    push_char(&mut out, ',');
    push_key(&mut out, "definition_html");
    push_json_string(&mut out, p.definition_html.as_str());
    push_char(&mut out, ',');
    push_key(&mut out, "practice_html");
    push_json_string(&mut out, p.practice_html.as_str());
    push_char(&mut out, ',');
    push_key(&mut out, "case_html");
    push_json_opt(&mut out, &p.case_html);
    push_char(&mut out, '}');
    out
}

proof fn lemma_assoc(a: Seq<char>, b: Seq<char>, c: Seq<char>, d: Seq<char>)
    ensures
        ((a + b) + c) + d == a + ((b + c) + d),
        (a + c) + d == a + (c + d),
{
    assert(((a + b) + c) + d =~= a + ((b + c) + d));
    assert((a + c) + d =~= a + (c + d));
}

proof fn lemma_first_point_error_skip(ps: Seq<PointText>, i: int)
    requires
        0 <= i <= ps.len(),
        forall|k: int| 0 <= k < i ==> point_error(#[trigger] ps[k]) is None,
    ensures
        first_point_error(ps) == first_point_error(ps.skip(i)),
    decreases i,
{
    if i > 0 {
        lemma_first_point_error_skip(ps, i - 1);
        let rest = ps.skip(i - 1);
        assert(rest[0] == ps[i - 1]);
        assert(point_error(ps[i - 1]) is None);
        assert(rest.drop_first() == ps.skip(i));
        assert(first_point_error(rest) == first_point_error(rest.drop_first()));
    } else {
        assert(ps.skip(0) == ps);
    }
}

proof fn lemma_first_action_error_skip(acts: Seq<ActionInput>, i: int)
    requires
        0 <= i <= acts.len(),
        forall|k: int| 0 <= k < i ==> !blank(#[trigger] acts[k].text@),
    ensures
        first_action_error(acts) == first_action_error(acts.skip(i)),
    decreases i,
{
    if i > 0 {
        lemma_first_action_error_skip(acts, i - 1);
        let rest = acts.skip(i - 1);
        assert(rest[0] == acts[i - 1]);
        assert(!blank(acts[i - 1].text@));
        assert(rest.drop_first() == acts.skip(i));
        assert(first_action_error(rest) == first_action_error(rest.drop_first()));
    } else {
        assert(acts.skip(0) == acts);
    }
}

proof fn lemma_join_step(items: Seq<Seq<char>>, i: int)
    requires
        0 <= i < items.len(),
    ensures
        join_commas(items.take(i + 1)) == if i == 0 {
            items[0]
        } else {
            join_commas(items.take(i)) + seq![','] + items[i]
        },
{
    assert(items.take(i + 1).drop_last() == items.take(i));
    assert(items.take(i + 1).last() == items[i]);
    if i == 0 {
        assert(items.take(1)[0] == items[0]);
    }
}

/// Renders the points of a note given as core points, as a JSON array, or the first error.
#[verifier::spinoff_prover]
#[verifier::rlimit(40)]
fn core_points_json(points: &Vec<CorePointInput>) -> (r: Result<String, String>)
    ensures
        ({
            let ps = points@.map_values(|p: CorePointInput| core_point_text(p));
            match first_point_error(ps) {
                Some(e) => r matches Err(m) && m@ == e,
                None => r matches Ok(j) && j@ == points_json(ps),
            }
        }),
{
    let ghost ps = points@.map_values(|p: CorePointInput| core_point_text(p));
    let ghost items = Seq::new(ps.len(), |i: int| point_json(point_model(i as nat, ps[i])));
    let mut out = String::new();
    push_char(&mut out, '[');
    let mut i: usize = 0;
    while i < points.len()
        invariant
            i <= points@.len(),
            ps == points@.map_values(|p: CorePointInput| core_point_text(p)),
            items == Seq::new(ps.len(), |i: int| point_json(point_model(i as nat, ps[i]))),
            forall|k: int| 0 <= k < i ==> point_error(#[trigger] ps[k]) is None,
            out@ == seq!['['] + join_commas(items.take(i as int)),
        decreases points.len() - i,
    {
        let p = &points[i];
        assert(ps[i as int] == core_point_text(*p));
        let rendered = render_point(
            i,
            &p.number,
            p.title.as_str(),
            p.content.as_str(),
            opt_as_str(&p.extension),
            opt_as_str(&p.example),
        );
        match rendered {
            Err(e) => {
                proof {
                    lemma_first_point_error_skip(ps, i as int);
                    assert(ps.skip(i as int)[0] == ps[i as int]);
                }
                return Err(e);
            },
            Ok(point) => {
                let text = point_json_text(&point);
                let ghost before = out@;
                if i > 0 {
                    push_char(&mut out, ',');
                }
                push_str(&mut out, text.as_str());
                proof {
                    lemma_join_step(items, i as int);
                    let j = join_commas(items.take(i as int));
                    if i > 0 {
                        lemma_assoc(seq!['['], j, seq![','], text@);
                    } else {
                        assert(j == Seq::<char>::empty());
                        assert(before == seq!['['] + j);
                        assert(seq!['['] + j =~= seq!['[']);
                    }
                }
            },
        }
        i = i + 1;
    }
    push_char(&mut out, ']');
    proof {
        lemma_first_point_error_skip(ps, ps.len() as int);
        assert(ps.skip(ps.len() as int).len() == 0);
        assert(items.take(ps.len() as int) == items);
    }
    Ok(out)
}

/// Renders the points of a note given as sections, as a JSON array, or the first error.
#[verifier::rlimit(40)]
fn sections_json(points: &Vec<SectionInput>) -> (r: Result<String, String>)
    ensures
        ({
            let ps = points@.map_values(|p: SectionInput| section_text(p));
            match first_point_error(ps) {
                Some(e) => r matches Err(m) && m@ == e,
                None => r matches Ok(j) && j@ == points_json(ps),
            }
        }),
{
    let ghost ps = points@.map_values(|p: SectionInput| section_text(p));
    let ghost items = Seq::new(ps.len(), |i: int| point_json(point_model(i as nat, ps[i])));
    let mut out = String::new();
    push_char(&mut out, '[');
    let mut i: usize = 0;
    while i < points.len()
        invariant
            i <= points@.len(),
            ps == points@.map_values(|p: SectionInput| section_text(p)),
            items == Seq::new(ps.len(), |i: int| point_json(point_model(i as nat, ps[i]))),
            forall|k: int| 0 <= k < i ==> point_error(#[trigger] ps[k]) is None,
            out@ == seq!['['] + join_commas(items.take(i as int)),
        decreases points.len() - i,
    {
        let p = &points[i];
        assert(ps[i as int] == section_text(*p));
        let rendered = render_point(
            i,
            &p.number,
            p.title.as_str(),
            p.content.as_str(),
            opt_as_str(&p.extension),
            opt_as_str(&p.example),
        );
        match rendered {
            Err(e) => {
                proof {
                    lemma_first_point_error_skip(ps, i as int);
                    assert(ps.skip(i as int)[0] == ps[i as int]);
                }
                return Err(e);
            },
            Ok(point) => {
                let text = point_json_text(&point);
                let ghost before = out@;
                if i > 0 {
                    push_char(&mut out, ',');
                }
                push_str(&mut out, text.as_str());
                proof {
                    lemma_join_step(items, i as int);
                    let j = join_commas(items.take(i as int));
                    if i > 0 {
                        lemma_assoc(seq!['['], j, seq![','], text@);
                    } else {
                        assert(j == Seq::<char>::empty());
                        assert(before == seq!['['] + j);
                        assert(seq!['['] + j =~= seq!['[']);
                    }
                }
            },
        }
        i = i + 1;
    }
    push_char(&mut out, ']');
    proof {
        lemma_first_point_error_skip(ps, ps.len() as int);
        assert(ps.skip(ps.len() as int).len() == 0);
        assert(items.take(ps.len() as int) == items);
    }
    Ok(out)
}

/// Checks the actions of a note and renders them as a JSON array, or gives the first error.
fn actions_json_text(actions: &Vec<ActionInput>) -> (r: Result<String, String>)
    ensures
        match first_action_error(actions@) {
            Some(e) => r matches Err(m) && m@ == e,
            None => r matches Ok(j) && j@ == actions_json(actions@),
        },
{
    let ghost items = Seq::new(actions@.len(), |i: int| action_json(actions@[i]));
    let mut out = String::new();
    push_char(&mut out, '[');
    let mut i: usize = 0;
    while i < actions.len()
        invariant
            i <= actions@.len(),
            items == Seq::new(actions@.len(), |i: int| action_json(actions@[i])),
            forall|k: int| 0 <= k < i ==> !blank(#[trigger] actions@[k].text@),
            out@ == seq!['['] + join_commas(items.take(i as int)),
        decreases actions.len() - i,
    {
        let a = &actions[i];
        match validate_non_empty("actions[].text", a.text.as_str()) {
            Err(e) => {
                proof {
                    lemma_first_action_error_skip(actions@, i as int);
                    assert(actions@.skip(i as int)[0] == actions@[i as int]);
                }
                return Err(e);
            },
            Ok(()) => {
                let mut text = String::new();
                push_char(&mut text, '{');
                assert(text@ == seq!['{']);
                push_key(&mut text, "text_html");
                let html = escape_multiline(a.text.as_str());
                push_json_string(&mut text, html.as_str());
                push_char(&mut text, '}');
                assert(text@ == action_json(*a));
                let ghost before = out@;
                if i > 0 {
                    push_char(&mut out, ',');
                }
                push_str(&mut out, text.as_str());
                proof {
                    lemma_join_step(items, i as int);
                    let j = join_commas(items.take(i as int));
                    if i > 0 {
                        lemma_assoc(seq!['['], j, seq![','], text@);
                    } else {
                        assert(j == Seq::<char>::empty());
                        assert(seq!['['] + j =~= seq!['[']);
                    }
                }
            },
        }
        i = i + 1;
    }
    push_char(&mut out, ']');
    proof {
        lemma_first_action_error_skip(actions@, actions@.len() as int);
        assert(actions@.skip(actions@.len() as int).len() == 0);
        assert(items.take(actions@.len() as int) == items);
    }
    Ok(out)
}

/// An optional field, kept (as an owned string) only when it holds more than whitespace.
fn kept_owned(o: &Option<String>) -> (r: Option<String>)
    ensures
        opt(r) == kept(opt(*o)),
{
    match o {
        Some(s) => if is_blank(s.as_str()) {
            None
        } else {
            Some(s.clone())
        },
        None => None,
    }
}

/// The JSON text `null`.
fn null_text() -> (s: String)
    ensures
        s@ == seq!['n', 'u', 'l', 'l'],
{
    let mut s = String::new();
    push_str(&mut s, "null");
    proof {
        reveal_strlit("null");
        assert(s@ =~= seq!['n', 'u', 'l', 'l']);
    }
    s
}

/// The JSON of a note's reading data, or `null` when it shows none.
fn meta_json_text(meta: &Option<BookMetaInput>) -> (s: String)
    ensures
        s@ == meta_json(
            match meta {
                Some(m) => meta_model(*m),
                None => None,
            },
        ),
{
    match meta {
        None => null_text(),
        Some(m) => {
            let rating = kept_owned(&m.rating);
            let rating_count = kept_owned(&m.rating_count);
            let want_to_read = kept_owned(&m.want_to_read);
            let reading_count = kept_owned(&m.reading_count);
            let url = kept_owned(&m.url);
            if rating.is_none() && want_to_read.is_none() && reading_count.is_none() {
                return null_text();
            }
            let platform = match kept_text(opt_as_str(&m.platform)) {
                Some(p) => p,
                None => "微信读书",
            };
            let mut out = String::new();
            push_char(&mut out, '{');
            assert(out@ == seq!['{']);
            push_key(&mut out, "platform");
            push_json_string(&mut out, platform);
            push_char(&mut out, ',');
            push_key(&mut out, "rating");
            push_json_opt(&mut out, &rating);
            push_char(&mut out, ',');
            push_key(&mut out, "rating_count");
            push_json_opt(&mut out, &rating_count);
            push_char(&mut out, ',');
            push_key(&mut out, "want_to_read");
            push_json_opt(&mut out, &want_to_read);
            push_char(&mut out, ',');
            push_key(&mut out, "reading_count");
            push_json_opt(&mut out, &reading_count);
            push_char(&mut out, ',');
            push_key(&mut out, "url");
            push_json_opt(&mut out, &url);
            push_char(&mut out, '}');
            out
        },
    }
}

/// Checks a note and writes the data its template receives as JSON text, or gives the first
/// error: the required fields, the title, at least one point and one action, then each point
/// and each action in order.
pub fn render_context_json(note: &BookNoteInput) -> (r: Result<String, String>)
    ensures
        match note_error(*note) {
            Some(e) => r matches Err(m) && m@ == e,
            None => r matches Ok(j) && j@ == context_json(*note),
        },
{
    validate_non_empty("book_name", note.book_name.as_str())?;
    validate_non_empty("author", note.author.as_str())?;
    validate_non_empty("why_read", note.why_read.as_str())?;
    validate_non_empty("summary", note.summary.as_str())?;
    validate_non_empty("thoughts", note.thoughts.as_str())?;
    validate_non_empty("target_reader", note.target_reader.as_str())?;
    if let Some(title) = &note.title {
        validate_non_empty("title", title.as_str())?;
        let count = title.as_str().unicode_len();
        if count > MAX_TITLE_CHARS {
            let mut message = String::new();
            push_str(&mut message, "title must contain at most 32 characters; got ");
            push_decimal(&mut message, count as u64);
            return Err(message);
        }
    }
    let no_sections = match &note.sections {
        Some(s) => s.len() == 0,
        None => true,
    };
    if no_sections && note.core_points.len() == 0 {
        let mut message = String::new();
        push_str(&mut message, "core_points must contain at least one item");
        return Err(message);
    }
    if note.actions.len() == 0 {
        let mut message = String::new();
        push_str(&mut message, "actions must contain at least one item");
        return Err(message);
    }
    let points = match &note.sections {
        Some(s) => sections_json(s)?,
        None => core_points_json(&note.core_points)?,
    };
    let actions = actions_json_text(&note.actions)?;
    let example = match &note.example {
        Some(e) => escape_multiline(e.as_str()),
        None => escape_multiline(""),
    };
    proof {
        reveal_strlit("");
        assert(""@ =~= Seq::<char>::empty());
    }
    let why_read = escape_multiline(note.why_read.as_str());
    let summary = escape_multiline(note.summary.as_str());
    let thoughts = escape_multiline(note.thoughts.as_str());
    let meta = meta_json_text(&note.book_meta);
    let mut out = String::new();
    push_char(&mut out, '{');
    assert(out@ == seq!['{']);
    push_key(&mut out, "book_name");
    push_json_string(&mut out, trimmed(note.book_name.as_str()).as_str());
    push_char(&mut out, ',');
    push_key(&mut out, "author");
    push_json_string(&mut out, trimmed(note.author.as_str()).as_str());
    push_char(&mut out, ',');
    push_key(&mut out, "why_read_html");
    push_json_string(&mut out, why_read.as_str());
    push_char(&mut out, ',');
    push_key(&mut out, "summary_html");
    push_json_string(&mut out, summary.as_str());
    push_char(&mut out, ',');
    push_key(&mut out, "core_points");
    push_str(&mut out, points.as_str());
    push_char(&mut out, ',');
    push_key(&mut out, "example_html");
    push_json_string(&mut out, example.as_str());
    push_char(&mut out, ',');
    push_key(&mut out, "thoughts_html");
    push_json_string(&mut out, thoughts.as_str());
    push_char(&mut out, ',');
    push_key(&mut out, "target_reader_html");
    push_json_string(&mut out, escape_multiline(note.target_reader.as_str()).as_str());
    push_char(&mut out, ',');
    push_key(&mut out, "actions");
    push_str(&mut out, actions.as_str());
    push_char(&mut out, ',');
    push_key(&mut out, "insights");
    push_str(&mut out, points.as_str());
    push_char(&mut out, ',');
    push_key(&mut out, "concepts");
    push_str(&mut out, points.as_str());
    push_char(&mut out, ',');
    push_key(&mut out, "principles");
    push_str(&mut out, points.as_str());
    push_char(&mut out, ',');
    push_key(&mut out, "problem_html");
    push_json_string(&mut out, why_read.as_str());
    push_char(&mut out, ',');
    push_key(&mut out, "business_thoughts_html");
    push_json_string(&mut out, thoughts.as_str());
    push_char(&mut out, ',');
    push_key(&mut out, "architecture_html");
    push_json_string(&mut out, summary.as_str());
    push_char(&mut out, ',');
    push_key(&mut out, "investment_thesis_html");
    push_json_string(&mut out, summary.as_str());
    push_char(&mut out, ',');
    push_key(&mut out, "risk_html");
    push_json_string(&mut out, example.as_str());
    push_char(&mut out, ',');
    push_key(&mut out, "book_meta");
    push_str(&mut out, meta.as_str());
    push_char(&mut out, '}');
    proof {
        reveal(context_json);
    }
    Ok(out)
}

/// The name under which a style's template is registered.
pub open spec fn style_name(style: NoteStyle) -> Seq<char> {
    match style {
        NoteStyle::Reading => "reading"@,
        NoteStyle::Business => "business"@,
        NoteStyle::Tech => "tech"@,
        NoteStyle::Invest => "invest"@,
    }
}

/// The renderer's templates: each style's source under the style's name.
pub open spec fn style_templates() -> Map<Seq<char>, Seq<char>> {
    Map::empty().insert("reading"@, READING_TEMPLATE@).insert("business"@, BUSINESS_TEMPLATE@).insert(
        "tech"@,
        TECH_TEMPLATE@,
    ).insert("invest"@, INVEST_TEMPLATE@)
}

/// Why setting up the renderer fails: the first template that does not compile.
pub open spec fn setup_error() -> Option<Seq<char>> {
    match registration_outcome("reading"@, READING_TEMPLATE@) {
        Some(m) => Some("failed to compile book-note template: "@ + m),
        None => match registration_outcome("business"@, BUSINESS_TEMPLATE@) {
            Some(m) => Some("failed to compile business template: "@ + m),
            None => match registration_outcome("tech"@, TECH_TEMPLATE@) {
                Some(m) => Some("failed to compile tech template: "@ + m),
                None => match registration_outcome("invest"@, INVEST_TEMPLATE@) {
                    Some(m) => Some("failed to compile invest template: "@ + m),
                    None => None,
                },
            },
        },
    }
}

/// Why a rendered article is refused: 20000 characters or more, or 1 MiB or more.
pub open spec fn html_limit_error(html: Seq<char>) -> Option<Seq<char>> {
    if html.len() >= 20000 {
        Some("rendered HTML must contain fewer than 20000 characters; got "@ + decimal(html.len()))
    } else if encode_utf8(html).len() >= 1048576 {
        Some(
            "rendered HTML must be smaller than 1048576 bytes; got "@ + decimal(
                encode_utf8(html).len(),
            ),
        )
    } else {
        None
    }
}

/// `r` is what the article `html` gives: its limit error, or the article with its sizes.
pub open spec fn finished(html: Seq<char>, r: Result<RenderedNote, String>) -> bool {
    match html_limit_error(html) {
        Some(e) => r matches Err(m) && m@ == e,
        None => r matches Ok(n) && n.html@ == html && n.char_count == html.len() && n.byte_count
            == encode_utf8(html).len(),
    }
}

/// What rendering a note gives: the article HTML, or the error that refuses the note or the
/// article.
pub open spec fn render_outcome(note: BookNoteInput) -> Result<Seq<char>, Seq<char>> {
    match note_error(note) {
        Some(e) => Err(e),
        None => match strict_render_outcome(style_templates(), style_name(note.style), context_json(note)) {
            Err(message) => Err("failed to render book-note template: "@ + message),
            Ok(html) => match html_limit_error(html) {
                Some(e) => Err(e),
                None => Ok(html),
            },
        },
    }
}

/// `r` is what rendering `note` gives: the article with its sizes, or the error.
pub open spec fn rendered_as(note: BookNoteInput, r: Result<RenderedNote, String>) -> bool {
    match render_outcome(note) {
        Err(e) => r matches Err(m) && m@ == e,
        Ok(html) => r matches Ok(n) && n.html@ == html && n.char_count == html.len() && n.byte_count
            == encode_utf8(html).len(),
    }
}

/// Counts an article in characters and bytes and refuses one over the limits.
pub fn finish_render(html: String) -> (r: Result<RenderedNote, String>)
    ensures
        finished(html@, r),
{
    let chars = chars_of(html.as_str());
    let char_count = chars.len();
    if char_count >= MAX_CONTENT_CHARS {
        let mut message = String::new();
        push_str(&mut message, "rendered HTML must contain fewer than 20000 characters; got ");
        push_decimal(&mut message, char_count as u64);
        return Err(message);
    }
    let byte_count = utf8_len(&chars);
    if byte_count >= MAX_CONTENT_BYTES {
        let mut message = String::new();
        push_str(&mut message, "rendered HTML must be smaller than 1048576 bytes; got ");
        push_decimal(&mut message, byte_count as u64);
        return Err(message);
    }
    Ok(RenderedNote { html, char_count, byte_count })
}

/// Prefixes `message` with `prefix`.
fn prefixed(prefix: &str, message: &str) -> (r: String)
    ensures
        r@ == prefix@ + message@,
{
    let mut r = String::new();
    push_str(&mut r, prefix);
    push_str(&mut r, message);
    proof {
        assert(Seq::<char>::empty() + prefix@ =~= prefix@);
    }
    r
}

/// The name under which a style's template is registered.
pub fn template_name(style: NoteStyle) -> (name: &'static str)
    ensures
        name@ == style_name(style),
{
    match style {
        NoteStyle::Reading => "reading",
        NoteStyle::Business => "business",
        NoteStyle::Tech => "tech",
        NoteStyle::Invest => "invest",
    }
}

impl BookNoteRenderer {
    #[verifier::type_invariant]
    spec fn ready(self) -> bool {
        &&& registry_strict(self.handlebars)
        &&& registry_stock(self.handlebars)
        &&& registry_templates(self.handlebars) == style_templates()
    }

    /// A renderer in strict mode with the four style templates compiled, or the error of the
    /// first template that does not compile.
    pub fn new() -> (r: Result<Self, String>)
        ensures
            match setup_error() {
                Some(e) => r matches Err(m) && m@ == e,
                None => r is Ok,
            },
    {
        let mut handlebars = new_registry();
        set_strict_mode(&mut handlebars, true);
        if let Err(e) = register_template_string(&mut handlebars, "reading", READING_TEMPLATE) {
            return Err(prefixed("failed to compile book-note template: ", e.as_str()));
        }
        if let Err(e) = register_template_string(&mut handlebars, "business", BUSINESS_TEMPLATE) {
            return Err(prefixed("failed to compile business template: ", e.as_str()));
        }
        if let Err(e) = register_template_string(&mut handlebars, "tech", TECH_TEMPLATE) {
            return Err(prefixed("failed to compile tech template: ", e.as_str()));
        }
        if let Err(e) = register_template_string(&mut handlebars, "invest", INVEST_TEMPLATE) {
            return Err(prefixed("failed to compile invest template: ", e.as_str()));
        }
        assert(registry_templates(handlebars) =~= style_templates());
        Ok(BookNoteRenderer { handlebars })
    }

    /// Renders a note into article HTML: checks the note, renders its style's template on the
    /// escaped fields, and refuses an article of 20000 characters or 1 MiB or more.
    pub fn render(&self, note: &BookNoteInput) -> (r: Result<RenderedNote, String>)
        ensures
            rendered_as(*note, r),
    {
        proof {
            use_type_invariant(self);
        }
        let context = render_context_json(note)?;
        let name = template_name(note.style);
        match render_json(&self.handlebars, name, context.as_str()) {
            Err(e) => Err(prefixed("failed to render book-note template: ", e.as_str())),
            Ok(html) => finish_render(html),
        }
    }
}

/// A rendered article is always within WeChat's limits: fewer than 20000 characters and
/// fewer than 1 MiB of UTF-8.
pub proof fn lemma_rendered_html_within_limits(note: BookNoteInput)
    ensures
        render_outcome(note) matches Ok(html) ==> html.len() < 20000 && encode_utf8(html).len()
            < 1048576,
{
}

/// A note is only rendered when it is complete: every required field holds more than
/// whitespace, a given title has at most 32 characters, there is at least one point and one
/// action, and every point has a title and content and every action a text.
pub proof fn lemma_rendered_notes_are_complete(note: BookNoteInput)
    ensures
        render_outcome(note) is Ok ==> {
            &&& !blank(note.book_name@) && !blank(note.author@) && !blank(note.why_read@)
            &&& !blank(note.summary@) && !blank(note.thoughts@) && !blank(note.target_reader@)
            &&& (note.title matches Some(t) ==> !blank(t@) && t@.len() <= 32)
            &&& note.actions@.len() > 0
            &&& (note.sections matches Some(s) && s@.len() > 0) || note.core_points@.len() > 0
            &&& forall|i: int|
                0 <= i < note_points(note).len() ==> point_error(#[trigger] note_points(note)[i])
                    is None
            &&& forall|i: int| 0 <= i < note.actions@.len() ==> !blank(#[trigger] note.actions@[i].text@)
        },
{
    if render_outcome(note) is Ok {
        assert(note_error(note) is None);
        assert forall|i: int| 0 <= i < note_points(note).len() implies point_error(
            #[trigger] note_points(note)[i],
        ) is None by {
            lemma_no_point_error(note_points(note), i);
        }
        assert forall|i: int| 0 <= i < note.actions@.len() implies !blank(
            #[trigger] note.actions@[i].text@,
        ) by {
            lemma_no_action_error(note.actions@, i);
        }
    }
}

proof fn lemma_no_point_error(ps: Seq<PointText>, i: int)
    requires
        first_point_error(ps) is None,
        0 <= i < ps.len(),
    ensures
        point_error(ps[i]) is None,
    decreases i,
{
    if i > 0 {
        assert(ps.drop_first()[i - 1] == ps[i]);
        lemma_no_point_error(ps.drop_first(), i - 1);
    }
}

proof fn lemma_no_action_error(acts: Seq<ActionInput>, i: int)
    requires
        first_action_error(acts) is None,
        0 <= i < acts.len(),
    ensures
        !blank(acts[i].text@),
    decreases i,
{
    if i > 0 {
        assert(acts.drop_first()[i - 1] == acts[i]);
        lemma_no_action_error(acts.drop_first(), i - 1);
    }
}

/// The article body never repeats the article title: the data the templates receive is the
/// same whatever the title.
pub proof fn lemma_context_ignores_title(note: BookNoteInput, title: Option<String>)
    ensures
        context_json(BookNoteInput { title, ..note }) == context_json(note),
{
    reveal(context_json);
    let other = BookNoteInput { title, ..note };
    assert(note_points(other) == note_points(note));
    assert(note_meta(other) == note_meta(note));
}

proof fn lemma_context_ignores_category_and_tags(
    note: BookNoteInput,
    category: Option<String>,
    tags: Vec<String>,
)
    ensures
        context_json(BookNoteInput { category, tags, ..note }) == context_json(note),
{
    reveal(context_json);
    let other = BookNoteInput { category, tags, ..note };
    assert(note_points(other) == note_points(note));
    assert(note_meta(other) == note_meta(note));
}

/// A note's category and tags do not change what it renders to.
pub proof fn lemma_render_ignores_category_and_tags(
    note: BookNoteInput,
    category: Option<String>,
    tags: Vec<String>,
)
    ensures
        render_outcome(BookNoteInput { category, tags, ..note }) == render_outcome(note),
{
    let other = BookNoteInput { category, tags, ..note };
    lemma_context_ignores_category_and_tags(note, category, tags);
    assert(note_points(other) == note_points(note));
    assert(note_error(other) == note_error(note));
}

} // verus!
