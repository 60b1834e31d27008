//! Cover images: where a requested file may come from, and which files are accepted.
use vstd::prelude::*;
use crate::client::opt_text;
use crate::text::{blank, chars_equal, chars_of, is_blank, lower, lowercase, push_str};

verus! {

/// Cover images may be at most this many bytes.
pub const MAX_COVER_BYTES: u64 = 10485760;

/// Adds the segment `cur` to the path's parts unless it is empty or `.`.
pub open spec fn keep_part(done: Seq<Seq<char>>, cur: Seq<char>) -> Seq<Seq<char>> {
    if cur.len() > 0 && cur != seq!['.'] {
        done.push(cur)
    } else {
        done
    }
}

/// Reading a path left to right: the parts found so far and the segment being read.
pub open spec fn scan(p: Seq<char>) -> (Seq<Seq<char>>, Seq<char>)
    decreases p.len(),
{
    if p.len() == 0 {
        (seq![], seq![])
    } else {
        let prev = scan(p.drop_last());
        if p.last() == '/' {
            (keep_part(prev.0, prev.1), seq![])
        } else {
            (prev.0, prev.1.push(p.last()))
        }
    }
}

/// The named parts of a path: its segments between slashes, without empty ones and `.`.
pub open spec fn normal_parts(p: Seq<char>) -> Seq<Seq<char>> {
    keep_part(scan(p).0, scan(p).1)
}

/// The component a path begins with, if any: the root `/` of an absolute path, or the `.`
/// of a relative path that begins with it.
pub open spec fn leading_component(p: Seq<char>) -> Seq<Seq<char>> {
    if p.len() > 0 && p[0] == '/' {
        seq![seq!['/']]
    } else if p.len() > 0 && p[0] == '.' && (p.len() == 1 || p[1] == '/') {
        seq![seq!['.']]
    } else {
        seq![]
    }
}

/// The components of a Unix path, as `Path::components` yields them.
pub open spec fn components(p: Seq<char>) -> Seq<Seq<char>> {
    leading_component(p) + normal_parts(p)
}

/// Whether `base`'s components begin `p`'s, as `Path::starts_with` decides.
pub open spec fn path_starts_with(p: Seq<char>, base: Seq<char>) -> bool {
    components(base).len() <= components(p).len() && components(p).take(
        components(base).len() as int,
    ) == components(base)
}

/// The last component of a path when it is a name, as `Path::file_name` gives it.
pub open spec fn file_name(p: Seq<char>) -> Option<Seq<char>> {
    let parts = normal_parts(p);
    if parts.len() > 0 && parts.last() != seq!['.', '.'] {
        Some(parts.last())
    } else {
        None
    }
}

/// The position of the last `.` in `name`.
pub open spec fn last_dot(name: Seq<char>) -> Option<int>
    decreases name.len(),
{
    if name.len() == 0 {
        None
    } else if name.last() == '.' {
        Some(name.len() - 1)
    } else {
        last_dot(name.drop_last())
    }
}

/// The extension of a path: what follows the last `.` of its file name, unless that dot
/// begins the name, as `Path::extension` gives it.
pub open spec fn extension(p: Seq<char>) -> Option<Seq<char>> {
    match file_name(p) {
        Some(name) => match last_dot(name) {
            Some(i) => if i == 0 {
                None
            } else {
                Some(name.skip(i + 1))
            },
            None => None,
        },
        None => None,
    }
}

/// The path `rel` joined onto `root` with one slash between them, as `Path::join` gives it for
/// a relative `rel`.
pub open spec fn join_path(root: Seq<char>, rel: Seq<char>) -> Seq<char> {
    if root.len() > 0 && root.last() != '/' {
        root + seq!['/'] + rel
    } else {
        root + rel
    }
}

/// The path that a cover request names: the media root must be configured and the path given;
/// an absolute path stands as it is, a relative one is taken inside the root.
pub open spec fn cover_request_outcome(root: Option<Seq<char>>, file_path: Seq<char>) -> Result<Seq<char>, Seq<char>> {
    match root {
        None => Err("file uploads are disabled; set WECHAT_MEDIA_ROOT to an allowed directory"@),
        Some(r) => if blank(file_path) {
            Err("file_path must not be empty"@)
        } else if file_path.len() > 0 && file_path[0] == '/' {
            Ok(file_path)
        } else {
            Ok(join_path(r, file_path))
        },
    }
}

fn owned(text: &str) -> (s: String)
    ensures
        s@ == text@,
{
    let mut s = String::new();
    push_str(&mut s, text);
    proof {
        assert(Seq::<char>::empty() + text@ =~= text@);
    }
    s
}

/// The path of the file a cover request names, before it is resolved on disk.
pub fn cover_request_path(media_root: Option<&str>, file_path: &str) -> (r: Result<String, String>)
    ensures
        match cover_request_outcome(opt_text(media_root), file_path@) {
            Ok(p) => r matches Ok(s) && s@ == p,
            Err(e) => r matches Err(m) && m@ == e,
        },
{
    let root = match media_root {
        Some(root) => root,
        None => {
            return Err(
                owned("file uploads are disabled; set WECHAT_MEDIA_ROOT to an allowed directory"),
            );
        },
    };
    if is_blank(file_path) {
        return Err(owned("file_path must not be empty"));
    }
    let p = chars_of(file_path);
    if p.len() > 0 && p[0] == '/' {
        return Ok(owned(file_path));
    }
    let rv = chars_of(root);
    let mut joined = owned(root);
    if rv.len() > 0 && rv[rv.len() - 1] != '/' {
        crate::text::push_char(&mut joined, '/');
    }
    push_str(&mut joined, file_path);
    Ok(joined)
}

/// The named parts of a path, each as its characters.
pub fn path_parts(p: &str) -> (c: Vec<Vec<char>>)
    ensures
        c@.len() == normal_parts(p@).len(),
        forall|k: int| 0 <= k < c@.len() ==> #[trigger] c@[k]@ == normal_parts(p@)[k],
{
    let v = chars_of(p);
    let mut done: Vec<Vec<char>> = Vec::new();
    let ghost mut g: Seq<Seq<char>> = seq![];
    let mut cur: Vec<char> = Vec::new();
    let mut i: usize = 0;
    while i < v.len()
        invariant
            i <= v@.len(),
            v@ == p@,
            (g, cur@) == scan(v@.take(i as int)),
            done@.len() == g.len(),
            forall|k: int| 0 <= k < done@.len() ==> #[trigger] done@[k]@ == g[k],
        decreases v.len() - i,
    {
        let c = v[i];
        assert(v@.take(i + 1).drop_last() == v@.take(i as int));
        assert(v@.take(i + 1).last() == c);
        if c == '/' {
            if cur.len() > 0 && !(cur.len() == 1 && cur[0] == '.') {
                assert(cur@ != seq!['.']);
                proof {
                    g = g.push(cur@);
                }
                done.push(cur);
            } else {
                assert(cur@.len() > 0 ==> cur@ == seq!['.']);
            }
            cur = Vec::new();
        } else {
            cur.push(c);
        }
        i = i + 1;
    }
    assert(v@.take(v@.len() as int) == v@);
    if cur.len() > 0 && !(cur.len() == 1 && cur[0] == '.') {
        assert(cur@ != seq!['.']);
        proof {
            g = g.push(cur@);
        }
        done.push(cur);
    } else {
        assert(cur@.len() > 0 ==> cur@ == seq!['.']);
    }
    done
}

/// The components of a path, each as its characters.
pub fn path_components(p: &str) -> (c: Vec<Vec<char>>)
    ensures
        c@.len() == components(p@).len(),
        forall|k: int| 0 <= k < c@.len() ==> #[trigger] c@[k]@ == components(p@)[k],
{
    let v = chars_of(p);
    let done = path_parts(p);
    let ghost g = normal_parts(p@);
    let mut out: Vec<Vec<char>> = Vec::new();
    let ghost lead = leading_component(p@);
    if v.len() > 0 && v[0] == '/' {
        out.push(vec!['/']);
    } else if v.len() > 0 && v[0] == '.' && (v.len() == 1 || v[1] == '/') {
        out.push(vec!['.']);
    }
    assert(out@.len() == lead.len());
    assert(forall|k: int| 0 <= k < out@.len() ==> #[trigger] out@[k]@ == lead[k]);
    let mut k: usize = 0;
    while k < done.len()
        invariant
            k <= done@.len(),
            done@.len() == g.len(),
            g == normal_parts(p@),
            lead == leading_component(p@),
            forall|m: int| 0 <= m < done@.len() ==> #[trigger] done@[m]@ == g[m],
            out@.len() == lead.len() + k,
            forall|m: int| 0 <= m < out@.len() ==> #[trigger] out@[m]@ == (lead + g)[m],
        decreases done.len() - k,
    {
        out.push(done[k].clone());
        k = k + 1;
    }
    out
}

/// Whether `p` begins with the components of `base`.
pub fn starts_with_path(p: &str, base: &str) -> (b: bool)
    ensures
        b == path_starts_with(p@, base@),
{
    let pc = path_components(p);
    let bc = path_components(base);
    if bc.len() > pc.len() {
        return false;
    }
    let mut k: usize = 0;
    while k < bc.len()
        invariant
            k <= bc@.len() <= pc@.len(),
            pc@.len() == components(p@).len(),
            bc@.len() == components(base@).len(),
            forall|m: int| 0 <= m < pc@.len() ==> #[trigger] pc@[m]@ == components(p@)[m],
            forall|m: int| 0 <= m < bc@.len() ==> #[trigger] bc@[m]@ == components(base@)[m],
            forall|m: int| 0 <= m < k ==> components(p@)[m] == components(base@)[m],
        decreases bc.len() - k,
    {
        if !chars_equal(&pc[k], &bc[k]) {
            assert(components(p@).take(bc@.len() as int)[k as int] != components(base@)[k as int]);
            return false;
        }
        k = k + 1;
    }
    assert(components(p@).take(bc@.len() as int) =~= components(base@));
    true
}

/// The file name of a path, as characters.
pub fn file_name_of(p: &str) -> (r: Option<Vec<char>>)
    ensures
        match file_name(p@) {
            Some(n) => r matches Some(v) && v@ == n,
            None => r is None,
        },
{
    let mut parts = path_parts(p);
    let n = parts.len();
    if n == 0 {
        return None;
    }
    let last = parts.pop().unwrap();
    if chars_equal(&last, &vec!['.', '.']) {
        return None;
    }
    Some(last)
}

/// The extension of a path, as characters.
pub fn extension_of(p: &str) -> (r: Option<Vec<char>>)
    ensures
        match extension(p@) {
            Some(e) => r matches Some(v) && v@ == e,
            None => r is None,
        },
{
    let name = match file_name_of(p) {
        Some(name) => name,
        None => return None,
    };
    let mut j = name.len();
    assert(name@.take(name@.len() as int) == name@);
    while j > 0 && name[j - 1] != '.'
        invariant
            j <= name@.len(),
            last_dot(name@) == last_dot(name@.take(j as int)),
        decreases j,
    {
        assert(name@.take(j as int).drop_last() == name@.take(j - 1));
        j = j - 1;
    }
    proof {
        assert(name@.take(name@.len() as int) == name@);
    }
    if j == 0 {
        return None;
    }
    assert(name@.take(j as int).last() == '.');
    if j == 1 {
        return None;
    }
    let mut ext: Vec<char> = Vec::new();
    let mut k = j;
    while k < name.len()
        invariant
            j <= k <= name@.len(),
            ext@ == name@.subrange(j as int, k as int),
        decreases name.len() - k,
    {
        ext.push(name[k]);
        assert(name@.subrange(j as int, k + 1) == name@.subrange(j as int, k as int).push(name@[k as int]));
        k = k + 1;
    }
    assert(name@.skip(j as int) == name@.subrange(j as int, name@.len() as int));
    Some(ext)
}

/// The MIME type of a cover image by its lowercase extension.
pub open spec fn cover_mime_for(ext: Seq<char>) -> Option<Seq<char>> {
    if ext == "bmp"@ {
        Some("image/bmp"@)
    } else if ext == "gif"@ {
        Some("image/gif"@)
    } else if ext == "jpg"@ || ext == "jpeg"@ {
        Some("image/jpeg"@)
    } else if ext == "png"@ {
        Some("image/png"@)
    } else {
        None
    }
}

/// The lowercase extension of a path, empty when it has none.
pub open spec fn lower_extension(p: Seq<char>) -> Seq<char> {
    match extension(p) {
        Some(e) => lower(e),
        None => seq![],
    }
}

/// The MIME type of a cover image file by its extension, in any ASCII case; only bmp, gif,
/// jpg, jpeg and png are accepted.
pub fn cover_mime(path: &str) -> (r: Result<&'static str, String>)
    ensures
        match cover_mime_for(lower_extension(path@)) {
            Some(m) => r matches Ok(t) && t@ == m,
            None => r matches Err(e) && e@ == "cover image must use bmp, gif, jpg, jpeg, or png format"@,
        },
{
    let ext = match extension_of(path) {
        Some(e) => {
            let s = crate::text::string_of(&e);
            lowercase(s.as_str())
        },
        None => Vec::new(),
    };
    if chars_equal(&ext, &chars_of("bmp")) {
        Ok("image/bmp")
    } else if chars_equal(&ext, &chars_of("gif")) {
        Ok("image/gif")
    } else if chars_equal(&ext, &chars_of("jpg")) || chars_equal(&ext, &chars_of("jpeg")) {
        Ok("image/jpeg")
    } else if chars_equal(&ext, &chars_of("png")) {
        Ok("image/png")
    } else {
        proof {
            assert(lower(Seq::<char>::empty()) =~= Seq::<char>::empty());
        }
        Err(owned("cover image must use bmp, gif, jpg, jpeg, or png format"))
    }
}

/// The file name of a cover image, or the error when the path ends in no name.
pub fn cover_file_name(path: &str) -> (r: Result<String, String>)
    ensures
        match file_name(path@) {
            Some(n) => r matches Ok(s) && s@ == n,
            None => r matches Err(e) && e@ == "media filename is not valid UTF-8"@,
        },
{
    match file_name_of(path) {
        Some(n) => Ok(crate::text::string_of(&n)),
        None => Err(owned("media filename is not valid UTF-8")),
    }
}

/// Refuses a resolved cover path outside the media root.
pub fn check_cover_location(canonical: &str, root: &str) -> (r: Result<(), String>)
    ensures
        r is Ok <==> path_starts_with(canonical@, root@),
        r matches Err(e) ==> e@ == "media file "@ + canonical@ + " is outside WECHAT_MEDIA_ROOT "@
            + root@,
{
    if starts_with_path(canonical, root) {
        Ok(())
    } else {
        let mut m = owned("media file ");
        push_str(&mut m, canonical);
        push_str(&mut m, " is outside WECHAT_MEDIA_ROOT ");
        push_str(&mut m, root);
        Err(m)
    }
}

/// Whether a cover image's size is accepted: one byte to 10 MiB.
pub open spec fn cover_size_ok(len: nat) -> bool {
    1 <= len <= 10485760
}

/// Refuses a cover path that is not a regular file, or whose size is outside 1 byte to 10 MiB.
pub fn check_cover_metadata(canonical: &str, is_file: bool, len: u64) -> (r: Result<(), String>)
    ensures
        !is_file ==> (r matches Err(e) && e@ == "media path "@ + canonical@ + " is not a regular file"@),
        is_file && !cover_size_ok(len as nat) ==> (r matches Err(e) && e@
            == "cover image must be between 1 byte and 10 MiB"@),
        is_file && cover_size_ok(len as nat) ==> r is Ok,
{
    if !is_file {
        let mut m = owned("media path ");
        push_str(&mut m, canonical);
        push_str(&mut m, " is not a regular file");
        return Err(m);
    }
    if len == 0 || len > MAX_COVER_BYTES {
        return Err(owned("cover image must be between 1 byte and 10 MiB"));
    }
    Ok(())
}

/// Refuses cover bytes whose count is outside 1 byte to 10 MiB.
pub fn check_cover_bytes(len: usize) -> (r: Result<(), String>)
    ensures
        r is Ok <==> cover_size_ok(len as nat),
        r matches Err(e) ==> e@ == "cover image must be between 1 byte and 10 MiB"@,
{
    if len == 0 || len as u64 > MAX_COVER_BYTES {
        Err(owned("cover image must be between 1 byte and 10 MiB"))
    } else {
        Ok(())
    }
}

/// The media root after resolution: `canonical` is what the path resolved to, if it did,
/// and `canonical_is_dir` whether that is a directory.
pub fn canonical_media_root(path: &str, canonical: Option<&str>, canonical_is_dir: bool) -> (r: Result<String, String>)
    ensures
        match canonical {
            None => r matches Err(e) && e@ == "failed to resolve WECHAT_MEDIA_ROOT "@ + path@,
            Some(c) => if canonical_is_dir {
                r matches Ok(s) && s@ == c@
            } else {
                r matches Err(e) && e@ == "WECHAT_MEDIA_ROOT "@ + c@ + " is not a directory"@
            },
        },
{
    match canonical {
        None => {
            let mut m = owned("failed to resolve WECHAT_MEDIA_ROOT ");
            push_str(&mut m, path);
            Err(m)
        },
        Some(c) => if canonical_is_dir {
            Ok(owned(c))
        } else {
            let mut m = owned("WECHAT_MEDIA_ROOT ");
            push_str(&mut m, c);
            push_str(&mut m, " is not a directory");
            Err(m)
        },
    }
}

/// Where reading a cover image stands.
pub enum CoverStage {
    /// Waiting for the requested path to be resolved on disk.
    Resolving,
    /// Waiting for the metadata of the resolved path.
    Inspecting,
    /// Waiting for the bytes of the file.
    Reading,
    /// Ended, with the cover or an error.
    Finished,
}

/// A cover image read from inside the media root.
pub struct CoverFile {
    pub bytes: Vec<u8>,
    pub filename: String,
    pub mime: String,
}

/// What reading a cover asks of the file system next, or how it ended.
pub enum CoverAction {
    /// Resolve this path to its canonical form.
    Canonicalize(String),
    /// Read the metadata of this resolved path.
    Inspect(String),
    /// Read the bytes of this file.
    Read(String),
    /// The cover is read.
    Done(CoverFile),
    /// Reading the cover failed with this error.
    Fail(String),
}

/// The file system's answer to the last action.
pub enum CoverEvent {
    /// The resolved path, or `None` when the path could not be resolved.
    Canonicalized(Option<String>),
    /// Whether the path is a regular file, and its length in bytes; or the error's text.
    Inspected(Result<(bool, u64), String>),
    /// The file's bytes, or the error's text.
    ReadDone(Result<Vec<u8>, String>),
}

/// The state of a cover read: the media root, the requested path, and what was learned of the
/// file so far.
pub struct CoverReader {
    root: String,
    requested: String,
    canonical: String,
    mime: String,
    filename: String,
    stage: CoverStage,
}

/// The state of a cover read as plain values.
pub struct CoverReadView {
    pub root: Seq<char>,
    pub requested: Seq<char>,
    pub canonical: Seq<char>,
    pub mime: Seq<char>,
    pub filename: Seq<char>,
    pub stage: CoverStage,
}

impl View for CoverReader {
    type V = CoverReadView;

    closed spec fn view(&self) -> CoverReadView {
        CoverReadView {
            root: self.root@,
            requested: self.requested@,
            canonical: self.canonical@,
            mime: self.mime@,
            filename: self.filename@,
            stage: self.stage,
        }
    }
}

/// The answer that a cover read in `stage` waits for.
pub open spec fn cover_expects(stage: CoverStage, event: CoverEvent) -> bool {
    match stage {
        CoverStage::Resolving => event is Canonicalized,
        CoverStage::Inspecting => event is Inspected,
        CoverStage::Reading => event is ReadDone,
        CoverStage::Finished => false,
    }
}

/// The text of an optional string slice, empty when absent.
pub open spec fn text_or_empty(o: Option<&str>) -> Seq<char> {
    match o {
        Some(s) => s@,
        None => seq![],
    }
}

impl CoverReader {
    /// A resolved path is only ever kept when it lies inside the media root, and the file is
    /// only read once its type and name were accepted.
    #[verifier::type_invariant]
    spec fn checked(self) -> bool {
        &&& (self.stage is Inspecting || self.stage is Reading) ==> path_starts_with(
            self.canonical@,
            self.root@,
        )
        &&& self.stage is Reading ==> cover_mime_for(lower_extension(self.canonical@)) == Some(
            self.mime@,
        ) && file_name(self.canonical@) == Some(self.filename@)
    }

    /// Starts reading the cover `file_path` from the media root `media_root`: first the path is
    /// resolved, unless uploads are disabled or the path is blank.
    pub fn start(media_root: Option<&str>, file_path: &str) -> (out: (CoverReader, CoverAction))
        ensures
            out.0@.root == text_or_empty(media_root),
            match cover_request_outcome(opt_text(media_root), file_path@) {
                Ok(p) => out.1 matches CoverAction::Canonicalize(q) && q@ == p
                    && out.0@.requested == p && out.0@.stage is Resolving,
                Err(e) => out.1 matches CoverAction::Fail(m) && m@ == e && out.0@.stage is Finished,
            },
    {
        let root = match media_root {
            Some(r) => owned(r),
            None => String::new(),
        };
        match cover_request_path(media_root, file_path) {
            Ok(requested) => {
                let action = CoverAction::Canonicalize(requested.clone());
                (
                    CoverReader {
                        root,
                        requested,
                        canonical: String::new(),
                        mime: String::new(),
                        filename: String::new(),
                        stage: CoverStage::Resolving,
                    },
                    action,
                )
            },
            Err(e) => (
                CoverReader {
                    root,
                    requested: String::new(),
                    canonical: String::new(),
                    mime: String::new(),
                    filename: String::new(),
                    stage: CoverStage::Finished,
                },
                CoverAction::Fail(e),
            ),
        }
    }

    /// Takes the file system's answer to the last action and says what comes next: the
    /// resolved path must lie inside the media root, then be a regular file of 1 byte to
    /// 10 MiB with an accepted image extension and a file name, and only then is it read; the
    /// bytes read must again be 1 byte to 10 MiB.
    pub fn step(&mut self, event: CoverEvent) -> (action: CoverAction)
        requires
            cover_expects(old(self)@.stage, event),
        ensures
            final(self)@.root == old(self)@.root,
            final(self)@.requested == old(self)@.requested,
            action matches CoverAction::Read(p) ==> path_starts_with(p@, old(self)@.root),
            !(action is Canonicalize),
            match event {
                CoverEvent::Canonicalized(None) => action matches CoverAction::Fail(e) && e@
                    == "failed to resolve media file "@ + old(self)@.requested
                    && final(self)@.stage is Finished,
                CoverEvent::Canonicalized(Some(c)) => if path_starts_with(c@, old(self)@.root) {
                    action matches CoverAction::Inspect(p) && p@ == c@ && final(self)@.canonical
                        == c@ && final(self)@.stage is Inspecting
                } else {
                    action matches CoverAction::Fail(e) && e@ == "media file "@ + c@
                        + " is outside WECHAT_MEDIA_ROOT "@ + old(self)@.root
                        && final(self)@.stage is Finished
                },
                CoverEvent::Inspected(Err(m)) => action matches CoverAction::Fail(e) && e@ == m@
                    && final(self)@.stage is Finished,
                CoverEvent::Inspected(Ok((is_file, len))) => {
                    let c = old(self)@.canonical;
                    if !is_file {
                        action matches CoverAction::Fail(e) && e@ == "media path "@ + c
                            + " is not a regular file"@ && final(self)@.stage is Finished
                    } else if !cover_size_ok(len as nat) {
                        action matches CoverAction::Fail(e) && e@
                            == "cover image must be between 1 byte and 10 MiB"@
                            && final(self)@.stage is Finished
                    } else {
                        match cover_mime_for(lower_extension(c)) {
                            None => action matches CoverAction::Fail(e) && e@
                                == "cover image must use bmp, gif, jpg, jpeg, or png format"@
                                && final(self)@.stage is Finished,
                            Some(mime) => match file_name(c) {
                                None => action matches CoverAction::Fail(e) && e@
                                    == "media filename is not valid UTF-8"@
                                    && final(self)@.stage is Finished,
                                Some(name) => action matches CoverAction::Read(p) && p@ == c
                                    && final(self)@.stage is Reading && final(self)@.canonical
                                    == c && final(self)@.mime == mime && final(self)@.filename
                                    == name,
                            },
                        }
                    }
                },
                CoverEvent::ReadDone(Err(m)) => action matches CoverAction::Fail(e) && e@ == m@
                    && final(self)@.stage is Finished,
                CoverEvent::ReadDone(Ok(bytes)) => if cover_size_ok(bytes@.len()) {
                    action matches CoverAction::Done(f) && f.bytes@ == bytes@ && f.filename@
                        == old(self)@.filename && f.mime@ == old(self)@.mime
                        && final(self)@.stage is Finished
                } else {
                    action matches CoverAction::Fail(e) && e@
                        == "cover image must be between 1 byte and 10 MiB"@
                        && final(self)@.stage is Finished
                },
            },
    {
        proof {
            use_type_invariant(&*self);
        }
        let root = self.root.clone();
        let requested = self.requested.clone();
        match event {
            CoverEvent::Canonicalized(None) => {
                let mut m = owned("failed to resolve media file ");
                push_str(&mut m, requested.as_str());
                self.finish();
                CoverAction::Fail(m)
            },
            CoverEvent::Canonicalized(Some(c)) => match check_cover_location(c.as_str(), root.as_str()) {
                Err(e) => {
                    self.finish();
                    CoverAction::Fail(e)
                },
                Ok(()) => {
                    let action = CoverAction::Inspect(c.clone());
                    *self = CoverReader {
                        root,
                        requested,
                        canonical: c,
                        mime: String::new(),
                        filename: String::new(),
                        stage: CoverStage::Inspecting,
                    };
                    action
                },
            },
            CoverEvent::Inspected(Err(m)) => {
                self.finish();
                CoverAction::Fail(m)
            },
            CoverEvent::Inspected(Ok((is_file, len))) => {
                let canonical = self.canonical.clone();
                if let Err(e) = check_cover_metadata(canonical.as_str(), is_file, len) {
                    self.finish();
                    return CoverAction::Fail(e);
                }
                let mime = match cover_mime(canonical.as_str()) {
                    Ok(m) => owned(m),
                    Err(e) => {
                        self.finish();
                        return CoverAction::Fail(e);
                    },
                };
                let filename = match cover_file_name(canonical.as_str()) {
                    Ok(n) => n,
                    Err(e) => {
                        self.finish();
                        return CoverAction::Fail(e);
                    },
                };
                let action = CoverAction::Read(canonical.clone());
                *self = CoverReader { root, requested, canonical, mime, filename, stage: CoverStage::Reading };
                action
            },
            CoverEvent::ReadDone(Err(m)) => {
                self.finish();
                CoverAction::Fail(m)
            },
            CoverEvent::ReadDone(Ok(bytes)) => {
                if let Err(e) = check_cover_bytes(bytes.len()) {
                    self.finish();
                    return CoverAction::Fail(e);
                }
                let file = CoverFile {
                    bytes,
                    filename: self.filename.clone(),
                    mime: self.mime.clone(),
                };
                self.finish();
                CoverAction::Done(file)
            },
        }
    }

    /// Ends the read, keeping the root and the requested path.
    fn finish(&mut self)
        ensures
            final(self)@.root == old(self)@.root,
            final(self)@.requested == old(self)@.requested,
            final(self)@.stage is Finished,
    {
        let root = self.root.clone();
        let requested = self.requested.clone();
        *self = CoverReader {
            root,
            requested,
            canonical: String::new(),
            mime: String::new(),
            filename: String::new(),
            stage: CoverStage::Finished,
        };
    }
}

} // verus!
