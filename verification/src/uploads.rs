//! Which file names the upload file server accepts, and where it stores and
//! reads them.

use vstd::prelude::*;
use vstd::utf8::encode_utf8;

use crate::paths::{
    has_root, is_kept_segment, is_single_normal, join_path, joined, kept_segments,
    path_components, path_is_valid, split_on_slash, PathComponent,
};
use crate::server_error::{ServerError, BAD_REQUEST, NOT_FOUND};

verus! {

/// The directory that uploaded files are stored in.
pub const UPLOADS_DIRECTORY: &'static str = "uploads";

pub open spec fn uploads_dir() -> Seq<char> {
    seq!['u', 'p', 'l', 'o', 'a', 'd', 's']
}

/// Characters that are not allowed in file names on any platform.
pub open spec fn is_illegal_name_char(c: char) -> bool {
    c == '/' || c == '?' || c == '<' || c == '>' || c == '\\' || c == ':' || c == '*' || c == '|'
        || c == '"'
}

/// Control characters: U+0000 to U+001F and U+0080 to U+009F.
pub open spec fn is_control_name_char(c: char) -> bool {
    let v = c as u32;
    v <= 0x1f || (0x80 <= v && v <= 0x9f)
}

/// `s` without its illegal and control characters.
pub open spec fn strip_disallowed(s: Seq<char>) -> Seq<char>
    decreases s.len(),
{
    if s.len() == 0 {
        s
    } else {
        let t = strip_disallowed(s.drop_last());
        if is_illegal_name_char(s.last()) || is_control_name_char(s.last()) {
            t
        } else {
            t.push(s.last())
        }
    }
}

/// A name made of dots only (`.`, `..`, ...).
pub open spec fn only_dots(s: Seq<char>) -> bool {
    s.len() > 0 && forall|i: int| 0 <= i < s.len() ==> s[i] == '.'
}

/// The longest prefix of `s` whose UTF-8 encoding takes at most `n` bytes.
pub open spec fn truncate_to_bytes(s: Seq<char>, n: nat) -> Seq<char>
    decreases s.len(),
{
    if encode_utf8(s).len() <= n || s.len() == 0 {
        s
    } else {
        truncate_to_bytes(s.drop_last(), n)
    }
}

/// A file name made safe as `sanitize_filename` does on Unix: illegal and
/// control characters are removed, a name of dots only becomes empty, and
/// the result is cut to 255 bytes at a character boundary.
pub open spec fn sanitized(name: Seq<char>) -> Seq<char> {
    let stripped = strip_disallowed(name);
    truncate_to_bytes(
        if only_dots(stripped) {
            Seq::<char>::empty()
        } else {
            stripped
        },
        255,
    )
}

proof fn lemma_strip_has_no_slash(s: Seq<char>)
    ensures
        !strip_disallowed(s).contains('/'),
    decreases s.len(),
{
    if s.len() > 0 {
        lemma_strip_has_no_slash(s.drop_last());
        let t = strip_disallowed(s.drop_last());
        if !(is_illegal_name_char(s.last()) || is_control_name_char(s.last())) {
            assert forall|i: int| 0 <= i < t.push(s.last()).len() implies t.push(s.last())[i]
                != '/' by {
                if i < t.len() {
                    assert(t.push(s.last())[i] == t[i]);
                }
            }
        }
    }
}

proof fn lemma_truncate_is_prefix(s: Seq<char>, n: nat)
    ensures
        truncate_to_bytes(s, n).is_prefix_of(s),
    decreases s.len(),
{
    if !(encode_utf8(s).len() <= n || s.len() == 0) {
        lemma_truncate_is_prefix(s.drop_last(), n);
    }
}

/// A sanitised name holds no separator.
pub proof fn lemma_sanitized_has_no_slash(name: Seq<char>)
    ensures
        !sanitized(name).contains('/'),
{
    let stripped = strip_disallowed(name);
    lemma_strip_has_no_slash(name);
    let u = if only_dots(stripped) {
        Seq::<char>::empty()
    } else {
        stripped
    };
    lemma_truncate_is_prefix(u, 255);
    let r = truncate_to_bytes(u, 255);
    if r.contains('/') {
        let i = choose|i: int| 0 <= i < r.len() && r[i] == '/';
        assert(u[i] == '/');
        assert(stripped.contains('/'));
    }
}

/// `sanitize_filename::sanitize_with_options` with the options that its
/// `sanitize` uses on Unix (no Windows rules, truncation, empty replacement).
/// Its source removes the characters of its illegal and control patterns,
/// replaces a name of dots only with the empty string, and cuts the result
/// to 255 bytes at the last character boundary that fits.
#[verifier::external_body]
fn sanitize_file_name(name: &str) -> (r: String)
    ensures
        r@ == sanitized(name@),
{
    sanitize_filename::sanitize_with_options(
        name,
        sanitize_filename::Options { windows: false, truncate: true, replacement: "" },
    )
}

/// The message of the error for a file name that is not a single plain name.
pub open spec fn invalid_path_message() -> Seq<char> {
    "Invalid path"@
}

fn invalid_path() -> (r: ServerError)
    ensures
        r.status == BAD_REQUEST,
        r.message@ == invalid_path_message(),
{
    ServerError::new(BAD_REQUEST, String::from_str("Invalid path"))
}

/// Where an uploaded file is stored: its sanitised name inside the uploads
/// directory, if the name the client gave is a single plain name; otherwise
/// a bad request. The stored file lies directly in the uploads directory.
pub fn upload_destination(file_name: &str) -> (r: Result<String, ServerError>)
    ensures
        is_single_normal(file_name@) ==> (r matches Ok(p) && p@ == joined(
            uploads_dir(),
            sanitized(file_name@),
        ) && p@ == uploads_dir() + seq!['/'] + sanitized(file_name@)),
        !is_single_normal(file_name@) ==> (r matches Err(e) && e.status == BAD_REQUEST
            && e.message@ == invalid_path_message()),
{
    if !path_is_valid(file_name) {
        return Err(invalid_path());
    }
    let name = sanitize_file_name(file_name);
    proof {
        lemma_sanitized_has_no_slash(file_name@);
        reveal_strlit("uploads");
        assert(UPLOADS_DIRECTORY@ =~= uploads_dir());
        if name@.len() > 0 {
            assert(name@.contains(name@[0]));
        }
    }
    Ok(join_path(UPLOADS_DIRECTORY, name.as_str()))
}

/// Which file a download reads: the requested name inside the uploads
/// directory, if it is a single plain name; otherwise a bad request.
pub fn download_source(file_name: &str) -> (r: Result<String, ServerError>)
    ensures
        is_single_normal(file_name@) ==> (r matches Ok(p) && p@ == uploads_dir() + seq!['/']
            + file_name@),
        !is_single_normal(file_name@) ==> (r matches Err(e) && e.status == BAD_REQUEST
            && e.message@ == invalid_path_message()),
{
    if !path_is_valid(file_name) {
        return Err(invalid_path());
    }
    proof {
        reveal_strlit("uploads");
        assert(UPLOADS_DIRECTORY@ =~= uploads_dir());
        lemma_single_normal_is_relative(file_name@);
    }
    Ok(join_path(UPLOADS_DIRECTORY, file_name))
}

/// The error for a download whose file cannot be opened.
pub fn file_not_found(detail: &str) -> (r: ServerError)
    ensures
        r.status == NOT_FOUND,
        r.message@ == "File not found: `"@ + detail@ + "`"@,
{
    let mut m = String::from_str("File not found: `");
    m.append(detail);
    m.append("`");
    ServerError::new(NOT_FOUND, m)
}

proof fn lemma_single_normal_is_relative(p: Seq<char>)
    requires
        is_single_normal(p),
    ensures
        !has_root(p),
{
    if has_root(p) {
        assert(path_components(p)[0] == PathComponent::RootDir);
    }
}

proof fn lemma_kept_contains(segs: Seq<Seq<char>>, i: int)
    requires
        0 <= i < segs.len(),
        is_kept_segment(segs[i]),
    ensures
        kept_segments(segs).contains(segs[i]),
    decreases segs.len(),
{
    if i < segs.len() - 1 {
        lemma_kept_contains(segs.drop_last(), i);
        assert(segs.drop_last()[i] == segs[i]);
        let k = kept_segments(segs.drop_last());
        let j = choose|j: int| 0 <= j < k.len() && k[j] == segs[i];
        if is_kept_segment(segs.last()) {
            assert(k.push(segs.last())[j] == segs[i]);
        }
    } else {
        let k = kept_segments(segs.drop_last());
        assert(k.push(segs.last())[k.len() as int] == segs[i]);
    }
}

/// A name that passes the upload and download check never leaves the uploads
/// directory: it is relative, and no piece of it between separators is `..`.
pub proof fn lemma_valid_name_stays_inside(p: Seq<char>)
    requires
        is_single_normal(p),
    ensures
        !has_root(p),
        forall|i: int|
            0 <= i < split_on_slash(p).len() ==> #[trigger] split_on_slash(p)[i] != seq!['.', '.'],
{
    lemma_single_normal_is_relative(p);
    let segs = split_on_slash(p);
    let ks = kept_segments(segs);
    assert forall|i: int| 0 <= i < segs.len() implies #[trigger] segs[i] != seq!['.', '.'] by {
        if segs[i] == seq!['.', '.'] {
            assert(seq!['.', '.'].len() != seq!['.'].len());
            assert(is_kept_segment(segs[i]));
            lemma_kept_contains(segs, i);
            let j = choose|j: int| 0 <= j < ks.len() && ks[j] == segs[i];
            let c = path_components(p);
            if has_root(p) {
            } else if crate::paths::has_leading_cur_dir(p) {
                assert(c[0] == PathComponent::CurDir);
            } else {
                assert(c =~= ks.map_values(|s: Seq<char>| crate::paths::segment_component(s)));
                assert(c[j] == PathComponent::ParentDir);
            }
        }
    }
}

/// What the upload handler does with the next part of a multipart body.
pub enum UploadFieldStep {
    /// No further part could be read: the upload is complete.
    Stop,
    /// The part carries no file name: it is passed over.
    Skip,
    /// The part is a file with this name: it is stored.
    Store(String),
}

/// The next step of an upload: `next` is `None` when no further part could
/// be read (the body ended or could not be read), otherwise the file name of
/// the part, if it has one.
pub fn upload_field_step(next: Option<Option<String>>) -> (r: UploadFieldStep)
    ensures
        next is None ==> r is Stop,
        next matches Some(None) ==> r is Skip,
        next matches Some(Some(name)) ==> (r matches UploadFieldStep::Store(n) && n == name),
{
    match next {
        None => UploadFieldStep::Stop,
        Some(None) => UploadFieldStep::Skip,
        Some(Some(name)) => UploadFieldStep::Store(name),
    }
}

} // verus!
