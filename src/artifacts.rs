//! Artifact records: which changed files qualify, and how a qualifying file
//! becomes a transportable record.

use crate::protocol::StreamEvent;
use base64::Engine;
use vstd::prelude::*;

verus! {

/// A file detected under the watched root, as a point-in-time snapshot.
pub struct Artifact {
    /// Path relative to the watched root.
    pub path: String,
    /// MIME type inferred from the path.
    pub mime: String,
    /// The whole content, base64-encoded.
    pub data_base64: String,
}

/// Largest file, in bytes, sent inline (10 MiB); larger ones are dropped.
pub const MAX_INLINE_SIZE: u64 = 10 * 1024 * 1024;

/// The kind of a raw filesystem change notification.
pub enum ChangeKind {
    Created,
    Modified,
    Other,
}

/// The base64 text (standard alphabet, padded) of some bytes.
pub uninterp spec fn base64_of(b: Seq<u8>) -> Seq<char>;

/// The MIME type that mime_guess infers from a path's extension
/// (`application/octet-stream` when it knows none).
pub uninterp spec fn mime_of(path: Seq<char>) -> Seq<char>;

/// Relies on `base64::engine::general_purpose::STANDARD.encode`: the padded
/// standard encoding, four characters for every three bytes or part of them.
#[verifier::external_body]
fn encode_base64(b: &[u8]) -> (r: String)
    ensures
        r@ == base64_of(b@),
        r@.len() == 4 * ((b@.len() + 2) / 3),
{
    base64::engine::general_purpose::STANDARD.encode(b)
}

/// Relies on `base64::engine::general_purpose::STANDARD.decode`: it inverts
/// the standard encoding, so text that `encode` wrote decodes to its bytes.
#[verifier::external_body]
fn decode_base64(s: &str) -> (r: Option<Vec<u8>>)
    ensures
        forall|b: Seq<u8>| s@ == #[trigger] base64_of(b) ==> (r is Some && r->0@ == b),
{
    base64::engine::general_purpose::STANDARD.decode(s).ok()
}

/// Relies on `mime_guess::from_path(..).first_or_octet_stream()`: the MIME
/// type guessed from the path's extension, written as text.
#[verifier::external_body]
fn guess_mime(path: &str) -> (r: String)
    ensures
        r@ == mime_of(path@),
{
    mime_guess::from_path(path).first_or_octet_stream().to_string()
}

/// The final segment of a path: what follows its last `/`.
pub open spec fn last_segment(p: Seq<char>) -> Seq<char>
    decreases p.len(),
{
    if p.len() == 0 {
        p
    } else if p.last() == '/' {
        Seq::empty()
    } else {
        last_segment(p.drop_last()).push(p.last())
    }
}

/// The path names a hidden entry: its final segment starts with `.`.
pub open spec fn hidden(p: Seq<char>) -> bool {
    last_segment(p).len() > 0 && last_segment(p)[0] == '.'
}

/// A notification of this kind may announce new content.
pub open spec fn announces_content(kind: ChangeKind) -> bool {
    kind is Created || kind is Modified
}

/// A changed entry becomes an artifact: a created or modified file that is
/// not hidden and not over the inline ceiling.
pub open spec fn admitted(kind: ChangeKind, is_dir: bool, path: Seq<char>, size: u64) -> bool {
    announces_content(kind) && !is_dir && !hidden(path) && size <= MAX_INLINE_SIZE
}

/// The root with one trailing `/` added when it has none.
pub open spec fn root_prefix(root: Seq<char>) -> Seq<char> {
    if root.len() > 0 && root.last() == '/' {
        root
    } else {
        root.push('/')
    }
}

/// A path relative to the watched root: what follows the root and its
/// separator; the empty path for the root itself; the path unchanged when it
/// lies outside the root.
pub open spec fn relative_to(path: Seq<char>, root: Seq<char>) -> Seq<char> {
    let prefix = root_prefix(root);
    if prefix.len() <= path.len() && path.subrange(0, prefix.len() as int) == prefix {
        path.subrange(prefix.len() as int, path.len() as int)
    } else if path == root {
        Seq::empty()
    } else {
        path
    }
}

/// The characters of a text.
fn chars_of(s: &str) -> (r: Vec<char>)
    ensures
        r@ == s@,
{
    let n = s.unicode_len();
    let mut v: Vec<char> = Vec::new();
    let mut i: usize = 0;
    while i < n
        invariant
            n == s@.len(),
            i <= n,
            v@ == s@.subrange(0, i as int),
        decreases n - i,
    {
        v.push(s.get_char(i));
        i = i + 1;
    }
    assert(s@.subrange(0, n as int) == s@);
    v
}

/// The final segment of a path, as it names the entry.
pub fn final_segment(path: &str) -> (r: String)
    ensures
        r@ == last_segment(path@),
{
    let cs = chars_of(path);
    let n = cs.len();
    let mut start: usize = n;
    assert(path@.subrange(0, n as int) == path@);
    assert(path@.subrange(n as int, n as int) == Seq::<char>::empty());
    while start > 0 && cs[start - 1] != '/'
        invariant
            start <= n,
            n == cs@.len(),
            cs@ == path@,
            last_segment(path@) == last_segment(path@.subrange(0, start as int)) + path@.subrange(
                start as int,
                n as int,
            ),
        decreases start,
    {
        let ghost p = path@.subrange(0, start as int);
        let ghost q = path@.subrange(0, start - 1);
        let ghost rest = path@.subrange(start as int, n as int);
        assert(p.drop_last() == q);
        assert(p.last() == cs@[start - 1]);
        assert(last_segment(p) == last_segment(q).push(p.last()));
        assert(path@.subrange(start - 1, n as int) == seq![p.last()] + rest);
        assert(last_segment(q).push(p.last()) + rest == last_segment(q) + (seq![p.last()] + rest));
        start = start - 1;
    }
    let ghost p = path@.subrange(0, start as int);
    assert(last_segment(p) == Seq::<char>::empty());
    assert(last_segment(path@) == path@.subrange(start as int, n as int));
    String::from_str(path.substring_char(start, n))
}

/// Whether a path names a hidden entry.
pub fn is_hidden(path: &str) -> (r: bool)
    ensures
        r == hidden(path@),
{
    let name = final_segment(path);
    let name_str = name.as_str();
    if name_str.unicode_len() == 0 {
        false
    } else {
        name_str.get_char(0) == '.'
    }
}

/// Whether a file of `size` bytes may be sent inline.
pub fn within_inline_limit(size: u64) -> (r: bool)
    ensures
        r == (size <= MAX_INLINE_SIZE),
{
    size <= MAX_INLINE_SIZE
}

/// Whether a notification of this kind may announce new content (a creation
/// or a modification); others are skipped before anything is read.
pub fn announces_new_content(kind: &ChangeKind) -> (r: bool)
    ensures
        r == announces_content(*kind),
{
    match kind {
        ChangeKind::Created => true,
        ChangeKind::Modified => true,
        ChangeKind::Other => false,
    }
}

/// Whether a raw change notification for `path` yields an artifact, given
/// whether the entry is a directory and its current size.
pub fn admits(kind: ChangeKind, is_dir: bool, path: &str, size: u64) -> (r: bool)
    ensures
        r == admitted(kind, is_dir, path@, size),
{
    announces_new_content(&kind) && !is_dir && !is_hidden(path) && within_inline_limit(size)
}

/// Whether `prefix` is a prefix of `text`.
fn starts_with_chars(text: &Vec<char>, prefix: &Vec<char>) -> (r: bool)
    ensures
        r == (prefix@.len() <= text@.len() && text@.subrange(0, prefix@.len() as int) == prefix@),
{
    if prefix.len() > text.len() {
        return false;
    }
    let mut i: usize = 0;
    while i < prefix.len()
        invariant
            prefix@.len() <= text@.len(),
            i <= prefix@.len(),
            text@.subrange(0, i as int) == prefix@.subrange(0, i as int),
        decreases prefix@.len() - i,
    {
        if text[i] != prefix[i] {
            assert(text@.subrange(0, prefix@.len() as int)[i as int] != prefix@[i as int]);
            return false;
        }
        assert(text@.subrange(0, i + 1) == text@.subrange(0, i as int).push(text@[i as int]));
        assert(prefix@.subrange(0, i + 1) == prefix@.subrange(0, i as int).push(prefix@[i as int]));
        i = i + 1;
    }
    assert(prefix@.subrange(0, prefix@.len() as int) == prefix@);
    true
}

/// The path of `path` relative to the watched `root`.
pub fn relative_path(path: &str, root: &str) -> (r: String)
    ensures
        r@ == relative_to(path@, root@),
{
    let text = chars_of(path);
    let mut prefix = chars_of(root);
    let n = prefix.len();
    if !(n > 0 && prefix[n - 1] == '/') {
        prefix.push('/');
    }
    assert(prefix@ == root_prefix(root@));
    if starts_with_chars(&text, &prefix) {
        String::from_str(path.substring_char(prefix.len(), text.len()))
    } else if text.len() == n && starts_with_chars(&text, &chars_of(root)) {
        assert(path@.subrange(0, n as int) == path@);
        String::new()
    } else {
        proof {
            if path@ == root@ {
                assert(path@.subrange(0, n as int) == path@);
            }
        }
        String::from_str(path)
    }
}

/// The artifact record of a file at `path` under `root` with `contents`.
pub fn build_artifact(path: &str, root: &str, contents: &[u8]) -> (a: Artifact)
    ensures
        a.path@ == relative_to(path@, root@),
        a.mime@ == mime_of(path@),
        a.data_base64@ == base64_of(contents@),
{
    Artifact {
        path: relative_path(path, root),
        mime: guess_mime(path),
        data_base64: encode_base64(contents),
    }
}

impl Artifact {
    /// The file content the record carries, decoded; `None` when the payload
    /// is not valid base64. A record built from some bytes gives them back.
    pub fn contents(&self) -> (r: Option<Vec<u8>>)
        ensures
            forall|b: Seq<u8>|
                self.data_base64@ == #[trigger] base64_of(b) ==> (r matches Some(v) && v@ == b),
    {
        decode_base64(self.data_base64.as_str())
    }

    /// The `artifact` notification that announces this record.
    pub fn into_event(self) -> (e: StreamEvent)
        ensures
            e == (StreamEvent::Artifact {
                path: self.path,
                mime: self.mime,
                data_base64: self.data_base64,
            }),
    {
        StreamEvent::Artifact { path: self.path, mime: self.mime, data_base64: self.data_base64 }
    }
}

/// A created or modified file under the root that is not hidden and fits the
/// inline ceiling is admitted, and its record names it relative to the root
/// and carries a payload that decodes back to the bytes read.
pub proof fn lemma_visible_small_file_admitted(
    kind: ChangeKind,
    path: Seq<char>,
    root: Seq<char>,
    rest: Seq<char>,
    size: u64,
)
    requires
        announces_content(kind),
        !hidden(path),
        size <= MAX_INLINE_SIZE,
        path == root_prefix(root) + rest,
    ensures
        admitted(kind, false, path, size),
        relative_to(path, root) == rest,
{
    assert(path.subrange(0, root_prefix(root).len() as int) == root_prefix(root));
    assert(path.subrange(root_prefix(root).len() as int, path.len() as int) == rest);
}

/// Hidden files and files over the inline ceiling never become artifacts.
pub proof fn lemma_hidden_or_large_never_admitted(
    kind: ChangeKind,
    is_dir: bool,
    path: Seq<char>,
    size: u64,
)
    requires
        hidden(path) || size > MAX_INLINE_SIZE,
    ensures
        !admitted(kind, is_dir, path, size),
{
}

} // verus!
