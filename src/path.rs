//! Paths as text: joining `/`-separated segments onto a base path, and the two
//! questions about a path that std answers.

use vstd::prelude::*;
use vstd::string::*;

use crate::text::push_char;

verus! {

/// `buf` with one component (text without `/`) pushed onto it, as `PathBuf::push` does on
/// Unix: a separator goes first unless `buf` is empty or already ends in one.
pub open spec fn push_component(buf: Seq<char>, c: Seq<char>) -> Seq<char> {
    if buf.len() > 0 && buf.last() != '/' {
        buf.push('/') + c
    } else {
        buf + c
    }
}

/// Scanning `rel` from the left: the path built so far from `base` and the segments
/// of `rel` already closed by a `/`, and the segment still open.
pub open spec fn join_scan(base: Seq<char>, rel: Seq<char>) -> (Seq<char>, Seq<char>)
    decreases rel.len(),
{
    if rel.len() == 0 {
        (base, Seq::empty())
    } else {
        let (b, seg) = join_scan(base, rel.drop_last());
        if rel.last() == '/' {
            (push_component(b, seg), Seq::empty())
        } else {
            (b, seg.push(rel.last()))
        }
    }
}

/// `base` with each `/`-separated segment of `rel` pushed onto it in order, empty
/// segments included.
pub open spec fn join_segments_spec(base: Seq<char>, rel: Seq<char>) -> Seq<char> {
    push_component(join_scan(base, rel).0, join_scan(base, rel).1)
}

/// Pushes one component onto `buf`.
pub fn push_component_text(buf: &mut String, c: &str)
    ensures
        final(buf)@ == push_component(old(buf)@, c@),
{
    let n = buf.as_str().unicode_len();
    if n > 0 && buf.as_str().get_char(n - 1) != '/' {
        push_char(buf, '/');
    }
    buf.append(c);
}

/// Pushes each `/`-separated segment of `rel` onto `base`.
pub fn join_segments(base: &str, rel: &str) -> (r: String)
    ensures
        r@ == join_segments_spec(base@, rel@),
{
    let n = rel.unicode_len();
    let mut buf = base.to_owned();
    let mut seg = String::new();
    let mut i: usize = 0;
    while i < n
        invariant
            n == rel@.len(),
            i <= n,
            join_scan(base@, rel@.take(i as int)) == (buf@, seg@),
        decreases n - i,
    {
        let c = rel.get_char(i);
        assert(rel@.take(i as int + 1).drop_last() =~= rel@.take(i as int));
        if c == '/' {
            push_component_text(&mut buf, seg.as_str());
            seg = String::new();
        } else {
            push_char(&mut seg, c);
        }
        i = i + 1;
    }
    assert(rel@.take(n as int) =~= rel@);
    push_component_text(&mut buf, seg.as_str());
    buf
}

/// What std's `Path::parent` gives for the path with this text, as text.
pub uninterp spec fn parent_of(path: Seq<char>) -> Option<Seq<char>>;

/// Relies on std's `Path::parent`: the path without its final component; `None` for the
/// empty path and for a path that ends in the root, such as `/`. The parent of a path
/// made from a `str` is a prefix of it, so its text converts without loss.
#[verifier::external_body]
pub(crate) fn path_parent(path: &str) -> (r: Option<String>)
    ensures
        match r {
            Some(p) => parent_of(path@) == Some(p@),
            None => parent_of(path@) is None,
        },
        path@.len() == 0 ==> r is None,
        path@ == seq!['/'] ==> r is None,
{
    std::path::Path::new(path).parent().map(|p| p.to_string_lossy().into_owned())
}

/// Relies on std's `Path::exists`: whether the file system holds an entry at this path
/// now (following symbolic links). The answer depends on the disk, so nothing is stated.
#[verifier::external_body]
pub(crate) fn path_exists(path: &str) -> (r: bool) {
    std::path::Path::new(path).exists()
}

} // verus!
