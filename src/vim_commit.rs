//! One commit's record and the text written for it: the diary path, the skeleton of a
//! new diary file, and the table row.

use vstd::prelude::*;
use vstd::string::*;

use crate::datetime::{clock_text, format_utc, utc_formatted, within_common_era};
use crate::path::{join_segments, join_segments_spec, parent_of, path_exists, path_parent};
use crate::text::{
    lacks, lemma_split_pieces, lemma_trim_lacks, push_char, replace_char, replace_char_spec, split_spec,
    trim, trim_spec,
};

verus! {

/// Why a diary save could not go on.
#[derive(Debug)]
pub enum DiaryError {
    /// Nothing exists at the diary path.
    PathMissing,
    /// The diary path has no parent directory.
    NoParentDirectory,
    /// The commit time could not be rendered through a template.
    PathFormat,
    /// A file operation failed; the text names the operation and the path.
    Io { message: String },
}

impl DiaryError {
    /// The message shown to the user.
    pub fn to_string(&self) -> (r: String)
        ensures
            self is PathMissing ==> r@ == "Path does not exist!"@,
            self is NoParentDirectory ==> r@
                == "Something went wrong when getting the parent directory"@,
            self is PathFormat ==> r@ == "Could not render the commit time through the template"@,
            self is Io ==> r@ == self->message@,
    {
        match self {
            DiaryError::PathMissing => String::from_str("Path does not exist!"),
            DiaryError::NoParentDirectory => String::from_str(
                "Something went wrong when getting the parent directory",
            ),
            DiaryError::PathFormat => String::from_str(
                "Could not render the commit time through the template",
            ),
            DiaryError::Io { message } => message.clone(),
        }
    }
}

/// The snapshot of one commit.
#[derive(Debug)]
pub struct CommitSaver {
    /// URL of the remote named "origin", without quote characters.
    pub repository_url: String,
    /// Short name of the branch, without quote characters.
    pub commit_branch_name: String,
    /// Full hexadecimal object id.
    pub commit_hash: String,
    /// The message, made safe for one table cell.
    pub commit_msg: String,
    /// The commit time, in seconds since the Unix epoch (UTC).
    pub commit_datetime: i64,
}

/// Stands for the URL of a repository without an "origin" remote.
pub open spec fn no_url_set() -> Seq<char> {
    seq!['n', 'o', '_', 'u', 'r', 'l', '_', 's', 'e', 't']
}

/// Stands for the branch of a HEAD that names no branch.
pub open spec fn no_branch_set() -> Seq<char> {
    seq!['n', 'o', '_', 'b', 'r', 'a', 'n', 'c', 'h', '_', 's', 'e', 't']
}

/// The marker that joins the lines of a message inside one cell.
pub open spec fn line_break() -> Seq<char> {
    seq!['<', 'b', 'r', '/', '>']
}

/// What a `|` of a message becomes.
pub open spec fn escaped_pipe() -> Seq<char> {
    seq!['\\', '|']
}

/// One line of a message made safe for a cell: trimmed, with `|` escaped.
pub open spec fn clean_line(line: Seq<char>) -> Seq<char> {
    replace_char_spec(trim_spec(line), '|', escaped_pipe())
}

/// The non-empty lines of `lines`, in order, joined by the line-break marker.
pub open spec fn join_kept(lines: Seq<Seq<char>>) -> Seq<char>
    decreases lines.len(),
{
    if lines.len() == 0 {
        Seq::empty()
    } else {
        let prev = join_kept(lines.drop_last());
        let l = lines.last();
        if l.len() == 0 {
            prev
        } else if prev.len() == 0 {
            l
        } else {
            prev + line_break() + l
        }
    }
}

/// A raw commit message made safe for one table cell: split into lines, each trimmed and
/// with `|` escaped, empty lines dropped, the rest joined by the line-break marker.
pub open spec fn sanitized_message(raw: Seq<char>) -> Seq<char> {
    join_kept(split_spec(raw, '\n').map_values(|l: Seq<char>| clean_line(l)))
}

/// Every `|` of `s` follows a backslash.
pub open spec fn pipes_escaped(s: Seq<char>) -> bool {
    forall|i: int| 0 <= i < s.len() && #[trigger] s[i] == '|' ==> i > 0 && s[i - 1] == '\\'
}

/// Appends a cleaned line to the joined text so far.
fn push_kept(out: &mut String, line: &str)
    ensures
        final(out)@ == (if line@.len() == 0 {
            old(out)@
        } else if old(out)@.len() == 0 {
            line@
        } else {
            old(out)@ + line_break() + line@
        }),
{
    let n = line.unicode_len();
    if n > 0 {
        let m = out.as_str().unicode_len();
        if m > 0 {
            let sep = "<br/>";
            proof {
                reveal_strlit("<br/>");
            }
            assert(sep@ =~= line_break());
            out.append(sep);
        }
        out.append(line);
    }
}

/// Cleans one line of a message.
fn clean(line: &str) -> (r: String)
    ensures
        r@ == clean_line(line@),
{
    let t = trim(line);
    let esc = "\\|";
    proof {
        reveal_strlit("\\|");
    }
    assert(esc@ =~= escaped_pipe());
    replace_char(t.as_str(), '|', esc)
}

/// Makes a raw commit message safe for one table cell.
pub fn sanitize_commit_message(raw: &str) -> (r: String)
    ensures
        r@ == sanitized_message(raw@),
{
    let n = raw.unicode_len();
    let mut out = String::new();
    let mut cur = String::new();
    let ghost mut done: Seq<Seq<char>> = Seq::empty();
    let mut i: usize = 0;
    while i < n
        invariant
            n == raw@.len(),
            i <= n,
            split_spec(raw@.take(i as int), '\n') == done.push(cur@),
            out@ == join_kept(done.map_values(|l: Seq<char>| clean_line(l))),
        decreases n - i,
    {
        let c = raw.get_char(i);
        assert(raw@.take(i as int + 1).drop_last() =~= raw@.take(i as int));
        if c == '\n' {
            let t = clean(cur.as_str());
            push_kept(&mut out, t.as_str());
            proof {
                let f = |l: Seq<char>| clean_line(l);
                assert(done.push(cur@).map_values(f).drop_last() =~= done.map_values(f));
                done = done.push(cur@);
            }
            cur = String::new();
        } else {
            push_char(&mut cur, c);
            proof {
                assert(done.push(cur@) =~= split_spec(raw@.take(i as int), '\n').update(
                    done.len() as int,
                    split_spec(raw@.take(i as int), '\n').last().push(c),
                ));
            }
        }
        i = i + 1;
    }
    assert(raw@.take(n as int) =~= raw@);
    let t = clean(cur.as_str());
    push_kept(&mut out, t.as_str());
    proof {
        let f = |l: Seq<char>| clean_line(l);
        assert(done.push(cur@).map_values(f).drop_last() =~= done.map_values(f));
    }
    out
}


/// Escaping `|` leaves every `|` after a backslash and adds no newline.
proof fn lemma_escape_props(t: Seq<char>)
    requires
        lacks(t, '\n'),
    ensures
        lacks(replace_char_spec(t, '|', escaped_pipe()), '\n'),
        pipes_escaped(replace_char_spec(t, '|', escaped_pipe())),
    decreases t.len(),
{
    if t.len() > 0 {
        lemma_escape_props(t.drop_last());
        let prev = replace_char_spec(t.drop_last(), '|', escaped_pipe());
        if t.last() == '|' {
            lemma_concat_props(prev, escaped_pipe());
        } else {
            lemma_concat_props(prev, seq![t.last()]);
            assert(prev.push(t.last()) =~= prev + seq![t.last()]);
        }
    }
}

/// Both properties of a cell survive concatenation.
proof fn lemma_concat_props(a: Seq<char>, b: Seq<char>)
    ensures
        lacks(a, '\n') && lacks(b, '\n') ==> lacks(a + b, '\n'),
        pipes_escaped(a) && pipes_escaped(b) ==> pipes_escaped(a + b),
{
    if pipes_escaped(a) && pipes_escaped(b) {
        assert forall|i: int| 0 <= i < (a + b).len() && #[trigger] (a + b)[i] == '|' implies i > 0
            && (a + b)[i - 1] == '\\' by {
            if i >= a.len() {
                assert(b[i - a.len()] == '|');
            } else {
                assert(a[i] == '|');
            }
        }
    }
    if lacks(a, '\n') && lacks(b, '\n') {
        assert forall|i: int| 0 <= i < (a + b).len() implies (a + b)[i] != '\n' by {
            if i >= a.len() {
                assert(b[i - a.len()] != '\n');
            }
        }
    }
}

/// Joining cleaned lines keeps both properties.
proof fn lemma_join_props(lines: Seq<Seq<char>>)
    requires
        forall|k: int|
            0 <= k < lines.len() ==> lacks(#[trigger] lines[k], '\n') && pipes_escaped(lines[k]),
    ensures
        lacks(join_kept(lines), '\n'),
        pipes_escaped(join_kept(lines)),
    decreases lines.len(),
{
    if lines.len() > 0 {
        let prev = lines.drop_last();
        assert forall|k: int| 0 <= k < prev.len() implies lacks(#[trigger] prev[k], '\n')
            && pipes_escaped(prev[k]) by {
            assert(prev[k] == lines[k]);
        }
        lemma_join_props(prev);
        let l = lines.last();
        assert(lacks(l, '\n') && pipes_escaped(l)) by {
            assert(l == lines[lines.len() - 1]);
        }
        lemma_concat_props(join_kept(prev), line_break());
        lemma_concat_props(join_kept(prev) + line_break(), l);
    }
}

/// A sanitised message fits one table cell: it holds no newline, and every `|` in it is
/// escaped by a backslash.
pub proof fn lemma_sanitized_message_is_one_cell(raw: Seq<char>)
    ensures
        lacks(sanitized_message(raw), '\n'),
        pipes_escaped(sanitized_message(raw)),
{
    let pieces = split_spec(raw, '\n');
    lemma_split_pieces(raw, '\n');
    let cleaned = pieces.map_values(|l: Seq<char>| clean_line(l));
    assert forall|k: int| 0 <= k < cleaned.len() implies lacks(#[trigger] cleaned[k], '\n')
        && pipes_escaped(cleaned[k]) by {
        lemma_trim_lacks(pieces[k], '\n');
        lemma_escape_props(trim_spec(pieces[k]));
    }
    lemma_join_props(cleaned);
}

/// `s` without its quote characters.
pub open spec fn unquoted(s: Seq<char>) -> Seq<char> {
    replace_char_spec(s, '"', Seq::empty())
}

impl CommitSaver {
    /// Builds the record of a commit from what the repository gives: the URL of the
    /// "origin" remote, if there is one; the short name of the branch of HEAD, if it names
    /// one; the object id; the raw message; and the commit time.
    pub fn new(
        remote_url: Option<String>,
        branch: Option<String>,
        commit_hash: String,
        raw_message: &str,
        commit_datetime: i64,
    ) -> (r: CommitSaver)
        ensures
            r.repository_url@ == (match remote_url {
                Some(u) => unquoted(u@),
                None => no_url_set(),
            }),
            r.commit_branch_name@ == (match branch {
                Some(b) => unquoted(b@),
                None => no_branch_set(),
            }),
            r.commit_hash@ == commit_hash@,
            r.commit_msg@ == sanitized_message(raw_message@),
            r.commit_datetime == commit_datetime,
    {
        let repository_url = match remote_url {
            Some(u) => replace_char(u.as_str(), '"', ""),
            None => {
                let s = String::from_str("no_url_set");
                proof {
                    reveal_strlit("no_url_set");
                }
                assert(s@ =~= no_url_set());
                s
            },
        };
        let commit_branch_name = match branch {
            Some(b) => replace_char(b.as_str(), '"', ""),
            None => {
                let s = String::from_str("no_branch_set");
                proof {
                    reveal_strlit("no_branch_set");
                }
                assert(s@ =~= no_branch_set());
                s
            },
        };
        proof {
            reveal_strlit("");
        }
        assert(""@ =~= Seq::<char>::empty());
        CommitSaver {
            repository_url,
            commit_branch_name,
            commit_hash,
            commit_msg: sanitize_commit_message(raw_message),
            commit_datetime,
        }
    }
}


/// The start of a row: `"| "`.
pub open spec fn row_open() -> Seq<char> {
    seq!['|', ' ']
}

/// Between two cells of a row: `" | "`.
pub open spec fn row_sep() -> Seq<char> {
    seq![' ', '|', ' ']
}

/// The end of a row: `" |"` and a newline.
pub open spec fn row_close() -> Seq<char> {
    seq![' ', '|', '\n']
}

/// The Markdown table row of one commit, its cells in the order of the table header.
pub open spec fn row_spec(
    dir: Seq<char>,
    time: Seq<char>,
    msg: Seq<char>,
    url: Seq<char>,
    branch: Seq<char>,
    hash: Seq<char>,
) -> Seq<char> {
    row_open() + dir + row_sep() + time + row_sep() + msg + row_sep() + url + row_sep() + branch
        + row_sep() + hash + row_close()
}

/// The number of `|` in `s` that do not follow a backslash.
pub open spec fn bare_pipes(s: Seq<char>) -> nat
    decreases s.len(),
{
    if s.len() == 0 {
        0
    } else {
        bare_pipes(s.drop_last()) + if s.last() == '|' && (s.len() == 1 || s[s.len() - 2]
            != '\\') {
            1nat
        } else {
            0nat
        }
    }
}

proof fn lemma_bare_pipes_escaped(s: Seq<char>)
    requires
        pipes_escaped(s),
    ensures
        bare_pipes(s) == 0,
    decreases s.len(),
{
    if s.len() > 0 {
        let p = s.drop_last();
        assert forall|i: int| 0 <= i < p.len() && #[trigger] p[i] == '|' implies i > 0 && p[i - 1]
            == '\\' by {
            assert(s[i] == '|');
        }
        lemma_bare_pipes_escaped(p);
        if s.last() == '|' {
            assert(s[s.len() - 1] == '|');
        }
    }
}

proof fn lemma_bare_pipes_concat(a: Seq<char>, b: Seq<char>)
    requires
        b.len() == 0 || b[0] != '|',
    ensures
        bare_pipes(a + b) == bare_pipes(a) + bare_pipes(b),
    decreases b.len(),
{
    if b.len() == 0 {
        assert(a + b =~= a);
    } else {
        lemma_bare_pipes_concat(a, b.drop_last());
        assert((a + b).drop_last() =~= a + b.drop_last());
        if b.len() >= 2 {
            assert((a + b)[(a + b).len() - 2] == b[b.len() - 2]);
        }
    }
}

/// Appending a piece that does not start with `|` adds its bare pipes and keeps newlines out.
proof fn lemma_cell(c: Seq<char>)
    requires
        pipes_escaped(c),
    ensures
        bare_pipes(c) == 0,
        c.len() == 0 || c[0] != '|',
{
    lemma_bare_pipes_escaped(c);
    if c.len() > 0 && c[0] == '|' {
        assert(c[0] == '|');
    }
}

/// Whatever its cells hold, provided each escapes its `|`, a row has exactly six cells:
/// seven `|` that no backslash escapes.
pub proof fn lemma_row_bare_pipes(
    dir: Seq<char>,
    time: Seq<char>,
    msg: Seq<char>,
    url: Seq<char>,
    branch: Seq<char>,
    hash: Seq<char>,
)
    requires
        pipes_escaped(dir),
        pipes_escaped(time),
        pipes_escaped(msg),
        pipes_escaped(url),
        pipes_escaped(branch),
        pipes_escaped(hash),
    ensures
        bare_pipes(row_spec(dir, time, msg, url, branch, hash)) == 7,
{
    lemma_cell(dir);
    lemma_cell(time);
    lemma_cell(msg);
    lemma_cell(url);
    lemma_cell(branch);
    lemma_cell(hash);
    assert(bare_pipes(row_open()) == 1) by {
        reveal_with_fuel(bare_pipes, 3);
    }
    assert(bare_pipes(row_sep()) == 1) by {
        reveal_with_fuel(bare_pipes, 4);
    }
    assert(bare_pipes(row_close()) == 1) by {
        reveal_with_fuel(bare_pipes, 4);
    }
    let x0 = row_open();
    let x1 = x0 + dir;
    let x2 = x1 + row_sep();
    let x3 = x2 + time;
    let x4 = x3 + row_sep();
    let x5 = x4 + msg;
    let x6 = x5 + row_sep();
    let x7 = x6 + url;
    let x8 = x7 + row_sep();
    let x9 = x8 + branch;
    let x10 = x9 + row_sep();
    let x11 = x10 + hash;
    lemma_bare_pipes_concat(x0, dir);
    lemma_bare_pipes_concat(x1, row_sep());
    lemma_bare_pipes_concat(x2, time);
    lemma_bare_pipes_concat(x3, row_sep());
    lemma_bare_pipes_concat(x4, msg);
    lemma_bare_pipes_concat(x5, row_sep());
    lemma_bare_pipes_concat(x6, url);
    lemma_bare_pipes_concat(x7, row_sep());
    lemma_bare_pipes_concat(x8, branch);
    lemma_bare_pipes_concat(x9, row_sep());
    lemma_bare_pipes_concat(x10, hash);
    lemma_bare_pipes_concat(x11, row_close());
}

/// Whatever its cells hold, provided none holds a newline, a row is one line ended by a
/// newline.
pub proof fn lemma_row_one_line(
    dir: Seq<char>,
    time: Seq<char>,
    msg: Seq<char>,
    url: Seq<char>,
    branch: Seq<char>,
    hash: Seq<char>,
)
    requires
        lacks(dir, '\n'),
        lacks(time, '\n'),
        lacks(msg, '\n'),
        lacks(url, '\n'),
        lacks(branch, '\n'),
        lacks(hash, '\n'),
    ensures
        row_spec(dir, time, msg, url, branch, hash).last() == '\n',
        lacks(row_spec(dir, time, msg, url, branch, hash).drop_last(), '\n'),
{
    let x0 = row_open();
    let x1 = x0 + dir;
    let x2 = x1 + row_sep();
    let x3 = x2 + time;
    let x4 = x3 + row_sep();
    let x5 = x4 + msg;
    let x6 = x5 + row_sep();
    let x7 = x6 + url;
    let x8 = x7 + row_sep();
    let x9 = x8 + branch;
    let x10 = x9 + row_sep();
    let x11 = x10 + hash;
    let close_body = seq![' ', '|'];
    assert(lacks(x0, '\n'));
    assert(lacks(row_sep(), '\n'));
    assert(lacks(close_body, '\n'));
    lemma_concat_props(x0, dir);
    lemma_concat_props(x1, row_sep());
    lemma_concat_props(x2, time);
    lemma_concat_props(x3, row_sep());
    lemma_concat_props(x4, msg);
    lemma_concat_props(x5, row_sep());
    lemma_concat_props(x6, url);
    lemma_concat_props(x7, row_sep());
    lemma_concat_props(x8, branch);
    lemma_concat_props(x9, row_sep());
    lemma_concat_props(x10, hash);
    lemma_concat_props(x11, close_body);
    assert((x11 + row_close()).drop_last() =~= x11 + close_body);
}

/// A time of day as `%H:%M:%S` renders it fits a cell.
proof fn lemma_clock_text_cell(t: Seq<char>)
    requires
        clock_text(t),
    ensures
        pipes_escaped(t),
        lacks(t, '\n'),
{
    assert forall|i: int| 0 <= i < t.len() implies t[i] != '|' && t[i] != '\n' by {
        if i != 2 && i != 5 {
            assert('0' <= t[i] && t[i] <= '9');
        }
    }
}

impl CommitSaver {
    /// The table row of this commit, given the working directory and the time of day.
    pub fn format_row(&self, working_directory: &str, time_of_day: &str) -> (r: String)
        ensures
            r@ == row_spec(
                working_directory@,
                time_of_day@,
                self.commit_msg@,
                self.repository_url@,
                self.commit_branch_name@,
                self.commit_hash@,
            ),
    {
        let open = "| ";
        let sep = " | ";
        let close = " |\n";
        proof {
            reveal_strlit("| ");
            reveal_strlit(" | ");
            reveal_strlit(" |\n");
        }
        assert(open@ =~= row_open());
        assert(sep@ =~= row_sep());
        assert(close@ =~= row_close());
        let mut r = String::from_str(open);
        r.append(working_directory);
        r.append(sep);
        r.append(time_of_day);
        r.append(sep);
        r.append(self.commit_msg.as_str());
        r.append(sep);
        r.append(self.repository_url.as_str());
        r.append(sep);
        r.append(self.commit_branch_name.as_str());
        r.append(sep);
        r.append(self.commit_hash.as_str());
        r.append(close);
        r
    }

    /// The table row of this commit written from `path`, its time of day rendered as
    /// `HH:MM:SS`; `None` when the commit time cannot be rendered, which no commit of the
    /// years 1 to 9999 meets. With cells that escape their `|`, the row has six cells; with
    /// cells free of newlines, it is one line.
    pub fn prepare_commit_entry_as_string(&self, path: &str) -> (r: Option<String>)
        ensures
            match utc_formatted(self.commit_datetime, "%H:%M:%S"@) {
                Some(t) => r is Some && r->Some_0@ == row_spec(
                    path@,
                    t,
                    self.commit_msg@,
                    self.repository_url@,
                    self.commit_branch_name@,
                    self.commit_hash@,
                ),
                None => r is None,
            },
            within_common_era(self.commit_datetime) ==> r is Some,
            r is Some && pipes_escaped(path@) && pipes_escaped(self.commit_msg@) && pipes_escaped(
                self.repository_url@,
            ) && pipes_escaped(self.commit_branch_name@) && pipes_escaped(self.commit_hash@)
                ==> bare_pipes(r->Some_0@) == 7,
            r is Some && lacks(path@, '\n') && lacks(self.commit_msg@, '\n') && lacks(
                self.repository_url@,
                '\n',
            ) && lacks(self.commit_branch_name@, '\n') && lacks(self.commit_hash@, '\n') ==> {
                &&& r->Some_0@.last() == '\n'
                &&& lacks(r->Some_0@.drop_last(), '\n')
            },
    {
        match format_utc(self.commit_datetime, "%H:%M:%S") {
            Some(t) => {
                proof {
                    lemma_clock_text_cell(t@);
                    if pipes_escaped(path@) && pipes_escaped(self.commit_msg@) && pipes_escaped(
                        self.repository_url@,
                    ) && pipes_escaped(self.commit_branch_name@) && pipes_escaped(
                        self.commit_hash@,
                    ) {
                        lemma_row_bare_pipes(
                            path@,
                            t@,
                            self.commit_msg@,
                            self.repository_url@,
                            self.commit_branch_name@,
                            self.commit_hash@,
                        );
                    }
                    if lacks(path@, '\n') && lacks(self.commit_msg@, '\n') && lacks(
                        self.repository_url@,
                        '\n',
                    ) && lacks(self.commit_branch_name@, '\n') && lacks(self.commit_hash@, '\n') {
                        lemma_row_one_line(
                            path@,
                            t@,
                            self.commit_msg@,
                            self.repository_url@,
                            self.commit_branch_name@,
                            self.commit_hash@,
                        );
                    }
                }
                Some(self.format_row(path, t.as_str()))
            },
            None => None,
        }
    }
}


/// The three frontmatter tags of a diary: its ISO week number, its weekday, its category.
pub open spec fn tags_spec(week: Seq<char>, weekday: Seq<char>) -> Seq<Seq<char>> {
    seq!["#datetime/week/"@ + week, "#datetime/days/"@ + weekday, "#diary/commits"@]
}

/// The texts held by a vector of strings.
pub open spec fn texts(v: Seq<String>) -> Seq<Seq<char>> {
    v.map_values(|t: String| t@)
}

/// The frontmatter tags for a week number and a weekday name.
pub fn frontmatter_tags(week: &str, weekday: &str) -> (r: Vec<String>)
    ensures
        texts(r@) == tags_spec(week@, weekday@),
{
    let mut week_tag = String::from_str("#datetime/week/");
    week_tag.append(week);
    let mut day_tag = String::from_str("#datetime/days/");
    day_tag.append(weekday);
    let category = String::from_str("#diary/commits");
    let mut r: Vec<String> = Vec::new();
    r.push(week_tag);
    r.push(day_tag);
    r.push(category);
    assert(texts(r@) =~= tags_spec(week@, weekday@));
    r
}

/// The frontmatter list items of `tags`, one line each.
pub open spec fn tag_lines(tags: Seq<Seq<char>>) -> Seq<char>
    decreases tags.len(),
{
    if tags.len() == 0 {
        Seq::empty()
    } else {
        tag_lines(tags.drop_last()) + "- '"@ + tags.last() + "'\n"@
    }
}

/// The text of a new diary file: frontmatter with the category, the section, the tags and
/// the date; a heading with the date; the header and separator rows of the commit table.
pub open spec fn skeleton_spec(tags: Seq<Seq<char>>, date: Seq<char>) -> Seq<char> {
    "---\ncategory: diary\n\nsection: commits\n\ntags:\n"@ + tag_lines(tags) + "date: "@ + date
        + "\n\n---\n\n\n# "@ + date + "\n\n| FOLDER | TIME | COMMIT MESSAGE | REPOSITORY URL | BRANCH | COMMIT HASH |\n|--------|------|----------------|----------------|--------|-------------|\n"@
}

/// Renders the text of a new diary file from its tags and its date.
pub fn render_diary(tags: &Vec<String>, date: &str) -> (r: String)
    ensures
        r@ == skeleton_spec(texts(tags@), date@),
{
    let mut r = String::from_str("---\ncategory: diary\n\nsection: commits\n\ntags:\n");
    let n = tags.len();
    let mut i: usize = 0;
    while i < n
        invariant
            n == tags@.len(),
            i <= n,
            r@ == "---\ncategory: diary\n\nsection: commits\n\ntags:\n"@ + tag_lines(
                texts(tags@).take(i as int),
            ),
        decreases n - i,
    {
        assert(texts(tags@).take(i as int + 1).drop_last() =~= texts(tags@).take(i as int));
        r.append("- '");
        r.append(tags[i].as_str());
        r.append("'\n");
        i = i + 1;
    }
    assert(texts(tags@).take(n as int) =~= texts(tags@));
    r.append("date: ");
    r.append(date);
    r.append("\n\n---\n\n\n# ");
    r.append(date);
    r.append(
        "\n\n| FOLDER | TIME | COMMIT MESSAGE | REPOSITORY URL | BRANCH | COMMIT HASH |\n|--------|------|----------------|----------------|--------|-------------|\n",
    );
    r
}

/// The relative path of a diary entry: the commit directory, then the rendered template.
pub open spec fn entry_path_spec(commit_path: Seq<char>, formatted: Seq<char>) -> Seq<char> {
    commit_path + seq!['/'] + formatted
}

/// The full path of a diary file: the vault root with each segment of the entry path
/// pushed onto it.
pub open spec fn diary_path_spec(
    root: Seq<char>,
    commit_path: Seq<char>,
    formatted: Seq<char>,
) -> Seq<char> {
    join_segments_spec(root, entry_path_spec(commit_path, formatted))
}

/// The relative path of a diary entry.
pub fn entry_path(commit_path: &str, formatted: &str) -> (r: String)
    ensures
        r@ == entry_path_spec(commit_path@, formatted@),
{
    let mut r = String::from_str(commit_path);
    push_char(&mut r, '/');
    r.append(formatted);
    r
}

/// The full path of a diary file under `root`.
pub fn diary_path(root: &str, commit_path: &str, formatted: &str) -> (r: String)
    ensures
        r@ == diary_path_spec(root@, commit_path@, formatted@),
{
    let rel = entry_path(commit_path, formatted);
    join_segments(root, rel.as_str())
}

/// What a computation of the diary path gives: the path, or the failure to render the
/// commit time through the template.
pub open spec fn diary_path_result(
    root: Seq<char>,
    commit_path: Seq<char>,
    template: Seq<char>,
    secs: i64,
) -> Option<Seq<char>> {
    match utc_formatted(secs, template) {
        Some(f) => Some(diary_path_spec(root, commit_path, f)),
        None => None,
    }
}

impl CommitSaver {
    /// The frontmatter tags of this commit's diary: ISO week number and English weekday
    /// name of the commit time; `None` when the commit time cannot be rendered.
    pub fn prepare_frontmatter_tags(&self) -> (r: Option<Vec<String>>)
        ensures
            match (
                utc_formatted(self.commit_datetime, "%V"@),
                utc_formatted(self.commit_datetime, "%A"@),
            ) {
                (Some(w), Some(d)) => r is Some && texts(r->Some_0@) == tags_spec(w, d),
                _ => r is None,
            },
            within_common_era(self.commit_datetime) ==> r is Some,
    {
        let week = format_utc(self.commit_datetime, "%V");
        let day = format_utc(self.commit_datetime, "%A");
        match (week, day) {
            (Some(w), Some(d)) => Some(frontmatter_tags(w.as_str(), d.as_str())),
            _ => None,
        }
    }

    /// The text of a new diary file for this commit; `None` when the commit time cannot
    /// be rendered.
    pub fn render_new_diary(&self) -> (r: Option<String>)
        ensures
            match (
                utc_formatted(self.commit_datetime, "%V"@),
                utc_formatted(self.commit_datetime, "%A"@),
                utc_formatted(self.commit_datetime, "%Y-%m-%d"@),
            ) {
                (Some(w), Some(d), Some(date)) => r is Some && r->Some_0@ == skeleton_spec(
                    tags_spec(w, d),
                    date,
                ),
                _ => r is None,
            },
            within_common_era(self.commit_datetime) ==> r is Some,
    {
        let tags = self.prepare_frontmatter_tags();
        let date = format_utc(self.commit_datetime, "%Y-%m-%d");
        match (tags, date) {
            (Some(t), Some(d)) => Some(render_diary(&t, d.as_str())),
            _ => None,
        }
    }

    /// The diary entry path relative to the vault root: the commit directory, then the
    /// commit time rendered through the template; `None` when it cannot be rendered.
    pub fn prepare_path_for_commit(
        &self,
        obsidian_commit_path: &str,
        template_commit_date_path: &str,
    ) -> (r: Option<String>)
        ensures
            match utc_formatted(self.commit_datetime, template_commit_date_path@) {
                Some(f) => r is Some && r->Some_0@ == entry_path_spec(obsidian_commit_path@, f),
                None => r is None,
            },
    {
        match format_utc(self.commit_datetime, template_commit_date_path) {
            Some(f) => Some(entry_path(obsidian_commit_path, f.as_str())),
            None => None,
        }
    }

    /// The full path of this commit's diary file.
    pub fn compute_diary_path(
        &self,
        vault_root: &str,
        commit_subpath: &str,
        date_template: &str,
    ) -> (r: Result<String, DiaryError>)
        ensures
            match diary_path_result(vault_root@, commit_subpath@, date_template@, self.commit_datetime) {
                Some(p) => r is Ok && r->Ok_0@ == p,
                None => r is Err && r->Err_0 is PathFormat,
            },
    {
        match format_utc(self.commit_datetime, date_template) {
            Some(f) => Ok(diary_path(vault_root, commit_subpath, f.as_str())),
            None => Err(DiaryError::PathFormat),
        }
    }
}

/// For fixed inputs the diary path is one value: two computations of it, in one process
/// or in two, agree.
pub proof fn lemma_path_determinism(
    vault_root: Seq<char>,
    commit_subpath: Seq<char>,
    date_template: Seq<char>,
    secs: i64,
    first: Option<Seq<char>>,
    second: Option<Seq<char>>,
)
    requires
        first == diary_path_result(vault_root, commit_subpath, date_template, secs),
        second == diary_path_result(vault_root, commit_subpath, date_template, secs),
    ensures
        first == second,
{
}

/// The parent directory of a diary path.
pub fn get_parent_from_full_path(full_diary_path: &str) -> (r: Result<String, DiaryError>)
    ensures
        match parent_of(full_diary_path@) {
            Some(p) => r is Ok && r->Ok_0@ == p,
            None => r is Err && r->Err_0 is NoParentDirectory,
        },
        full_diary_path@ == seq!['/'] ==> r is Err,
{
    match path_parent(full_diary_path) {
        Some(p) => Ok(p),
        None => Err(DiaryError::NoParentDirectory),
    }
}

/// The outcome of looking for the diary file, given whether it exists.
pub fn existence_result(exists: bool) -> (r: Result<(), DiaryError>)
    ensures
        exists ==> r is Ok,
        !exists ==> r is Err && r->Err_0 is PathMissing,
{
    if exists {
        Ok(())
    } else {
        Err(DiaryError::PathMissing)
    }
}

/// Looks on the file system for the diary file.
pub fn check_diary_path_exists(full_diary_path: &str) -> (r: Result<(), DiaryError>)
    ensures
        r is Err ==> r->Err_0 is PathMissing,
{
    existence_result(path_exists(full_diary_path))
}

} // verus!
