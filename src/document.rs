use crate::text::push_char;
use vstd::prelude::*;
use vstd::std_specs::iter::IteratorSpec;

verus! {

/// The character that separates two lines of a file.
pub const NEW_LINE_CHARACTER: char = '\n';

/// What a document holds, as mathematical values.
pub ghost struct DocumentModel {
    pub lines: Seq<Seq<char>>,
    pub path: Seq<char>,
    pub modified: bool,
}

/// True when no line of `lines` holds a newline character.
pub open spec fn no_line_breaks(lines: Seq<Seq<char>>) -> bool {
    forall|r: int, i: int|
        0 <= r < lines.len() && 0 <= i < lines[r].len() ==> #[trigger] lines[r][i] != '\n'
}

/// The pieces of `t` between its newline characters, in order: one more
/// than there are newlines.
pub open spec fn segments(t: Seq<char>) -> Seq<Seq<char>>
    decreases t.len(),
{
    if t.len() == 0 {
        seq![Seq::<char>::empty()]
    } else {
        let prev = segments(t.drop_last());
        if t.last() == '\n' {
            prev.push(Seq::<char>::empty())
        } else {
            prev.update(prev.len() - 1, prev.last().push(t.last()))
        }
    }
}

/// The lines of a file's text: one per newline-terminated record, the last
/// record terminated or not. An empty text has one empty line.
pub open spec fn lines_of(t: Seq<char>) -> Seq<Seq<char>> {
    if t.len() > 0 && t.last() == '\n' {
        segments(t).drop_last()
    } else {
        segments(t)
    }
}

/// The text a file holds for `lines`: the lines joined by newline
/// characters, the last one not terminated.
pub open spec fn text_of(lines: Seq<Seq<char>>) -> Seq<char>
    decreases lines.len(),
{
    if lines.len() == 0 {
        Seq::<char>::empty()
    } else if lines.len() == 1 {
        lines[0]
    } else {
        text_of(lines.drop_last()) + seq!['\n'] + lines.last()
    }
}

/// The lines after `c` is typed at column `col` of line `row`: a newline
/// splits the line there, any other character goes in at that column.
pub open spec fn inserted(lines: Seq<Seq<char>>, row: int, col: int, c: char) -> Seq<Seq<char>> {
    let line = lines[row];
    if c == '\n' {
        lines.update(row, line.take(col)).insert(row + 1, line.skip(col))
    } else {
        lines.update(row, line.take(col).push(c) + line.skip(col))
    }
}

/// The lines after the character at column `col` of line `row` is removed.
pub open spec fn removed(lines: Seq<Seq<char>>, row: int, col: int) -> Seq<Seq<char>> {
    lines.update(row, lines[row].remove(col))
}

/// The lines after line `row` is appended to the line before it.
pub open spec fn joined(lines: Seq<Seq<char>>, row: int) -> Seq<Seq<char>> {
    lines.update(row - 1, lines[row - 1] + lines[row]).remove(row)
}

proof fn lemma_segments_not_empty(t: Seq<char>)
    ensures
        segments(t).len() >= 1,
    decreases t.len(),
{
    if t.len() > 0 {
        lemma_segments_not_empty(t.drop_last());
    }
}

/// Text without newlines extends the last segment.
proof fn lemma_segments_extend(s: Seq<char>, b: Seq<char>)
    requires
        forall|i: int| 0 <= i < b.len() ==> b[i] != '\n',
    ensures
        segments(s + b) == segments(s).update(
            segments(s).len() - 1,
            segments(s).last() + b,
        ),
    decreases b.len(),
{
    lemma_segments_not_empty(s);
    if b.len() == 0 {
        assert(s + b =~= s);
        assert(segments(s).last() + b =~= segments(s).last());
        assert(segments(s).update(segments(s).len() - 1, segments(s).last()) =~= segments(s));
    } else {
        let b0 = b.drop_last();
        lemma_segments_extend(s, b0);
        assert((s + b).drop_last() =~= s + b0);
        assert((segments(s).last() + b0).push(b.last()) =~= segments(s).last() + b);
        assert(segments(s + b) =~= segments(s).update(
            segments(s).len() - 1,
            segments(s).last() + b,
        ));
    }
}

/// Splitting joined lines gives the lines back.
proof fn lemma_segments_of_text(lines: Seq<Seq<char>>)
    requires
        lines.len() >= 1,
        no_line_breaks(lines),
    ensures
        segments(text_of(lines)) == lines,
    decreases lines.len(),
{
    let last = lines.last();
    assert forall|i: int| 0 <= i < last.len() implies last[i] != '\n' by {
        assert(lines[lines.len() - 1][i] != '\n');
    }
    if lines.len() == 1 {
        let e = Seq::<char>::empty();
        lemma_segments_extend(e, lines[0]);
        assert(e + lines[0] =~= lines[0]);
        assert(e + last =~= last);
        assert(segments(text_of(lines)) =~= lines);
    } else {
        let init = lines.drop_last();
        let t0 = text_of(init);
        assert forall|r: int, i: int| 0 <= r < init.len() && 0 <= i < init[r].len() implies
            #[trigger] init[r][i] != '\n' by {
            assert(init[r] == lines[r]);
        }
        lemma_segments_of_text(init);
        let tn = t0 + seq!['\n'];
        assert(tn.drop_last() =~= t0);
        lemma_segments_extend(tn, last);
        assert(Seq::<char>::empty() + last =~= last);
        assert(segments(tn + last) =~= lines);
    }
}

/// Loading the text that a document saves gives back its lines, but for a
/// last empty line after other lines: the newline before it ends the file,
/// and a final newline adds no line.
pub proof fn lemma_save_load_round_trip(lines: Seq<Seq<char>>)
    requires
        lines.len() >= 1,
        no_line_breaks(lines),
    ensures
        lines_of(text_of(lines)) == (if lines.len() > 1 && lines.last().len() == 0 {
            lines.drop_last()
        } else {
            lines
        }),
{
    lemma_segments_of_text(lines);
    let t = text_of(lines);
    if lines.len() == 1 {
        if t.len() > 0 {
            assert(lines[0][t.len() - 1] != '\n');
        }
    } else {
        let tn = text_of(lines.drop_last()) + seq!['\n'];
        assert(t == tn + lines.last());
        if lines.last().len() == 0 {
            assert(t =~= tn);
        } else {
            let k = lines.last().len() - 1;
            assert(t.last() == lines.last()[k]);
            assert(lines[lines.len() - 1][k] != '\n');
        }
    }
}

/// The views of a vector of strings.
pub open spec fn views(v: Seq<String>) -> Seq<Seq<char>> {
    v.map_values(|s: String| s@)
}

/// Splits the text of a file into its lines.
fn split_lines(text: &str) -> (r: Vec<String>)
    ensures
        r@.len() >= 1,
        views(r@) == lines_of(text@),
        no_line_breaks(views(r@)),
{
    let mut rows: Vec<String> = Vec::new();
    let mut current = String::new();
    let mut it = text.chars();
    let ghost mut i: int = 0;
    let mut last_newline = false;
    loop
        invariant
            0 <= i <= text@.len(),
            it.remaining() == text@.skip(i),
            views(rows@).push(current@) == segments(text@.take(i)),
            last_newline == (i > 0 && text@[i - 1] == '\n'),
            last_newline ==> rows@.len() > 0 && current@.len() == 0,
            no_line_breaks(views(rows@).push(current@)),
        ensures
            i == text@.len(),
            views(rows@).push(current@) == segments(text@),
            last_newline == (i > 0 && text@[i - 1] == '\n'),
            last_newline ==> rows@.len() > 0 && current@.len() == 0,
            no_line_breaks(views(rows@).push(current@)),
        decreases text@.len() - i,
    {
        match it.next() {
            Some(c) => {
                assert(text@.take(i + 1).drop_last() == text@.take(i));
                if c == NEW_LINE_CHARACTER {
                    rows.push(current);
                    current = String::new();
                    last_newline = true;
                } else {
                    push_char(&mut current, c);
                    last_newline = false;
                }
                proof {
                    i = i + 1;
                }
                assert(views(rows@).push(current@) == segments(text@.take(i)));
            },
            None => {
                assert(text@.take(i) =~= text@);
                break;
            },
        }
    }
    if !last_newline {
        rows.push(current);
    }
    assert(views(rows@) == lines_of(text@));
    rows
}
/// The text buffer of the editor: at least one line, none of which holds a
/// newline character.
pub struct Document {
    rows: Vec<String>,
    file_path: String,
    is_modified: bool,
}

impl View for Document {
    type V = DocumentModel;

    closed spec fn view(&self) -> DocumentModel {
        DocumentModel {
            lines: views(self.rows@),
            path: self.file_path@,
            modified: self.is_modified,
        }
    }
}

impl Document {
    /// At least one line, and no line holds a newline character.
    pub open spec fn wf(&self) -> bool {
        &&& self@.lines.len() >= 1
        &&& no_line_breaks(self@.lines)
    }

    /// The path that the document was loaded from and is saved to.
    /// Builds a document from what the file at `file_path` holds: `None`
    /// when no file exists there.
    pub fn new(file_path: &str, contents: Option<&str>) -> (r: Document)
        ensures
            r@.path == file_path@,
            !r@.modified,
            r@.lines == (match contents {
                Some(t) => lines_of(t@),
                None => seq![Seq::<char>::empty()],
            }),
            (match contents {
                Some(t) => t@.len() == 0,
                None => true,
            }) ==> r@.lines == seq![Seq::<char>::empty()],
            r.wf(),
    {
        let rows = match contents {
            Some(text) => split_lines(text),
            None => {
                let mut rows: Vec<String> = Vec::new();
                rows.push(String::new());
                assert(views(rows@) == seq![Seq::<char>::empty()]);
                rows
            },
        };
        Document { rows, file_path: String::from_str(file_path), is_modified: false }
    }

    pub fn file_path(&self) -> (r: &String)
        ensures
            r@ == self@.path,
    {
        &self.file_path
    }

    pub fn is_modified(&self) -> (r: bool)
        ensures
            r == self@.modified,
    {
        self.is_modified
    }

    pub fn len(&self) -> (r: usize)
        requires
            self.wf(),
        ensures
            r == self@.lines.len(),
            r >= 1,
    {
        self.rows.len()
    }

    pub fn get_row(&self, row_num: usize) -> (r: &String)
        requires
            row_num < self@.lines.len(),
        ensures
            r@ == self@.lines[row_num as int],
    {
        &self.rows[row_num]
    }

    pub fn try_get_row(&self, row_num: usize) -> (r: Option<&String>)
        ensures
            row_num < self@.lines.len() ==> r is Some && r->0@ == self@.lines[row_num as int],
            row_num >= self@.lines.len() ==> r is None,
    {
        if row_num < self.rows.len() {
            Some(&self.rows[row_num])
        } else {
            None
        }
    }

    /// Types `c` at column `index` of row `row_num`; a newline splits the row.
    pub fn insert_char(&mut self, row_num: usize, index: usize, c: char)
        requires
            old(self).wf(),
            row_num < old(self)@.lines.len(),
            index <= old(self)@.lines[row_num as int].len(),
        ensures
            final(self)@.lines == inserted(old(self)@.lines, row_num as int, index as int, c),
            c == '\n' ==> {
                &&& final(self)@.lines.len() == old(self)@.lines.len() + 1
                &&& final(self)@.lines[row_num as int].len() == index
                &&& final(self)@.lines[row_num + 1].len() == old(self)@.lines[row_num as int].len()
                    - index
            },
            final(self)@.path == old(self)@.path,
            final(self)@.modified,
            final(self).wf(),
    {
        let ghost lines = self@.lines;
        let line = self.rows[row_num].as_str();
        let len = line.unicode_len();
        let mut head = String::from_str(line.substring_char(0, index));
        let tail = line.substring_char(index, len);
        assert(line@ == lines[row_num as int]);
        if c == NEW_LINE_CHARACTER {
            assert(row_num < self.rows.len());
            let rest = String::from_str(tail);
            self.rows.set(row_num, head);
            self.rows.insert(row_num + 1, rest);
            assert(views(self.rows@) =~= inserted(lines, row_num as int, index as int, c));
        } else {
            push_char(&mut head, c);
            head.append(tail);
            self.rows.set(row_num, head);
            assert(views(self.rows@) =~= inserted(lines, row_num as int, index as int, c));
        }
        self.is_modified = true;
        assert(no_line_breaks(views(self.rows@)));
    }

    /// Removes the character at column `index` of row `row_num`.
    pub fn remove_char(&mut self, row_num: usize, index: usize)
        requires
            old(self).wf(),
            row_num < old(self)@.lines.len(),
            index < old(self)@.lines[row_num as int].len(),
        ensures
            final(self)@.lines == removed(old(self)@.lines, row_num as int, index as int),
            final(self)@.path == old(self)@.path,
            final(self)@.modified,
            final(self).wf(),
    {
        let ghost lines = self@.lines;
        let line = self.rows[row_num].as_str();
        let len = line.unicode_len();
        let mut rest = String::from_str(line.substring_char(0, index));
        rest.append(line.substring_char(index + 1, len));
        assert(rest@ =~= lines[row_num as int].remove(index as int));
        self.rows.set(row_num, rest);
        assert(views(self.rows@) =~= removed(lines, row_num as int, index as int));
        self.is_modified = true;
        assert(no_line_breaks(views(self.rows@)));
    }

    /// Appends row `row_num` to the row before it and removes it.
    pub fn join_row_with_previous(&mut self, row_num: usize)
        requires
            old(self).wf(),
            1 <= row_num < old(self)@.lines.len(),
        ensures
            final(self)@.lines == joined(old(self)@.lines, row_num as int),
            final(self)@.lines.len() == old(self)@.lines.len() - 1,
            final(self)@.lines[row_num - 1] == old(self)@.lines[row_num - 1] + old(
                self,
            )@.lines[row_num as int],
            final(self)@.path == old(self)@.path,
            final(self)@.modified,
            final(self).wf(),
    {
        let ghost lines = self@.lines;
        let mut combined = self.rows[row_num - 1].clone();
        combined.append(self.rows[row_num].as_str());
        self.rows.set(row_num - 1, combined);
        self.rows.remove(row_num);
        assert(views(self.rows@) =~= joined(lines, row_num as int));
        self.is_modified = true;
        assert(no_line_breaks(views(self.rows@)));
    }

    /// The text that saving writes to the file: the rows joined by
    /// newlines, the last one not terminated.
    pub fn to_text(&self) -> (r: String)
        ensures
            r@ == text_of(self@.lines),
    {
        let ghost lines = self@.lines;
        let mut out = String::new();
        let n = self.rows.len();
        let mut i: usize = 0;
        while i < n
            invariant
                n == lines.len(),
                lines == views(self.rows@),
                i <= n,
                out@ == text_of(lines.take(i as int)),
            decreases n - i,
        {
            if i > 0 {
                push_char(&mut out, NEW_LINE_CHARACTER);
            }
            out.append(self.rows[i].as_str());
            assert(lines.take(i + 1).drop_last() =~= lines.take(i as int));
            i = i + 1;
        }
        assert(lines.take(n as int) =~= lines);
        out
    }

    /// Records that the document's text was written to its file.
    pub fn mark_saved(&mut self)
        requires
            old(self).wf(),
        ensures
            final(self)@.lines == old(self)@.lines,
            final(self)@.path == old(self)@.path,
            !final(self)@.modified,
            final(self).wf(),
    {
        self.is_modified = false;
    }
}

} // verus!
