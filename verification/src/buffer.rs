//! The document: a sequence of lines, the file it belongs to, and whether it
//! has changed since it was loaded or saved.
use crate::fileinfo::FileInfo;
use crate::line::{inserted_text, lemma_flatten_split, removed_text, Line};
use crate::location::Location;
use crate::unicode::{grapheme_clusters, push_char};
use vstd::prelude::*;
use vstd::string::*;

verus! {

/// The pieces of `s` between line feeds; there is always one more piece than
/// there are line feeds.
pub open spec fn segments(s: Seq<char>) -> Seq<Seq<char>>
    decreases s.len(),
{
    if s.len() == 0 {
        seq![Seq::<char>::empty()]
    } else {
        let rest = segments(s.drop_last());
        if s.last() == '\n' {
            rest.push(Seq::<char>::empty())
        } else {
            rest.update(rest.len() - 1, rest.last().push(s.last()))
        }
    }
}

/// A line ended by a line feed loses a carriage return before it.
pub open spec fn strip_cr(line: Seq<char>) -> Seq<char> {
    if line.len() > 0 && line.last() == '\r' {
        line.drop_last()
    } else {
        line
    }
}

/// The lines of a text, as `str::lines` reads them: the text is cut at each
/// line feed, a carriage return right before a line feed is dropped, and a
/// last line feed does not start a further, empty line.
pub open spec fn text_lines(s: Seq<char>) -> Seq<Seq<char>> {
    let segs = segments(s);
    let ended = segs.drop_last().map_values(|l: Seq<char>| strip_cr(l));
    if segs.last().len() == 0 {
        ended
    } else {
        ended.push(segs.last())
    }
}

/// The text of a sequence of lines, each followed by a line feed.
pub open spec fn joined_lines(lines: Seq<Seq<Seq<char>>>) -> Seq<char> {
    lines.map_values(|l: Seq<Seq<char>>| l.flatten().push('\n')).flatten()
}

/// The lines after `ch` is put at `at` (see `Buffer::insert`).
pub open spec fn buffer_after_insert(
    lines: Seq<Seq<Seq<char>>>,
    at: Location,
    ch: char,
) -> Seq<Seq<Seq<char>>> {
    if at.line_index < lines.len() {
        lines.update(
            at.line_index as int,
            grapheme_clusters(inserted_text(lines[at.line_index as int], at.grapheme_index as int, ch)),
        )
    } else if at.line_index == lines.len() {
        lines.push(grapheme_clusters(seq![ch]))
    } else {
        lines
    }
}

/// The lines after a line break is put at `at` (see `Buffer::insert_newline`).
pub open spec fn buffer_after_newline(lines: Seq<Seq<Seq<char>>>, at: Location) -> Seq<
    Seq<Seq<char>>,
> {
    if at.line_index == lines.len() {
        lines.push(Seq::empty())
    } else if at.line_index < lines.len() {
        let line = lines[at.line_index as int];
        if at.grapheme_index > line.len() {
            lines.insert(at.line_index + 1, Seq::empty())
        } else {
            lines.update(at.line_index as int, line.subrange(0, at.grapheme_index as int)).insert(
                at.line_index + 1,
                line.subrange(at.grapheme_index as int, line.len() as int),
            )
        }
    } else {
        lines
    }
}

/// The lines after a delete at `at` (see `Buffer::delete`).
pub open spec fn buffer_after_delete(lines: Seq<Seq<Seq<char>>>, at: Location) -> Seq<
    Seq<Seq<char>>,
> {
    let l = at.line_index as int;
    let g = at.grapheme_index as int;
    if g < lines[l].len() {
        lines.update(l, grapheme_clusters(removed_text(lines[l], g)))
    } else if g == lines[l].len() && l + 1 < lines.len() {
        lines.update(l, grapheme_clusters(lines[l].flatten() + lines[l + 1].flatten())).remove(
            l + 1,
        )
    } else {
        lines
    }
}

/// The text of each line.
pub open spec fn line_texts(lines: Seq<Seq<Seq<char>>>) -> Seq<Seq<char>> {
    lines.map_values(|l: Seq<Seq<char>>| l.flatten())
}

/// The text of each line after `ch` is put at `at` (see `Buffer::insert`).
pub open spec fn texts_after_insert(lines: Seq<Seq<Seq<char>>>, at: Location, ch: char) -> Seq<
    Seq<char>,
> {
    if at.line_index < lines.len() {
        line_texts(lines).update(
            at.line_index as int,
            inserted_text(lines[at.line_index as int], at.grapheme_index as int, ch),
        )
    } else if at.line_index == lines.len() {
        line_texts(lines).push(seq![ch])
    } else {
        line_texts(lines)
    }
}

/// The text of each line after a delete at `at` (see `Buffer::delete`).
pub open spec fn texts_after_delete(lines: Seq<Seq<Seq<char>>>, at: Location) -> Seq<Seq<char>> {
    let l = at.line_index as int;
    let g = at.grapheme_index as int;
    if g < lines[l].len() {
        line_texts(lines).update(l, removed_text(lines[l], g))
    } else if g == lines[l].len() && l + 1 < lines.len() {
        line_texts(lines).update(l, lines[l].flatten() + lines[l + 1].flatten()).remove(l + 1)
    } else {
        line_texts(lines)
    }
}

/// Breaking a line at a place on it and then deleting at the same place
/// gives back the text of every line.
pub proof fn law_newline_then_delete_restores_text(lines: Seq<Seq<Seq<char>>>, at: Location)
    requires
        at.line_index < lines.len(),
        at.grapheme_index <= lines[at.line_index as int].len(),
    ensures
        texts_after_delete(buffer_after_newline(lines, at), at) == line_texts(lines),
{
    let l = at.line_index as int;
    let g = at.grapheme_index as int;
    let line = lines[l];
    let broken = buffer_after_newline(lines, at);
    assert(broken[l] == line.subrange(0, g));
    assert(broken[l + 1] == line.subrange(g, line.len() as int));
    crate::line::lemma_flatten_split(line, g);
    assert(texts_after_delete(broken, at) =~= line_texts(lines));
}

/// Putting a character on a line and then deleting at the same place gives
/// back the text of every line, whenever the character stays a grapheme of
/// its own between the graphemes around it (a combining mark, for one, joins
/// the grapheme before it, and the delete then removes the grapheme after
/// it).
pub proof fn law_insert_then_delete_restores_text(
    lines: Seq<Seq<Seq<char>>>,
    at: Location,
    ch: char,
)
    requires
        at.line_index < lines.len(),
        at.grapheme_index <= lines[at.line_index as int].len(),
        grapheme_clusters(inserted_text(lines[at.line_index as int], at.grapheme_index as int, ch))
            == lines[at.line_index as int].subrange(0, at.grapheme_index as int).push(seq![ch])
            + lines[at.line_index as int].subrange(
            at.grapheme_index as int,
            lines[at.line_index as int].len() as int,
        ),
    ensures
        texts_after_delete(buffer_after_insert(lines, at, ch), at) == line_texts(lines),
{
    let l = at.line_index as int;
    let g = at.grapheme_index as int;
    let line = lines[l];
    let front = line.subrange(0, g);
    let back = line.subrange(g, line.len() as int);
    let new_line = front.push(seq![ch]) + back;
    let edited = buffer_after_insert(lines, at, ch);
    assert(edited[l] == new_line);
    assert(new_line.subrange(0, g) =~= front);
    assert(new_line.subrange(g + 1, new_line.len() as int) =~= back);
    lemma_flatten_split(line, g);
    assert(texts_after_delete(edited, at) =~= line_texts(lines));
}

/// Deleting at a grapheme of a line removes that whole grapheme cluster and
/// nothing else: the line's old text is its new text with all the characters
/// of the cluster put back where it stood, and every other line keeps its
/// text and place.
pub proof fn law_delete_removes_whole_grapheme(lines: Seq<Seq<Seq<char>>>, at: Location)
    requires
        at.line_index < lines.len(),
        at.grapheme_index < lines[at.line_index as int].len(),
    ensures
        texts_after_delete(lines, at).len() == lines.len(),
        ({
            let l = at.line_index as int;
            let g = at.grapheme_index as int;
            let t = texts_after_delete(lines, at)[l];
            let p = lines[l].subrange(0, g).flatten().len() as int;
            &&& t.len() + lines[l][g].len() == lines[l].flatten().len()
            &&& lines[l].flatten() == t.subrange(0, p) + lines[l][g] + t.subrange(p, t.len() as int)
        }),
        forall|i: int|
            0 <= i < lines.len() && i != at.line_index ==> #[trigger] texts_after_delete(lines, at)[i]
                == lines[i].flatten(),
{
    let l = at.line_index as int;
    let g = at.grapheme_index as int;
    let line = lines[l];
    let front = line.subrange(0, g);
    let rest = line.subrange(g, line.len() as int);
    let back = line.subrange(g + 1, line.len() as int);
    lemma_flatten_split(line, g);
    assert(rest =~= seq![line[g]] + back);
    vstd::seq_lib::lemma_flatten_concat(seq![line[g]], back);
    assert(seq![line[g]].flatten() =~= line[g]) by {
        assert(seq![line[g]] =~= Seq::<Seq<char>>::empty().push(line[g]));
        Seq::<Seq<char>>::empty().lemma_flatten_push(line[g]);
        assert(Seq::<Seq<char>>::empty().flatten() =~= Seq::<char>::empty());
    }
    let t = texts_after_delete(lines, at)[l];
    assert(t == front.flatten() + back.flatten());
    let p = front.flatten().len() as int;
    assert(t.subrange(0, p) =~= front.flatten());
    assert(t.subrange(p, t.len() as int) =~= back.flatten());
    assert(line.flatten() =~= t.subrange(0, p) + line[g] + t.subrange(p, t.len() as int));
}

/// Deleting at the end of a line that has a next line joins the two: the
/// line's text becomes its text followed by the next line's, the next line
/// goes, and every other line keeps its text.
pub proof fn law_delete_at_line_end_joins_lines(lines: Seq<Seq<Seq<char>>>, at: Location)
    requires
        at.line_index + 1 < lines.len(),
        at.grapheme_index == lines[at.line_index as int].len(),
    ensures
        texts_after_delete(lines, at).len() + 1 == lines.len(),
        texts_after_delete(lines, at)[at.line_index as int] == lines[at.line_index as int].flatten()
            + lines[at.line_index + 1].flatten(),
        forall|i: int|
            0 <= i < at.line_index ==> #[trigger] texts_after_delete(lines, at)[i]
                == lines[i].flatten(),
        forall|i: int|
            at.line_index < i < texts_after_delete(lines, at).len() ==> #[trigger] texts_after_delete(
                lines,
                at,
            )[i] == lines[i + 1].flatten(),
{
}

/// Typing a character on a line puts exactly that character into the
/// line's text, before the grapheme at the caret (at the end past the last
/// one); every other line keeps its text.
pub proof fn law_insert_puts_character(lines: Seq<Seq<Seq<char>>>, at: Location, ch: char)
    requires
        at.line_index < lines.len(),
        at.grapheme_index <= lines[at.line_index as int].len(),
    ensures
        texts_after_insert(lines, at, ch).len() == lines.len(),
        texts_after_insert(lines, at, ch)[at.line_index as int] == lines[at.line_index as int].subrange(
            0,
            at.grapheme_index as int,
        ).flatten() + seq![ch] + lines[at.line_index as int].subrange(
            at.grapheme_index as int,
            lines[at.line_index as int].len() as int,
        ).flatten(),
        forall|i: int|
            0 <= i < lines.len() && i != at.line_index ==> #[trigger] texts_after_insert(lines, at, ch)[i]
                == lines[i].flatten(),
{
    let l = at.line_index as int;
    let g = at.grapheme_index as int;
    assert(texts_after_insert(lines, at, ch)[l] =~= lines[l].subrange(0, g).flatten() + seq![ch]
        + lines[l].subrange(g, lines[l].len() as int).flatten());
}

/// A text without carriage returns is its segments put back together, each
/// but the last followed by a line feed; no segment holds a carriage return.
proof fn lemma_segments_rejoin(s: Seq<char>)
    requires
        forall|k: int| 0 <= k < s.len() ==> s[k] != '\r',
    ensures
        segments(s).len() >= 1,
        segments(s).drop_last().map_values(|l: Seq<char>| l.push('\n')).flatten() + segments(
            s,
        ).last() == s,
        forall|i: int, k: int|
            0 <= i < segments(s).len() && 0 <= k < segments(s)[i].len() ==> segments(s)[i][k]
                != '\r',
    decreases s.len(),
{
    if s.len() == 0 {
        assert(segments(s).drop_last().map_values(|l: Seq<char>| l.push('\n')) =~= Seq::<
            Seq<char>,
        >::empty());
        assert(s =~= Seq::<char>::empty());
    } else {
        let t = s.drop_last();
        let c = s.last();
        lemma_segments_rejoin(t);
        let st = segments(t);
        let a = st.drop_last().map_values(|l: Seq<char>| l.push('\n'));
        assert(t.push(c) =~= s);
        if c == '\n' {
            let ss = segments(s);
            assert(ss == st.push(Seq::<char>::empty()));
            assert(ss.drop_last() =~= st);
            assert(st.map_values(|l: Seq<char>| l.push('\n')) =~= a.push(st.last().push('\n')));
            a.lemma_flatten_push(st.last().push('\n'));
            assert(a.flatten() + st.last().push('\n') =~= (a.flatten() + st.last()).push('\n'));
            assert(ss.drop_last().map_values(|l: Seq<char>| l.push('\n')).flatten() + ss.last()
                =~= s);
            assert forall|i: int, k: int|
                0 <= i < ss.len() && 0 <= k < ss[i].len() implies ss[i][k] != '\r' by {
                if i < st.len() {
                    assert(ss[i] == st[i]);
                }
            }
        } else {
            let ss = segments(s);
            assert(ss == st.update(st.len() - 1, st.last().push(c)));
            assert(ss.drop_last() =~= st.drop_last());
            assert(a.flatten() + st.last().push(c) =~= (a.flatten() + st.last()).push(c));
            assert forall|i: int, k: int|
                0 <= i < ss.len() && 0 <= k < ss[i].len() implies ss[i][k] != '\r' by {
                if i < st.len() - 1 {
                    assert(ss[i] == st[i]);
                } else {
                    assert(ss[i] == st.last().push(c));
                    if k < st.last().len() {
                        assert(ss[i][k] == st[st.len() - 1][k]);
                    } else {
                        assert(k == st.last().len());
                        assert(ss[i][k] == c);
                        assert(c == s[s.len() - 1]);
                    }
                }
            }
        }
    }
}

/// Writing out the lines read from a text gives the text back, when the text
/// holds no carriage return and is empty or ends with a line feed.
pub proof fn law_contents_of_loaded_text(s: Seq<char>, lines: Seq<Seq<Seq<char>>>)
    requires
        line_texts(lines) == text_lines(s),
        forall|k: int| 0 <= k < s.len() ==> s[k] != '\r',
        s.len() == 0 || s.last() == '\n',
    ensures
        joined_lines(lines) == s,
{
    lemma_segments_rejoin(s);
    let segs = segments(s);
    if s.len() > 0 {
        assert(segs == segments(s.drop_last()).push(Seq::<char>::empty()));
    }
    assert(segs.last().len() == 0);
    assert forall|i: int| 0 <= i < segs.len() - 1 implies strip_cr(#[trigger] segs[i]) == segs[i] by {
        if segs[i].len() > 0 {
            assert(segs[i][segs[i].len() - 1] != '\r');
        }
    }
    assert(text_lines(s) =~= segs.drop_last());
    assert(line_texts(lines).len() == lines.len());
    assert(lines.map_values(|l: Seq<Seq<char>>| l.flatten().push('\n')) =~= segs.drop_last().map_values(
        |l: Seq<char>| l.push('\n'),
    )) by {
        assert forall|i: int| 0 <= i < lines.len() implies lines[i].flatten() == segs[i] by {
            assert(line_texts(lines)[i] == lines[i].flatten());
        }
    }
    assert(segs.drop_last().map_values(|l: Seq<char>| l.push('\n')).flatten() + segs.last()
        == s);
    assert(segs.last() =~= Seq::<char>::empty());
    assert(segs.drop_last().map_values(|l: Seq<char>| l.push('\n')).flatten() + Seq::<char>::empty()
        =~= segs.drop_last().map_values(|l: Seq<char>| l.push('\n')).flatten());
}

/// Appending text without line feeds lengthens the last segment.
proof fn lemma_segments_append(a: Seq<char>, b: Seq<char>)
    requires
        forall|k: int| 0 <= k < b.len() ==> b[k] != '\n',
    ensures
        segments(a + b) == segments(a).update(
            segments(a).len() - 1,
            segments(a).last() + b,
        ),
    decreases b.len(),
{
    lemma_segments_nonempty(a);
    if b.len() == 0 {
        assert(a + b =~= a);
        assert(segments(a).last() + b =~= segments(a).last());
        assert(segments(a).update(segments(a).len() - 1, segments(a).last()) =~= segments(a));
    } else {
        let b0 = b.drop_last();
        let c = b.last();
        lemma_segments_append(a, b0);
        assert((a + b).drop_last() =~= a + b0);
        assert((a + b).last() == c);
        assert(c != '\n') by {
            assert(b[b.len() - 1] == c);
        }
        let r = segments(a + b0);
        assert(segments(a + b) == r.update(r.len() - 1, r.last().push(c)));
        let sa = segments(a);
        assert(r.len() == sa.len());
        assert(r.last() == sa.last() + b0);
        assert((sa.last() + b0).push(c) =~= sa.last() + b);
        assert(segments(a + b) =~= segments(a).update(
            segments(a).len() - 1,
            segments(a).last() + b,
        ));
    }
}

/// The segments of written lines are their texts, and an empty one after
/// the last line feed.
proof fn lemma_segments_of_joined(lines: Seq<Seq<Seq<char>>>)
    requires
        forall|i: int, k: int|
            0 <= i < lines.len() && 0 <= k < lines[i].flatten().len() ==> #[trigger] lines[i].flatten()[k]
                != '\n',
    ensures
        segments(joined_lines(lines)) == line_texts(lines).push(Seq::<char>::empty()),
    decreases lines.len(),
{
    if lines.len() == 0 {
        assert(lines.map_values(|l: Seq<Seq<char>>| l.flatten().push('\n')) =~= Seq::<
            Seq<char>,
        >::empty());
        assert(joined_lines(lines) =~= Seq::<char>::empty());
        assert(line_texts(lines).push(Seq::<char>::empty()) =~= seq![Seq::<char>::empty()]);
    } else {
        let ls = lines.drop_last();
        let t = lines.last().flatten();
        assert forall|i: int, k: int|
            0 <= i < ls.len() && 0 <= k < ls[i].flatten().len() implies #[trigger] ls[i].flatten()[k]
                != '\n' by {
            assert(ls[i] == lines[i]);
        }
        lemma_segments_of_joined(ls);
        let m = ls.map_values(|l: Seq<Seq<char>>| l.flatten().push('\n'));
        assert(lines.map_values(|l: Seq<Seq<char>>| l.flatten().push('\n')) =~= m.push(
            t.push('\n'),
        ));
        m.lemma_flatten_push(t.push('\n'));
        let j = joined_lines(ls);
        assert(joined_lines(lines) =~= (j + t).push('\n'));
        assert forall|k: int| 0 <= k < t.len() implies t[k] != '\n' by {
            assert(lines[lines.len() - 1] == lines.last());
        }
        lemma_segments_append(j, t);
        assert(((j + t).push('\n')).drop_last() =~= j + t);
        assert(segments((j + t).push('\n')) == segments(j + t).push(Seq::<char>::empty()));
        assert(line_texts(lines) =~= line_texts(ls).push(t));
        assert(segments(joined_lines(lines)) =~= line_texts(lines).push(Seq::<char>::empty()));
    }
}

/// Reading back the text that lines are written as gives the same lines,
/// when no line holds a line feed or ends with a carriage return.
pub proof fn law_load_of_contents(lines: Seq<Seq<Seq<char>>>)
    requires
        forall|i: int, k: int|
            0 <= i < lines.len() && 0 <= k < lines[i].flatten().len() ==> #[trigger] lines[i].flatten()[k]
                != '\n',
        forall|i: int|
            0 <= i < lines.len() && #[trigger] lines[i].flatten().len() > 0 ==> lines[i].flatten().last()
                != '\r',
    ensures
        text_lines(joined_lines(lines)) == line_texts(lines),
{
    lemma_segments_of_joined(lines);
    let segs = segments(joined_lines(lines));
    assert(segs.drop_last() =~= line_texts(lines));
    assert forall|i: int| 0 <= i < lines.len() implies strip_cr(#[trigger] line_texts(lines)[i])
        == line_texts(lines)[i] by {
        assert(line_texts(lines)[i] == lines[i].flatten());
    }
    assert(text_lines(joined_lines(lines)) =~= line_texts(lines));
}

/// `segments` never yields an empty sequence.
proof fn lemma_segments_nonempty(s: Seq<char>)
    ensures
        segments(s).len() >= 1,
    decreases s.len(),
{
    if s.len() > 0 {
        lemma_segments_nonempty(s.drop_last());
    }
}

/// A line that may stand in a buffer whose width mode is `cjk`.
pub open spec fn line_fits(line: Line, cjk: bool) -> bool {
    line.wf() && line.cjk() == cjk
}

/// The document being edited.
pub struct Buffer {
    pub lines: Vec<Line>,
    pub file_info: FileInfo,
    pub dirty: bool,
    pub cjk_width: bool,
}

impl Buffer {
    /// The graphemes of each line.
    pub open spec fn model(&self) -> Seq<Seq<Seq<char>>> {
        self.lines@.map_values(|l: Line| l@)
    }

    /// Every line is well formed and counts columns in the buffer's width mode.
    pub open spec fn wf(&self) -> bool {
        forall|i: int| 0 <= i < self.lines@.len() ==> #[trigger] line_fits(self.lines@[i], self.cjk_width)
    }

    /// An empty document with no file.
    pub fn new(cjk_width: bool) -> (b: Buffer)
        ensures
            b.wf(),
            b.model() == Seq::<Seq<Seq<char>>>::empty(),
            b.file_info.path is None,
            !b.dirty,
            b.cjk_width == cjk_width,
    {
        let b = Buffer { lines: Vec::new(), file_info: FileInfo::none(), dirty: false, cjk_width };
        assert(b.model() =~= Seq::<Seq<Seq<char>>>::empty());
        b
    }

    /// The document with the lines of `contents`, each split into graphemes,
    /// belonging to `file_info`.
    pub fn load(contents: &str, file_info: FileInfo, cjk_width: bool) -> (b: Buffer)
        ensures
            b.wf(),
            b.model() == text_lines(contents@).map_values(|l: Seq<char>| grapheme_clusters(l)),
            line_texts(b.model()) == text_lines(contents@),
            b.file_info == file_info,
            !b.dirty,
            b.cjk_width == cjk_width,
    {
        let mut lines: Vec<Line> = Vec::new();
        let mut current = String::new();
        let ghost text = contents@;
        let n = contents.unicode_len();
        let mut i: usize = 0;
        proof {
            lemma_segments_nonempty(text.subrange(0, 0));
            assert(text.subrange(0, 0) =~= Seq::<char>::empty());
        }
        while i < n
            invariant
                n == text.len(),
                text == contents@,
                i <= n,
                segments(text.subrange(0, i as int)).len() >= 1,
                current@ == segments(text.subrange(0, i as int)).last(),
                lines@.len() == segments(text.subrange(0, i as int)).len() - 1,
                forall|j: int| 0 <= j < lines@.len() ==> (#[trigger] lines@[j]).wf(),
                forall|j: int| 0 <= j < lines@.len() ==> (#[trigger] lines@[j]).cjk() == cjk_width,
                forall|j: int|
                    0 <= j < lines@.len() ==> (#[trigger] lines@[j])@ == grapheme_clusters(
                        strip_cr(segments(text.subrange(0, i as int))[j]),
                    ),
                forall|j: int|
                    0 <= j < lines@.len() ==> (#[trigger] lines@[j]).text() == strip_cr(
                        segments(text.subrange(0, i as int))[j],
                    ),
            decreases n - i,
        {
            let c = contents.get_char(i);
            let ghost before = text.subrange(0, i as int);
            let ghost after = text.subrange(0, i + 1);
            assert(after.drop_last() =~= before);
            assert(after.last() == c);
            proof {
                lemma_segments_nonempty(after);
            }
            let ghost segs_before = segments(before);
            if c == '\n' {
                assert(segments(after) == segs_before.push(Seq::<char>::empty()));
                let line_text = Self::without_final_cr(&current);
                lines.push(Line::from_text(line_text.as_str(), cjk_width));
                current = String::new();
                assert(current@ =~= Seq::<char>::empty());
            } else {
                assert(segments(after) == segs_before.update(
                    segs_before.len() - 1,
                    segs_before.last().push(c),
                ));
                push_char(&mut current, c);
            }
            i = i + 1;
        }
        let ghost segs = segments(text.subrange(0, n as int));
        assert(text.subrange(0, n as int) =~= text);
        if current.unicode_len() > 0 {
            lines.push(Line::from_text(current.as_str(), cjk_width));
        }
        let b = Buffer { lines, file_info, dirty: false, cjk_width };
        assert(b.wf());
        assert(b.model() =~= text_lines(contents@).map_values(|l: Seq<char>| grapheme_clusters(l)));
        assert(line_texts(b.model()) =~= text_lines(contents@));
        b
    }

    /// `line` without a carriage return at its end.
    fn without_final_cr(line: &String) -> (s: String)
        ensures
            s@ == strip_cr(line@),
    {
        let n = line.unicode_len();
        if n > 0 && line.as_str().get_char(n - 1) == '\r' {
            String::from_str(line.as_str().substring_char(0, n - 1))
        } else {
            String::from_str(line.as_str())
        }
    }

    /// The text of the document as it is written to its file: every line
    /// followed by a line feed.
    pub fn contents(&self) -> (s: String)
        requires
            self.wf(),
        ensures
            s@ == joined_lines(self.model()),
    {
        let ghost m = self.model();
        let mut s = String::new();
        let mut i: usize = 0;
        assert(m.subrange(0, 0).map_values(|l: Seq<Seq<char>>| l.flatten().push('\n'))
            =~= Seq::<Seq<char>>::empty());
        while i < self.lines.len()
            invariant
                self.wf(),
                m == self.model(),
                i <= self.lines@.len(),
                s@ == joined_lines(m.subrange(0, i as int)),
            decreases self.lines@.len() - i,
        {
            assert(line_fits(self.lines@[i as int], self.cjk_width));
            let text = self.lines[i].to_string();
            let ghost before = m.subrange(0, i as int).map_values(
                |l: Seq<Seq<char>>| l.flatten().push('\n'),
            );
            assert(m.subrange(0, i + 1).map_values(|l: Seq<Seq<char>>| l.flatten().push('\n'))
                =~= before.push(m[i as int].flatten().push('\n')));
            proof {
                before.lemma_flatten_push(m[i as int].flatten().push('\n'));
            }
            s.append(text.as_str());
            push_char(&mut s, '\n');
            i = i + 1;
        }
        assert(m.subrange(0, self.lines@.len() as int) =~= m);
        s
    }

    /// Records that the document was written to its file.
    pub fn mark_saved(&mut self)
        ensures
            !final(self).dirty,
            final(self).lines == old(self).lines,
            final(self).file_info == old(self).file_info,
            final(self).cjk_width == old(self).cjk_width,
    {
        self.dirty = false;
    }

    /// Puts `ch` at `at`: into the line `at.line_index` before grapheme
    /// `at.grapheme_index`, or, when `at` is just past the last line, as a new
    /// last line.  Anywhere else nothing happens.
    pub fn insert(&mut self, at: Location, ch: char)
        requires
            old(self).wf(),
        ensures
            final(self).wf(),
            final(self).model() == buffer_after_insert(old(self).model(), at, ch),
            line_texts(final(self).model()) == texts_after_insert(old(self).model(), at, ch),
            final(self).dirty == (old(self).dirty || at.line_index <= old(self).model().len()),
            final(self).file_info == old(self).file_info,
            final(self).cjk_width == old(self).cjk_width,
    {
        let ghost m = self.model();
        let ghost old_lines = self.lines@;
        if at.line_index < self.lines.len() {
            assert(line_fits(self.lines@[at.line_index as int], self.cjk_width));
            self.lines[at.line_index].insert(at.grapheme_index, ch);
            self.dirty = true;
            assert forall|i: int| 0 <= i < self.lines@.len() implies #[trigger] line_fits(self.lines@[i], self.cjk_width) by {
                assert(line_fits(old_lines[i], self.cjk_width));
                if i != at.line_index {
                    assert(self.lines@[i] == old_lines[i]);
                }
            }
            assert(self.model() =~= buffer_after_insert(m, at, ch));
            assert(line_texts(self.model()) =~= texts_after_insert(m, at, ch));
        } else if at.line_index == self.lines.len() {
            let mut s = String::new();
            push_char(&mut s, ch);
            assert(s@ =~= inserted_text(Seq::<Seq<char>>::empty(), 0, ch));
            self.lines.push(Line::from_text(s.as_str(), self.cjk_width));
            self.dirty = true;
            assert forall|i: int| 0 <= i < self.lines@.len() implies #[trigger] line_fits(self.lines@[i], self.cjk_width) by {
                if i < old_lines.len() {
                    assert(line_fits(old_lines[i], self.cjk_width));
                    assert(self.lines@[i] == old_lines[i]);
                }
            }
            assert(self.model() =~= buffer_after_insert(m, at, ch));
            assert(line_texts(self.model()) =~= texts_after_insert(m, at, ch));
        }
        assert(self.wf());
    }

    /// Starts a new line at `at`: the line `at.line_index` keeps the graphemes
    /// before `at.grapheme_index` and the rest goes to a new line after it (an
    /// empty one when `at.grapheme_index` is past the end of the line).  Just
    /// past the last line, an empty line is added.  Anywhere else nothing
    /// happens.
    pub fn insert_newline(&mut self, at: Location)
        requires
            old(self).wf(),
        ensures
            final(self).wf(),
            final(self).model() == buffer_after_newline(old(self).model(), at),
            final(self).dirty == (old(self).dirty || at.line_index <= old(self).model().len()),
            final(self).file_info == old(self).file_info,
            final(self).cjk_width == old(self).cjk_width,
    {
        let ghost m = self.model();
        if at.line_index == self.lines.len() {
            let ghost old_lines = self.lines@;
            self.lines.push(Line::empty(self.cjk_width));
            self.dirty = true;
            assert forall|i: int| 0 <= i < self.lines@.len() implies #[trigger] line_fits(self.lines@[i], self.cjk_width) by {
                if i < old_lines.len() {
                    assert(line_fits(old_lines[i], self.cjk_width));
                    assert(self.lines@[i] == old_lines[i]);
                }
            }
            assert(self.model() =~= buffer_after_newline(m, at));
        } else if at.line_index < self.lines.len() {
            let ghost old_lines = self.lines@;
            let ghost line = m[at.line_index as int];
            assert(line_fits(self.lines@[at.line_index as int], self.cjk_width));
            let newline = self.lines[at.line_index].split_off(at.grapheme_index);
            proof {
                if at.grapheme_index as int > line.len() {
                    assert(newline@ =~= Seq::<Seq<char>>::empty());
                }
            }
            let ghost mid = self.lines@;
            assert forall|i: int| 0 <= i < mid.len() implies #[trigger] line_fits(mid[i], self.cjk_width) by {
                assert(line_fits(old_lines[i], self.cjk_width));
                if i != at.line_index {
                    assert(mid[i] == old_lines[i]);
                }
            }
            self.lines.insert(at.line_index + 1, newline);
            self.dirty = true;
            assert forall|i: int| 0 <= i < self.lines@.len() implies #[trigger] line_fits(self.lines@[i], self.cjk_width) by {
                if i < at.line_index + 1 {
                    assert(self.lines@[i] == mid[i]);
                } else if i > at.line_index + 1 {
                    assert(self.lines@[i] == mid[i - 1]);
                }
            }
            assert(self.model() =~= buffer_after_newline(m, at));
        }
        assert(self.wf());
    }

    /// Deletes at `at`, which must be on a line of the document: the grapheme
    /// `at.grapheme_index` if there is one; at the end of a line that has a
    /// next line, the line break, joining the two lines.  Anywhere else
    /// nothing happens.
    pub fn delete(&mut self, at: Location)
        requires
            old(self).wf(),
            at.line_index < old(self).model().len(),
        ensures
            final(self).wf(),
            final(self).model() == buffer_after_delete(old(self).model(), at),
            line_texts(final(self).model()) == texts_after_delete(old(self).model(), at),
            final(self).dirty == (old(self).dirty || at.grapheme_index < old(self).model()[at.line_index as int].len()
                || (at.grapheme_index == old(self).model()[at.line_index as int].len()
                    && at.line_index + 1 < old(self).model().len())),
            final(self).file_info == old(self).file_info,
            final(self).cjk_width == old(self).cjk_width,
    {
        let ghost m = self.model();
        let l = at.line_index;
        let g = at.grapheme_index;
        assert(line_fits(self.lines@[l as int], self.cjk_width));
        let len = self.lines[l].len();
        let ghost old_lines = self.lines@;
        if g < len {
            self.lines[l].remove(g);
            self.dirty = true;
            assert forall|i: int| 0 <= i < self.lines@.len() implies #[trigger] line_fits(self.lines@[i], self.cjk_width) by {
                assert(line_fits(old_lines[i], self.cjk_width));
                if i != l {
                    assert(self.lines@[i] == old_lines[i]);
                }
            }
            assert(self.model() =~= buffer_after_delete(m, at));
            assert(line_texts(self.model()) =~= texts_after_delete(m, at));
        } else if g == len && l < self.lines.len() - 1 {
            let next_line = self.lines.remove(l + 1);
            assert(next_line == old_lines[l + 1]);
            assert(line_fits(old_lines[l + 1], self.cjk_width));
            let ghost mid = self.lines@;
            self.lines[l].append(next_line);
            self.dirty = true;
            assert forall|i: int| 0 <= i < self.lines@.len() implies #[trigger] line_fits(self.lines@[i], self.cjk_width) by {
                assert(line_fits(old_lines[i], self.cjk_width));
                if i < l {
                    assert(self.lines@[i] == old_lines[i]);
                } else if i > l {
                    assert(line_fits(old_lines[i + 1], self.cjk_width));
                    assert(self.lines@[i] == mid[i]);
                    assert(mid[i] == old_lines[i + 1]);
                }
            }
            assert(self.model() =~= buffer_after_delete(m, at));
            assert(line_texts(self.model()) =~= texts_after_delete(m, at));
        }
        assert(self.wf());
    }

    /// The number of lines.
    pub fn len(&self) -> (n: usize)
        ensures
            n == self.model().len(),
    {
        self.lines.len()
    }

    /// Whether the document has no lines.
    pub fn is_empty(&self) -> (b: bool)
        ensures
            b == (self.model().len() == 0),
    {
        self.lines.len() == 0
    }
}

} // verus!
