//! A line of text, held as its sequence of grapheme clusters together with
//! the screen column at which each cluster ends.
use crate::unicode::{
    char_is_control, char_is_whitespace, display_width, display_width_cjk, grapheme_clusters,
    is_control_code, is_white_space, push_char, split_graphemes, str_width, str_width_cjk,
};
use vstd::prelude::*;
use vstd::string::*;

verus! {

/// The width of a grapheme as text, in the chosen width mode.
pub open spec fn text_width(g: Seq<char>, cjk: bool) -> usize {
    if cjk {
        display_width_cjk(g)
    } else {
        display_width(g)
    }
}

/// Every character of `g` is white space.
pub open spec fn all_white_space(g: Seq<char>) -> bool {
    forall|i: int| 0 <= i < g.len() ==> is_white_space(#[trigger] g[i])
}

/// Some character of `g` is a control code.
pub open spec fn has_control_code(g: Seq<char>) -> bool {
    exists|i: int| 0 <= i < g.len() && is_control_code(#[trigger] g[i])
}

/// The character drawn in place of a grapheme that cannot be drawn as it is:
/// a tab becomes a space, other blank graphemes with a width become an open
/// box, and graphemes of no width become a small box (control codes) or a
/// middle dot.  A single space, and every other grapheme, is drawn as itself.
pub open spec fn replacement_for(g: Seq<char>, cjk: bool) -> Option<char> {
    let width = text_width(g, cjk);
    if g == seq![' '] {
        None
    } else if g == seq!['\t'] {
        Some(' ')
    } else if width > 0 && all_white_space(g) {
        Some('\u{2423}')
    } else if width == 0 {
        if has_control_code(g) {
            Some('\u{25AF}')
        } else {
            Some('\u{B7}')
        }
    } else {
        None
    }
}

/// The number of columns a grapheme takes on screen.
pub open spec fn rendered_width(g: Seq<char>, cjk: bool) -> nat {
    match replacement_for(g, cjk) {
        Some(_) => 1,
        None => text_width(g, cjk) as nat,
    }
}

/// The total screen width of the first `n` graphemes of `gs`.
pub open spec fn width_sum(gs: Seq<Seq<char>>, cjk: bool, n: int) -> nat
    decreases n,
{
    if n <= 0 {
        0
    } else {
        width_sum(gs, cjk, n - 1) + rendered_width(gs[n - 1], cjk)
    }
}

/// The column at which the first `n` graphemes of `gs` end, held to the
/// largest `usize`.
pub open spec fn column(gs: Seq<Seq<char>>, cjk: bool, n: int) -> usize {
    if width_sum(gs, cjk, n) > usize::MAX {
        usize::MAX
    } else {
        width_sum(gs, cjk, n) as usize
    }
}

/// No grapheme of `gs` is empty.
pub open spec fn nonempty_graphemes(gs: Seq<Seq<char>>) -> bool {
    forall|i: int| 0 <= i < gs.len() ==> #[trigger] gs[i].len() > 0
}

/// Widening a prefix never moves its end column to the left.
pub proof fn lemma_column_monotonic(gs: Seq<Seq<char>>, cjk: bool, m: int, n: int)
    requires
        m <= n,
    ensures
        column(gs, cjk, m) <= column(gs, cjk, n),
    decreases n - m,
{
    if m < n {
        lemma_column_monotonic(gs, cjk, m, n - 1);
    }
}

/// The columns of a prefix do not depend on what follows it.
pub proof fn lemma_width_sum_prefix(gs: Seq<Seq<char>>, hs: Seq<Seq<char>>, cjk: bool, n: int)
    requires
        0 <= n <= gs.len(),
        n <= hs.len(),
        gs.subrange(0, n) == hs.subrange(0, n),
    ensures
        width_sum(gs, cjk, n) == width_sum(hs, cjk, n),
    decreases n,
{
    if n > 0 {
        assert(gs[n - 1] == gs.subrange(0, n)[n - 1]);
        assert(hs[n - 1] == hs.subrange(0, n)[n - 1]);
        assert(gs.subrange(0, n - 1) =~= gs.subrange(0, n).subrange(0, n - 1));
        assert(hs.subrange(0, n - 1) =~= hs.subrange(0, n).subrange(0, n - 1));
        lemma_width_sum_prefix(gs, hs, cjk, n - 1);
    }
}

/// The text of `gs` with `ch` put before grapheme `at` (after the last
/// grapheme if `at` is past the end).
pub open spec fn inserted_text(gs: Seq<Seq<char>>, at: int, ch: char) -> Seq<char> {
    let k = if at <= gs.len() {
        at
    } else {
        gs.len() as int
    };
    gs.subrange(0, k).flatten().push(ch) + gs.subrange(k, gs.len() as int).flatten()
}

/// The text of `gs` without grapheme `at`.
pub open spec fn removed_text(gs: Seq<Seq<char>>, at: int) -> Seq<char> {
    gs.subrange(0, at).flatten() + gs.subrange(at + 1, gs.len() as int).flatten()
}

/// Splitting a sequence of graphemes at `k` splits its text there.
pub proof fn lemma_flatten_split(gs: Seq<Seq<char>>, k: int)
    requires
        0 <= k <= gs.len(),
    ensures
        gs.flatten() == gs.subrange(0, k).flatten() + gs.subrange(k, gs.len() as int).flatten(),
{
    assert(gs =~= gs.subrange(0, k) + gs.subrange(k, gs.len() as int));
    vstd::seq_lib::lemma_flatten_concat(gs.subrange(0, k), gs.subrange(k, gs.len() as int));
}

/// Cutting a line before grapheme `at` and appending the part cut off gives
/// back the text of the line: the two parts `split_off` leaves are these
/// graphemes, and `append` joins their texts.
pub proof fn law_split_off_then_append_restores_text(line: Line, at: usize)
    requires
        at <= line@.len(),
    ensures
        line@.subrange(0, at as int).flatten() + line@.subrange(at as int, line@.len() as int).flatten()
            == line.text(),
{
    lemma_flatten_split(line@, at as int);
}

/// The first grapheme, from `i` on, that ends past column `end`; the number
/// of graphemes if there is none.
pub open spec fn first_overflowing(gs: Seq<Seq<char>>, cjk: bool, end: int, i: int) -> int
    decreases gs.len() - i,
{
    if i < 0 || i >= gs.len() {
        gs.len() as int
    } else if column(gs, cjk, i + 1) > end {
        i
    } else {
        first_overflowing(gs, cjk, end, i + 1)
    }
}

/// The first grapheme in `i..k` that starts at or after column `start`; `k`
/// if there is none.
pub open spec fn first_reaching(gs: Seq<Seq<char>>, cjk: bool, start: int, i: int, k: int) -> int
    decreases k - i,
{
    if i >= k {
        k
    } else if column(gs, cjk, i) >= start {
        i
    } else {
        first_reaching(gs, cjk, start, i + 1, k)
    }
}

/// What a line shows in the columns `start..end`: the graphemes that start at
/// or after `start`, among the leading graphemes that end by `end`, each as it
/// is drawn, with a mark on the left when a grapheme is cut by `start` and on
/// the right when one is cut by `end`.
pub open spec fn visible_text(gs: Seq<Seq<char>>, cjk: bool, start: usize, end: usize) -> Seq<char> {
    if start >= end {
        Seq::empty()
    } else {
        let k = first_overflowing(gs, cjk, end as int, 0);
        let f = first_reaching(gs, cjk, start as int, 0, k);
        let pad_left = exists|j: int|
            0 <= j <= k && j < gs.len() && #[trigger] column(gs, cjk, j) < start && column(
                gs,
                cjk,
                j + 1,
            ) > start;
        let pad_right = k < gs.len() && column(gs, cjk, k) < end;
        (if pad_left {
            seq!['\u{22EF}']
        } else {
            Seq::empty()
        }) + drawn_range(gs, cjk, f, k) + (if pad_right {
            seq!['\u{22EF}']
        } else {
            Seq::empty()
        })
    }
}

/// `first_reaching` is the first grapheme in `i..k` that starts at or after
/// `start`.
pub proof fn lemma_first_reaching(gs: Seq<Seq<char>>, cjk: bool, start: int, i: int, k: int)
    requires
        i <= k,
    ensures
        i <= first_reaching(gs, cjk, start, i, k) <= k,
        forall|j: int|
            i <= j < first_reaching(gs, cjk, start, i, k) ==> #[trigger] column(gs, cjk, j) < start,
        first_reaching(gs, cjk, start, i, k) < k ==> column(
            gs,
            cjk,
            first_reaching(gs, cjk, start, i, k),
        ) >= start,
    decreases k - i,
{
    if i < k && column(gs, cjk, i) < start {
        lemma_first_reaching(gs, cjk, start, i + 1, k);
    }
}

/// `first_overflowing` never passes the number of graphemes.
pub proof fn lemma_first_overflowing_bound(gs: Seq<Seq<char>>, cjk: bool, end: int, i: int)
    requires
        0 <= i,
    ensures
        0 <= first_overflowing(gs, cjk, end, i) <= gs.len(),
    decreases gs.len() - i,
{
    if i < gs.len() && column(gs, cjk, i + 1) <= end {
        lemma_first_overflowing_bound(gs, cjk, end, i + 1);
    }
}

/// How a grapheme is drawn: its replacement character, or itself.
pub open spec fn drawn(g: Seq<char>, cjk: bool) -> Seq<char> {
    match replacement_for(g, cjk) {
        Some(c) => seq![c],
        None => g,
    }
}

/// How the graphemes `from..to` of `gs` are drawn, one after the other.
pub open spec fn drawn_range(gs: Seq<Seq<char>>, cjk: bool, from: int, to: int) -> Seq<char> {
    if from < to {
        gs.subrange(from, to).map_values(|g: Seq<char>| drawn(g, cjk)).flatten()
    } else {
        Seq::empty()
    }
}

/// A line of text.
///
/// The line is the sequence of its grapheme clusters; `widths[i]` is the
/// screen column at which grapheme `i` ends.  Every line also carries the
/// width mode in which its columns are counted (`cjk`: East Asian widths).
pub struct Line {
    graphemes: Vec<String>,
    widths: Vec<usize>,
    cjk: bool,
}

impl View for Line {
    type V = Seq<Seq<char>>;

    closed spec fn view(&self) -> Seq<Seq<char>> {
        self.graphemes@.map_values(|g: String| g@)
    }
}

impl Line {
    /// Whether this line counts columns in East Asian widths.
    pub closed spec fn cjk(&self) -> bool {
        self.cjk
    }

    /// The characters of the line.
    pub open spec fn text(&self) -> Seq<char> {
        self@.flatten()
    }

    /// The column at which the first `n` graphemes of this line end.
    pub open spec fn col(&self, n: int) -> usize {
        column(self@, self.cjk(), n)
    }

    /// The line's internal invariant: no grapheme is empty and the stored
    /// columns are those of its graphemes.
    pub closed spec fn wf(&self) -> bool {
        &&& self.widths@.len() == self.graphemes@.len()
        &&& nonempty_graphemes(self@)
        &&& forall|i: int|
            0 <= i < self.widths@.len() ==> #[trigger] self.widths@[i] == column(
                self@,
                self.cjk,
                i + 1,
            )
    }

    /// A well-formed line has no empty grapheme.
    pub proof fn lemma_wf_nonempty(&self)
        requires
            self.wf(),
        ensures
            nonempty_graphemes(self@),
    {
    }

    /// A line has at most `usize::MAX` graphemes.
    pub proof fn lemma_len_fits(&self)
        ensures
            self@.len() <= usize::MAX,
    {
        assert(self.graphemes.len() == self.graphemes@.len());
    }

    /// The line made of the grapheme clusters of `text`.
    pub fn from_text(text: &str, cjk: bool) -> (line: Line)
        ensures
            line.wf(),
            line.cjk() == cjk,
            line@ == grapheme_clusters(text@),
            line.text() == text@,
    {
        let graphemes = split_graphemes(text);
        let widths = Self::cumulative_widths(&graphemes, cjk);
        Line { graphemes, widths, cjk }
    }

    /// An empty line.
    pub fn empty(cjk: bool) -> (line: Line)
        ensures
            line.wf(),
            line.cjk() == cjk,
            line@ == Seq::<Seq<char>>::empty(),
    {
        let line = Line { graphemes: Vec::new(), widths: Vec::new(), cjk };
        assert(line@ =~= Seq::<Seq<char>>::empty());
        line
    }

    /// The end column of every prefix of `graphemes`.
    fn cumulative_widths(graphemes: &Vec<String>, cjk: bool) -> (widths: Vec<usize>)
        ensures
            widths@.len() == graphemes@.len(),
            forall|i: int|
                0 <= i < widths@.len() ==> #[trigger] widths@[i] == column(
                    graphemes@.map_values(|g: String| g@),
                    cjk,
                    i + 1,
                ),
    {
        let ghost gs = graphemes@.map_values(|g: String| g@);
        let mut widths: Vec<usize> = Vec::new();
        let mut total: usize = 0;
        let mut i: usize = 0;
        while i < graphemes.len()
            invariant
                i <= graphemes@.len(),
                gs == graphemes@.map_values(|g: String| g@),
                widths@.len() == i,
                total == column(gs, cjk, i as int),
                forall|j: int| 0 <= j < i ==> #[trigger] widths@[j] == column(gs, cjk, j + 1),
            decreases graphemes@.len() - i,
        {
            let g = graphemes[i].as_str();
            assert(g@ == gs[i as int]);
            let w = match Self::replacement_character(g, cjk) {
                Some(_) => 1,
                None => grapheme_width(g, cjk),
            };
            assert(w == rendered_width(gs[i as int], cjk));
            total = total.saturating_add(w);
            widths.push(total);
            i = i + 1;
        }
        widths
    }

    /// Appends the graphemes `from..to` of `graphemes` to `out`.
    fn append_graphemes(graphemes: &Vec<String>, from: usize, to: usize, out: &mut String)
        requires
            from <= to <= graphemes@.len(),
        ensures
            final(out)@ == old(out)@ + graphemes@.map_values(|g: String| g@).subrange(
                from as int,
                to as int,
            ).flatten(),
    {
        let ghost gs = graphemes@.map_values(|g: String| g@);
        let ghost start = out@;
        let mut i = from;
        assert(gs.subrange(from as int, from as int) =~= Seq::<Seq<char>>::empty());
        assert(out@ =~= start + gs.subrange(from as int, from as int).flatten());
        while i < to
            invariant
                from <= i <= to <= graphemes@.len(),
                gs == graphemes@.map_values(|g: String| g@),
                out@ == start + gs.subrange(from as int, i as int).flatten(),
            decreases to - i,
        {
            let g = graphemes[i].as_str();
            assert(gs.subrange(from as int, i + 1) =~= gs.subrange(from as int, i as int).push(
                gs[i as int],
            ));
            proof {
                gs.subrange(from as int, i as int).lemma_flatten_push(gs[i as int]);
            }
            out.append(g);
            i = i + 1;
        }
    }

    /// The characters of the line, as one string.
    pub fn to_string(&self) -> (s: String)
        requires
            self.wf(),
        ensures
            s@ == self.text(),
    {
        let mut s = String::new();
        Self::append_graphemes(&self.graphemes, 0, self.graphemes.len(), &mut s);
        assert(self@.subrange(0, self@.len() as int) =~= self@);
        s
    }

    /// Grapheme `index` of the line.
    pub fn grapheme(&self, index: usize) -> (g: &str)
        requires
            self.wf(),
            index < self@.len(),
        ensures
            g@ == self@[index as int],
    {
        self.graphemes[index].as_str()
    }

    /// Puts `ch` before grapheme `at` (at the end if `at` is past it) and
    /// splits the new text into graphemes afresh.
    pub fn insert(&mut self, at: usize, ch: char)
        requires
            old(self).wf(),
        ensures
            final(self).wf(),
            final(self).cjk() == old(self).cjk(),
            final(self).text() == inserted_text(old(self)@, at as int, ch),
            final(self)@ == grapheme_clusters(inserted_text(old(self)@, at as int, ch)),
    {
        let n = self.graphemes.len();
        let k = if at < n {
            at
        } else {
            n
        };
        let mut s = String::new();
        Self::append_graphemes(&self.graphemes, 0, k, &mut s);
        push_char(&mut s, ch);
        let ghost mid = s@;
        Self::append_graphemes(&self.graphemes, k, n, &mut s);
        assert(s@ == inserted_text(self@, at as int, ch));
        *self = Line::from_text(s.as_str(), self.cjk);
    }

    /// Removes grapheme `at`, if there is one, and splits the remaining text
    /// into graphemes afresh.
    pub fn remove(&mut self, at: usize)
        requires
            old(self).wf(),
        ensures
            final(self).wf(),
            final(self).cjk() == old(self).cjk(),
            at < old(self)@.len() ==> final(self).text() == removed_text(old(self)@, at as int)
                && final(self)@ == grapheme_clusters(removed_text(old(self)@, at as int)),
            at >= old(self)@.len() ==> *final(self) == *old(self),
    {
        let n = self.graphemes.len();
        if at < n {
            let mut s = String::new();
            Self::append_graphemes(&self.graphemes, 0, at, &mut s);
            Self::append_graphemes(&self.graphemes, at + 1, n, &mut s);
            *self = Line::from_text(s.as_str(), self.cjk);
        }
    }

    /// Puts the text of `other` at the end of this line and splits the joined
    /// text into graphemes afresh.
    pub fn append(&mut self, other: Line)
        requires
            old(self).wf(),
            other.wf(),
        ensures
            final(self).wf(),
            final(self).cjk() == old(self).cjk(),
            final(self).text() == old(self).text() + other.text(),
            final(self)@ == grapheme_clusters(old(self).text() + other.text()),
    {
        let mut s = String::new();
        Self::append_graphemes(&self.graphemes, 0, self.graphemes.len(), &mut s);
        Self::append_graphemes(&other.graphemes, 0, other.graphemes.len(), &mut s);
        assert(self@.subrange(0, self@.len() as int) =~= self@);
        assert(other@.subrange(0, other@.len() as int) =~= other@);
        *self = Line::from_text(s.as_str(), self.cjk);
    }

    /// Cuts the line before grapheme `at`: this line keeps the graphemes before
    /// it and the rest is returned.  If `at` is past the end, nothing changes
    /// and an empty line is returned.
    pub fn split_off(&mut self, at: usize) -> (rest: Line)
        requires
            old(self).wf(),
        ensures
            final(self).wf(),
            rest.wf(),
            final(self).cjk() == old(self).cjk(),
            rest.cjk() == old(self).cjk(),
            at > old(self)@.len() ==> *final(self) == *old(self) && rest@.len() == 0,
            at <= old(self)@.len() ==> final(self)@ == old(self)@.subrange(0, at as int) && rest@
                == old(self)@.subrange(at as int, old(self)@.len() as int),
    {
        if at > self.graphemes.len() {
            return Line::empty(self.cjk);
        }
        let ghost gs = self@;
        let right_graphemes = self.graphemes.split_off(at);
        self.widths.truncate(at);
        let right_widths = Self::cumulative_widths(&right_graphemes, self.cjk);
        let rest = Line { graphemes: right_graphemes, widths: right_widths, cjk: self.cjk };
        assert(self@ =~= gs.subrange(0, at as int));
        assert(rest@ =~= gs.subrange(at as int, gs.len() as int));
        assert forall|i: int| 0 <= i < self.widths@.len() implies #[trigger] self.widths@[i]
            == column(self@, self.cjk, i + 1) by {
            assert(gs.subrange(0, i + 1) =~= self@.subrange(0, i + 1));
            lemma_width_sum_prefix(gs, self@, self.cjk, i + 1);
        }
        rest
    }

    /// Unfolding `first_overflowing` past graphemes that end by `end`.
    proof fn lemma_first_overflowing_skip(gs: Seq<Seq<char>>, cjk: bool, end: int, i: int)
        requires
            0 <= i <= gs.len(),
            forall|j: int| 1 <= j <= i ==> #[trigger] column(gs, cjk, j) <= end,
        ensures
            first_overflowing(gs, cjk, end, 0) == first_overflowing(gs, cjk, end, i),
        decreases i,
    {
        if i > 0 {
            Self::lemma_first_overflowing_skip(gs, cjk, end, i - 1);
            assert(column(gs, cjk, i) <= end);
        }
    }

    /// The marks and graphemes that `get_visible_graphemes` picks spell
    /// `visible_text`.
    #[verifier::rlimit(40)]
    #[verifier::spinoff_prover]
    proof fn lemma_view_is_visible_text(
        gs: Seq<Seq<char>>,
        cjk: bool,
        start: usize,
        end: usize,
        si: usize,
        ei: usize,
        pl: bool,
        pr: bool,
    )
        requires
            start < end,
            0 <= first_overflowing(gs, cjk, end as int, 0) <= gs.len(),
            pr == (first_overflowing(gs, cjk, end as int, 0) < gs.len() && column(
                gs,
                cjk,
                first_overflowing(gs, cjk, end as int, 0),
            ) < end),
            pl == exists|j: int|
                0 <= j <= first_overflowing(gs, cjk, end as int, 0) && j < gs.len()
                    && #[trigger] column(gs, cjk, j) < start && column(gs, cjk, j + 1) > start,
            (exists|j: int|
                0 <= j < first_overflowing(gs, cjk, end as int, 0) && #[trigger] column(gs, cjk, j)
                    >= start) ==> {
                &&& ei == first_overflowing(gs, cjk, end as int, 0)
                &&& si < ei
                &&& column(gs, cjk, si as int) >= start
                &&& forall|j: int| 0 <= j < si ==> #[trigger] column(gs, cjk, j) < start
            },
            !(exists|j: int|
                0 <= j < first_overflowing(gs, cjk, end as int, 0) && #[trigger] column(gs, cjk, j)
                    >= start) ==> si == gs.len() && ei == 0,
        ensures
            (if pl {
                seq!['\u{22EF}']
            } else {
                Seq::empty()
            }) + drawn_range(gs, cjk, si as int, ei as int) + (if pr {
                seq!['\u{22EF}']
            } else {
                Seq::empty()
            }) == visible_text(gs, cjk, start, end),
    {
        let k = first_overflowing(gs, cjk, end as int, 0);
        let f = first_reaching(gs, cjk, start as int, 0, k);
        lemma_first_reaching(gs, cjk, start as int, 0, k);
        if exists|j: int| 0 <= j < k && #[trigger] column(gs, cjk, j) >= start {
            if f < si {
                assert(column(gs, cjk, f) < start);
            }
            if f > si {
                assert(column(gs, cjk, si as int) < start);
            }
            assert(f == si);
        } else {
            if f < k {
                assert(column(gs, cjk, f) >= start);
            }
            assert(f == k);
        }
    }

    /// The graphemes to draw when the columns `range` of the line are
    /// visible: those that start at or after `range.start` among the leading
    /// graphemes that end by `range.end`, with a mark on the left when a
    /// grapheme is cut by `range.start` and on the right when one is cut by
    /// `range.end`.
    #[verifier::rlimit(60)]
    #[verifier::spinoff_prover]
    pub fn get_visible_graphemes(&self, range: core::ops::Range<usize>) -> (v: LineView<'_>)
        requires
            self.wf(),
        ensures
            v.line() == *self,
            v.start_index() <= self@.len(),
            v.end_index() <= self@.len(),
            v.rendered() == visible_text(self@, self.cjk(), range.start, range.end),
            range.start >= range.end ==> v.start_index() == 0 && v.end_index() == 0
                && !v.pad_left() && !v.pad_right(),
            range.start < range.end ==> {
                let gs = self@;
                let cjk = self.cjk();
                let k = first_overflowing(gs, cjk, range.end as int, 0);
                &&& v.pad_right() == (k < gs.len() && column(gs, cjk, k) < range.end)
                &&& v.pad_left() == exists|j: int|
                    0 <= j <= k && j < gs.len() && #[trigger] column(gs, cjk, j) < range.start
                        && column(gs, cjk, j + 1) > range.start
                &&& (exists|j: int| 0 <= j < k && #[trigger] column(gs, cjk, j) >= range.start)
                    ==> {
                    &&& v.end_index() == k
                    &&& v.start_index() < k
                    &&& column(gs, cjk, v.start_index() as int) >= range.start
                    &&& forall|j: int|
                        0 <= j < v.start_index() ==> #[trigger] column(gs, cjk, j) < range.start
                }
                &&& !(exists|j: int| 0 <= j < k && #[trigger] column(gs, cjk, j) >= range.start)
                    ==> {
                    &&& v.start_index() == gs.len()
                    &&& v.end_index() == 0
                }
            },
    {
        if range.start >= range.end {
            let v = LineView {
                line: self,
                start_index: 0,
                end_index: 0,
                pad_left: false,
                pad_right: false,
            };
            assert(v.rendered() =~= visible_text(self@, self.cjk, range.start, range.end));
            return v;
        }
        let (start_index, end_index, pad_left, pad_right) = self.visible_range(
            range.start,
            range.end,
        );
        proof {
            lemma_first_overflowing_bound(self@, self.cjk, range.end as int, 0);
            Self::lemma_view_is_visible_text(
                self@,
                self.cjk,
                range.start,
                range.end,
                start_index,
                end_index,
                pad_left,
                pad_right,
            );
        }
        LineView { line: self, start_index, end_index, pad_left, pad_right }
    }

    /// The first and past-the-last graphemes shown in the columns
    /// `start..end`, and whether each side is marked (see
    /// `get_visible_graphemes`).
    #[verifier::rlimit(40)]
    fn visible_range(&self, start: usize, end: usize) -> (r: (usize, usize, bool, bool))
        requires
            self.wf(),
            start < end,
        ensures
            ({
                let (si, ei, pl, pr) = r;
                let gs = self@;
                let cjk = self.cjk();
                let k = first_overflowing(gs, cjk, end as int, 0);
                &&& pr == (k < gs.len() && column(gs, cjk, k) < end)
                &&& pl == exists|j: int|
                    0 <= j <= k && j < gs.len() && #[trigger] column(gs, cjk, j) < start
                        && column(gs, cjk, j + 1) > start
                &&& (exists|j: int| 0 <= j < k && #[trigger] column(gs, cjk, j) >= start) ==> {
                    &&& ei == k
                    &&& si < k
                    &&& column(gs, cjk, si as int) >= start
                    &&& forall|j: int| 0 <= j < si ==> #[trigger] column(gs, cjk, j) < start
                }
                &&& !(exists|j: int| 0 <= j < k && #[trigger] column(gs, cjk, j) >= start) ==> {
                    &&& si == gs.len()
                    &&& ei == 0
                }
            }),
    {
        let ghost gs = self@;
        let ghost cjk = self.cjk;
        let n = self.graphemes.len();
        let mut start_index = n;
        let mut end_index: usize = 0;
        let mut pad_left = false;
        let mut pad_right = false;
        let mut index: usize = 0;
        let ghost mut found = false;
        loop
            invariant_except_break
                forall|j: int| 1 <= j <= index ==> #[trigger] column(gs, cjk, j) <= end,
                !pad_right,
                pad_left == exists|j: int|
                    0 <= j < index && #[trigger] column(gs, cjk, j) < start && column(
                        gs,
                        cjk,
                        j + 1,
                    ) > start,
            invariant
                gs == self@,
                cjk == self.cjk,
                self.wf(),
                n == gs.len(),
                index <= n,
                found == exists|j: int| 0 <= j < index && #[trigger] column(gs, cjk, j) >= start,
                found ==> {
                    &&& end_index == index
                    &&& start_index < index
                    &&& column(gs, cjk, start_index as int) >= start
                    &&& forall|j: int| 0 <= j < start_index ==> #[trigger] column(gs, cjk, j) < start
                },
                !found ==> start_index == n && end_index == 0,
            ensures
                first_overflowing(gs, cjk, end as int, 0) == index,
                pad_right == (index < n && column(gs, cjk, index as int) < end),
                pad_left == exists|j: int|
                    0 <= j <= index && j < n && #[trigger] column(gs, cjk, j) < start && column(
                        gs,
                        cjk,
                        j + 1,
                    ) > start,
            decreases n - index,
        {
            if index >= n {
                proof {
                    Self::lemma_first_overflowing_skip(gs, cjk, end as int, index as int);
                }
                break;
            }
            let current_col = if index == 0 {
                0
            } else {
                self.widths[index - 1]
            };
            let next_col = self.widths[index];
            assert(current_col == column(gs, cjk, index as int));
            assert(next_col == column(gs, cjk, index + 1));
            proof {
                Self::lemma_first_overflowing_skip(gs, cjk, end as int, index as int);
            }
            if current_col < start && next_col > start {
                pad_left = true;
            }
            assert(pad_left == exists|j: int|
                0 <= j <= index && #[trigger] column(gs, cjk, j) < start && column(
                    gs,
                    cjk,
                    j + 1,
                ) > start);
            if next_col > end {
                if current_col < end {
                    pad_right = true;
                }
                break;
            }
            proof {
                if found {
                    lemma_column_monotonic(gs, cjk, start_index as int, index as int);
                }
            }
            if current_col >= start {
                if index < start_index {
                    start_index = index;
                }
                end_index = index + 1;
                proof {
                    found = true;
                }
            }
            index = index + 1;
        }
        (start_index, end_index, pad_left, pad_right)
    }

    /// The number of graphemes in the line.
    pub fn len(&self) -> (n: usize)
        requires
            self.wf(),
        ensures
            n == self@.len(),
    {
        self.graphemes.len()
    }

    /// The column at which the first `at` graphemes end (all of them if the
    /// line is shorter).
    pub fn width_until(&self, at: usize) -> (w: usize)
        requires
            self.wf(),
        ensures
            w == self.col(if at <= self@.len() { at as int } else { self@.len() as int }),
    {
        if at == 0 {
            0
        } else if at - 1 < self.widths.len() {
            self.widths[at - 1]
        } else {
            self.width()
        }
    }

    /// The screen width of the whole line.
    pub fn width(&self) -> (w: usize)
        requires
            self.wf(),
        ensures
            w == self.col(self@.len() as int),
    {
        if self.widths.len() == 0 {
            0
        } else {
            self.widths[self.widths.len() - 1]
        }
    }

    /// Every character of `grapheme` is white space.
    fn is_blank(grapheme: &str) -> (b: bool)
        ensures
            b == all_white_space(grapheme@),
    {
        let n = grapheme.unicode_len();
        let mut i: usize = 0;
        while i < n
            invariant
                n == grapheme@.len(),
                i <= n,
                forall|j: int| 0 <= j < i ==> is_white_space(#[trigger] grapheme@[j]),
            decreases n - i,
        {
            if !char_is_whitespace(grapheme.get_char(i)) {
                return false;
            }
            i = i + 1;
        }
        true
    }

    /// Some character of `grapheme` is a control code.
    fn has_control(grapheme: &str) -> (b: bool)
        ensures
            b == has_control_code(grapheme@),
    {
        let n = grapheme.unicode_len();
        let mut i: usize = 0;
        while i < n
            invariant
                n == grapheme@.len(),
                i <= n,
                forall|j: int| 0 <= j < i ==> !is_control_code(#[trigger] grapheme@[j]),
            decreases n - i,
        {
            if char_is_control(grapheme.get_char(i)) {
                return true;
            }
            i = i + 1;
        }
        false
    }

    /// The character drawn in place of `grapheme`, if it is not drawn as it is.
    pub fn replacement_character(grapheme: &str, cjk: bool) -> (r: Option<char>)
        ensures
            r == replacement_for(grapheme@, cjk),
    {
        let width = grapheme_width(grapheme, cjk);
        let n = grapheme.unicode_len();
        if n == 1 && grapheme.get_char(0) == ' ' {
            assert(grapheme@ =~= seq![' ']);
            None
        } else if n == 1 && grapheme.get_char(0) == '\t' {
            assert(grapheme@ =~= seq!['\t']);
            Some(' ')
        } else {
            assert(grapheme@ != seq![' ']);
            assert(grapheme@ != seq!['\t']);
            if width > 0 && Self::is_blank(grapheme) {
                Some('\u{2423}')
            } else if width == 0 {
                if Self::has_control(grapheme) {
                    Some('\u{25AF}')
                } else {
                    Some('\u{B7}')
                }
            } else {
                None
            }
        }
    }
}

/// The part of a line that is visible in a window of columns, ready to be
/// drawn: graphemes `start_index..end_index`, with a mark on each side where
/// a grapheme is cut by the window's edge.
pub struct LineView<'a> {
    line: &'a Line,
    start_index: usize,
    end_index: usize,
    pad_left: bool,
    pad_right: bool,
}

impl<'a> LineView<'a> {
    /// The line this view shows.
    pub closed spec fn line(&self) -> Line {
        *self.line
    }

    /// The first grapheme shown.
    pub closed spec fn start_index(&self) -> usize {
        self.start_index
    }

    /// One past the last grapheme shown.
    pub closed spec fn end_index(&self) -> usize {
        self.end_index
    }

    /// Whether a mark is drawn on the left.
    pub closed spec fn pad_left(&self) -> bool {
        self.pad_left
    }

    /// Whether a mark is drawn on the right.
    pub closed spec fn pad_right(&self) -> bool {
        self.pad_right
    }

    /// What this view draws: the left mark, each shown grapheme as it is drawn
    /// (see `drawn`), and the right mark.
    pub open spec fn rendered(&self) -> Seq<char> {
        (if self.pad_left() {
            seq!['\u{22EF}']
        } else {
            Seq::empty()
        }) + drawn_range(
            self.line()@,
            self.line().cjk(),
            self.start_index() as int,
            self.end_index() as int,
        ) + (if self.pad_right() {
            seq!['\u{22EF}']
        } else {
            Seq::empty()
        })
    }

    /// The text this view draws.
    pub fn to_string(&self) -> (s: String)
        requires
            self.line().wf(),
            self.start_index() <= self.line()@.len(),
            self.end_index() <= self.line()@.len(),
        ensures
            s@ == self.rendered(),
    {
        let ghost gs = self.line@;
        let ghost cjk = self.line.cjk;
        let mut s = String::new();
        if self.pad_left {
            push_char(&mut s, '\u{22EF}');
        }
        let ghost start = s@;
        if self.start_index < self.end_index {
            let mut index = self.start_index;
            assert(gs.subrange(index as int, index as int).map_values(|g: Seq<char>| drawn(g, cjk))
                =~= Seq::<Seq<char>>::empty());
            while index < self.end_index
                invariant
                    gs == self.line@,
                    cjk == self.line.cjk,
                    self.line.wf(),
                    self.start_index <= index <= self.end_index <= gs.len(),
                    s@ == start + gs.subrange(self.start_index as int, index as int).map_values(
                        |g: Seq<char>| drawn(g, cjk),
                    ).flatten(),
                decreases self.end_index - index,
            {
                let g = self.line.grapheme(index);
                let ghost before = gs.subrange(self.start_index as int, index as int).map_values(
                    |g: Seq<char>| drawn(g, cjk),
                );
                assert(gs.subrange(self.start_index as int, index + 1).map_values(
                    |g: Seq<char>| drawn(g, cjk),
                ) =~= before.push(drawn(gs[index as int], cjk)));
                proof {
                    before.lemma_flatten_push(drawn(gs[index as int], cjk));
                }
                match Line::replacement_character(g, self.line.cjk) {
                    Some(c) => {
                        push_char(&mut s, c);
                        assert(seq![c] == drawn(gs[index as int], cjk));
                    },
                    None => {
                        s.append(g);
                    },
                }
                index = index + 1;
            }
        }
        if self.pad_right {
            push_char(&mut s, '\u{22EF}');
        }
        assert(s@ =~= self.rendered());
        s
    }
}

/// The width of `grapheme` as text, in the chosen width mode.
pub fn grapheme_width(grapheme: &str, cjk: bool) -> (w: usize)
    ensures
        w == text_width(grapheme@, cjk),
{
    if cjk {
        str_width_cjk(grapheme)
    } else {
        str_width(grapheme)
    }
}

} // verus!
