use vstd::prelude::*;
use crate::base::Color;
use crate::style::box_prop::{split_on, lemma_split_nonempty};

verus! {

/// A run of text with its own colours, where it sets them.
pub struct TextUnit {
    pub text: String,
    pub color: Option<Color>,
    pub background_color: Option<Color>,
}

/// A piece of a line of text.
pub enum TextElement {
    Text(TextUnit),
}

/// A position in a text box: the line and the character offset in it.
pub type TextCoord = (usize, usize);

pub open spec fn element_text(e: TextElement) -> Seq<char> {
    match e {
        TextElement::Text(u) => u.text@,
    }
}

/// The text of a line: the texts of its pieces, one after another.
pub open spec fn line_text(units: Seq<TextElement>) -> Seq<char>
    decreases units.len(),
{
    if units.len() == 0 {
        Seq::empty()
    } else {
        line_text(units.drop_last()) + element_text(units.last())
    }
}

/// Texts joined by a separator.
pub open spec fn join_with(parts: Seq<Seq<char>>, sep: char) -> Seq<char>
    decreases parts.len(),
{
    if parts.len() == 0 {
        Seq::empty()
    } else if parts.len() == 1 {
        parts[0]
    } else {
        join_with(parts.drop_last(), sep) + seq![sep] + parts.last()
    }
}

pub open spec fn line_texts(lines: Seq<Vec<TextElement>>) -> Seq<Seq<char>> {
    lines.map_values(|l: Vec<TextElement>| line_text(l@))
}

/// The text of a text box: its lines joined by line breaks.
pub open spec fn box_text(lines: Seq<Vec<TextElement>>) -> Seq<char> {
    join_with(line_texts(lines), '\n')
}

/// Where character `offset` of the text falls, searching from line `start`:
/// a line of `n` characters holds offsets `0..=n`, and its line break takes
/// one offset more.
pub open spec fn coord_from(lens: Seq<int>, start: int, offset: int) -> Option<(int, int)>
    decreases lens.len() - start,
{
    if start < 0 || start >= lens.len() {
        None
    } else if offset <= lens[start] {
        Some((start, offset))
    } else {
        coord_from(lens, start + 1, offset - lens[start] - 1)
    }
}

pub open spec fn line_lens(lines: Seq<Vec<TextElement>>) -> Seq<int> {
    lines.map_values(|l: Vec<TextElement>| line_text(l@).len() as int)
}

/// The selected text for a selection between two offsets, in either order,
/// each limited to the text's length.
pub open spec fn selected_text(text: Seq<char>, sel: (usize, usize)) -> Seq<char> {
    let a = if sel.0 <= sel.1 { sel.0 as int } else { sel.1 as int };
    let b = if sel.0 <= sel.1 { sel.1 as int } else { sel.0 as int };
    let lo = if a <= text.len() { a } else { text.len() as int };
    let hi = if b <= text.len() { b } else { text.len() as int };
    text.subrange(lo, hi)
}

pub open spec fn coord_view(c: Option<(usize, usize)>) -> Option<(int, int)> {
    match c {
        Some((a, b)) => Some((a as int, b as int)),
        None => None,
    }
}

/// A longer prefix of a line holds at least as many characters.
pub proof fn lemma_line_text_prefix_len(units: Seq<TextElement>, a: int, b: int)
    requires
        0 <= a <= b <= units.len(),
    ensures
        line_text(units.take(a)).len() <= line_text(units.take(b)).len(),
    decreases b - a,
{
    if a < b {
        lemma_line_text_prefix_len(units, a, b - 1);
        assert(units.take(b).drop_last() =~= units.take(b - 1));
    }
}

/// The text of the first `i + 1` lines extends that of the first `i` by a
/// line break, where there was a line before, and line `i`.
proof fn lemma_box_text_push(lines: Seq<Vec<TextElement>>, i: int)
    requires
        0 <= i < lines.len(),
    ensures
        box_text(lines.take(i + 1)) == (if i == 0 {
            line_text(lines[i]@)
        } else {
            box_text(lines.take(i)) + seq!['\n'] + line_text(lines[i]@)
        }),
{
    let t = line_texts(lines.take(i + 1));
    assert(t.drop_last() =~= line_texts(lines.take(i)));
    assert(t.last() == line_text(lines[i]@));
    if i == 0 {
        assert(t.len() == 1);
    }
}

/// The text of a box of one line is the text of that line.
pub proof fn lemma_box_text_single(lines: Seq<Vec<TextElement>>)
    requires
        lines.len() == 1,
    ensures
        box_text(lines) == line_text(lines[0]@),
{
    assert(line_texts(lines).len() == 1);
}

/// The length of texts of the given lengths joined by one-character
/// separators.
pub open spec fn joined_len(lens: Seq<int>) -> int
    decreases lens.len(),
{
    if lens.len() == 0 {
        0
    } else if lens.len() == 1 {
        lens[0]
    } else {
        joined_len(lens.drop_last()) + 1 + lens.last()
    }
}

/// The offsets that lines `start..` and the breaks between them take,
/// less one: the last offset that falls in them.
pub open spec fn last_offset_from(lens: Seq<int>, start: int) -> int
    decreases lens.len() - start,
{
    if start < 0 || start >= lens.len() {
        0
    } else if start == lens.len() - 1 {
        lens[start]
    } else {
        lens[start] + 1 + last_offset_from(lens, start + 1)
    }
}

proof fn lemma_join_len(parts: Seq<Seq<char>>, sep: char)
    ensures
        join_with(parts, sep).len() == joined_len(parts.map_values(|p: Seq<char>| p.len() as int)),
    decreases parts.len(),
{
    let f = |p: Seq<char>| p.len() as int;
    if parts.len() >= 2 {
        lemma_join_len(parts.drop_last(), sep);
        assert(parts.drop_last().map_values(f) =~= parts.map_values(f).drop_last());
    }
}

proof fn lemma_joined_len_front(lens: Seq<int>)
    requires
        lens.len() >= 2,
    ensures
        joined_len(lens) == lens[0] + 1 + joined_len(lens.drop_first()),
    decreases lens.len(),
{
    if lens.len() > 2 {
        lemma_joined_len_front(lens.drop_last());
        assert(lens.drop_last().drop_first() =~= lens.drop_first().drop_last());
        assert(lens.drop_first().last() == lens.last());
        assert(joined_len(lens.drop_first()) == joined_len(lens.drop_first().drop_last()) + 1
            + lens.drop_first().last());
    } else {
        assert(lens.drop_first().len() == 1);
        assert(lens.drop_last().len() == 1);
        assert(joined_len(lens.drop_last()) == lens[0]);
        assert(joined_len(lens.drop_first()) == lens[1]);
    }
}

proof fn lemma_last_offset_is_joined_len(lens: Seq<int>, start: int)
    requires
        0 <= start < lens.len(),
    ensures
        last_offset_from(lens, start) == joined_len(lens.subrange(start, lens.len() as int)),
    decreases lens.len() - start,
{
    let rest = lens.subrange(start, lens.len() as int);
    if start < lens.len() - 1 {
        lemma_last_offset_is_joined_len(lens, start + 1);
        lemma_joined_len_front(rest);
        assert(rest.drop_first() =~= lens.subrange(start + 1, lens.len() as int));
    } else {
        assert(rest.len() == 1);
    }
}

proof fn lemma_last_offset_nonneg(lens: Seq<int>, start: int)
    requires
        forall|i: int| 0 <= i < lens.len() ==> lens[i] >= 0,
    ensures
        last_offset_from(lens, start) >= 0,
    decreases lens.len() - start,
{
    if 0 <= start < lens.len() - 1 {
        lemma_last_offset_nonneg(lens, start + 1);
    }
}

proof fn lemma_coord_exists(lens: Seq<int>, start: int, offset: int)
    requires
        0 <= start,
        offset >= 0,
        forall|i: int| 0 <= i < lens.len() ==> lens[i] >= 0,
    ensures
        coord_from(lens, start, offset) is Some <==> start < lens.len() && offset
            <= last_offset_from(lens, start),
    decreases lens.len() - start,
{
    lemma_last_offset_nonneg(lens, start + 1);
    if start < lens.len() && offset > lens[start] {
        lemma_coord_exists(lens, start + 1, offset - lens[start] - 1);
    }
}

/// Every character offset from the start of a box's text to its end has a
/// coordinate, and no offset past the end has one: this is what
/// `TextBox::get_text_coord_by_char_offset` answers, measured against the
/// text `TextBox::get_text` gives.
pub proof fn law_coord_exactly_within_text(lines: Seq<Vec<TextElement>>, offset: int)
    requires
        offset >= 0,
    ensures
        coord_from(line_lens(lines), 0, offset) is Some <==> lines.len() > 0 && offset
            <= box_text(lines).len(),
{
    let lens = line_lens(lines);
    assert forall|i: int| 0 <= i < lens.len() implies lens[i] >= 0 by {
        assert(lens[i] == line_text(lines[i]@).len());
    }
    lemma_coord_exists(lens, 0, offset);
    lemma_join_len(line_texts(lines), '\n');
    assert(line_texts(lines).map_values(|p: Seq<char>| p.len() as int) =~= lens);
    if lines.len() > 0 {
        lemma_last_offset_is_joined_len(lens, 0);
        assert(lens.subrange(0, lens.len() as int) =~= lens);
    }
}

/// Lines of styled text, with an optional selection.
pub struct TextBox {
    pub lines: Vec<Vec<TextElement>>,
    pub selection: Option<(usize, usize)>,
    /// The colour of text that sets none of its own.
    pub color: Color,
    /// The font of text that sets none of its own: families, weight, style.
    pub font_family: String,
    pub font_weight: u16,
    pub font_style: FontStyle,
}

/// The slant of a font.
#[derive(Clone, Copy, Debug, PartialEq, Eq, Structural)]
pub enum FontStyle {
    Normal,
    Italic,
    Oblique,
}

/// A line holding `text` as a single unstyled run.
pub fn build_line(text: String) -> (r: Vec<TextElement>)
    ensures
        r@.len() == 1,
        line_text(r@) == text@,
{
    let mut v: Vec<TextElement> = Vec::new();
    v.push(TextElement::Text(TextUnit { text, color: None, background_color: None }));
    proof {
        assert(v@.drop_last() =~= Seq::<TextElement>::empty());
        assert(line_text(v@.drop_last()) =~= Seq::<char>::empty());
        assert(line_text(v@) == line_text(v@.drop_last()) + element_text(v@.last()));
        assert(Seq::<char>::empty() + element_text(v@[0]) =~= element_text(v@[0]));
    }
    v
}

impl TextBox {
    pub fn new() -> (r: Self)
        ensures
            r.lines@.len() == 0,
            r.selection is None,
            r.color == Color(0),
            r.font_family@.len() == 0,
            r.font_weight == 400,
            r.font_style == FontStyle::Normal,
    {
        TextBox {
            lines: Vec::new(),
            selection: None,
            color: Color(0),
            font_family: String::new(),
            font_weight: 400,
            font_style: FontStyle::Normal,
        }
    }

    pub fn add_line(&mut self, units: Vec<TextElement>)
        ensures
            final(self).lines@ == old(self).lines@.push(units),
            final(self).selection == old(self).selection,
            final(self).color == old(self).color,
    {
        self.lines.push(units);
    }

    pub fn insert_line(&mut self, index: usize, units: Vec<TextElement>)
        requires
            index <= old(self).lines@.len(),
        ensures
            final(self).lines@ == old(self).lines@.insert(index as int, units),
            final(self).selection == old(self).selection,
            final(self).color == old(self).color,
    {
        self.lines.insert(index, units);
    }

    pub fn delete_line(&mut self, line: usize)
        requires
            line < old(self).lines@.len(),
        ensures
            final(self).lines@ == old(self).lines@.remove(line as int),
            final(self).selection == old(self).selection,
            final(self).color == old(self).color,
    {
        self.lines.remove(line);
    }

    pub fn update_line(&mut self, index: usize, units: Vec<TextElement>)
        requires
            index < old(self).lines@.len(),
        ensures
            final(self).lines@ == old(self).lines@.update(index as int, units),
            final(self).selection == old(self).selection,
            final(self).color == old(self).color,
    {
        self.lines.set(index, units);
    }

    /// Removes all lines, and the selection with them.
    pub fn clear(&mut self)
        ensures
            final(self).lines@.len() == 0,
            final(self).selection is None,
            final(self).color == old(self).color,
    {
        self.lines = Vec::new();
        self.selection = None;
    }

    /// Sets the colour of text that sets none of its own.
    pub fn set_color(&mut self, color: Color)
        ensures
            *final(self) == (TextBox { color, ..*old(self) }),
    {
        self.color = color;
    }

    /// Sets the font families of text that sets none of its own.
    pub fn set_font_families(&mut self, family: String)
        ensures
            *final(self) == (TextBox { font_family: family, ..*old(self) }),
    {
        self.font_family = family;
    }

    /// Sets the font weight of text that sets none of its own.
    pub fn set_font_weight(&mut self, weight: u16)
        ensures
            *final(self) == (TextBox { font_weight: weight, ..*old(self) }),
    {
        self.font_weight = weight;
    }

    /// Sets the font style of text that sets none of its own.
    pub fn set_font_style(&mut self, style: FontStyle)
        ensures
            *final(self) == (TextBox { font_style: style, ..*old(self) }),
    {
        self.font_style = style;
    }

    /// Selects the text between two character offsets.
    pub fn select(&mut self, start: usize, end: usize)
        ensures
            final(self).lines == old(self).lines,
            final(self).selection == Some((start, end)),
            final(self).color == old(self).color,
    {
        self.selection = Some((start, end));
    }

    /// What is left of offset `rem` after line `i` and its line break, or
    /// `None` where the offset falls inside that line.
    fn rest_after_line(&self, i: usize, rem: usize) -> (r: Option<usize>)
        requires
            i < self.lines@.len(),
        ensures
            rem <= line_text(self.lines@[i as int]@).len() ==> r is None,
            rem > line_text(self.lines@[i as int]@).len() ==> r == Some(
                (rem - line_text(self.lines@[i as int]@).len() - 1) as usize,
            ),
    {
        let units = &self.lines[i];
        let m = units.len();
        let mut r: usize = rem;
        let mut k: usize = 0;
        while k < m
            invariant
                units == &self.lines@[i as int],
                m == units@.len(),
                k <= m,
                r + line_text(units@.take(k as int)).len() == rem,
            decreases m - k,
        {
            proof {
                assert(units@.take(k + 1).drop_last() =~= units@.take(k as int));
                assert(units@.take(k + 1).last() == units@[k as int]);
            }
            let len = match &units[k] {
                TextElement::Text(u) => u.text.as_str().unicode_len(),
            };
            if len > r {
                proof {
                    lemma_line_text_prefix_len(units@, k + 1, m as int);
                    assert(units@.take(m as int) =~= units@);
                }
                return None;
            }
            r = r - len;
            k = k + 1;
        }
        proof {
            assert(units@.take(m as int) =~= units@);
        }
        if r == 0 {
            None
        } else {
            Some(r - 1)
        }
    }

    /// The whole text: the lines joined by line breaks.
    pub fn get_text(&self) -> (r: String)
        ensures
            r@ == box_text(self.lines@),
    {
        let n = self.lines.len();
        let mut out = String::new();
        let mut i: usize = 0;
        while i < n
            invariant
                n == self.lines@.len(),
                i <= n,
                out@ == box_text(self.lines@.take(i as int)),
            decreases n - i,
        {
            proof {
                reveal_strlit("\n");
                lemma_box_text_push(self.lines@, i as int);
            }
            if i > 0 {
                out.append("\n");
            }
            let units = &self.lines[i];
            let m = units.len();
            let ghost base = out@;
            let mut k: usize = 0;
            while k < m
                invariant
                    units == &self.lines@[i as int],
                    m == units@.len(),
                    k <= m,
                    out@ == base + line_text(units@.take(k as int)),
                decreases m - k,
            {
                proof {
                    assert(units@.take(k + 1).drop_last() =~= units@.take(k as int));
                    assert(units@.take(k + 1).last() == units@[k as int]);
                }
                match &units[k] {
                    TextElement::Text(u) => out.append(u.text.as_str()),
                }
                proof {
                    assert(out@ =~= base + line_text(units@.take(k + 1)));
                }
                k = k + 1;
            }
            proof {
                assert(units@.take(m as int) =~= units@);
            }
            i = i + 1;
        }
        proof {
            assert(self.lines@.take(n as int) =~= self.lines@);
        }
        out
    }

    /// The line and the offset in it of character `caret` of the text.
    pub fn get_text_coord_by_char_offset(&self, caret: usize) -> (r: Option<TextCoord>)
        ensures
            coord_view(r) == coord_from(line_lens(self.lines@), 0, caret as int),
    {
        let n = self.lines.len();
        let mut rem: usize = caret;
        let mut i: usize = 0;
        while i < n
            invariant
                n == self.lines@.len(),
                i <= n,
                coord_from(line_lens(self.lines@), i as int, rem as int) == coord_from(
                    line_lens(self.lines@),
                    0,
                    caret as int,
                ),
            decreases n - i,
        {
            match self.rest_after_line(i, rem) {
                None => {
                    return Some((i, rem));
                },
                Some(r) => {
                    rem = r;
                },
            }
            i = i + 1;
        }
        None
    }

    /// The selected text, where there is a selection.
    pub fn get_selection_text(&self) -> (r: Option<String>)
        ensures
            self.selection is None ==> r is None,
            self.selection matches Some(sel) ==> r matches Some(t) && t@ == selected_text(
                box_text(self.lines@),
                sel,
            ),
    {
        match self.selection {
            None => None,
            Some((a, b)) => {
                let text = self.get_text();
                let len = text.as_str().unicode_len();
                let lo0 = if a <= b { a } else { b };
                let hi0 = if a <= b { b } else { a };
                let lo = if lo0 <= len { lo0 } else { len };
                let hi = if hi0 <= len { hi0 } else { len };
                let part = text.as_str().substring_char(lo, hi);
                Some(String::from_str(part))
            },
        }
    }
}

} // verus!
