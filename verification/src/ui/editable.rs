use vstd::prelude::*;
use crate::style::box_prop::{split_on, strings_view, lemma_split_nonempty};
use crate::ui::textbox::{TextBox, TextElement, box_text, build_line, join_with, line_text, line_texts};

verus! {

/// How an editable shows its text: as typed, or hidden as for a password.
#[derive(Clone, Copy, Debug, PartialEq, Eq, Structural)]
pub enum InputType {
    Text,
    Password,
}

/// Text split into pieces at a separator joins back into the same text.
pub proof fn law_split_then_join(s: Seq<char>, sep: char)
    ensures
        join_with(split_on(s, sep), sep) == s,
    decreases s.len(),
{
    if s.len() > 0 {
        let p = split_on(s.drop_last(), sep);
        law_split_then_join(s.drop_last(), sep);
        lemma_split_nonempty(s.drop_last(), sep);
        let c = s.last();
        if c == sep {
            let q = p.push(Seq::<char>::empty());
            assert(q.drop_last() =~= p);
            assert(join_with(q, sep) =~= s);
        } else {
            let q = p.update(p.len() - 1, p.last().push(c));
            assert(q.last() == p.last().push(c));
            if p.len() == 1 {
                assert(q.len() == 1);
                assert(join_with(p, sep) == p[0]);
                assert(join_with(q, sep) == q[0]);
                assert(q[0] == p[0].push(c));
                assert(s =~= s.drop_last().push(c));
                assert(join_with(p, sep) == s.drop_last());
                assert(p[0] == s.drop_last());
                assert(join_with(q, sep) == s.drop_last().push(c));
            } else {
                assert(q.drop_last() =~= p.drop_last());
                let head = join_with(p.drop_last(), sep) + seq![sep];
                assert(join_with(p, sep) == head + p.last());
                assert(join_with(q, sep) == head + p.last().push(c));
                assert(head + p.last().push(c) =~= (head + p.last()).push(c));
                assert(s =~= s.drop_last().push(c));
            }
        }
    }
}

/// The pieces of `text` between line breaks.
pub fn split_lines(text: &str) -> (r: Vec<String>)
    ensures
        strings_view(r@) == split_on(text@, '\n'),
{
    let n = text.unicode_len();
    let mut done: Vec<String> = Vec::new();
    let mut cur = String::new();
    proof {
        assert(text@.take(0) =~= Seq::<char>::empty());
        assert(strings_view(done@.push(cur)) =~= seq![Seq::<char>::empty()]);
    }
    let mut i: usize = 0;
    while i < n
        invariant
            n == text@.len(),
            i <= n,
            split_on(text@.take(i as int), '\n') == strings_view(done@.push(cur)),
        decreases n - i,
    {
        let c = text.get_char(i);
        proof {
            assert(text@.take(i + 1).drop_last() =~= text@.take(i as int));
            assert(text@.take(i + 1).last() == c);
        }
        if c == '\n' {
            let ghost before = done@.push(cur);
            done.push(cur);
            cur = String::new();
            proof {
                assert(strings_view(done@.push(cur)) =~= strings_view(before).push(
                    Seq::<char>::empty(),
                ));
            }
        } else {
            let ch = text.substring_char(i, i + 1);
            proof {
                assert(ch@ =~= seq![c]);
            }
            let ghost before = strings_view(done@.push(cur));
            let ghost old_cur = cur@;
            cur.append(ch);
            proof {
                assert(cur@ =~= old_cur.push(c));
                assert(strings_view(done@.push(cur)) =~= before.update(
                    before.len() - 1,
                    before.last().push(c),
                ));
            }
        }
        i = i + 1;
    }
    proof {
        assert(text@.take(n as int) =~= text@);
    }
    done.push(cur);
    done
}

/// The state of an editable text area: its text, placeholder, undo depth,
/// caret and selection. Its element stands in the tree of the widget that
/// holds it.
pub struct Editable {
    pub text_box: TextBox,
    pub placeholder: String,
    pub max_history: usize,
    pub caret: usize,
    pub multiple_line: bool,
    pub input_type: InputType,
}

impl Editable {
    pub open spec fn text(&self) -> Seq<char> {
        box_text(self.text_box.lines@)
    }

    /// An empty, single-line text editable.
    pub fn new() -> (r: Self)
        ensures
            r.text_box.lines@.len() == 0,
            r.text_box.selection is None,
            r.placeholder@.len() == 0,
            r.caret == 0,
            !r.multiple_line,
            r.input_type == InputType::Text,
    {
        Editable {
            text_box: TextBox::new(),
            placeholder: String::new(),
            max_history: 0,
            caret: 0,
            multiple_line: false,
            input_type: InputType::Text,
        }
    }

    /// The text, lines joined by line breaks.
    pub fn get_text(&self) -> (r: String)
        ensures
            r@ == self.text(),
    {
        self.text_box.get_text()
    }

    /// Replaces the text: one line for each piece between line breaks, so
    /// that `get_text` gives `text` back.
    pub fn set_text(&mut self, text: String)
        ensures
            final(self).text() == text@,
            final(self).text_box.lines@.len() == split_on(text@, '\n').len(),
            final(self).text_box.selection is None,
            final(self).caret == 0,
            final(self).placeholder == old(self).placeholder,
            final(self).max_history == old(self).max_history,
            final(self).multiple_line == old(self).multiple_line,
            final(self).input_type == old(self).input_type,
    {
        let pieces = split_lines(text.as_str());
        let n = pieces.len();
        let mut lines: Vec<Vec<TextElement>> = Vec::new();
        let mut i: usize = 0;
        while i < n
            invariant
                n == pieces@.len(),
                i <= n,
                lines@.len() == i,
                line_texts(lines@) == strings_view(pieces@).take(i as int),
            decreases n - i,
        {
            let line = build_line(pieces[i].clone());
            lines.push(line);
            proof {
                assert(line_texts(lines@) =~= strings_view(pieces@).take(i + 1));
            }
            i = i + 1;
        }
        proof {
            assert(strings_view(pieces@).take(n as int) =~= strings_view(pieces@));
            law_split_then_join(text@, '\n');
        }
        self.text_box.clear();
        self.text_box.lines = lines;
        self.caret = 0;
    }

    pub fn set_placeholder(&mut self, placeholder: String)
        ensures
            final(self).placeholder == placeholder,
            final(self).text_box == old(self).text_box,
            final(self).max_history == old(self).max_history,
            final(self).caret == old(self).caret,
            final(self).input_type == old(self).input_type,
    {
        self.placeholder = placeholder;
    }

    pub fn get_placeholder(&self) -> (r: String)
        ensures
            r@ == self.placeholder@,
    {
        self.placeholder.clone()
    }

    /// Sets how many edits can be undone.
    pub fn set_max_history(&mut self, max_history: usize)
        ensures
            *final(self) == (Editable { max_history, ..*old(self) }),
    {
        self.max_history = max_history;
    }

    pub fn get_max_history(&self) -> (r: usize)
        ensures
            r == self.max_history,
    {
        self.max_history
    }

    /// Selects the text between two character offsets.
    pub fn set_selection_by_char_offset(&mut self, start: usize, end: usize)
        ensures
            final(self).text_box.selection == Some((start, end)),
            final(self).text_box.lines == old(self).text_box.lines,
            final(self).caret == old(self).caret,
            final(self).placeholder == old(self).placeholder,
    {
        self.text_box.select(start, end);
    }

    /// Puts the caret before character `char_offset`, dropping any
    /// selection.
    pub fn set_caret_by_char_offset(&mut self, char_offset: usize)
        ensures
            final(self).caret == char_offset,
            final(self).text_box.selection is None,
            final(self).text_box.lines == old(self).text_box.lines,
            final(self).placeholder == old(self).placeholder,
    {
        self.caret = char_offset;
        self.text_box.selection = None;
    }

    pub fn set_multiple_line(&mut self, multiple_line: bool)
        ensures
            *final(self) == (Editable { multiple_line, ..*old(self) }),
    {
        self.multiple_line = multiple_line;
    }

    pub fn set_type(&mut self, input_type: InputType)
        ensures
            final(self).input_type == input_type,
            final(self).text_box == old(self).text_box,
            final(self).placeholder == old(self).placeholder,
    {
        self.input_type = input_type;
    }

    pub fn get_type(&self) -> (r: InputType)
        ensures
            r == self.input_type,
    {
        self.input_type
    }
}

} // verus!
