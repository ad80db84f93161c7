use vstd::prelude::*;

verus! {

/// The pieces that `str::split` yields for a one-character separator:
/// every separator divides two pieces, so a string with `n` separators
/// yields `n + 1` pieces, some of them empty.
pub open spec fn split_on(s: Seq<char>, sep: char) -> Seq<Seq<char>>
    decreases s.len(),
{
    if s.len() == 0 {
        seq![Seq::<char>::empty()]
    } else {
        let pieces = split_on(s.drop_last(), sep);
        if s.last() == sep {
            pieces.push(Seq::<char>::empty())
        } else {
            pieces.update(pieces.len() - 1, pieces.last().push(s.last()))
        }
    }
}

pub open spec fn is_nonempty(t: Seq<char>) -> bool {
    t.len() > 0
}

/// The words of a box shorthand value: the non-empty pieces between spaces.
pub open spec fn box_tokens(s: Seq<char>) -> Seq<Seq<char>> {
    split_on(s, ' ').filter(|t: Seq<char>| is_nonempty(t))
}

/// CSS box expansion of a word list into (top, right, bottom, left):
/// a missing top takes the default, missing right and bottom take the top,
/// a missing left takes the right.
pub open spec fn box_sides(tokens: Seq<Seq<char>>, default: Seq<char>) -> (
    Seq<char>,
    Seq<char>,
    Seq<char>,
    Seq<char>,
) {
    let top = if tokens.len() > 0 { tokens[0] } else { default };
    let right = if tokens.len() > 1 { tokens[1] } else { top };
    let bottom = if tokens.len() > 2 { tokens[2] } else { top };
    let left = if tokens.len() > 3 { tokens[3] } else { right };
    (top, right, bottom, left)
}

pub open spec fn strings_view(v: Seq<String>) -> Seq<Seq<char>> {
    v.map_values(|x: String| x@)
}

pub proof fn lemma_split_nonempty(s: Seq<char>, sep: char)
    ensures
        split_on(s, sep).len() >= 1,
    decreases s.len(),
{
    if s.len() > 0 {
        lemma_split_nonempty(s.drop_last(), sep);
    }
}

/// Text joined by a separator splits into the pieces of the part before
/// it followed by the pieces of the part after it.
pub proof fn lemma_split_join(a: Seq<char>, b: Seq<char>, sep: char)
    ensures
        split_on(a + seq![sep] + b, sep) == split_on(a, sep) + split_on(b, sep),
    decreases b.len(),
{
    let x = a + seq![sep];
    if b.len() == 0 {
        assert(x + b =~= x);
        assert(x.drop_last() =~= a);
        assert(split_on(a, sep).push(Seq::<char>::empty()) =~= split_on(a, sep) + split_on(b, sep));
    } else {
        let bp = b.drop_last();
        let c = b.last();
        lemma_split_join(a, bp, sep);
        lemma_split_nonempty(bp, sep);
        assert((x + b).drop_last() =~= x + bp);
        assert((x + b).last() == c);
        let pa = split_on(a, sep);
        let pb = split_on(bp, sep);
        if c == sep {
            assert((pa + pb).push(Seq::<char>::empty()) =~= pa + pb.push(Seq::<char>::empty()));
        } else {
            assert((pa + pb).update((pa + pb).len() - 1, (pa + pb).last().push(c)) =~= pa
                + pb.update(pb.len() - 1, pb.last().push(c)));
        }
    }
}

proof fn lemma_split_pieces_have_no_space(s: Seq<char>)
    ensures
        forall|j: int|
            0 <= j < split_on(s, ' ').len() ==> !(#[trigger] split_on(s, ' ')[j]).contains(' '),
    decreases s.len(),
{
    if s.len() > 0 {
        lemma_split_pieces_have_no_space(s.drop_last());
        lemma_split_nonempty(s.drop_last(), ' ');
        let p = split_on(s.drop_last(), ' ');
        if s.last() != ' ' {
            let q = split_on(s, ' ');
            assert forall|j: int| 0 <= j < q.len() implies !(#[trigger] q[j]).contains(' ') by {
                if j == p.len() - 1 {
                    let w = p.last().push(s.last());
                    assert(q[j] == w);
                    if w.contains(' ') {
                        let k = choose|k: int| 0 <= k < w.len() && w[k] == ' ';
                        if k < w.len() - 1 {
                            assert(p.last()[k] == ' ');
                            assert(p[p.len() - 1].contains(' '));
                        }
                    }
                }
            }
        } else {
            assert forall|j: int| 0 <= j < split_on(s, ' ').len() implies !(
            #[trigger] split_on(s, ' ')[j]).contains(' ') by {
                if j == p.len() {
                    assert(split_on(s, ' ')[j] =~= Seq::<char>::empty());
                }
            }
        }
    }
}

/// Every word of a box shorthand is non-empty and holds no space.
pub proof fn law_box_tokens_are_words(s: Seq<char>)
    ensures
        forall|i: int|
            0 <= i < box_tokens(s).len() ==> (#[trigger] box_tokens(s)[i]).len() > 0
                && !box_tokens(s)[i].contains(' '),
{
    broadcast use vstd::seq_lib::group_filter_ensures;

    lemma_split_pieces_have_no_space(s);
    let pred = |t: Seq<char>| is_nonempty(t);
    assert forall|i: int| 0 <= i < box_tokens(s).len() implies (#[trigger] box_tokens(s)[i]).len()
        > 0 && !box_tokens(s)[i].contains(' ') by {
        let t = box_tokens(s)[i];
        assert(split_on(s, ' ').filter(pred).contains(t));
        split_on(s, ' ').lemma_filter_contains_rev(pred, t);
        let j = choose|j: int| 0 <= j < split_on(s, ' ').len() && split_on(s, ' ')[j] == t;
        assert(!split_on(s, ' ')[j].contains(' '));
    }
}

/// Words separated by a space are read as the words before it followed
/// by the words after it.
pub proof fn law_box_tokens_join(a: Seq<char>, b: Seq<char>)
    ensures
        box_tokens(a + seq![' '] + b) == box_tokens(a) + box_tokens(b),
{
    Seq::filter_distributes_over_add(split_on(a, ' '), split_on(b, ' '), |t: Seq<char>| is_nonempty(t));

    lemma_split_join(a, b, ' ');
}

/// A single word (no space, not empty) applies to all four sides.
pub proof fn law_single_word_applies_to_all_sides(w: Seq<char>, default: Seq<char>)
    requires
        w.len() > 0,
        !w.contains(' '),
    ensures
        box_sides(box_tokens(w), default) == (w, w, w, w),
{
    lemma_split_pieces_have_no_space(w);
    lemma_split_single(w);
    reveal_with_fuel(Seq::filter, 2);
    assert(seq![w].drop_last() =~= Seq::<Seq<char>>::empty());
    assert(box_tokens(w) =~= seq![w]);
}

proof fn lemma_split_single(w: Seq<char>)
    requires
        !w.contains(' '),
    ensures
        split_on(w, ' ') == seq![w],
    decreases w.len(),
{
    if w.len() > 0 {
        let p = w.drop_last();
        assert(!p.contains(' ')) by {
            if p.contains(' ') {
                let k = choose|k: int| 0 <= k < p.len() && p[k] == ' ';
                assert(w[k] == ' ');
            }
        }
        lemma_split_single(p);
        assert(w.last() != ' ') by {
            assert(w[w.len() - 1] == w.last());
        }
        assert(p.push(w.last()) =~= w);
        assert(seq![p].update(0, p.push(w.last())) =~= seq![w]);
    } else {
        assert(w =~= Seq::<char>::empty());
    }
}

/// Splits a box shorthand such as `"1px 2px"` into its four sides
/// (top, right, bottom, left), following CSS: one word applies to all
/// sides, two words give vertical and horizontal, three give top,
/// horizontal and bottom, four give each side. With no word at all
/// every side is `default`.
pub fn parse_box_prop(str: &str, default: &str) -> (r: (String, String, String, String))
    ensures
        (r.0@, r.1@, r.2@, r.3@) == box_sides(box_tokens(str@), default@),
{
    let n = str.unicode_len();
    let mut done: Vec<String> = Vec::new();
    let mut cur = String::new();
    let ghost mut closed: Seq<Seq<char>> = Seq::empty();
    let ghost pred = |t: Seq<char>| is_nonempty(t);
    proof {
        assert(str@.take(0) =~= Seq::<char>::empty());
        reveal(Seq::filter);
    }
    let mut i: usize = 0;
    while i < n
        invariant
            n == str@.len(),
            i <= n,
            pred == (|t: Seq<char>| is_nonempty(t)),
            split_on(str@.take(i as int), ' ') == closed.push(cur@),
            strings_view(done@) == closed.filter(pred),
        decreases n - i,
    {
        let c = str.get_char(i);
        proof {
            assert(str@.take(i + 1).drop_last() =~= str@.take(i as int));
            assert(str@.take(i + 1).last() == c);
            lemma_split_nonempty(str@.take(i as int), ' ');
        }
        if c == ' ' {
            let ghost old_closed = closed;
            proof {
                closed = closed.push(cur@);
                reveal(Seq::filter);
                assert(closed.drop_last() =~= old_closed);
            }
            if !cur.as_str().is_empty() {
                let piece = cur;
                done.push(piece);
                cur = String::new();
            } else {
                cur = String::new();
            }
            proof {
                assert(strings_view(done@) =~= closed.filter(pred));
                assert(cur@ =~= Seq::<char>::empty());
            }
        } else {
            let ch = str.substring_char(i, i + 1);
            proof {
                assert(ch@ =~= seq![c]);
            }
            let ghost old_cur = cur@;
            cur.append(ch);
            proof {
                assert(cur@ =~= old_cur.push(c));
                assert(closed.push(old_cur).update(closed.len() as int, old_cur.push(c))
                    =~= closed.push(cur@));
            }
        }
        i = i + 1;
    }
    proof {
        assert(str@.take(n as int) =~= str@);
        reveal(Seq::filter);
        assert(closed.push(cur@).drop_last() =~= closed);
    }
    if !cur.as_str().is_empty() {
        done.push(cur);
    }
    proof {
        assert(strings_view(done@) =~= box_tokens(str@));
    }
    let len = done.len();
    let top = if len > 0 { done[0].clone() } else { String::from_str(default) };
    let right = if len > 1 { done[1].clone() } else { top.clone() };
    let bottom = if len > 2 { done[2].clone() } else { top.clone() };
    let left = if len > 3 { done[3].clone() } else { right.clone() };
    proof {
        let t = box_tokens(str@);
        assert(len > 0 ==> done@[0]@ == t[0]);
        assert(len > 1 ==> done@[1]@ == t[1]);
        assert(len > 2 ==> done@[2]@ == t[2]);
        assert(len > 3 ==> done@[3]@ == t[3]);
    }
    (top, right, bottom, left)
}

} // verus!
