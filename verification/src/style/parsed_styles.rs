use vstd::prelude::*;
use crate::style::box_prop::{split_on, lemma_split_join, lemma_split_nonempty};
use crate::style::key::StylePropKey;
use crate::style::prop::{DeclaredValue, FixedStyleProp, decl_view};
use crate::text::{remove_hyphens, trim, trimmed, without_hyphens};

verus! {

/// Whether `i` is the position of the first `:` of `piece`.
pub open spec fn is_first_colon(piece: Seq<char>, i: int) -> bool {
    &&& 0 <= i < piece.len()
    &&& piece[i] == ':'
    &&& forall|k: int| 0 <= k < i ==> piece[k] != ':'
}

/// The declaration that one `;`-separated piece of a style string holds:
/// the trimmed text before its first `:` and the trimmed text after it.
/// A piece without `:` holds none.
pub open spec fn declaration(piece: Seq<char>) -> Option<(Seq<char>, Seq<char>)> {
    if exists|i: int| is_first_colon(piece, i) {
        let i = choose|i: int| is_first_colon(piece, i);
        Some((trimmed(piece.take(i)), trimmed(piece.skip(i + 1))))
    } else {
        None
    }
}

pub open spec fn declarations_of(pieces: Seq<Seq<char>>) -> Seq<(Seq<char>, Seq<char>)>
    decreases pieces.len(),
{
    if pieces.len() == 0 {
        Seq::empty()
    } else {
        match declaration(pieces.last()) {
            Some(d) => declarations_of(pieces.drop_last()).push(d),
            None => declarations_of(pieces.drop_last()),
        }
    }
}

/// The declarations of a style string such as `"width: 10px; height: 5px"`.
pub open spec fn style_declarations(s: Seq<char>) -> Seq<(Seq<char>, Seq<char>)> {
    declarations_of(split_on(s, ';'))
}

pub open spec fn pairs_view(v: Seq<(String, String)>) -> Seq<(Seq<char>, Seq<char>)> {
    v.map_values(|p: (String, String)| (p.0@, p.1@))
}

/// Reading a style string into its declarations.
pub struct StyleList;

impl StyleList {
    /// The declaration in one piece of a style string, if it holds a `:`.
    pub fn parse_declaration(piece: &str) -> (r: Option<(String, String)>)
        ensures
            match r {
                Some(p) => declaration(piece@) == Some((p.0@, p.1@)),
                None => declaration(piece@) is None,
            },
    {
        let n = piece.unicode_len();
        let mut i: usize = 0;
        while i < n
            invariant
                n == piece@.len(),
                i <= n,
                forall|k: int| 0 <= k < i ==> piece@[k] != ':',
            decreases n - i,
        {
            if piece.get_char(i) == ':' {
                let key = trim(piece.substring_char(0, i));
                let value = trim(piece.substring_char(i + 1, n));
                proof {
                    assert(is_first_colon(piece@, i as int));
                    let j = choose|j: int| is_first_colon(piece@, j);
                    assert(j == i) by {
                        if j < i {
                            assert(piece@[j] != ':');
                        } else if i < j {
                            assert(piece@[i as int] != ':');
                        }
                    }
                    assert(piece@.subrange(0, i as int) =~= piece@.take(i as int));
                    assert(piece@.subrange(i + 1, n as int) =~= piece@.skip(i + 1));
                }
                return Some((String::from_str(key), String::from_str(value)));
            }
            i = i + 1;
        }
        proof {
            assert forall|j: int| !is_first_colon(piece@, j) by {
                if 0 <= j < piece@.len() {
                    assert(piece@[j] != ':');
                }
            }
        }
        None
    }

    /// Splits a style string at each `;` and reads the declaration of each
    /// piece, in order; pieces without `:` are left out.
    pub fn parse_style_list(s: &str) -> (r: Vec<(String, String)>)
        ensures
            pairs_view(r@) == style_declarations(s@),
    {
        let n = s.unicode_len();
        let mut r: Vec<(String, String)> = Vec::new();
        let mut cur = String::new();
        let ghost mut closed: Seq<Seq<char>> = Seq::empty();
        proof {
            assert(s@.take(0) =~= Seq::<char>::empty());
            assert(pairs_view(r@) =~= Seq::<(Seq<char>, Seq<char>)>::empty());
        }
        let mut i: usize = 0;
        while i < n
            invariant
                n == s@.len(),
                i <= n,
                split_on(s@.take(i as int), ';') == closed.push(cur@),
                pairs_view(r@) == declarations_of(closed),
            decreases n - i,
        {
            let c = s.get_char(i);
            proof {
                assert(s@.take(i + 1).drop_last() =~= s@.take(i as int));
                assert(s@.take(i + 1).last() == c);
                lemma_split_nonempty(s@.take(i as int), ';');
            }
            if c == ';' {
                let d = StyleList::parse_declaration(cur.as_str());
                let ghost old_closed = closed;
                let ghost old_r = r@;
                proof {
                    closed = closed.push(cur@);
                    assert(closed.drop_last() =~= old_closed);
                    assert(closed.last() == cur@);
                }
                match d {
                    Some(p) => {
                        r.push(p);
                        proof {
                            assert(pairs_view(r@) =~= pairs_view(old_r).push(
                                (r@.last().0@, r@.last().1@),
                            ));
                        }
                    },
                    None => {},
                }
                cur = String::new();
                proof {
                    assert(cur@ =~= Seq::<char>::empty());
                }
            } else {
                let ch = s.substring_char(i, i + 1);
                let ghost old_cur = cur@;
                cur.append(ch);
                proof {
                    assert(ch@ =~= seq![c]);
                    assert(cur@ =~= old_cur.push(c));
                    assert(closed.push(old_cur).update(closed.len() as int, old_cur.push(c))
                        =~= closed.push(cur@));
                }
            }
            i = i + 1;
        }
        proof {
            assert(s@.take(n as int) =~= s@);
        }
        let d = StyleList::parse_declaration(cur.as_str());
        let ghost old_r = r@;
        proof {
            assert(closed.push(cur@).drop_last() =~= closed);
            assert(closed.push(cur@).last() == cur@);
        }
        match d {
            Some(p) => {
                r.push(p);
                proof {
                    assert(pairs_view(r@) =~= pairs_view(old_r).push((r@.last().0@, r@.last().1@)));
                }
            },
            None => {},
        }
        r
    }
}

/// A property read from a style declaration.
#[derive(Clone, Debug)]
pub enum ParsedStyleProp {
    Fixed(FixedStyleProp),
}

impl View for ParsedStyleProp {
    type V = (StylePropKey, DeclaredValue);

    open spec fn view(&self) -> (StylePropKey, DeclaredValue) {
        match self {
            ParsedStyleProp::Fixed(p) => p@,
        }
    }
}

pub open spec fn props_view(v: Seq<ParsedStyleProp>) -> Seq<(StylePropKey, DeclaredValue)> {
    v.map_values(|p: ParsedStyleProp| p@)
}

/// The properties that the declaration `key: value` gives: the key is read
/// without its hyphens (`flex-direction` names `FlexDirection`); an
/// unknown key gives none.
pub open spec fn parsed_props(key: Seq<char>, value: Seq<char>) -> Seq<(StylePropKey, DeclaredValue)> {
    match decl_view(without_hyphens(key), value) {
        Some(x) => seq![x],
        None => Seq::empty(),
    }
}

pub open spec fn props_of_decls(ds: Seq<(Seq<char>, Seq<char>)>) -> Seq<(StylePropKey, DeclaredValue)>
    decreases ds.len(),
{
    if ds.len() == 0 {
        Seq::empty()
    } else {
        props_of_decls(ds.drop_last()) + parsed_props(ds.last().0, ds.last().1)
    }
}

/// The properties that a style string declares, in order.
pub open spec fn style_props(s: Seq<char>) -> Seq<(StylePropKey, DeclaredValue)> {
    props_of_decls(style_declarations(s))
}

impl ParsedStyleProp {
    /// A copy of this property.
    pub fn duplicate(&self) -> (r: Self)
        ensures
            r == *self,
    {
        match self {
            ParsedStyleProp::Fixed(p) => ParsedStyleProp::Fixed(p.duplicate()),
        }
    }

    /// Reads one declaration.
    pub fn parse(key: &str, value: &str) -> (r: Vec<ParsedStyleProp>)
        ensures
            props_view(r@) == parsed_props(key@, value@),
    {
        let k = remove_hyphens(key);
        match FixedStyleProp::parse(k.as_str(), value) {
            Some(p) => {
                let v = vec![ParsedStyleProp::Fixed(p)];
                proof {
                    assert(props_view(v@) =~= seq![v@[0]@]);
                }
                v
            },
            None => {
                let v: Vec<ParsedStyleProp> = Vec::new();
                proof {
                    assert(props_view(v@) =~= Seq::<(StylePropKey, DeclaredValue)>::empty());
                }
                v
            },
        }
    }
}

/// Style properties read from declarations, in declaration order.
pub struct ParsedStyles(pub Vec<ParsedStyleProp>);

impl View for ParsedStyles {
    type V = Seq<(StylePropKey, DeclaredValue)>;

    open spec fn view(&self) -> Seq<(StylePropKey, DeclaredValue)> {
        props_view(self.0@)
    }
}

/// The reason a style could not be read.
#[derive(Debug)]
pub struct ValueError {
    pub message: String,
}

impl ParsedStyles {
    /// Adds what the declaration `k: v` declares.
    pub fn set_style_str(&mut self, k: &str, v_str: &str)
        ensures
            final(self)@ == old(self)@ + parsed_props(k@, v_str@),
    {
        let list = ParsedStyleProp::parse(k, v_str);
        let n = list.len();
        let ghost start = self@;
        let mut i: usize = 0;
        while i < n
            invariant
                n == list@.len(),
                i <= n,
                props_view(list@) == parsed_props(k@, v_str@),
                self@ == start + props_view(list@).take(i as int),
            decreases n - i,
        {
            let ghost before = self@;
            self.0.push(list[i].duplicate());
            proof {
                assert(self@ =~= before.push(list@[i as int]@));
                assert(props_view(list@).take(i + 1) =~= props_view(list@).take(i as int).push(
                    list@[i as int]@,
                ));
            }
            i = i + 1;
        }
        proof {
            assert(props_view(list@).take(n as int) =~= props_view(list@));
        }
    }

    /// The style that declares exactly the given properties.
    pub fn from_fixed(styles: Vec<FixedStyleProp>) -> (r: Self)
        ensures
            r@ == styles@.map_values(|p: FixedStyleProp| p@),
    {
        let mut v: Vec<ParsedStyleProp> = Vec::new();
        let n = styles.len();
        let mut i: usize = 0;
        while i < n
            invariant
                n == styles@.len(),
                i <= n,
                props_view(v@) == styles@.take(i as int).map_values(|p: FixedStyleProp| p@),
            decreases n - i,
        {
            let ghost before = v@;
            v.push(ParsedStyleProp::Fixed(styles[i].duplicate()));
            proof {
                assert(styles@.take(i + 1) =~= styles@.take(i as int).push(styles@[i as int]));
                assert(styles@.take(i + 1).map_values(|p: FixedStyleProp| p@) =~= styles@.take(
                    i as int,
                ).map_values(|p: FixedStyleProp| p@).push(styles@[i as int]@));
                assert(props_view(v@) =~= props_view(before).push(styles@[i as int]@));
                assert(props_view(v@) =~= styles@.take(i + 1).map_values(|p: FixedStyleProp| p@));
            }
            i = i + 1;
        }
        proof {
            assert(styles@.take(n as int) =~= styles@);
        }
        ParsedStyles(v)
    }

    /// Reads a style string such as `"width: 10px; height: 5px"`; unknown
    /// keys and pieces without `:` are left out. It always succeeds.
    pub fn from_string(s: &str) -> (r: Result<Self, ValueError>)
        ensures
            r matches Ok(styles) && styles@ == style_props(s@),
    {
        let mut r = ParsedStyles(Vec::new());
        let list = StyleList::parse_style_list(s);
        let n = list.len();
        proof {
            assert(r@ =~= Seq::<(StylePropKey, DeclaredValue)>::empty());
        }
        let mut i: usize = 0;
        while i < n
            invariant
                n == list@.len(),
                i <= n,
                pairs_view(list@) == style_declarations(s@),
                r@ == props_of_decls(pairs_view(list@).take(i as int)),
            decreases n - i,
        {
            let (k, v) = (&list[i].0, &list[i].1);
            r.set_style_str(k.as_str(), v.as_str());
            proof {
                let ds = pairs_view(list@).take(i + 1);
                assert(ds.drop_last() =~= pairs_view(list@).take(i as int));
                assert(ds.last() == (k@, v@));
            }
            i = i + 1;
        }
        proof {
            assert(pairs_view(list@).take(n as int) =~= pairs_view(list@));
        }
        Ok(r)
    }
}

/// A style as scripts give it: a style string, or an object whose
/// properties hold text (numbers are given as their text); any other value
/// declares nothing.
pub enum JsStyleValue {
    Text(String),
    Object(Vec<(String, String)>),
    Other,
}

impl ParsedStyles {
    /// Reads a style that a script gave: a string as `from_string` reads
    /// it, an object one property at a time, in order. It always succeeds.
    pub fn from_js_value(style: JsStyleValue) -> (r: Result<Self, ValueError>)
        ensures
            r matches Ok(styles) && styles@ == match style {
                JsStyleValue::Text(s) => style_props(s@),
                JsStyleValue::Object(pairs) => props_of_decls(pairs_view(pairs@)),
                JsStyleValue::Other => Seq::empty(),
            },
    {
        match style {
            JsStyleValue::Text(s) => ParsedStyles::from_string(s.as_str()),
            JsStyleValue::Object(pairs) => {
                let mut r = ParsedStyles(Vec::new());
                let n = pairs.len();
                proof {
                    assert(r@ =~= Seq::<(StylePropKey, DeclaredValue)>::empty());
                }
                let mut i: usize = 0;
                while i < n
                    invariant
                        n == pairs@.len(),
                        i <= n,
                        r@ == props_of_decls(pairs_view(pairs@).take(i as int)),
                    decreases n - i,
                {
                    let (k, v) = (&pairs[i].0, &pairs[i].1);
                    r.set_style_str(k.as_str(), v.as_str());
                    proof {
                        let ds = pairs_view(pairs@).take(i + 1);
                        assert(ds.drop_last() =~= pairs_view(pairs@).take(i as int));
                        assert(ds.last() == (k@, v@));
                    }
                    i = i + 1;
                }
                proof {
                    assert(pairs_view(pairs@).take(n as int) =~= pairs_view(pairs@));
                }
                Ok(r)
            },
            JsStyleValue::Other => {
                let r = ParsedStyles(Vec::new());
                proof {
                    assert(r@ =~= Seq::<(StylePropKey, DeclaredValue)>::empty());
                }
                Ok(r)
            },
        }
    }
}

/// The properties of a style string known to be well formed, as the
/// widgets declare their own styles.
pub fn style_of(text: &str) -> (r: ParsedStyles)
    ensures
        r@ == style_props(text@),
{
    match ParsedStyles::from_string(text) {
        Ok(s) => s,
        Err(_) => ParsedStyles(Vec::new()),
    }
}

proof fn lemma_declarations_join(a: Seq<Seq<char>>, b: Seq<Seq<char>>)
    ensures
        declarations_of(a + b) == declarations_of(a) + declarations_of(b),
    decreases b.len(),
{
    if b.len() == 0 {
        assert(a + b =~= a);
        assert(declarations_of(a) + declarations_of(b) =~= declarations_of(a));
    } else {
        lemma_declarations_join(a, b.drop_last());
        assert((a + b).drop_last() =~= a + b.drop_last());
        assert((a + b).last() == b.last());
        match declaration(b.last()) {
            Some(d) => {
                assert(declarations_of(a) + declarations_of(b.drop_last()).push(d) =~= (
                declarations_of(a) + declarations_of(b.drop_last())).push(d));
            },
            None => {},
        }
    }
}

proof fn lemma_props_join(a: Seq<(Seq<char>, Seq<char>)>, b: Seq<(Seq<char>, Seq<char>)>)
    ensures
        props_of_decls(a + b) == props_of_decls(a) + props_of_decls(b),
    decreases b.len(),
{
    if b.len() == 0 {
        assert(a + b =~= a);
        assert(props_of_decls(a) + props_of_decls(b) =~= props_of_decls(a));
    } else {
        lemma_props_join(a, b.drop_last());
        assert((a + b).drop_last() =~= a + b.drop_last());
        assert((a + b).last() == b.last());
        assert(props_of_decls(a) + (props_of_decls(b.drop_last()) + parsed_props(
            b.last().0,
            b.last().1,
        )) =~= (props_of_decls(a) + props_of_decls(b.drop_last())) + parsed_props(
            b.last().0,
            b.last().1,
        ));
    }
}

/// Two style strings joined by `;` declare what the first declares
/// followed by what the second declares.
pub proof fn law_style_props_join(a: Seq<char>, b: Seq<char>)
    ensures
        style_props(a + seq![';'] + b) == style_props(a) + style_props(b),
{
    lemma_split_join(a, b, ';');
    lemma_declarations_join(split_on(a, ';'), split_on(b, ';'));
    lemma_props_join(style_declarations(a), style_declarations(b));
}

} // verus!
