use vstd::prelude::*;
use crate::style::key::{StylePropKey, key_lookup};
use crate::text::{lower_text, str_eq, to_lowercase};
use crate::style::number::{f32_text, is_f32_text};

verus! {

/// A value type that a style property can hold: it can be read from the
/// text of a style declaration and written back as text.
pub trait PropValueParse: Sized {
    /// Whether `value` is text that this type can be read from.
    spec fn accepts(value: Seq<char>) -> bool;

    /// Whether `self` is what reading `value` gives.
    spec fn read_from(&self, value: Seq<char>) -> bool;

    /// The text that `self` is written as.
    spec fn style_text(&self) -> Seq<char>;

    fn parse_prop_value(value: &str) -> (r: Option<Self>)
        ensures
            r is Some <==> Self::accepts(value@),
            r matches Some(v) ==> v.read_from(value@),
    ;

    fn to_style_string(&self) -> (s: String)
        ensures
            s@ == self.style_text(),
    ;
}

impl PropValueParse for String {
    open spec fn accepts(value: Seq<char>) -> bool {
        true
    }

    open spec fn read_from(&self, value: Seq<char>) -> bool {
        self@ == value
    }

    open spec fn style_text(&self) -> Seq<char> {
        self@
    }

    fn parse_prop_value(value: &str) -> (r: Option<Self>) {
        Some(String::from_str(value))
    }

    fn to_style_string(&self) -> (s: String) {
        self.clone()
    }
}

/// The value of a declared style property: a value of its own, or the
/// keyword `inherit` (take the parent's value), or `unset` (take the default).
#[derive(Clone, Debug, PartialEq)]
pub enum StylePropVal<T: PropValueParse> {
    Custom(T),
    Inherit,
    Unset,
}

pub open spec fn prop_val_text<T: PropValueParse>(v: StylePropVal<T>) -> Seq<char> {
    match v {
        StylePropVal::Custom(t) => t.style_text(),
        StylePropVal::Inherit => "inherit"@,
        StylePropVal::Unset => "unset"@,
    }
}

impl<T: Clone + PropValueParse> StylePropVal<T> {
    pub fn to_style_string(&self) -> (s: String)
        ensures
            s@ == prop_val_text(*self),
    {
        match self {
            StylePropVal::Custom(v) => v.to_style_string(),
            StylePropVal::Inherit => String::from_str("inherit"),
            StylePropVal::Unset => String::from_str("unset"),
        }
    }
}

/// A declared style property: which property, and its declared value.
/// A value is kept as the text it was declared with.
#[derive(Clone, Debug)]
pub struct FixedStyleProp {
    pub key: StylePropKey,
    pub value: StylePropVal<String>,
}

/// A style property with its value resolved: no keyword is left.
#[derive(Clone, Debug)]
pub struct ResolvedStyleProp {
    pub key: StylePropKey,
    pub value: String,
}

/// A declared value as text: its own text, or one of the two keywords.
pub enum DeclaredValue {
    Custom(Seq<char>),
    Inherit,
    Unset,
}

pub open spec fn value_view(v: StylePropVal<String>) -> DeclaredValue {
    match v {
        StylePropVal::Custom(s) => DeclaredValue::Custom(s@),
        StylePropVal::Inherit => DeclaredValue::Inherit,
        StylePropVal::Unset => DeclaredValue::Unset,
    }
}

/// The declared value that reading `value` gives: the keywords are
/// recognised whatever their case, any other text is kept as it is.
pub open spec fn declared(value: Seq<char>) -> DeclaredValue {
    if lower_text(value) == "inherit"@ {
        DeclaredValue::Inherit
    } else if lower_text(value) == "unset"@ {
        DeclaredValue::Unset
    } else {
        DeclaredValue::Custom(value)
    }
}

/// The properties whose values are numbers (32-bit floats).
pub open spec fn is_f32_key(k: StylePropKey) -> bool {
    ||| k == StylePropKey::Flex
    ||| k == StylePropKey::FlexGrow
    ||| k == StylePropKey::FlexShrink
    ||| k == StylePropKey::AnimationDuration
    ||| k == StylePropKey::AnimationIterationCount
}

/// Whether property `k` can hold a value written `value`: a number
/// property only text that a float can be read from; the others any text.
pub open spec fn accepts_text(k: StylePropKey, value: Seq<char>) -> bool {
    !is_f32_key(k) || f32_text(value)
}

fn f32_key(k: StylePropKey) -> (r: bool)
    ensures
        r == is_f32_key(k),
{
    match k {
        StylePropKey::Flex | StylePropKey::FlexGrow | StylePropKey::FlexShrink
        | StylePropKey::AnimationDuration | StylePropKey::AnimationIterationCount => true,
        _ => false,
    }
}

/// What reading the declaration `key: value` gives, if the key is known
/// and, for a value of its own, the property can hold it.
pub open spec fn decl_view(key: Seq<char>, value: Seq<char>) -> Option<(StylePropKey, DeclaredValue)> {
    match key_lookup(lower_text(key)) {
        Some(k) => match declared(value) {
            DeclaredValue::Custom(v) => if accepts_text(k, v) {
                Some((k, DeclaredValue::Custom(v)))
            } else {
                None
            },
            d => Some((k, d)),
        },
        None => None,
    }
}

impl View for FixedStyleProp {
    type V = (StylePropKey, DeclaredValue);

    open spec fn view(&self) -> (StylePropKey, DeclaredValue) {
        (self.key, value_view(self.value))
    }
}

/// What resolving `p` gives, where `default` is the property's default
/// value and `parent` the parent's value of it.
pub open spec fn resolved(p: FixedStyleProp, default: ResolvedStyleProp, parent: ResolvedStyleProp) -> ResolvedStyleProp {
    match p.value {
        StylePropVal::Custom(v) => ResolvedStyleProp { key: p.key, value: v },
        StylePropVal::Unset => default,
        StylePropVal::Inherit => parent,
    }
}

pub open spec fn unresolved(r: ResolvedStyleProp) -> FixedStyleProp {
    FixedStyleProp { key: r.key, value: StylePropVal::Custom(r.value) }
}

impl ResolvedStyleProp {
    /// A copy of this property.
    pub fn duplicate(&self) -> (r: Self)
        ensures
            r == *self,
    {
        ResolvedStyleProp { key: self.key, value: self.value.clone() }
    }

    pub fn key(&self) -> (k: StylePropKey)
        ensures
            k == self.key,
    {
        self.key
    }

    /// The declared form of a resolved value.
    pub fn to_unresolved(&self) -> (p: FixedStyleProp)
        ensures
            p == unresolved(*self),
    {
        FixedStyleProp { key: self.key, value: StylePropVal::Custom(self.value.clone()) }
    }
}

impl FixedStyleProp {
    /// A copy of this property.
    pub fn duplicate(&self) -> (r: Self)
        ensures
            r == *self,
    {
        let value = match &self.value {
            StylePropVal::Custom(v) => StylePropVal::Custom(v.clone()),
            StylePropVal::Inherit => StylePropVal::Inherit,
            StylePropVal::Unset => StylePropVal::Unset,
        };
        FixedStyleProp { key: self.key, value }
    }

    /// Reads a value of its own for the property `key`: any text, but for a
    /// number property only text that a float can be read from.
    pub fn parse_value(key: StylePropKey, value: &str) -> (r: Option<FixedStyleProp>)
        ensures
            r is Some <==> accepts_text(key, value@),
            r matches Some(p) ==> p.key == key,
            r matches Some(p) ==> (p.value matches StylePropVal::Custom(s) && s@ == value@),
    {
        if f32_key(key) && !is_f32_text(value) {
            return None;
        }
        match String::parse_prop_value(value) {
            Some(v) => Some(FixedStyleProp { key, value: StylePropVal::Custom(v) }),
            None => None,
        }
    }

    /// Reads a declaration `key: value`. The key is matched whatever its
    /// case; `inherit` and `unset` are recognised whatever their case.
    /// An unknown key gives `None`.
    pub fn parse(key: &str, value: &str) -> (r: Option<FixedStyleProp>)
        ensures
            match r {
                Some(p) => decl_view(key@, value@) == Some(p@),
                None => decl_view(key@, value@) is None,
            },
    {
        let k = match StylePropKey::parse(key) {
            Some(k) => k,
            None => return None,
        };
        let lowered = to_lowercase(value);
        if str_eq(lowered.as_str(), "inherit") {
            Some(FixedStyleProp { key: k, value: StylePropVal::Inherit })
        } else if str_eq(lowered.as_str(), "unset") {
            Some(FixedStyleProp { key: k, value: StylePropVal::Unset })
        } else {
            FixedStyleProp::parse_value(k, value)
        }
    }

    pub fn name(&self) -> (r: &str)
        ensures
            r@ == crate::style::key::key_name(self.key),
    {
        self.key.name()
    }

    pub fn key(&self) -> (k: StylePropKey)
        ensures
            k == self.key,
    {
        self.key
    }

    /// The same property declared `unset`.
    pub fn unset(&self) -> (p: Self)
        ensures
            p == (FixedStyleProp { key: self.key, value: StylePropVal::Unset }),
    {
        FixedStyleProp { key: self.key, value: StylePropVal::Unset }
    }

    pub fn is_inherited(&self) -> (b: bool)
        ensures
            b == (self.value == StylePropVal::<String>::Inherit),
    {
        match self.value {
            StylePropVal::Inherit => true,
            _ => false,
        }
    }

    pub fn to_style_string(&self) -> (s: String)
        ensures
            s@ == prop_val_text(self.value),
    {
        self.value.to_style_string()
    }

    /// Resolves the declared value: a value of its own is kept, `unset`
    /// takes `default_value(key)`, `inherit` takes `parent_value(key)`.
    pub fn resolve_value<D: Fn(StylePropKey) -> ResolvedStyleProp, P: Fn(StylePropKey) -> ResolvedStyleProp>(
        &self,
        default_value: D,
        parent_value: P,
    ) -> (r: ResolvedStyleProp)
        requires
            default_value.requires((self.key,)),
            parent_value.requires((self.key,)),
        ensures
            match self.value {
                StylePropVal::Custom(v) => r == (ResolvedStyleProp { key: self.key, value: v }),
                StylePropVal::Unset => default_value.ensures((self.key,), r),
                StylePropVal::Inherit => parent_value.ensures((self.key,), r),
            },
    {
        match &self.value {
            StylePropVal::Custom(v) => ResolvedStyleProp { key: self.key, value: v.clone() },
            StylePropVal::Unset => default_value(self.key),
            StylePropVal::Inherit => parent_value(self.key),
        }
    }
}

/// Resolving the declared form of a resolved value gives it back.
pub proof fn law_resolve_unresolved(r: ResolvedStyleProp, default: ResolvedStyleProp, parent: ResolvedStyleProp)
    ensures
        resolved(unresolved(r), default, parent) == r,
{
}

/// A property declared `unset` resolves to its default, one declared
/// `inherit` to its parent's value.
pub proof fn law_keywords_resolve(p: FixedStyleProp, default: ResolvedStyleProp, parent: ResolvedStyleProp)
    ensures
        resolved(FixedStyleProp { key: p.key, value: StylePropVal::Unset }, default, parent) == default,
        resolved(FixedStyleProp { key: p.key, value: StylePropVal::Inherit }, default, parent) == parent,
{
}

/// A declaration whose value is no keyword writes back as the text it was
/// declared with.
pub proof fn law_declared_text_round_trip(v: StylePropVal<String>, value: Seq<char>)
    requires
        value_view(v) == declared(value),
        lower_text(value) != "inherit"@,
        lower_text(value) != "unset"@,
    ensures
        prop_val_text(v) == value,
{
}

/// The declared forms of resolved properties.
pub open spec fn unresolved_all(styles: Seq<ResolvedStyleProp>) -> Seq<FixedStyleProp> {
    styles.map_values(|r: ResolvedStyleProp| unresolved(r))
}

/// The declared form of each resolved property, in order.
pub fn to_unresolved_all(styles: &Vec<ResolvedStyleProp>) -> (r: Vec<FixedStyleProp>)
    ensures
        r@ == unresolved_all(styles@),
{
    let mut fixed: Vec<FixedStyleProp> = Vec::new();
    let n = styles.len();
    let mut i: usize = 0;
    while i < n
        invariant
            n == styles@.len(),
            i <= n,
            fixed@ == unresolved_all(styles@.take(i as int)),
        decreases n - i,
    {
        fixed.push(styles[i].to_unresolved());
        proof {
            assert(fixed@ =~= unresolved_all(styles@.take(i + 1)));
        }
        i = i + 1;
    }
    proof {
        assert(styles@.take(n as int) =~= styles@);
    }
    fixed
}

/// A copy of each property, in order.
pub fn duplicate_props(v: &Vec<FixedStyleProp>) -> (r: Vec<FixedStyleProp>)
    ensures
        r@ == v@,
{
    let mut out: Vec<FixedStyleProp> = Vec::new();
    let n = v.len();
    let mut i: usize = 0;
    while i < n
        invariant
            n == v@.len(),
            i <= n,
            out@ == v@.take(i as int),
        decreases n - i,
    {
        out.push(v[i].duplicate());
        proof {
            assert(out@ =~= v@.take(i + 1));
        }
        i = i + 1;
    }
    proof {
        assert(v@.take(n as int) =~= v@);
    }
    out
}

} // verus!
