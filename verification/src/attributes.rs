//! Flat lists of named scalar values: the attributes of a JSON:API request
//! body, or the parameters of a query, in the order they are set.

use vstd::prelude::*;

use crate::license::UpdateField;
use crate::text::to_string;

verus! {

/// A JSON value, carried through unread (metadata maps hold them).
#[verifier::external_type_specification]
#[verifier::external_body]
pub struct ExJsonValue(serde_json::Value);

/// A scalar attribute value.
#[derive(Debug, Clone, PartialEq, Eq)]
pub enum AttributeValue {
    Text(String),
    Integer(i64),
    Unsigned(u64),
    Flag(bool),
    Texts(Vec<String>),
    /// An explicit JSON `null`, which clears the field.
    Null,
}

/// The mathematical value of an attribute.
pub enum AttributeView {
    Text(Seq<char>),
    Integer(int),
    Flag(bool),
    Texts(Seq<Seq<char>>),
    Null,
}

/// The views of a list of strings.
pub open spec fn text_views(v: Seq<String>) -> Seq<Seq<char>> {
    v.map_values(|s: String| s@)
}

impl View for AttributeValue {
    type V = AttributeView;

    open spec fn view(&self) -> AttributeView {
        match self {
            AttributeValue::Text(s) => AttributeView::Text(s@),
            AttributeValue::Integer(i) => AttributeView::Integer(*i as int),
            AttributeValue::Unsigned(u) => AttributeView::Integer(*u as int),
            AttributeValue::Flag(b) => AttributeView::Flag(*b),
            AttributeValue::Texts(v) => AttributeView::Texts(text_views(v@)),
            AttributeValue::Null => AttributeView::Null,
        }
    }
}

/// The (name, value) views of an attribute list.
#[verifier::opaque]
pub open spec fn attribute_views(v: Seq<(String, AttributeValue)>) -> Seq<(Seq<char>, AttributeView)> {
    v.map_values(|p: (String, AttributeValue)| (p.0@, p.1@))
}

/// A text attribute, when the value is present.
pub open spec fn text_attr(name: Seq<char>, v: Option<Seq<char>>) -> Seq<(Seq<char>, AttributeView)> {
    match v {
        Some(s) => seq![(name, AttributeView::Text(s))],
        None => Seq::empty(),
    }
}

/// An integer attribute, when the value is present.
pub open spec fn int_attr(name: Seq<char>, v: Option<int>) -> Seq<(Seq<char>, AttributeView)> {
    match v {
        Some(i) => seq![(name, AttributeView::Integer(i))],
        None => Seq::empty(),
    }
}

/// A boolean attribute, when the value is present.
pub open spec fn flag_attr(name: Seq<char>, v: Option<bool>) -> Seq<(Seq<char>, AttributeView)> {
    match v {
        Some(b) => seq![(name, AttributeView::Flag(b))],
        None => Seq::empty(),
    }
}

/// A list-of-texts attribute, when the list is present.
pub open spec fn texts_attr(name: Seq<char>, v: Option<Seq<Seq<char>>>) -> Seq<(Seq<char>, AttributeView)> {
    match v {
        Some(l) => seq![(name, AttributeView::Texts(l))],
        None => Seq::empty(),
    }
}

/// An attribute whose update is `u`: nothing when the field is kept, a
/// `null` when it is cleared, the value when it is set.
pub open spec fn update_attr(name: Seq<char>, u: UpdateField<AttributeView>) -> Seq<(Seq<char>, AttributeView)> {
    match u {
        UpdateField::Keep => Seq::empty(),
        UpdateField::Clear => seq![(name, AttributeView::Null)],
        UpdateField::SetTo(v) => seq![(name, v)],
    }
}

/// The value of an optional unsigned 64-bit integer.
pub open spec fn opt_u64(v: Option<u64>) -> Option<int> {
    match v {
        Some(i) => Some(i as int),
        None => None,
    }
}

/// The view of an optional string.
pub open spec fn opt_chars(v: Option<String>) -> Option<Seq<char>> {
    match v {
        Some(s) => Some(s@),
        None => None,
    }
}

/// The value of an optional 64-bit integer.
pub open spec fn opt_i64(v: Option<i64>) -> Option<int> {
    match v {
        Some(i) => Some(i as int),
        None => None,
    }
}

/// The value of an optional 32-bit integer.
pub open spec fn opt_i32(v: Option<i32>) -> Option<int> {
    match v {
        Some(i) => Some(i as int),
        None => None,
    }
}

/// A copy of an optional string.
pub fn copy_text(v: &Option<String>) -> (r: Option<String>)
    ensures
        opt_chars(r) == opt_chars(*v),
{
    match v {
        Some(s) => Some(s.clone()),
        None => None,
    }
}

/// Appends a text attribute when the value is present.
pub fn push_text(attrs: Vec<(String, AttributeValue)>, name: &str, v: Option<String>) -> (r: Vec<(String, AttributeValue)>)
    ensures
        attribute_views(r@) == attribute_views(attrs@) + text_attr(name@, opt_chars(v)),
{
    reveal(attribute_views);
    let mut attrs = attrs;
    let ghost before = attribute_views(attrs@);
    match v {
        Some(s) => {
            attrs.push((to_string(name), AttributeValue::Text(s)));
        },
        None => {},
    }
    assert(attribute_views(attrs@) =~= before + text_attr(name@, opt_chars(v)));
    attrs
}

/// Appends a 64-bit integer attribute when the value is present.
pub fn push_i64(attrs: Vec<(String, AttributeValue)>, name: &str, v: Option<i64>) -> (r: Vec<(String, AttributeValue)>)
    ensures
        attribute_views(r@) == attribute_views(attrs@) + int_attr(name@, opt_i64(v)),
{
    reveal(attribute_views);
    let mut attrs = attrs;
    let ghost before = attribute_views(attrs@);
    match v {
        Some(i) => {
            attrs.push((to_string(name), AttributeValue::Integer(i)));
        },
        None => {},
    }
    assert(attribute_views(attrs@) =~= before + int_attr(name@, opt_i64(v)));
    attrs
}

/// Appends a 32-bit integer attribute when the value is present.
pub fn push_i32(attrs: Vec<(String, AttributeValue)>, name: &str, v: Option<i32>) -> (r: Vec<(String, AttributeValue)>)
    ensures
        attribute_views(r@) == attribute_views(attrs@) + int_attr(name@, opt_i32(v)),
{
    reveal(attribute_views);
    let mut attrs = attrs;
    let ghost before = attribute_views(attrs@);
    match v {
        Some(i) => {
            attrs.push((to_string(name), AttributeValue::Integer(i as i64)));
        },
        None => {},
    }
    assert(attribute_views(attrs@) =~= before + int_attr(name@, opt_i32(v)));
    attrs
}

/// The views of an optional list of strings.
pub open spec fn opt_texts(v: Option<Vec<String>>) -> Option<Seq<Seq<char>>> {
    match v {
        Some(l) => Some(text_views(l@)),
        None => None,
    }
}

/// A copy of an optional list of strings.
pub fn copy_texts(v: &Option<Vec<String>>) -> (r: Option<Vec<String>>)
    ensures
        opt_texts(r) == opt_texts(*v),
{
    match v {
        Some(l) => {
            let mut out: Vec<String> = Vec::new();
            let mut i: usize = 0;
            while i < l.len()
                invariant
                    i <= l@.len(),
                    text_views(out@) =~= text_views(l@.take(i as int)),
                decreases l@.len() - i,
            {
                out.push(l[i].clone());
                assert(text_views(l@.take(i + 1)) =~= text_views(l@.take(i as int)).push(
                    l@[i as int]@,
                ));
                i = i + 1;
            }
            assert(l@.take(i as int) =~= l@);
            Some(out)
        },
        None => None,
    }
}

/// The value of an optional unsigned 32-bit integer.
pub open spec fn opt_u32(v: Option<u32>) -> Option<int> {
    match v {
        Some(i) => Some(i as int),
        None => None,
    }
}

/// Appends an unsigned 32-bit integer attribute when the value is present.
pub fn push_u32(attrs: Vec<(String, AttributeValue)>, name: &str, v: Option<u32>) -> (r: Vec<(String, AttributeValue)>)
    ensures
        attribute_views(r@) == attribute_views(attrs@) + int_attr(name@, opt_u32(v)),
{
    reveal(attribute_views);
    let mut attrs = attrs;
    let ghost before = attribute_views(attrs@);
    match v {
        Some(i) => {
            attrs.push((to_string(name), AttributeValue::Integer(i as i64)));
        },
        None => {},
    }
    assert(attribute_views(attrs@) =~= before + int_attr(name@, opt_u32(v)));
    attrs
}

/// Appends an unsigned 64-bit integer attribute when the value is present.
pub fn push_u64(attrs: Vec<(String, AttributeValue)>, name: &str, v: Option<u64>) -> (r: Vec<(String, AttributeValue)>)
    ensures
        attribute_views(r@) == attribute_views(attrs@) + int_attr(name@, opt_u64(v)),
{
    reveal(attribute_views);
    let mut attrs = attrs;
    let ghost before = attribute_views(attrs@);
    match v {
        Some(i) => {
            attrs.push((to_string(name), AttributeValue::Unsigned(i)));
        },
        None => {},
    }
    assert(attribute_views(attrs@) =~= before + int_attr(name@, opt_u64(v)));
    attrs
}

/// Appends the attribute an update asks for: nothing when the field is
/// kept, a `null` when it is cleared, the value when it is set.
pub fn push_update(attrs: Vec<(String, AttributeValue)>, name: &str, u: UpdateField<AttributeValue>) -> (r: Vec<
    (String, AttributeValue),
>)
    ensures
        attribute_views(r@) == attribute_views(attrs@) + update_attr(name@, u.view_update()),
{
    reveal(attribute_views);
    let mut attrs = attrs;
    let ghost before = attribute_views(attrs@);
    let ghost uv = u.view_update();
    match u {
        UpdateField::Keep => {},
        UpdateField::Clear => {
            attrs.push((to_string(name), AttributeValue::Null));
        },
        UpdateField::SetTo(v) => {
            attrs.push((to_string(name), v));
        },
    }
    assert(attribute_views(attrs@) =~= before + update_attr(name@, uv));
    attrs
}

/// The update of a text field, as an attribute update.
pub fn text_update(u: &UpdateField<String>) -> (r: UpdateField<AttributeValue>)
    ensures
        r.view_update() == u.map_view(|s: String| AttributeView::Text(s@)),
{
    match u {
        UpdateField::Keep => UpdateField::Keep,
        UpdateField::Clear => UpdateField::Clear,
        UpdateField::SetTo(s) => UpdateField::SetTo(AttributeValue::Text(s.clone())),
    }
}

/// The update of a 32-bit integer field, as an attribute update.
pub fn i32_update(u: &UpdateField<i32>) -> (r: UpdateField<AttributeValue>)
    ensures
        r.view_update() == u.map_view(|i: i32| AttributeView::Integer(i as int)),
{
    match u {
        UpdateField::Keep => UpdateField::Keep,
        UpdateField::Clear => UpdateField::Clear,
        UpdateField::SetTo(i) => UpdateField::SetTo(AttributeValue::Integer(*i as i64)),
    }
}

/// The update of a 64-bit integer field, as an attribute update.
pub fn i64_update(u: &UpdateField<i64>) -> (r: UpdateField<AttributeValue>)
    ensures
        r.view_update() == u.map_view(|i: i64| AttributeView::Integer(i as int)),
{
    match u {
        UpdateField::Keep => UpdateField::Keep,
        UpdateField::Clear => UpdateField::Clear,
        UpdateField::SetTo(i) => UpdateField::SetTo(AttributeValue::Integer(*i)),
    }
}

/// A to-one relationship of a request body: its name, and the type and id
/// of the resource it links to.
#[derive(Debug, Clone, PartialEq, Eq)]
pub struct Relationship {
    pub name: String,
    pub kind: String,
    pub id: String,
}

/// The (name, type, id) views of a list of relationships.
pub open spec fn relationship_views(v: Seq<Relationship>) -> Seq<(Seq<char>, Seq<char>, Seq<char>)> {
    v.map_values(|r: Relationship| (r.name@, r.kind@, r.id@))
}

/// A relationship, when the id is present.
pub open spec fn relationship_of(name: Seq<char>, kind: Seq<char>, id: Option<Seq<char>>) -> Seq<
    (Seq<char>, Seq<char>, Seq<char>),
> {
    match id {
        Some(i) => seq![(name, kind, i)],
        None => Seq::empty(),
    }
}

/// Appends a relationship when the id is present.
pub fn push_relationship(rels: Vec<Relationship>, name: &str, kind: &str, id: Option<String>) -> (r: Vec<Relationship>)
    ensures
        relationship_views(r@) == relationship_views(rels@) + relationship_of(name@, kind@, opt_chars(id)),
{
    let mut rels = rels;
    let ghost before = relationship_views(rels@);
    match id {
        Some(i) => {
            rels.push(Relationship { name: to_string(name), kind: to_string(kind), id: i });
        },
        None => {},
    }
    assert(relationship_views(rels@) =~= before + relationship_of(name@, kind@, opt_chars(id)));
    rels
}

/// Appends a boolean attribute when the value is present.
pub fn push_flag(attrs: Vec<(String, AttributeValue)>, name: &str, v: Option<bool>) -> (r: Vec<(String, AttributeValue)>)
    ensures
        attribute_views(r@) == attribute_views(attrs@) + flag_attr(name@, v),
{
    reveal(attribute_views);
    let mut attrs = attrs;
    let ghost before = attribute_views(attrs@);
    match v {
        Some(b) => {
            attrs.push((to_string(name), AttributeValue::Flag(b)));
        },
        None => {},
    }
    assert(attribute_views(attrs@) =~= before + flag_attr(name@, v));
    attrs
}

/// Appends a list-of-texts attribute when the list is present.
pub fn push_texts(attrs: Vec<(String, AttributeValue)>, name: &str, v: Option<Vec<String>>) -> (r: Vec<(String, AttributeValue)>)
    ensures
        attribute_views(r@) == attribute_views(attrs@) + texts_attr(
            name@,
            match v {
                Some(l) => Some(text_views(l@)),
                None => None,
            },
        ),
{
    reveal(attribute_views);
    let mut attrs = attrs;
    let ghost before = attribute_views(attrs@);
    let ghost vv = match &v {
        Some(l) => Some(text_views(l@)),
        None => None,
    };
    match v {
        Some(l) => {
            attrs.push((to_string(name), AttributeValue::Texts(l)));
        },
        None => {},
    }
    assert(attribute_views(attrs@) =~= before + texts_attr(name@, vv));
    attrs
}

} // verus!
