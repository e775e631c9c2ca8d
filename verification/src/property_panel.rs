//! The property panel's model: groups of labelled values of an object,
//! and the edits the user makes to them.
//!
//! A number value has the type parameter `V`, which the user interface
//! instantiates with its own number type.

use vstd::prelude::*;

use crate::text::texts_of;

verus! {

/// A value shown in the property panel.
#[derive(Debug, Clone, PartialEq)]
pub enum PropertyValue<V> {
    Text(String),
    Bool(bool),
    Integer(i64),
    Float(V),
    Enum { value: String, options: Vec<String> },
    /// A color as red, green, blue and alpha.
    Color([u8; 4]),
    FilePath(String),
}

/// The abstract value of a [`PropertyValue`], with texts as characters.
pub enum ValueView<V> {
    Text(Seq<char>),
    Bool(bool),
    Integer(i64),
    Float(V),
    Enum { value: Seq<char>, options: Seq<Seq<char>> },
    Color([u8; 4]),
    FilePath(Seq<char>),
}

/// The abstract value of `value`.
pub open spec fn value_view<V>(value: PropertyValue<V>) -> ValueView<V> {
    match value {
        PropertyValue::Text(t) => ValueView::Text(t@),
        PropertyValue::Bool(b) => ValueView::Bool(b),
        PropertyValue::Integer(i) => ValueView::Integer(i),
        PropertyValue::Float(f) => ValueView::Float(f),
        PropertyValue::Enum { value, options } => ValueView::Enum {
            value: value@,
            options: texts_of(options@),
        },
        PropertyValue::Color(c) => ValueView::Color(c),
        PropertyValue::FilePath(p) => ValueView::FilePath(p@),
    }
}

/// One labelled value of an object.
#[derive(Debug, Clone)]
pub struct PropertyItem<V> {
    pub id: String,
    pub label: String,
    pub value: PropertyValue<V>,
    pub read_only: bool,
}

impl<V> PropertyItem<V> {
    /// An editable item.
    pub fn new(id: &str, label: &str, value: PropertyValue<V>) -> (r: Self)
        ensures
            r.id@ == id@,
            r.label@ == label@,
            r.value == value,
            !r.read_only,
    {
        PropertyItem { id: id.to_owned(), label: label.to_owned(), value, read_only: false }
    }

    /// The same item, read-only as `value` says.
    pub fn read_only(self, value: bool) -> (r: Self)
        ensures
            r == (PropertyItem { read_only: value, ..self }),
    {
        let mut item = self;
        item.read_only = value;
        item
    }
}

/// The abstract value of an item: id, label, value and whether it is
/// read-only.
pub open spec fn item_view<V>(item: PropertyItem<V>) -> (Seq<char>, Seq<char>, ValueView<V>, bool) {
    (item.id@, item.label@, value_view(item.value), item.read_only)
}

/// The abstract values of `items`, in order.
pub open spec fn item_views<V>(items: Seq<PropertyItem<V>>) -> Seq<(Seq<char>, Seq<char>, ValueView<V>, bool)> {
    items.map_values(|item: PropertyItem<V>| item_view(item))
}

/// A labelled group of items.
#[derive(Debug, Clone)]
pub struct PropertyGroup<V> {
    pub label: String,
    pub items: Vec<PropertyItem<V>>,
}

/// The properties of one object: its id, its display name and its groups.
#[derive(Debug, Clone)]
pub struct PropertyModel<V> {
    pub object_id: Option<String>,
    pub display_name: Option<String>,
    pub groups: Vec<PropertyGroup<V>>,
}

/// An edit the user made in the property panel.
#[derive(Debug, Clone, PartialEq)]
pub enum PropertyAction<V> {
    ValueChanged { property_id: String, value: PropertyValue<V> },
}

/// The edits of one frame of the property panel, in order.
#[derive(Debug)]
pub struct PropertyResponse<V> {
    pub actions: Vec<PropertyAction<V>>,
}

impl<V> PropertyResponse<V> {
    pub fn new() -> (r: Self)
        ensures
            r.actions@.len() == 0,
    {
        PropertyResponse { actions: Vec::new() }
    }
}

} // verus!
