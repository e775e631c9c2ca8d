//! The controller panel's model: buttons, joysticks, sliders, labels,
//! images and lines placed on a canvas, which the user operates or lays
//! out, and the property panel view of an element and of the canvas.
//!
//! Positions, sizes and slider and joystick values have the type parameter
//! `V`, which the user interface instantiates with its own number type.

use vstd::prelude::*;
use vstd::string::StringExecFns;

use crate::text::{lemma_texts_differ, string_eq_str};
use crate::property_panel::{
    item_views, value_view, PropertyAction, PropertyGroup, PropertyItem, PropertyModel, PropertyValue,
    ValueView,
};

verus! {

/// Whether the controller panel operates its controls or edits their layout.
#[derive(Debug, Clone, Copy, PartialEq, Eq, Structural)]
pub enum ControllerMode {
    Operate,
    Edit,
}

/// What a controller element is.
#[derive(Debug, Clone)]
pub enum ControllerElementKind<V> {
    Button { text: String, image_source: Option<String> },
    Joystick { value: [V; 2], return_to_center: bool },
    Slider { value: V, min: V, max: V },
    Label { text: String },
    Image { source: String },
    Line { to: [V; 2], width: V },
}

/// An element placed on the controller canvas.
#[derive(Debug, Clone)]
pub struct ControllerElement<V> {
    pub id: String,
    pub label: String,
    pub position: [V; 2],
    pub size: [V; 2],
    pub foreground: [u8; 4],
    pub background: [u8; 4],
    pub kind: ControllerElementKind<V>,
}

impl<V> ControllerElement<V> {
    /// An element with light grey foreground on dark grey background.
    pub fn new(id: &str, label: &str, position: [V; 2], size: [V; 2], kind: ControllerElementKind<V>) -> (r:
        Self)
        ensures
            r.id@ == id@,
            r.label@ == label@,
            r.position == position,
            r.size == size,
            r.foreground == [220u8, 220u8, 220u8, 255u8],
            r.background == [60u8, 60u8, 60u8, 255u8],
            r.kind == kind,
    {
        ControllerElement {
            id: id.to_owned(),
            label: label.to_owned(),
            position,
            size,
            foreground: [220, 220, 220, 255],
            background: [60, 60, 60, 255],
            kind,
        }
    }
}

/// The controller panel's model: the mode, the canvas's logical design size
/// and background, the elements and the selected element.
#[derive(Debug, Clone)]
pub struct ControllerModel<V> {
    pub mode: ControllerMode,
    /// The logical design size; drawing fits it into the panel.
    pub canvas_size: [V; 2],
    pub background: [u8; 4],
    pub elements: Vec<ControllerElement<V>>,
    pub selected_id: Option<String>,
}

impl<V> ControllerModel<V> {
    /// An empty canvas of `canvas_size` in operate mode, with a near-black
    /// background and nothing selected.
    pub fn new(canvas_size: [V; 2]) -> (r: Self)
        ensures
            r.mode == ControllerMode::Operate,
            r.canvas_size == canvas_size,
            r.background == [30u8, 30u8, 30u8, 255u8],
            r.elements@.len() == 0,
            r.selected_id is None,
    {
        ControllerModel {
            mode: ControllerMode::Operate,
            canvas_size,
            background: [30, 30, 30, 255],
            elements: Vec::new(),
            selected_id: None,
        }
    }
}

/// A pointer gesture on the controller panel.
#[derive(Debug, Clone, Copy, PartialEq, Eq, Structural)]
pub enum Gesture {
    /// A click on the canvas background.
    SelectCanvas,
    /// A click on an element or the start of a drag on it.
    SelectElement,
    /// A drag of an element.
    MoveElement,
    /// A drag of the selected element's resize handle.
    ResizeElement,
    /// A click on a button.
    PressButton,
    /// A change of a slider's value.
    ChangeSlider,
    /// A drag on a joystick, or its release.
    SteerJoystick,
}

/// Whether `gesture` takes effect in `mode`: selecting, moving and resizing
/// only in edit mode; pressing, sliding and steering only in operate mode.
pub open spec fn spec_gesture_allowed(mode: ControllerMode, gesture: Gesture) -> bool {
    match gesture {
        Gesture::SelectCanvas | Gesture::SelectElement | Gesture::MoveElement | Gesture::ResizeElement => mode
            == ControllerMode::Edit,
        Gesture::PressButton | Gesture::ChangeSlider | Gesture::SteerJoystick => mode
            == ControllerMode::Operate,
    }
}

/// Whether `gesture` takes effect in `mode`.
pub fn gesture_allowed(mode: ControllerMode, gesture: Gesture) -> (r: bool)
    ensures
        r == spec_gesture_allowed(mode, gesture),
{
    match gesture {
        Gesture::SelectCanvas | Gesture::SelectElement | Gesture::MoveElement | Gesture::ResizeElement => {
            mode == ControllerMode::Edit
        },
        Gesture::PressButton | Gesture::ChangeSlider | Gesture::SteerJoystick => {
            mode == ControllerMode::Operate
        },
    }
}

/// The item `(id, label, value, read_only)` in abstract form.
pub open spec fn item<V>(id: Seq<char>, label: Seq<char>, value: ValueView<V>, read_only: bool) -> (
    Seq<char>,
    Seq<char>,
    ValueView<V>,
    bool,
) {
    (id, label, value, read_only)
}

/// The items of the kind-specific part of an element's properties.
pub open spec fn kind_items<V>(kind: ControllerElementKind<V>) -> Seq<
    (Seq<char>, Seq<char>, ValueView<V>, bool),
> {
    match kind {
        ControllerElementKind::Button { text, image_source } => seq![
            item("button.text"@, "文字"@, ValueView::Text(text@), false),
            item(
                "button.image"@,
                "画像"@,
                ValueView::FilePath(
                    match image_source {
                        Some(s) => s@,
                        None => Seq::empty(),
                    },
                ),
                false,
            ),
        ],
        ControllerElementKind::Joystick { value, return_to_center } => seq![
            item("joystick.x"@, "値 X"@, ValueView::Float(value[0]), true),
            item("joystick.y"@, "値 Y"@, ValueView::Float(value[1]), true),
            item(
                "joystick.return_to_center"@,
                "離したら中央へ戻る"@,
                ValueView::Bool(return_to_center),
                false,
            ),
        ],
        ControllerElementKind::Slider { value, min, max } => seq![
            item("slider.value"@, "値"@, ValueView::Float(value), false),
            item("slider.min"@, "最小"@, ValueView::Float(min), false),
            item("slider.max"@, "最大"@, ValueView::Float(max), false),
        ],
        ControllerElementKind::Label { text } => seq![
            item("label.text"@, "文字"@, ValueView::Text(text@), false),
        ],
        ControllerElementKind::Image { source } => seq![
            item("image.source"@, "画像"@, ValueView::FilePath(source@), false),
        ],
        ControllerElementKind::Line { to, width } => seq![
            item("line.to.x"@, "終点 X"@, ValueView::Float(to[0]), false),
            item("line.to.y"@, "終点 Y"@, ValueView::Float(to[1]), false),
            item("line.width"@, "線幅"@, ValueView::Float(width), false),
        ],
    }
}

/// The items of an element's properties: label, position, size and colors,
/// then the items of its kind.
pub open spec fn element_items<V>(element: ControllerElement<V>) -> Seq<
    (Seq<char>, Seq<char>, ValueView<V>, bool),
> {
    seq![
        item("label"@, "ラベル"@, ValueView::Text(element.label@), false),
        item("position.x"@, "X"@, ValueView::Float(element.position[0]), false),
        item("position.y"@, "Y"@, ValueView::Float(element.position[1]), false),
        item("size.w"@, "幅"@, ValueView::Float(element.size[0]), false),
        item("size.h"@, "高さ"@, ValueView::Float(element.size[1]), false),
        item("foreground"@, "前景色"@, ValueView::Color(element.foreground), false),
        item("background"@, "背景色"@, ValueView::Color(element.background), false),
    ] + kind_items(element.kind)
}

fn push_item<V>(
    items: &mut Vec<PropertyItem<V>>,
    id: &str,
    label: &str,
    value: PropertyValue<V>,
    read_only: bool,
)
    ensures
        item_views(final(items)@) == item_views(old(items)@).push(
            item(id@, label@, value_view(value), read_only),
        ),
{
    let ghost before = items@;
    items.push(PropertyItem::new(id, label, value).read_only(read_only));
    assert(item_views(items@) =~= item_views(before).push(item(id@, label@, value_view(value), read_only)));
}

/// The property panel view of `element`: its id, its label followed by
/// " プロパティ" as display name, and one group "Controller Element" with
/// the items [`element_items`] lists.
pub fn property_model_for_element<V: Copy>(element: &ControllerElement<V>) -> (r: PropertyModel<V>)
    ensures
        r.object_id matches Some(id) && id@ == element.id@,
        r.display_name matches Some(name) && name@ == element.label@ + " プロパティ"@,
        r.groups@.len() == 1,
        r.groups@[0].label@ == "Controller Element"@,
        item_views(r.groups@[0].items@) == element_items(*element),
{
    let mut items: Vec<PropertyItem<V>> = Vec::new();
    push_item(&mut items, "label", "ラベル", PropertyValue::Text(element.label.clone()), false);
    push_item(&mut items, "position.x", "X", PropertyValue::Float(element.position[0]), false);
    push_item(&mut items, "position.y", "Y", PropertyValue::Float(element.position[1]), false);
    push_item(&mut items, "size.w", "幅", PropertyValue::Float(element.size[0]), false);
    push_item(&mut items, "size.h", "高さ", PropertyValue::Float(element.size[1]), false);
    push_item(&mut items, "foreground", "前景色", PropertyValue::Color(element.foreground), false);
    push_item(&mut items, "background", "背景色", PropertyValue::Color(element.background), false);
    match &element.kind {
        ControllerElementKind::Button { text, image_source } => {
            push_item(&mut items, "button.text", "文字", PropertyValue::Text(text.clone()), false);
            let path = match image_source {
                Some(s) => s.clone(),
                None => String::new(),
            };
            push_item(&mut items, "button.image", "画像", PropertyValue::FilePath(path), false);
        },
        ControllerElementKind::Joystick { value, return_to_center } => {
            push_item(&mut items, "joystick.x", "値 X", PropertyValue::Float(value[0]), true);
            push_item(&mut items, "joystick.y", "値 Y", PropertyValue::Float(value[1]), true);
            push_item(
                &mut items,
                "joystick.return_to_center",
                "離したら中央へ戻る",
                PropertyValue::Bool(*return_to_center),
                false,
            );
        },
        ControllerElementKind::Slider { value, min, max } => {
            push_item(&mut items, "slider.value", "値", PropertyValue::Float(*value), false);
            push_item(&mut items, "slider.min", "最小", PropertyValue::Float(*min), false);
            push_item(&mut items, "slider.max", "最大", PropertyValue::Float(*max), false);
        },
        ControllerElementKind::Label { text } => {
            push_item(&mut items, "label.text", "文字", PropertyValue::Text(text.clone()), false);
        },
        ControllerElementKind::Image { source } => {
            push_item(&mut items, "image.source", "画像", PropertyValue::FilePath(source.clone()), false);
        },
        ControllerElementKind::Line { to, width } => {
            push_item(&mut items, "line.to.x", "終点 X", PropertyValue::Float(to[0]), false);
            push_item(&mut items, "line.to.y", "終点 Y", PropertyValue::Float(to[1]), false);
            push_item(&mut items, "line.width", "線幅", PropertyValue::Float(*width), false);
        },
    }
    assert(item_views(items@) =~= element_items(*element));
    let mut name = element.label.clone();
    name.append(" プロパティ");
    let mut groups: Vec<PropertyGroup<V>> = Vec::new();
    groups.push(PropertyGroup { label: "Controller Element".to_owned(), items });
    PropertyModel { object_id: Some(element.id.clone()), display_name: Some(name), groups }
}

/// The items of the canvas's properties: its logical width and height and
/// its background color.
pub open spec fn canvas_items<V>(model: ControllerModel<V>) -> Seq<(Seq<char>, Seq<char>, ValueView<V>, bool)> {
    seq![
        item("canvas.w"@, "論理幅"@, ValueView::Float(model.canvas_size[0]), false),
        item("canvas.h"@, "論理高さ"@, ValueView::Float(model.canvas_size[1]), false),
        item("canvas.background"@, "背景色"@, ValueView::Color(model.background), false),
    ]
}

/// Each item of the canvas's property view shows the field that its id
/// names, and every item is editable.
pub proof fn law_canvas_items_show_their_fields<V>(model: ControllerModel<V>, i: int)
    requires
        0 <= i < canvas_items(model).len(),
    ensures
        ({
            let id = canvas_items(model)[i].0;
            let shown = canvas_items(model)[i].2;
            &&& id == "canvas.w"@ ==> shown == ValueView::<V>::Float(model.canvas_size[0])
            &&& id == "canvas.h"@ ==> shown == ValueView::<V>::Float(model.canvas_size[1])
            &&& id == "canvas.background"@ ==> shown == ValueView::<V>::Color(model.background)
            &&& !canvas_items(model)[i].3
        }),
{
    reveal_strlit("canvas.w");
    reveal_strlit("canvas.h");
    reveal_strlit("canvas.background");
    assert("canvas.background"@.len() == 17);
    assert("canvas.w"@.len() == 8);
    lemma_texts_differ("canvas.w"@, "canvas.h"@, 7);
    if i == 0 {
    } else if i == 1 {
    } else {
    }
}

/// The property panel view of the canvas of `model`: the canvas's logical
/// width and height and its background color, in one group
/// "Controller Panel".
pub fn property_model_for_canvas<V: Copy>(model: &ControllerModel<V>) -> (r: PropertyModel<V>)
    ensures
        r.object_id matches Some(id) && id@ == "__controller_canvas__"@,
        r.display_name matches Some(name) && name@ == "コントロールパネル プロパティ"@,
        r.groups@.len() == 1,
        r.groups@[0].label@ == "Controller Panel"@,
        item_views(r.groups@[0].items@) == canvas_items(*model),
{
    let mut items: Vec<PropertyItem<V>> = Vec::new();
    push_item(&mut items, "canvas.w", "論理幅", PropertyValue::Float(model.canvas_size[0]), false);
    push_item(&mut items, "canvas.h", "論理高さ", PropertyValue::Float(model.canvas_size[1]), false);
    push_item(&mut items, "canvas.background", "背景色", PropertyValue::Color(model.background), false);
    let mut groups: Vec<PropertyGroup<V>> = Vec::new();
    groups.push(PropertyGroup { label: "Controller Panel".to_owned(), items });
    PropertyModel {
        object_id: Some("__controller_canvas__".to_owned()),
        display_name: Some("コントロールパネル プロパティ".to_owned()),
        groups,
    }
}

/// The lower bound that a value set by a property edit is then raised to.
/// The bounds are numbers of the user interface's number type: 12 for an
/// element's width and height, 0.1 for a line's width, 100 for the canvas's
/// width and height.
#[derive(Debug, Clone, Copy, PartialEq, Eq, Structural)]
pub enum Floor {
    /// The value is taken as it is.
    Unbounded,
    ElementWidth,
    ElementHeight,
    LineWidth,
    CanvasWidth,
    CanvasHeight,
}

/// `element` with the kind `kind`.
pub open spec fn with_kind<V>(element: ControllerElement<V>, kind: ControllerElementKind<V>) -> ControllerElement<V> {
    ControllerElement { kind, ..element }
}

/// The element after the edit of its property `id` to `value`, and the
/// lower bound the set value is then raised to. An edit sets the field the
/// item of `id` shows ([`element_items`]) when `value` has the item's type
/// and, for a kind's item, the element has that kind; a button's empty
/// image path means no image. Any other edit changes nothing.
pub open spec fn spec_apply_property<V>(element: ControllerElement<V>, id: Seq<char>, value: PropertyValue<V>) -> (
    ControllerElement<V>,
    Floor,
) {
    let e = element;
    let unchanged = (e, Floor::Unbounded);
    match value {
        PropertyValue::Text(v) => if id == "label"@ {
            (ControllerElement { label: v, ..e }, Floor::Unbounded)
        } else if id == "button.text"@ {
            match e.kind {
                ControllerElementKind::Button { image_source, .. } => (
                    with_kind(e, ControllerElementKind::Button { text: v, image_source }),
                    Floor::Unbounded,
                ),
                _ => unchanged,
            }
        } else if id == "label.text"@ {
            match e.kind {
                ControllerElementKind::Label { .. } => (
                    with_kind(e, ControllerElementKind::Label { text: v }),
                    Floor::Unbounded,
                ),
                _ => unchanged,
            }
        } else {
            unchanged
        },
        PropertyValue::Float(v) => if id == "position.x"@ {
            (ControllerElement { position: [v, e.position[1]], ..e }, Floor::Unbounded)
        } else if id == "position.y"@ {
            (ControllerElement { position: [e.position[0], v], ..e }, Floor::Unbounded)
        } else if id == "size.w"@ {
            (ControllerElement { size: [v, e.size[1]], ..e }, Floor::ElementWidth)
        } else if id == "size.h"@ {
            (ControllerElement { size: [e.size[0], v], ..e }, Floor::ElementHeight)
        } else if id == "slider.value"@ || id == "slider.min"@ || id == "slider.max"@ {
            match e.kind {
                ControllerElementKind::Slider { value: cur, min, max } => (
                    with_kind(
                        e,
                        if id == "slider.value"@ {
                            ControllerElementKind::Slider { value: v, min, max }
                        } else if id == "slider.min"@ {
                            ControllerElementKind::Slider { value: cur, min: v, max }
                        } else {
                            ControllerElementKind::Slider { value: cur, min, max: v }
                        },
                    ),
                    Floor::Unbounded,
                ),
                _ => unchanged,
            }
        } else if id == "line.to.x"@ || id == "line.to.y"@ || id == "line.width"@ {
            match e.kind {
                ControllerElementKind::Line { to, width } => if id == "line.to.x"@ {
                    (with_kind(e, ControllerElementKind::Line { to: [v, to[1]], width }), Floor::Unbounded)
                } else if id == "line.to.y"@ {
                    (with_kind(e, ControllerElementKind::Line { to: [to[0], v], width }), Floor::Unbounded)
                } else {
                    (with_kind(e, ControllerElementKind::Line { to, width: v }), Floor::LineWidth)
                },
                _ => unchanged,
            }
        } else {
            unchanged
        },
        PropertyValue::Color(c) => if id == "foreground"@ {
            (ControllerElement { foreground: c, ..e }, Floor::Unbounded)
        } else if id == "background"@ {
            (ControllerElement { background: c, ..e }, Floor::Unbounded)
        } else {
            unchanged
        },
        PropertyValue::FilePath(v) => if id == "button.image"@ {
            match e.kind {
                ControllerElementKind::Button { text, .. } => (
                    with_kind(
                        e,
                        ControllerElementKind::Button {
                            text,
                            image_source: if v@.len() == 0 {
                                None
                            } else {
                                Some(v)
                            },
                        },
                    ),
                    Floor::Unbounded,
                ),
                _ => unchanged,
            }
        } else if id == "image.source"@ {
            match e.kind {
                ControllerElementKind::Image { .. } => (
                    with_kind(e, ControllerElementKind::Image { source: v }),
                    Floor::Unbounded,
                ),
                _ => unchanged,
            }
        } else {
            unchanged
        },
        PropertyValue::Bool(b) => if id == "joystick.return_to_center"@ {
            match e.kind {
                ControllerElementKind::Joystick { value, .. } => (
                    with_kind(e, ControllerElementKind::Joystick { value, return_to_center: b }),
                    Floor::Unbounded,
                ),
                _ => unchanged,
            }
        } else {
            unchanged
        },
        _ => unchanged,
    }
}

fn clone_option(s: &Option<String>) -> (r: Option<String>)
    ensures
        r == *s,
{
    match s {
        Some(t) => Some(t.clone()),
        None => None,
    }
}

fn apply_text<V: Copy>(element: &mut ControllerElement<V>, id: &String, v: &String) -> (r: Floor)
    ensures
        (*final(element), r) == spec_apply_property(
            *old(element),
            id@,
            PropertyValue::Text(*v),
        ),
{
    if string_eq_str(id, "label") {
        element.label = v.clone();
    } else if string_eq_str(id, "button.text") {
        let kind = match &element.kind {
            ControllerElementKind::Button { image_source, .. } => Some(
                ControllerElementKind::Button { text: v.clone(), image_source: clone_option(image_source) },
            ),
            _ => None,
        };
        if let Some(k) = kind {
            element.kind = k;
        }
    } else if string_eq_str(id, "label.text") {
        if let ControllerElementKind::Label { .. } = &element.kind {
            element.kind = ControllerElementKind::Label { text: v.clone() };
        }
    }
    Floor::Unbounded
}

/// Applies the property edit `action` to `element` as
/// [`spec_apply_property`] states; the result is the lower bound that the
/// caller then raises the set value to.
pub fn apply_property_action<V: Copy>(element: &mut ControllerElement<V>, action: &PropertyAction<V>) -> (r: Floor)
    ensures
        match *action {
            PropertyAction::ValueChanged { property_id, value } => (*final(element), r)
                == spec_apply_property(*old(element), property_id@, value),
        },
{
    match action {
        PropertyAction::ValueChanged { property_id, value } => apply_value(element, property_id, value),
    }
}

fn apply_value<V: Copy>(element: &mut ControllerElement<V>, id: &String, value: &PropertyValue<V>) -> (r: Floor)
    ensures
        (*final(element), r) == spec_apply_property(*old(element), id@, *value),
{
    proof {
        reveal_strlit("");
    }
    match value {
        PropertyValue::Text(v) => apply_text(element, id, v),
        PropertyValue::Float(v) => {
            let v = *v;
            if string_eq_str(id, "position.x") {
                element.position = [v, element.position[1]];
                Floor::Unbounded
            } else if string_eq_str(id, "position.y") {
                element.position = [element.position[0], v];
                Floor::Unbounded
            } else if string_eq_str(id, "size.w") {
                element.size = [v, element.size[1]];
                Floor::ElementWidth
            } else if string_eq_str(id, "size.h") {
                element.size = [element.size[0], v];
                Floor::ElementHeight
            } else if string_eq_str(id, "slider.value") || string_eq_str(id, "slider.min") || string_eq_str(
                id,
                "slider.max",
            ) {
                let kind = match &element.kind {
                    ControllerElementKind::Slider { value: cur, min, max } => Some(
                        if string_eq_str(id, "slider.value") {
                            ControllerElementKind::Slider { value: v, min: *min, max: *max }
                        } else if string_eq_str(id, "slider.min") {
                            ControllerElementKind::Slider { value: *cur, min: v, max: *max }
                        } else {
                            ControllerElementKind::Slider { value: *cur, min: *min, max: v }
                        },
                    ),
                    _ => None,
                };
                if let Some(k) = kind {
                    element.kind = k;
                }
                Floor::Unbounded
            } else if string_eq_str(id, "line.to.x") || string_eq_str(id, "line.to.y") || string_eq_str(
                id,
                "line.width",
            ) {
                let edit = match &element.kind {
                    ControllerElementKind::Line { to, width } => Some(
                        if string_eq_str(id, "line.to.x") {
                            (ControllerElementKind::Line { to: [v, to[1]], width: *width }, Floor::Unbounded)
                        } else if string_eq_str(id, "line.to.y") {
                            (ControllerElementKind::Line { to: [to[0], v], width: *width }, Floor::Unbounded)
                        } else {
                            (ControllerElementKind::Line { to: *to, width: v }, Floor::LineWidth)
                        },
                    ),
                    _ => None,
                };
                match edit {
                    Some((k, floor)) => {
                        element.kind = k;
                        floor
                    },
                    None => Floor::Unbounded,
                }
            } else {
                Floor::Unbounded
            }
        },
        PropertyValue::Color(c) => {
            if string_eq_str(id, "foreground") {
                element.foreground = *c;
            } else if string_eq_str(id, "background") {
                element.background = *c;
            }
            Floor::Unbounded
        },
        PropertyValue::FilePath(v) => {
            proof {
                if v@.len() == 0 {
                    assert(v@ =~= ""@);
                }
            }
            if string_eq_str(id, "button.image") {
                let kind = match &element.kind {
                    ControllerElementKind::Button { text, .. } => Some(
                        ControllerElementKind::Button {
                            text: text.clone(),
                            image_source: if string_eq_str(v, "") {
                                None
                            } else {
                                Some(v.clone())
                            },
                        },
                    ),
                    _ => None,
                };
                if let Some(k) = kind {
                    element.kind = k;
                }
            } else if string_eq_str(id, "image.source") {
                if let ControllerElementKind::Image { .. } = &element.kind {
                    element.kind = ControllerElementKind::Image { source: v.clone() };
                }
            }
            Floor::Unbounded
        },
        PropertyValue::Bool(b) => {
            if string_eq_str(id, "joystick.return_to_center") {
                let kind = match &element.kind {
                    ControllerElementKind::Joystick { value, .. } => Some(
                        ControllerElementKind::Joystick { value: *value, return_to_center: *b },
                    ),
                    _ => None,
                };
                if let Some(k) = kind {
                    element.kind = k;
                }
            }
            Floor::Unbounded
        },
        PropertyValue::Integer(_) => Floor::Unbounded,
        PropertyValue::Enum { .. } => Floor::Unbounded,
    }
}


/// Applies the property edit `action` to the canvas of `model`: the
/// logical width or height (then raised to the canvas's lower bound) or the
/// background color; any other edit changes nothing.
pub fn apply_canvas_property_action<V: Copy>(model: &mut ControllerModel<V>, action: &PropertyAction<V>) -> (r:
    Floor)
    ensures
        match *action {
            PropertyAction::ValueChanged { property_id, value } => match value {
                PropertyValue::Float(v) => if property_id@ == "canvas.w"@ {
                    *final(model) == (ControllerModel {
                        canvas_size: [v, old(model).canvas_size[1]],
                        ..*old(model)
                    }) && r == Floor::CanvasWidth
                } else if property_id@ == "canvas.h"@ {
                    *final(model) == (ControllerModel {
                        canvas_size: [old(model).canvas_size[0], v],
                        ..*old(model)
                    }) && r == Floor::CanvasHeight
                } else {
                    *final(model) == *old(model) && r == Floor::Unbounded
                },
                PropertyValue::Color(c) => if property_id@ == "canvas.background"@ {
                    *final(model) == (ControllerModel { background: c, ..*old(model) }) && r
                        == Floor::Unbounded
                } else {
                    *final(model) == *old(model) && r == Floor::Unbounded
                },
                _ => *final(model) == *old(model) && r == Floor::Unbounded,
            },
        },
{
    let PropertyAction::ValueChanged { property_id, value } = action;
    match value {
        PropertyValue::Float(v) => {
            if string_eq_str(property_id, "canvas.w") {
                model.canvas_size = [*v, model.canvas_size[1]];
                Floor::CanvasWidth
            } else if string_eq_str(property_id, "canvas.h") {
                model.canvas_size = [model.canvas_size[0], *v];
                Floor::CanvasHeight
            } else {
                Floor::Unbounded
            }
        },
        PropertyValue::Color(c) => {
            if string_eq_str(property_id, "canvas.background") {
                model.background = *c;
            }
            Floor::Unbounded
        },
        _ => Floor::Unbounded,
    }
}

} // verus!

verus! {

/// Whether `a` and `b` are values of the same type.
pub open spec fn same_type<V>(a: ValueView<V>, b: ValueView<V>) -> bool {
    match (a, b) {
        (ValueView::Text(_), ValueView::Text(_)) => true,
        (ValueView::Bool(_), ValueView::Bool(_)) => true,
        (ValueView::Integer(_), ValueView::Integer(_)) => true,
        (ValueView::Float(_), ValueView::Float(_)) => true,
        (ValueView::Enum { .. }, ValueView::Enum { .. }) => true,
        (ValueView::Color(_), ValueView::Color(_)) => true,
        (ValueView::FilePath(_), ValueView::FilePath(_)) => true,
        _ => false,
    }
}

/// Each item of an element's property view shows the field that its id
/// names, read-only items included; the joystick's values are the only
/// read-only items.
pub proof fn law_element_items_show_their_fields<V>(element: ControllerElement<V>, i: int)
    requires
        0 <= i < element_items(element).len(),
    ensures
        ({
            let id = element_items(element)[i].0;
            let shown = element_items(element)[i].2;
            &&& id == "label"@ ==> shown == ValueView::<V>::Text(element.label@)
            &&& id == "position.x"@ ==> shown == ValueView::<V>::Float(element.position[0])
            &&& id == "position.y"@ ==> shown == ValueView::<V>::Float(element.position[1])
            &&& id == "size.w"@ ==> shown == ValueView::<V>::Float(element.size[0])
            &&& id == "size.h"@ ==> shown == ValueView::<V>::Float(element.size[1])
            &&& id == "foreground"@ ==> shown == ValueView::<V>::Color(element.foreground)
            &&& id == "background"@ ==> shown == ValueView::<V>::Color(element.background)
            &&& element_items(element)[i].3 <==> (id == "joystick.x"@ || id == "joystick.y"@)
            &&& match element.kind {
                ControllerElementKind::Button { text, image_source } => {
                    &&& id == "button.text"@ ==> shown == ValueView::<V>::Text(text@)
                    &&& id == "button.image"@ ==> shown == ValueView::<V>::FilePath(
                        match image_source {
                            Some(path) => path@,
                            None => Seq::empty(),
                        },
                    )
                },
                ControllerElementKind::Joystick { value, return_to_center } => {
                    &&& id == "joystick.x"@ ==> shown == ValueView::<V>::Float(value[0])
                    &&& id == "joystick.y"@ ==> shown == ValueView::<V>::Float(value[1])
                    &&& id == "joystick.return_to_center"@ ==> shown == ValueView::<V>::Bool(
                        return_to_center,
                    )
                },
                ControllerElementKind::Slider { value, min, max } => {
                    &&& id == "slider.value"@ ==> shown == ValueView::<V>::Float(value)
                    &&& id == "slider.min"@ ==> shown == ValueView::<V>::Float(min)
                    &&& id == "slider.max"@ ==> shown == ValueView::<V>::Float(max)
                },
                ControllerElementKind::Label { text } => id == "label.text"@ ==> shown
                    == ValueView::<V>::Text(text@),
                ControllerElementKind::Image { source } => id == "image.source"@ ==> shown
                    == ValueView::<V>::FilePath(source@),
                ControllerElementKind::Line { to, width } => {
                    &&& id == "line.to.x"@ ==> shown == ValueView::<V>::Float(to[0])
                    &&& id == "line.to.y"@ ==> shown == ValueView::<V>::Float(to[1])
                    &&& id == "line.width"@ ==> shown == ValueView::<V>::Float(width)
                },
            }
        }),
{
    reveal_strlit("label");
    reveal_strlit("position.x");
    reveal_strlit("position.y");
    reveal_strlit("size.w");
    reveal_strlit("size.h");
    reveal_strlit("foreground");
    reveal_strlit("background");
    reveal_strlit("button.text");
    reveal_strlit("button.image");
    reveal_strlit("joystick.x");
    reveal_strlit("joystick.y");
    reveal_strlit("joystick.return_to_center");
    reveal_strlit("slider.value");
    reveal_strlit("slider.min");
    reveal_strlit("slider.max");
    reveal_strlit("label.text");
    reveal_strlit("image.source");
    reveal_strlit("line.to.x");
    reveal_strlit("line.to.y");
    reveal_strlit("line.width");
    assert("label"@.len() == 5);
    assert("position.x"@.len() == 10);
    assert("position.y"@.len() == 10);
    assert("size.w"@.len() == 6);
    assert("size.h"@.len() == 6);
    assert("foreground"@.len() == 10);
    assert("background"@.len() == 10);
    assert("button.text"@.len() == 11);
    assert("button.image"@.len() == 12);
    assert("joystick.return_to_center"@.len() == 25);
    assert("slider.value"@.len() == 12);
    assert("slider.min"@.len() == 10);
    assert("slider.max"@.len() == 10);
    assert("label.text"@.len() == 10);
    assert("image.source"@.len() == 12);
    assert("line.to.x"@.len() == 9);
    assert("line.to.y"@.len() == 9);
    assert("line.width"@.len() == 10);
    lemma_texts_differ("position.x"@, "position.y"@, 9);
    lemma_texts_differ("position.x"@, "foreground"@, 0);
    lemma_texts_differ("position.x"@, "background"@, 0);
    lemma_texts_differ("position.x"@, "slider.min"@, 0);
    lemma_texts_differ("position.x"@, "slider.max"@, 0);
    lemma_texts_differ("position.x"@, "label.text"@, 0);
    lemma_texts_differ("position.x"@, "line.width"@, 0);
    lemma_texts_differ("position.y"@, "foreground"@, 0);
    lemma_texts_differ("position.y"@, "background"@, 0);
    lemma_texts_differ("position.y"@, "slider.min"@, 0);
    lemma_texts_differ("position.y"@, "slider.max"@, 0);
    lemma_texts_differ("position.y"@, "label.text"@, 0);
    lemma_texts_differ("position.y"@, "line.width"@, 0);
    lemma_texts_differ("size.w"@, "size.h"@, 5);
    lemma_texts_differ("foreground"@, "background"@, 0);
    lemma_texts_differ("foreground"@, "slider.min"@, 0);
    lemma_texts_differ("foreground"@, "slider.max"@, 0);
    lemma_texts_differ("foreground"@, "label.text"@, 0);
    lemma_texts_differ("foreground"@, "line.width"@, 0);
    lemma_texts_differ("background"@, "slider.min"@, 0);
    lemma_texts_differ("background"@, "slider.max"@, 0);
    lemma_texts_differ("background"@, "label.text"@, 0);
    lemma_texts_differ("background"@, "line.width"@, 0);
    lemma_texts_differ("button.image"@, "slider.value"@, 0);
    lemma_texts_differ("button.image"@, "image.source"@, 0);
    lemma_texts_differ("slider.value"@, "image.source"@, 0);
    lemma_texts_differ("slider.min"@, "slider.max"@, 8);
    lemma_texts_differ("slider.min"@, "label.text"@, 0);
    lemma_texts_differ("slider.min"@, "line.width"@, 0);
    lemma_texts_differ("slider.max"@, "label.text"@, 0);
    lemma_texts_differ("slider.max"@, "line.width"@, 0);
    lemma_texts_differ("label.text"@, "line.width"@, 1);
    lemma_texts_differ("line.to.x"@, "line.to.y"@, 8);
    assert("joystick.x"@.len() == 10);
    assert("joystick.y"@.len() == 10);
    lemma_texts_differ("joystick.x"@, "position.x"@, 0);
    lemma_texts_differ("joystick.x"@, "position.y"@, 0);
    lemma_texts_differ("joystick.x"@, "foreground"@, 0);
    lemma_texts_differ("joystick.x"@, "background"@, 0);
    lemma_texts_differ("joystick.x"@, "joystick.y"@, 9);
    lemma_texts_differ("joystick.x"@, "slider.min"@, 0);
    lemma_texts_differ("joystick.x"@, "slider.max"@, 0);
    lemma_texts_differ("joystick.x"@, "label.text"@, 0);
    lemma_texts_differ("joystick.x"@, "line.width"@, 0);
    lemma_texts_differ("joystick.y"@, "position.x"@, 0);
    lemma_texts_differ("joystick.y"@, "position.y"@, 0);
    lemma_texts_differ("joystick.y"@, "foreground"@, 0);
    lemma_texts_differ("joystick.y"@, "background"@, 0);
    lemma_texts_differ("joystick.y"@, "slider.min"@, 0);
    lemma_texts_differ("joystick.y"@, "slider.max"@, 0);
    lemma_texts_differ("joystick.y"@, "label.text"@, 0);
    lemma_texts_differ("joystick.y"@, "line.width"@, 0);
    let items = element_items(element);
    assert(items.len() == 7 + kind_items(element.kind).len());
    if i == 0 {
    } else if i == 1 {
    } else if i == 2 {
    } else if i == 3 {
    } else if i == 4 {
    } else if i == 5 {
    } else if i == 6 {
    } else {
        assert(items[i] == kind_items(element.kind)[i - 7]);
        match element.kind {
            ControllerElementKind::Button { .. } => {
                if i == 7 {
                } else {
                }
            },
            ControllerElementKind::Joystick { .. } => {
                if i == 7 {
                } else if i == 8 {
                } else {
                }
            },
            ControllerElementKind::Slider { .. } => {
                if i == 7 {
                } else if i == 8 {
                } else {
                }
            },
            ControllerElementKind::Label { .. } => {},
            ControllerElementKind::Image { .. } => {},
            ControllerElementKind::Line { .. } => {
                if i == 7 {
                } else if i == 8 {
                } else {
                }
            },
        }
    }
}

/// An edit of an editable item of an element, with a value of the item's
/// type, is read back: afterwards the element's item shows the new value
/// (before the caller raises it to its lower bound), and every other item
/// is unchanged.
pub proof fn law_property_edit_is_read_back<V>(element: ControllerElement<V>, i: int, value: PropertyValue<V>)
    requires
        0 <= i < element_items(element).len(),
        !element_items(element)[i].3,
        same_type(element_items(element)[i].2, value_view(value)),
    ensures
        ({
            let after = spec_apply_property(element, element_items(element)[i].0, value).0;
            &&& element_items(after).len() == element_items(element).len()
            &&& element_items(after)[i].2 == value_view(value)
            &&& forall|j: int|
                0 <= j < element_items(element).len() && j != i ==> #[trigger] element_items(after)[j]
                    == element_items(element)[j]
        }),
{
    reveal_strlit("label");
    reveal_strlit("position.x");
    reveal_strlit("position.y");
    reveal_strlit("size.w");
    reveal_strlit("size.h");
    reveal_strlit("foreground");
    reveal_strlit("background");
    reveal_strlit("button.text");
    reveal_strlit("button.image");
    reveal_strlit("joystick.x");
    reveal_strlit("joystick.y");
    reveal_strlit("joystick.return_to_center");
    reveal_strlit("slider.value");
    reveal_strlit("slider.min");
    reveal_strlit("slider.max");
    reveal_strlit("label.text");
    reveal_strlit("image.source");
    reveal_strlit("line.to.x");
    reveal_strlit("line.to.y");
    reveal_strlit("line.width");
    assert("label"@.len() == 5);
    assert("position.x"@.len() == 10);
    assert("position.y"@.len() == 10);
    assert("size.w"@.len() == 6);
    assert("size.h"@.len() == 6);
    assert("foreground"@.len() == 10);
    assert("background"@.len() == 10);
    assert("button.text"@.len() == 11);
    assert("button.image"@.len() == 12);
    assert("joystick.return_to_center"@.len() == 25);
    assert("slider.value"@.len() == 12);
    assert("slider.min"@.len() == 10);
    assert("slider.max"@.len() == 10);
    assert("label.text"@.len() == 10);
    assert("image.source"@.len() == 12);
    assert("line.to.x"@.len() == 9);
    assert("line.to.y"@.len() == 9);
    assert("line.width"@.len() == 10);
    lemma_texts_differ("position.x"@, "position.y"@, 9);
    lemma_texts_differ("position.x"@, "foreground"@, 0);
    lemma_texts_differ("position.x"@, "background"@, 0);
    lemma_texts_differ("position.x"@, "slider.min"@, 0);
    lemma_texts_differ("position.x"@, "slider.max"@, 0);
    lemma_texts_differ("position.x"@, "label.text"@, 0);
    lemma_texts_differ("position.x"@, "line.width"@, 0);
    lemma_texts_differ("position.y"@, "foreground"@, 0);
    lemma_texts_differ("position.y"@, "background"@, 0);
    lemma_texts_differ("position.y"@, "slider.min"@, 0);
    lemma_texts_differ("position.y"@, "slider.max"@, 0);
    lemma_texts_differ("position.y"@, "label.text"@, 0);
    lemma_texts_differ("position.y"@, "line.width"@, 0);
    lemma_texts_differ("size.w"@, "size.h"@, 5);
    lemma_texts_differ("foreground"@, "background"@, 0);
    lemma_texts_differ("foreground"@, "slider.min"@, 0);
    lemma_texts_differ("foreground"@, "slider.max"@, 0);
    lemma_texts_differ("foreground"@, "label.text"@, 0);
    lemma_texts_differ("foreground"@, "line.width"@, 0);
    lemma_texts_differ("background"@, "slider.min"@, 0);
    lemma_texts_differ("background"@, "slider.max"@, 0);
    lemma_texts_differ("background"@, "label.text"@, 0);
    lemma_texts_differ("background"@, "line.width"@, 0);
    lemma_texts_differ("button.image"@, "slider.value"@, 0);
    lemma_texts_differ("button.image"@, "image.source"@, 0);
    lemma_texts_differ("slider.value"@, "image.source"@, 0);
    lemma_texts_differ("slider.min"@, "slider.max"@, 8);
    lemma_texts_differ("slider.min"@, "label.text"@, 0);
    lemma_texts_differ("slider.min"@, "line.width"@, 0);
    lemma_texts_differ("slider.max"@, "label.text"@, 0);
    lemma_texts_differ("slider.max"@, "line.width"@, 0);
    lemma_texts_differ("label.text"@, "line.width"@, 1);
    lemma_texts_differ("line.to.x"@, "line.to.y"@, 8);
    let items = element_items(element);
    let id = items[i].0;
    let after = spec_apply_property(element, id, value).0;
    assert(items.len() == 7 + kind_items(element.kind).len());
    assert(element_items(after).len() == 7 + kind_items(after.kind).len());
    if i == 0 {
        assert(element_items(after)[i].2 == value_view(value));
    } else if i == 1 {
        assert(element_items(after)[i].2 == value_view(value));
    } else if i == 2 {
        assert(element_items(after)[i].2 == value_view(value));
    } else if i == 3 {
        assert(element_items(after)[i].2 == value_view(value));
    } else if i == 4 {
        assert(element_items(after)[i].2 == value_view(value));
    } else if i == 5 {
        assert(element_items(after)[i].2 == value_view(value));
    } else if i == 6 {
        assert(element_items(after)[i].2 == value_view(value));
    } else {
        match element.kind {
            ControllerElementKind::Slider { .. } => {
                if i == 7 {
                    assert(element_items(after)[i].2 == value_view(value));
                } else if i == 8 {
                    assert(element_items(after)[i].2 == value_view(value));
                } else {
                    assert(element_items(after)[i].2 == value_view(value));
                }
            },
            ControllerElementKind::Line { .. } => {
                if i == 7 {
                    assert(element_items(after)[i].2 == value_view(value));
                } else if i == 8 {
                    assert(element_items(after)[i].2 == value_view(value));
                } else {
                    assert(element_items(after)[i].2 == value_view(value));
                }
            },
            ControllerElementKind::Button { .. } => {
                if i == 7 {
                    assert(element_items(after)[i].2 == value_view(value));
                } else {
                    if let PropertyValue::FilePath(path) = value {
                        if path@.len() == 0 {
                            assert(path@ =~= Seq::<char>::empty());
                        }
                    }
                    assert(element_items(after)[i].2 == value_view(value));
                }
            },
            _ => {
                assert(element_items(after)[i].2 == value_view(value));
            },
        }
    }
    if i < 7 {
        assert(after.kind == element.kind);
        assert(kind_items(after.kind) == kind_items(element.kind));
        assert forall|j: int| 7 <= j < items.len() implies #[trigger] element_items(after)[j] == items[j] by {
            assert(element_items(after)[j] == kind_items(after.kind)[j - 7]);
            assert(items[j] == kind_items(element.kind)[j - 7]);
        }
    } else {
        assert(id == kind_items(element.kind)[i - 7].0);
        assert(id != "label"@ && id != "position.x"@ && id != "position.y"@ && id != "size.w"@ && id
            != "size.h"@ && id != "foreground"@ && id != "background"@) by {
            match element.kind {
                ControllerElementKind::Button { .. } => {
                    assert(id == "button.text"@ || id == "button.image"@);
                },
                ControllerElementKind::Joystick { .. } => {
                    assert(id == "joystick.return_to_center"@);
                },
                ControllerElementKind::Slider { .. } => {
                    assert(id == "slider.value"@ || id == "slider.min"@ || id == "slider.max"@);
                },
                ControllerElementKind::Label { .. } => {
                    assert(id == "label.text"@);
                },
                ControllerElementKind::Image { .. } => {
                    assert(id == "image.source"@);
                },
                ControllerElementKind::Line { .. } => {
                    assert(id == "line.to.x"@ || id == "line.to.y"@ || id == "line.width"@);
                },
            }
        }
        assert(after.label == element.label);
        assert(after.position == element.position);
        assert(after.size == element.size);
        assert(after.foreground == element.foreground);
        assert(after.background == element.background);
        assert(kind_items(after.kind).len() == kind_items(element.kind).len());
        assert forall|j: int| 0 <= j < 7 implies #[trigger] element_items(after)[j] == items[j] by {}
        assert(element_items(after)[i] == kind_items(after.kind)[i - 7]);
        assert forall|j: int| 7 <= j < items.len() && j != i implies #[trigger] element_items(after)[j]
            == items[j] by {
            assert(element_items(after)[j] == kind_items(after.kind)[j - 7]);
            assert(items[j] == kind_items(element.kind)[j - 7]);
        }
    }
}

} // verus!
