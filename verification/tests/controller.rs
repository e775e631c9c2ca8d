use workflow_ide_framework::controller_panel::{
    apply_canvas_property_action, apply_property_action, gesture_allowed, property_model_for_canvas,
    property_model_for_element, ControllerElement, ControllerElementKind, ControllerMode, ControllerModel, Floor,
    Gesture,
};
use workflow_ide_framework::property_panel::{PropertyAction, PropertyValue};

fn edit(id: &str, value: PropertyValue<f32>) -> PropertyAction<f32> {
    PropertyAction::ValueChanged { property_id: id.to_string(), value }
}

fn button() -> ControllerElement<f32> {
    ControllerElement::new(
        "b1",
        "発射",
        [10.0, 20.0],
        [80.0, 40.0],
        ControllerElementKind::Button { text: "Fire".to_string(), image_source: None },
    )
}

#[test]
fn element_properties_list_common_then_kind_items() {
    let model = property_model_for_element(&button());
    assert_eq!(model.object_id.as_deref(), Some("b1"));
    assert_eq!(model.display_name.as_deref(), Some("発射 プロパティ"));
    assert_eq!(model.groups.len(), 1);
    assert_eq!(model.groups[0].label, "Controller Element");
    let ids: Vec<&str> = model.groups[0].items.iter().map(|i| i.id.as_str()).collect();
    assert_eq!(
        ids,
        vec!["label", "position.x", "position.y", "size.w", "size.h", "foreground", "background", "button.text", "button.image"]
    );
    assert_eq!(model.groups[0].items[1].value, PropertyValue::Float(10.0));
    assert_eq!(model.groups[0].items[5].value, PropertyValue::Color([220, 220, 220, 255]));
    assert_eq!(model.groups[0].items[8].value, PropertyValue::FilePath(String::new()));
}

#[test]
fn joystick_values_are_read_only() {
    let stick = ControllerElement::new(
        "j",
        "Stick",
        [0.0, 0.0],
        [60.0, 60.0],
        ControllerElementKind::Joystick { value: [0.5, -0.25], return_to_center: true },
    );
    let model = property_model_for_element(&stick);
    let items = &model.groups[0].items;
    assert_eq!(items.len(), 10);
    assert!(items[7].read_only && items[8].read_only && !items[9].read_only);
    assert_eq!(items[8].value, PropertyValue::Float(-0.25));
    assert_eq!(items[9].value, PropertyValue::Bool(true));
}

#[test]
fn property_edits_set_fields_and_report_bounds() {
    let mut e = button();
    assert_eq!(apply_property_action(&mut e, &edit("label", PropertyValue::Text("撃つ".into()))), Floor::Unbounded);
    assert_eq!(e.label, "撃つ");
    assert_eq!(apply_property_action(&mut e, &edit("size.w", PropertyValue::Float(5.0))), Floor::ElementWidth);
    assert_eq!(e.size, [5.0, 40.0]);
    apply_property_action(&mut e, &edit("button.image", PropertyValue::FilePath("fire.png".into())));
    assert!(matches!(&e.kind, ControllerElementKind::Button { image_source: Some(s), .. } if s == "fire.png"));
    apply_property_action(&mut e, &edit("button.image", PropertyValue::FilePath(String::new())));
    assert!(matches!(&e.kind, ControllerElementKind::Button { image_source: None, .. }));
    // An item of another kind, or a value of the wrong type, changes nothing.
    apply_property_action(&mut e, &edit("slider.value", PropertyValue::Float(3.0)));
    apply_property_action(&mut e, &edit("position.x", PropertyValue::Text("x".into())));
    assert_eq!(e.position, [10.0, 20.0]);
    assert!(matches!(&e.kind, ControllerElementKind::Button { text, .. } if text == "Fire"));
}

#[test]
fn canvas_properties_and_edits() {
    let mut model = ControllerModel::new([800.0f32, 520.0]);
    let props = property_model_for_canvas(&model);
    assert_eq!(props.object_id.as_deref(), Some("__controller_canvas__"));
    assert_eq!(props.groups[0].items[2].value, PropertyValue::Color([30, 30, 30, 255]));
    assert_eq!(
        apply_canvas_property_action(&mut model, &edit("canvas.h", PropertyValue::Float(50.0))),
        Floor::CanvasHeight
    );
    assert_eq!(model.canvas_size, [800.0, 50.0]);
    apply_canvas_property_action(&mut model, &edit("canvas.background", PropertyValue::Color([1, 2, 3, 4])));
    assert_eq!(model.background, [1, 2, 3, 4]);
}

#[test]
fn gestures_follow_the_mode() {
    assert!(gesture_allowed(ControllerMode::Edit, Gesture::MoveElement));
    assert!(!gesture_allowed(ControllerMode::Operate, Gesture::ResizeElement));
    assert!(gesture_allowed(ControllerMode::Operate, Gesture::PressButton));
    assert!(!gesture_allowed(ControllerMode::Edit, Gesture::SteerJoystick));
}
