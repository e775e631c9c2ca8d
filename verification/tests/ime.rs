use workflow_ide_framework::ime::{plan_platform_output, CursorArea, EventResponse, ImeOutput};

fn output(requested: bool, cursor_moved: bool, events_pending: bool) -> ImeOutput {
    ImeOutput { requested, cursor_moved, events_pending }
}

#[test]
fn event_response_defaults_to_nothing() {
    let r = EventResponse::default();
    assert!(!r.consumed);
    assert!(!r.repaint);
}

#[test]
fn ime_is_switched_on_when_first_requested() {
    let plan = plan_platform_output(false, output(true, true, false));
    assert_eq!(plan.set_allowed, Some(true));
    assert_eq!(plan.cursor_area, CursorArea::Move);
}

#[test]
fn ime_is_not_switched_again_while_requested() {
    let plan = plan_platform_output(true, output(true, false, false));
    assert_eq!(plan.set_allowed, None);
    assert_eq!(plan.cursor_area, CursorArea::Keep);
}

#[test]
fn pending_input_moves_the_candidate_area() {
    let plan = plan_platform_output(true, output(true, false, true));
    assert_eq!(plan.set_allowed, None);
    assert_eq!(plan.cursor_area, CursorArea::Move);
}

#[test]
fn ime_is_switched_off_and_the_area_forgotten() {
    let plan = plan_platform_output(true, output(false, false, true));
    assert_eq!(plan.set_allowed, Some(false));
    assert_eq!(plan.cursor_area, CursorArea::Forget);
    let idle = plan_platform_output(false, output(false, false, false));
    assert_eq!(idle.set_allowed, None);
    assert_eq!(idle.cursor_area, CursorArea::Forget);
}
