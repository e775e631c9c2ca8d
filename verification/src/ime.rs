//! Input-method (IME) handling of a window's platform output: when the
//! window's IME is switched on or off, and when its candidate area moves.

use vstd::prelude::*;

verus! {

/// What handling a window event tells the caller: whether the event was
/// consumed and whether a repaint is needed.
#[derive(Debug, Clone, Copy)]
pub struct EventResponse {
    pub consumed: bool,
    pub repaint: bool,
}

impl Default for EventResponse {
    fn default() -> (r: Self)
        ensures
            !r.consumed,
            !r.repaint,
    {
        EventResponse { consumed: false, repaint: false }
    }
}

/// What one frame's platform output says about the input method.
#[derive(Debug, Clone, Copy, PartialEq, Eq, Structural)]
pub struct ImeOutput {
    /// The frame asks for the IME (a text field has focus).
    pub requested: bool,
    /// The text cursor's rectangle differs from the candidate area last
    /// given to the window.
    pub cursor_moved: bool,
    /// Input events arrived in this frame.
    pub events_pending: bool,
}

/// What becomes of the window's IME candidate area.
#[derive(Debug, Clone, Copy, PartialEq, Eq, Structural)]
pub enum CursorArea {
    /// Left where it is.
    Keep,
    /// Moved to the text cursor, which is then remembered.
    Move,
    /// Forgotten: no candidate area is remembered.
    Forget,
}

/// The window calls that handling one frame's platform output makes.
#[derive(Debug, Clone, Copy, PartialEq, Eq, Structural)]
pub struct ImePlan {
    /// `Some(allowed)`: the window's IME is switched to `allowed`.
    pub set_allowed: Option<bool>,
    pub cursor_area: CursorArea,
}

/// The plan for a frame, given whether the IME is currently allowed: the IME
/// is switched only when the request differs from the current state; while
/// it is requested, the candidate area follows the text cursor when the
/// cursor moved or input arrived; when it is not requested, the area is
/// forgotten.
pub open spec fn spec_ime_plan(allow_ime: bool, output: ImeOutput) -> ImePlan {
    ImePlan {
        set_allowed: if allow_ime != output.requested {
            Some(output.requested)
        } else {
            None
        },
        cursor_area: if !output.requested {
            CursorArea::Forget
        } else if output.cursor_moved || output.events_pending {
            CursorArea::Move
        } else {
            CursorArea::Keep
        },
    }
}

/// Whether the IME is allowed after `plan` is carried out, starting from
/// `allow_ime`.
pub open spec fn allowed_after(allow_ime: bool, plan: ImePlan) -> bool {
    match plan.set_allowed {
        Some(allowed) => allowed,
        None => allow_ime,
    }
}

/// Decides the window calls for one frame's platform output.
pub fn plan_platform_output(allow_ime: bool, output: ImeOutput) -> (r: ImePlan)
    ensures
        r == spec_ime_plan(allow_ime, output),
{
    let set_allowed = if allow_ime != output.requested {
        Some(output.requested)
    } else {
        None
    };
    let cursor_area = if !output.requested {
        CursorArea::Forget
    } else if output.cursor_moved || output.events_pending {
        CursorArea::Move
    } else {
        CursorArea::Keep
    };
    ImePlan { set_allowed, cursor_area }
}

/// After a frame is handled the IME is allowed exactly when that frame
/// requested it, and handling a frame with the same request again does not
/// switch the IME a second time.
pub proof fn law_ime_follows_request(allow_ime: bool, output: ImeOutput, next: ImeOutput)
    requires
        next.requested == output.requested,
    ensures
        allowed_after(allow_ime, spec_ime_plan(allow_ime, output)) == output.requested,
        spec_ime_plan(allowed_after(allow_ime, spec_ime_plan(allow_ime, output)), next).set_allowed
            is None,
{
}

/// While the IME is requested its candidate area follows the text cursor:
/// it moves when the cursor moved or input arrived and stays otherwise;
/// once the IME is not requested the area is forgotten. The IME is switched
/// only when the request differs from the current state.
pub proof fn law_candidate_area_follows_cursor(allow_ime: bool, output: ImeOutput)
    ensures
        !output.requested ==> spec_ime_plan(allow_ime, output).cursor_area == CursorArea::Forget,
        output.requested && (output.cursor_moved || output.events_pending) ==> spec_ime_plan(
            allow_ime,
            output,
        ).cursor_area == CursorArea::Move,
        output.requested && !output.cursor_moved && !output.events_pending ==> spec_ime_plan(
            allow_ime,
            output,
        ).cursor_area == CursorArea::Keep,
        (spec_ime_plan(allow_ime, output).set_allowed is None) == (allow_ime == output.requested),
{
}

} // verus!
