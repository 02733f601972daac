//! How each kind of element answers a window event, given its own state and
//! the binding table: the decision part of the element event handlers.
//!
//! Each function returns what the element does; the caller performs it
//! (calls the element's `bind_pressed`, emits its triggered event, and so on).
use vstd::prelude::*;

use crate::controls::{Bindings, BindingsView, PossibleBinds, PossibleInputs};
use crate::geometry::{IntRect, Vector2i};
use crate::window_events::UIEvent;

verus! {

/// What a button does with an event.
#[derive(Clone, Copy, Debug, PartialEq, Eq, Structural)]
pub enum ButtonResponse {
    /// Press the button at the cursor; no event; redraw.
    BindPressed,
    /// Release the button at the cursor; emit its event; redraw.
    BindReleased,
    /// No event; redraw.
    Rerender,
    /// No event; no redraw.
    Ignore,
}

/// The select bind went down through `input`.
pub open spec fn select_pressed_by(v: BindingsView, input: PossibleInputs) -> bool {
    v.binds(input, PossibleBinds::Select) && v.pressed(PossibleBinds::Select)
}

/// The select bind went up through `input`.
pub open spec fn select_released_by(v: BindingsView, input: PossibleInputs) -> bool {
    v.binds(input, PossibleBinds::Select) && v.released(PossibleBinds::Select)
}

/// A hovered button is pressed by the select bind (or by moving the mouse
/// while it is held) and released by the select bind; any other event over
/// it only redraws it.
pub open spec fn button_response_spec(is_hover: bool, v: BindingsView, e: UIEvent) -> ButtonResponse {
    if !is_hover {
        ButtonResponse::Ignore
    } else {
        match e {
            UIEvent::MouseButtonPressed { button, .. } => if select_pressed_by(v, button) {
                ButtonResponse::BindPressed
            } else {
                ButtonResponse::Rerender
            },
            UIEvent::MouseButtonReleased { button, .. } => if select_released_by(v, button) {
                ButtonResponse::BindReleased
            } else {
                ButtonResponse::Rerender
            },
            UIEvent::MouseMoved { .. } => if v.pressed(PossibleBinds::Select) {
                ButtonResponse::BindPressed
            } else {
                ButtonResponse::Rerender
            },
            UIEvent::KeyPressed { code, .. } => if select_pressed_by(v, code) {
                ButtonResponse::BindPressed
            } else {
                ButtonResponse::Rerender
            },
            UIEvent::KeyReleased { code, .. } => if select_released_by(v, code) {
                ButtonResponse::BindReleased
            } else {
                ButtonResponse::Rerender
            },
            _ => ButtonResponse::Rerender,
        }
    }
}

fn select_pressed_by_exec(binds: &Bindings, input: PossibleInputs) -> (r: bool)
    requires
        binds.wf(),
    ensures
        r == select_pressed_by(binds@, input),
{
    binds.is_bind_pressed_and_binded(input, PossibleBinds::Select)
}

fn select_released_by_exec(binds: &Bindings, input: PossibleInputs) -> (r: bool)
    requires
        binds.wf(),
    ensures
        r == select_released_by(binds@, input),
{
    binds.is_bind_released_and_binded(input, PossibleBinds::Select)
}

/// The answer of a button whose hover state (after following the cursor) is `is_hover`.
pub fn button_response(is_hover: bool, binds: &Bindings, event: &UIEvent) -> (r: ButtonResponse)
    requires
        binds.wf(),
    ensures
        r == button_response_spec(is_hover, binds@, *event),
{
    if !is_hover {
        return ButtonResponse::Ignore;
    }
    match *event {
        UIEvent::MouseButtonPressed { button, .. } => if select_pressed_by_exec(binds, button) {
            ButtonResponse::BindPressed
        } else {
            ButtonResponse::Rerender
        },
        UIEvent::MouseButtonReleased { button, .. } => if select_released_by_exec(binds, button) {
            ButtonResponse::BindReleased
        } else {
            ButtonResponse::Rerender
        },
        UIEvent::MouseMoved { .. } => if binds.is_bind_pressed(PossibleBinds::Select) {
            ButtonResponse::BindPressed
        } else {
            ButtonResponse::Rerender
        },
        UIEvent::KeyPressed { code, .. } => if select_pressed_by_exec(binds, code) {
            ButtonResponse::BindPressed
        } else {
            ButtonResponse::Rerender
        },
        UIEvent::KeyReleased { code, .. } => if select_released_by_exec(binds, code) {
            ButtonResponse::BindReleased
        } else {
            ButtonResponse::Rerender
        },
        _ => ButtonResponse::Rerender,
    }
}

/// What a list box does with an event.
#[derive(Clone, Copy, Debug, PartialEq, Eq, Structural)]
pub enum ListBoxResponse {
    /// Press at the cursor; no event; redraw.
    BindPressed,
    /// Press at the cursor; emit the list's event; redraw.
    BindPressedWithEvent,
    /// Release at the cursor; emit the list's event; redraw.
    BindReleased,
    /// No event; no redraw.
    Ignore,
}

/// Like a button, except that dragging over a held list reports its option
/// and other events are ignored.
pub open spec fn listbox_response_spec(is_hover: bool, v: BindingsView, e: UIEvent) -> ListBoxResponse {
    if !is_hover {
        ListBoxResponse::Ignore
    } else {
        match e {
            UIEvent::MouseButtonPressed { button, .. } => if select_pressed_by(v, button) {
                ListBoxResponse::BindPressed
            } else {
                ListBoxResponse::Ignore
            },
            UIEvent::MouseButtonReleased { button, .. } => if select_released_by(v, button) {
                ListBoxResponse::BindReleased
            } else {
                ListBoxResponse::Ignore
            },
            UIEvent::MouseMoved { .. } => if v.pressed(PossibleBinds::Select) {
                ListBoxResponse::BindPressedWithEvent
            } else {
                ListBoxResponse::Ignore
            },
            UIEvent::KeyPressed { code, .. } => if select_pressed_by(v, code) {
                ListBoxResponse::BindPressed
            } else {
                ListBoxResponse::Ignore
            },
            UIEvent::KeyReleased { code, .. } => if select_released_by(v, code) {
                ListBoxResponse::BindReleased
            } else {
                ListBoxResponse::Ignore
            },
            _ => ListBoxResponse::Ignore,
        }
    }
}

pub fn listbox_response(is_hover: bool, binds: &Bindings, event: &UIEvent) -> (r: ListBoxResponse)
    requires
        binds.wf(),
    ensures
        r == listbox_response_spec(is_hover, binds@, *event),
{
    if !is_hover {
        return ListBoxResponse::Ignore;
    }
    match *event {
        UIEvent::MouseButtonPressed { button, .. } => if select_pressed_by_exec(binds, button) {
            ListBoxResponse::BindPressed
        } else {
            ListBoxResponse::Ignore
        },
        UIEvent::MouseButtonReleased { button, .. } => if select_released_by_exec(binds, button) {
            ListBoxResponse::BindReleased
        } else {
            ListBoxResponse::Ignore
        },
        UIEvent::MouseMoved { .. } => if binds.is_bind_pressed(PossibleBinds::Select) {
            ListBoxResponse::BindPressedWithEvent
        } else {
            ListBoxResponse::Ignore
        },
        UIEvent::KeyPressed { code, .. } => if select_pressed_by_exec(binds, code) {
            ListBoxResponse::BindPressed
        } else {
            ListBoxResponse::Ignore
        },
        UIEvent::KeyReleased { code, .. } => if select_released_by_exec(binds, code) {
            ListBoxResponse::BindReleased
        } else {
            ListBoxResponse::Ignore
        },
        _ => ListBoxResponse::Ignore,
    }
}

/// What a slider does with an event.
#[derive(Clone, Copy, Debug, PartialEq, Eq, Structural)]
pub enum SliderResponse {
    /// Press at the cursor; emit the slider's event and redraw if the press
    /// changed that event, else neither (see `slider_event_outcome`).
    BindPressed,
    /// Release at the cursor; emit the slider's event and redraw if the
    /// release changed that event, else neither (see `slider_event_outcome`).
    BindReleased,
    /// Move the slider to the cursor; emit its event; redraw.
    Drag,
    /// No event; no redraw.
    Ignore,
}

/// A slider listens to the select bind wherever the cursor is, and follows
/// the mouse while it is being dragged.
pub open spec fn slider_response_spec(is_dragging: bool, v: BindingsView, e: UIEvent) -> SliderResponse {
    match e {
        UIEvent::MouseButtonPressed { button, .. } => if select_pressed_by(v, button) {
            SliderResponse::BindPressed
        } else {
            SliderResponse::Ignore
        },
        UIEvent::KeyPressed { code, .. } => if select_pressed_by(v, code) {
            SliderResponse::BindPressed
        } else {
            SliderResponse::Ignore
        },
        UIEvent::MouseButtonReleased { button, .. } => if select_released_by(v, button) {
            SliderResponse::BindReleased
        } else {
            SliderResponse::Ignore
        },
        UIEvent::KeyReleased { code, .. } => if select_released_by(v, code) {
            SliderResponse::BindReleased
        } else {
            SliderResponse::Ignore
        },
        UIEvent::MouseMoved { .. } => if is_dragging {
            SliderResponse::Drag
        } else {
            SliderResponse::Ignore
        },
        _ => SliderResponse::Ignore,
    }
}

pub fn slider_response(is_dragging: bool, binds: &Bindings, event: &UIEvent) -> (r: SliderResponse)
    requires
        binds.wf(),
    ensures
        r == slider_response_spec(is_dragging, binds@, *event),
{
    match *event {
        UIEvent::MouseButtonPressed { button, .. } => if select_pressed_by_exec(binds, button) {
            SliderResponse::BindPressed
        } else {
            SliderResponse::Ignore
        },
        UIEvent::KeyPressed { code, .. } => if select_pressed_by_exec(binds, code) {
            SliderResponse::BindPressed
        } else {
            SliderResponse::Ignore
        },
        UIEvent::MouseButtonReleased { button, .. } => if select_released_by_exec(binds, button) {
            SliderResponse::BindReleased
        } else {
            SliderResponse::Ignore
        },
        UIEvent::KeyReleased { code, .. } => if select_released_by_exec(binds, code) {
            SliderResponse::BindReleased
        } else {
            SliderResponse::Ignore
        },
        UIEvent::MouseMoved { .. } => if is_dragging {
            SliderResponse::Drag
        } else {
            SliderResponse::Ignore
        },
        _ => SliderResponse::Ignore,
    }
}

/// What a slider reports once it has carried out `response`: whether it
/// emits its event, and whether the screen needs a redraw. `changed` says
/// whether the press or release changed the event the slider triggers (its
/// value, compared by the caller before and after). A drag always reports
/// and redraws; an ignored event does neither.
pub fn slider_event_outcome(response: SliderResponse, changed: bool) -> (r: (bool, bool))
    ensures
        r == (match response {
            SliderResponse::BindPressed => (changed, changed),
            SliderResponse::BindReleased => (changed, changed),
            SliderResponse::Drag => (true, true),
            SliderResponse::Ignore => (false, false),
        }),
{
    match response {
        SliderResponse::BindPressed | SliderResponse::BindReleased => (changed, changed),
        SliderResponse::Drag => (true, true),
        SliderResponse::Ignore => (false, false),
    }
}

/// What a background does with an event, besides passing it to its children.
#[derive(Clone, Copy, Debug, PartialEq, Eq, Structural)]
pub enum BackgroundResponse {
    /// Add an empty event; the redraw flag stays as the children left it.
    EmptyEvent,
    /// Add an empty event and redraw.
    EmptyEventRerender,
    /// Nothing more.
    Nothing,
}

/// A hovered background swallows mouse movement; with the cursor inside
/// it, a button or key whose select bind is released makes it redraw. (The
/// released state is checked for presses too.)
pub open spec fn background_response_spec(is_hover: bool, contains_cursor: bool, v: BindingsView, e: UIEvent) -> BackgroundResponse {
    match e {
        UIEvent::MouseMoved { .. } => if is_hover {
            BackgroundResponse::EmptyEvent
        } else {
            BackgroundResponse::Nothing
        },
        UIEvent::MouseButtonReleased { button, .. } => if select_released_by(v, button) && contains_cursor {
            BackgroundResponse::EmptyEventRerender
        } else {
            BackgroundResponse::Nothing
        },
        UIEvent::MouseButtonPressed { button, .. } => if select_released_by(v, button) && contains_cursor {
            BackgroundResponse::EmptyEventRerender
        } else {
            BackgroundResponse::Nothing
        },
        UIEvent::KeyReleased { code, .. } => if select_released_by(v, code) && contains_cursor {
            BackgroundResponse::EmptyEventRerender
        } else {
            BackgroundResponse::Nothing
        },
        UIEvent::KeyPressed { code, .. } => if select_released_by(v, code) && contains_cursor {
            BackgroundResponse::EmptyEventRerender
        } else {
            BackgroundResponse::Nothing
        },
        _ => BackgroundResponse::Nothing,
    }
}

pub fn background_response(is_hover: bool, contains_cursor: bool, binds: &Bindings, event: &UIEvent) -> (r: BackgroundResponse)
    requires
        binds.wf(),
    ensures
        r == background_response_spec(is_hover, contains_cursor, binds@, *event),
{
    match *event {
        UIEvent::MouseMoved { .. } => if is_hover {
            BackgroundResponse::EmptyEvent
        } else {
            BackgroundResponse::Nothing
        },
        UIEvent::MouseButtonReleased { button, .. } => if select_released_by_exec(binds, button) && contains_cursor {
            BackgroundResponse::EmptyEventRerender
        } else {
            BackgroundResponse::Nothing
        },
        UIEvent::MouseButtonPressed { button, .. } => if select_released_by_exec(binds, button) && contains_cursor {
            BackgroundResponse::EmptyEventRerender
        } else {
            BackgroundResponse::Nothing
        },
        UIEvent::KeyReleased { code, .. } => if select_released_by_exec(binds, code) && contains_cursor {
            BackgroundResponse::EmptyEventRerender
        } else {
            BackgroundResponse::Nothing
        },
        UIEvent::KeyPressed { code, .. } => if select_released_by_exec(binds, code) && contains_cursor {
            BackgroundResponse::EmptyEventRerender
        } else {
            BackgroundResponse::Nothing
        },
        _ => BackgroundResponse::Nothing,
    }
}

/// What a background reports after handling an event, on top of what its
/// children reported: its new hover state, the response that was chosen,
/// whether it adds an empty event, and whether the screen needs a redraw.
#[derive(Clone, Copy, Debug, PartialEq, Eq, Structural)]
pub struct BackgroundEventOutcome {
    pub hover: bool,
    pub response: BackgroundResponse,
    pub adds_empty_event: bool,
    pub rerender: bool,
}

/// Handles a window event for a background whose children have already
/// handled it (asking for a redraw when `children_rerender` holds): the
/// background is hovered when its sprite's bounds `sprite_bounds` hold the
/// cursor, and then does what `background_response` picks, with its own
/// bounds `global_bounds`.
pub fn background_event_handler(
    children_rerender: bool,
    sprite_bounds: IntRect,
    global_bounds: IntRect,
    cursor: Vector2i,
    binds: &Bindings,
    event: &UIEvent,
) -> (r: BackgroundEventOutcome)
    requires
        sprite_bounds.edges_fit(),
        global_bounds.edges_fit(),
        binds.wf(),
    ensures
        r.hover == sprite_bounds.covers(cursor),
        r.response == background_response_spec(r.hover, global_bounds.covers(cursor), binds@, *event),
        r.adds_empty_event == (r.response != BackgroundResponse::Nothing),
        r.rerender == (children_rerender || r.response == BackgroundResponse::EmptyEventRerender),
{
    let hover = sprite_bounds.contains(cursor);
    let response = background_response(hover, global_bounds.contains(cursor), binds, event);
    BackgroundEventOutcome {
        hover,
        response,
        adds_empty_event: response != BackgroundResponse::Nothing,
        rerender: children_rerender || response == BackgroundResponse::EmptyEventRerender,
    }
}

/// Over a hovered button, a key and a mouse button answer alike: pressing
/// one bound to the select bind while it is held presses the button, and
/// releasing one bound to it while it is released releases the button
/// (which then emits its event). Over a button that is not hovered, nothing
/// happens.
pub proof fn lemma_button_keys_and_mouse_alike(v: BindingsView, input: PossibleInputs, x: i32, y: i32, ctrl: bool, alt: bool, shift: bool, system: bool, e: UIEvent)
    ensures
        button_response_spec(true, v, UIEvent::KeyReleased { code: input, ctrl, alt, shift, system })
            == button_response_spec(true, v, UIEvent::MouseButtonReleased { button: input, x, y }),
        button_response_spec(true, v, UIEvent::KeyPressed { code: input, ctrl, alt, shift, system })
            == button_response_spec(true, v, UIEvent::MouseButtonPressed { button: input, x, y }),
        v.binds(input, PossibleBinds::Select) && v.released(PossibleBinds::Select) ==> button_response_spec(
            true,
            v,
            UIEvent::KeyReleased { code: input, ctrl, alt, shift, system },
        ) == ButtonResponse::BindReleased,
        v.binds(input, PossibleBinds::Select) && v.pressed(PossibleBinds::Select) ==> button_response_spec(
            true,
            v,
            UIEvent::KeyPressed { code: input, ctrl, alt, shift, system },
        ) == ButtonResponse::BindPressed,
        button_response_spec(false, v, e) == ButtonResponse::Ignore,
{
}

/// The arrow binds move a text box's cursor the way they point: a key
/// press bound to the right bind while it is held, when no earlier rule
/// (escape, Ctrl+X/C/V, Ctrl+A while selected, the left bind) applies,
/// moves the cursor right; the left bind likewise moves it left. No key
/// event moves the cursor left unless its input is bound to the held left
/// bind, nor right unless it is bound to the held right bind.
pub proof fn lemma_textbox_arrows(is_selected: bool, is_dragging: bool, v: BindingsView, code: PossibleInputs, ctrl: bool, alt: bool, shift: bool, system: bool, e: UIEvent)
    ensures
        ({
            let ev = UIEvent::KeyPressed { code, ctrl, alt, shift, system };
            let earlier = (v.binds(code, PossibleBinds::Escape) && v.pressed(PossibleBinds::Escape)) || (ctrl && (
            code == PossibleInputs::X || code == PossibleInputs::C || code == PossibleInputs::V || (code
                == PossibleInputs::A && is_selected)));
            &&& !earlier && !(v.binds(code, PossibleBinds::UILeft) && v.pressed(PossibleBinds::UILeft)) && v.binds(
                code,
                PossibleBinds::UIRight,
            ) && v.pressed(PossibleBinds::UIRight) ==> textbox_response_spec(is_selected, is_dragging, v, ev)
                == TextBoxResponse::MoveCursorRight
            &&& !earlier && v.binds(code, PossibleBinds::UILeft) && v.pressed(PossibleBinds::UILeft)
                ==> textbox_response_spec(is_selected, is_dragging, v, ev) == TextBoxResponse::MoveCursorLeft
        }),
        textbox_response_spec(is_selected, is_dragging, v, e) == TextBoxResponse::MoveCursorLeft ==> (
        e matches UIEvent::KeyPressed { code: c, .. } && v.binds(c, PossibleBinds::UILeft) && v.pressed(
            PossibleBinds::UILeft,
        )),
        textbox_response_spec(is_selected, is_dragging, v, e) == TextBoxResponse::MoveCursorRight ==> (
        e matches UIEvent::KeyPressed { code: c, .. } && v.binds(c, PossibleBinds::UIRight) && v.pressed(
            PossibleBinds::UIRight,
        )),
{
}

/// What a text box does with an event.
#[derive(Clone, Copy, Debug, PartialEq, Eq, Structural)]
pub enum TextBoxResponse {
    /// Deselect; emit the text box's event; redraw.
    Deselect,
    /// Cut the selection; emit; redraw.
    Cut,
    /// Copy the selection; no event; redraw.
    Copy,
    /// Paste; emit; redraw.
    Paste,
    /// No event; redraw. The text box defines no select-all operation, so on
    /// this response (Ctrl+A while selected) its `event_handler` leaves the
    /// box as it is.
    SelectAll,
    /// Extend the selection to the cursor; no event; redraw.
    Drag,
    /// Press at the cursor; emit only if the selected state changed, and
    /// then redraw.
    BindPressed,
    /// Release at the cursor; no event; redraw while dragging.
    BindReleased,
    /// Move the text cursor left and drop the selection; no event; redraw.
    MoveCursorLeft,
    /// Move the text cursor right and drop the selection; no event; redraw.
    MoveCursorRight,
    /// Type the character; emit; redraw.
    TextEntered,
    /// A key while selected; emit; no redraw.
    KeyWhileSelected,
    /// No event; no redraw.
    Ignore,
}

/// The text box rules, tried in order: the escape bind deselects; Ctrl+X,
/// Ctrl+C, Ctrl+V cut, copy and paste; Ctrl+A selects all when the box is
/// selected; mouse movement drags while dragging; the select bind presses and
/// releases; the left and right binds move the cursor; typed characters go
/// in when selected; other key events while selected are reported.
pub open spec fn textbox_response_spec(is_selected: bool, is_dragging: bool, v: BindingsView, e: UIEvent) -> TextBoxResponse {
    match e {
        UIEvent::KeyPressed { code, ctrl, .. } => if v.binds(code, PossibleBinds::Escape) && v.pressed(
            PossibleBinds::Escape,
        ) {
            TextBoxResponse::Deselect
        } else if code == PossibleInputs::X && ctrl {
            TextBoxResponse::Cut
        } else if code == PossibleInputs::C && ctrl {
            TextBoxResponse::Copy
        } else if code == PossibleInputs::V && ctrl {
            TextBoxResponse::Paste
        } else if code == PossibleInputs::A && ctrl && is_selected {
            TextBoxResponse::SelectAll
        } else if v.binds(code, PossibleBinds::UILeft) && v.pressed(PossibleBinds::UILeft) {
            TextBoxResponse::MoveCursorLeft
        } else if v.binds(code, PossibleBinds::UIRight) && v.pressed(PossibleBinds::UIRight) {
            TextBoxResponse::MoveCursorRight
        } else if select_pressed_by(v, code) {
            TextBoxResponse::BindPressed
        } else if is_selected {
            TextBoxResponse::KeyWhileSelected
        } else {
            TextBoxResponse::Ignore
        },
        UIEvent::MouseMoved { .. } => if is_dragging {
            TextBoxResponse::Drag
        } else {
            TextBoxResponse::Ignore
        },
        UIEvent::MouseButtonPressed { button, .. } => if select_pressed_by(v, button) {
            TextBoxResponse::BindPressed
        } else {
            TextBoxResponse::Ignore
        },
        UIEvent::MouseButtonReleased { button, .. } => if select_released_by(v, button) {
            TextBoxResponse::BindReleased
        } else {
            TextBoxResponse::Ignore
        },
        UIEvent::KeyReleased { code, .. } => if select_released_by(v, code) {
            TextBoxResponse::BindReleased
        } else if is_selected {
            TextBoxResponse::KeyWhileSelected
        } else {
            TextBoxResponse::Ignore
        },
        UIEvent::TextEntered { .. } => if is_selected {
            TextBoxResponse::TextEntered
        } else {
            TextBoxResponse::Ignore
        },
        _ => TextBoxResponse::Ignore,
    }
}

pub fn textbox_response(is_selected: bool, is_dragging: bool, binds: &Bindings, event: &UIEvent) -> (r: TextBoxResponse)
    requires
        binds.wf(),
    ensures
        r == textbox_response_spec(is_selected, is_dragging, binds@, *event),
{
    match *event {
        UIEvent::KeyPressed { code, ctrl, .. } => if binds.is_bind_pressed_and_binded(
            code,
            PossibleBinds::Escape,
        ) {
            TextBoxResponse::Deselect
        } else if code == PossibleInputs::X && ctrl {
            TextBoxResponse::Cut
        } else if code == PossibleInputs::C && ctrl {
            TextBoxResponse::Copy
        } else if code == PossibleInputs::V && ctrl {
            TextBoxResponse::Paste
        } else if code == PossibleInputs::A && ctrl && is_selected {
            TextBoxResponse::SelectAll
        } else if binds.is_bind_pressed_and_binded(code, PossibleBinds::UILeft) {
            TextBoxResponse::MoveCursorLeft
        } else if binds.is_bind_pressed_and_binded(code, PossibleBinds::UIRight) {
            TextBoxResponse::MoveCursorRight
        } else if select_pressed_by_exec(binds, code) {
            TextBoxResponse::BindPressed
        } else if is_selected {
            TextBoxResponse::KeyWhileSelected
        } else {
            TextBoxResponse::Ignore
        },
        UIEvent::MouseMoved { .. } => if is_dragging {
            TextBoxResponse::Drag
        } else {
            TextBoxResponse::Ignore
        },
        UIEvent::MouseButtonPressed { button, .. } => if select_pressed_by_exec(binds, button) {
            TextBoxResponse::BindPressed
        } else {
            TextBoxResponse::Ignore
        },
        UIEvent::MouseButtonReleased { button, .. } => if select_released_by_exec(binds, button) {
            TextBoxResponse::BindReleased
        } else {
            TextBoxResponse::Ignore
        },
        UIEvent::KeyReleased { code, .. } => if select_released_by_exec(binds, code) {
            TextBoxResponse::BindReleased
        } else if is_selected {
            TextBoxResponse::KeyWhileSelected
        } else {
            TextBoxResponse::Ignore
        },
        UIEvent::TextEntered { .. } => if is_selected {
            TextBoxResponse::TextEntered
        } else {
            TextBoxResponse::Ignore
        },
        _ => TextBoxResponse::Ignore,
    }
}

} // verus!
