//! The mouse state of a clickable element, and how it moves between
//! "nothing", "hover" and "click" as the cursor moves and the select bind is
//! pressed and released.
use vstd::prelude::*;

use crate::controls::Bindings;
use crate::event_handling::{button_response, button_response_spec, ButtonResponse};
use crate::geometry::{IntRect, Vector2i};
use crate::window_events::UIEvent;

verus! {

#[derive(Clone, Copy, Debug, PartialEq, Eq, Structural)]
pub enum UIMouseStates {
    Nothing,
    Hover,
    Click,
}

impl Default for UIMouseStates {
    fn default() -> (r: Self)
        ensures
            r == UIMouseStates::Nothing,
    {
        UIMouseStates::Nothing
    }
}

impl UIMouseStates {
    pub open spec fn spec_is_click(self) -> bool {
        self == UIMouseStates::Click
    }

    /// A clicked element is hovered too.
    pub open spec fn spec_is_hover(self) -> bool {
        self == UIMouseStates::Hover || self == UIMouseStates::Click
    }

    pub fn is_click(self) -> (r: bool)
        ensures
            r == self.spec_is_click(),
    {
        self == UIMouseStates::Click
    }

    pub fn is_hover(self) -> (r: bool)
        ensures
            r == self.spec_is_hover(),
    {
        self == UIMouseStates::Hover || self == UIMouseStates::Click
    }

    /// The state after the cursor enters (`is_hover`) or leaves the element:
    /// hovering keeps a click, hovering a non-clicked element makes it
    /// hovered, and leaving the element clears it.
    pub open spec fn with_hover(self, is_hover: bool) -> UIMouseStates {
        if !is_hover {
            UIMouseStates::Nothing
        } else if self.spec_is_click() {
            UIMouseStates::Click
        } else {
            UIMouseStates::Hover
        }
    }

    pub fn set_hover(&mut self, is_hover: bool)
        ensures
            *final(self) == old(self).with_hover(is_hover),
    {
        let is_click = self.is_click();
        *self = if is_hover && is_click {
            UIMouseStates::Click
        } else if is_hover {
            UIMouseStates::Hover
        } else {
            UIMouseStates::Nothing
        };
    }

    /// The state a button takes when the cursor is at a point that is (or is
    /// not) inside it: outside means nothing, entering from nothing means
    /// hover, and otherwise the state stays as it is.
    pub open spec fn after_cursor(self, inside: bool) -> UIMouseStates {
        if !inside {
            UIMouseStates::Nothing
        } else if self == UIMouseStates::Nothing {
            UIMouseStates::Hover
        } else {
            self
        }
    }
}

/// The mouse state of a rectangular button together with its "needs redraw" flag.
#[derive(Clone, Copy, Debug, PartialEq, Eq, Structural)]
pub struct ButtonMouseState {
    pub global_bounds: IntRect,
    pub current_mouse_state: UIMouseStates,
    pub rerender: bool,
}

impl ButtonMouseState {
    pub fn new(global_bounds: IntRect) -> (r: Self)
        ensures
            r.global_bounds == global_bounds,
            r.current_mouse_state == UIMouseStates::Nothing,
            !r.rerender,
    {
        ButtonMouseState { global_bounds, current_mouse_state: UIMouseStates::Nothing, rerender: false }
    }

    pub fn is_hover(&self) -> (r: bool)
        ensures
            r == self.current_mouse_state.spec_is_hover(),
    {
        self.current_mouse_state.is_hover()
    }

    /// Moves the state with the cursor; a change of state asks for a redraw.
    pub fn set_hover(&mut self, mouse_pos: Vector2i)
        requires
            old(self).global_bounds.edges_fit(),
        ensures
            final(self).global_bounds == old(self).global_bounds,
            final(self).current_mouse_state == old(self).current_mouse_state.after_cursor(
                old(self).global_bounds.covers(mouse_pos),
            ),
            final(self).rerender == (old(self).rerender || final(self).current_mouse_state
                != old(self).current_mouse_state),
    {
        let previous = self.current_mouse_state;
        let inside = self.global_bounds.contains(mouse_pos);
        self.current_mouse_state = if !inside {
            UIMouseStates::Nothing
        } else if self.current_mouse_state == UIMouseStates::Nothing {
            UIMouseStates::Hover
        } else {
            self.current_mouse_state
        };
        self.rerender = self.rerender || self.current_mouse_state != previous;
    }

    /// Pressing the select bind over the button clicks it.
    pub fn bind_pressed(&mut self, mouse_pos: Vector2i)
        requires
            old(self).global_bounds.edges_fit(),
        ensures
            final(self).global_bounds == old(self).global_bounds,
            ({
                let hovered = old(self).current_mouse_state.after_cursor(
                    old(self).global_bounds.covers(mouse_pos),
                );
                &&& final(self).current_mouse_state == (if hovered.spec_is_hover() {
                    UIMouseStates::Click
                } else {
                    hovered
                })
                &&& final(self).rerender == (old(self).rerender || hovered
                    != old(self).current_mouse_state || hovered.spec_is_hover())
            }),
    {
        self.set_hover(mouse_pos);
        if self.is_hover() {
            self.rerender = true;
            self.current_mouse_state = UIMouseStates::Click;
        }
    }

    /// Releasing the select bind un-clicks the button.
    pub fn bind_released(&mut self)
        ensures
            final(self).global_bounds == old(self).global_bounds,
            final(self).current_mouse_state == UIMouseStates::Nothing,
            final(self).rerender,
    {
        self.rerender = true;
        self.current_mouse_state = UIMouseStates::Nothing;
    }

    /// Releasing the select bind un-clicks the button, which is then hovered
    /// again if the cursor is still over it.
    pub fn bind_released_at(&mut self, mouse_pos: Vector2i)
        requires
            old(self).global_bounds.edges_fit(),
        ensures
            final(self).global_bounds == old(self).global_bounds,
            final(self).current_mouse_state == (if old(self).global_bounds.covers(mouse_pos) {
                UIMouseStates::Hover
            } else {
                UIMouseStates::Nothing
            }),
            final(self).rerender,
    {
        self.current_mouse_state = UIMouseStates::Nothing;
        self.rerender = true;
        self.set_hover(mouse_pos);
    }
}

/// What a button reports after handling an event: the response that was
/// chosen, whether it emits its event, and whether the screen needs a redraw.
#[derive(Clone, Copy, Debug, PartialEq, Eq, Structural)]
pub struct ButtonEventOutcome {
    pub response: ButtonResponse,
    pub emits: bool,
    pub rerender: bool,
}

impl ButtonMouseState {
    /// Handles a window event: the button follows the cursor at `cursor`,
    /// then does what `button_response` picks for its new hover state. A
    /// press clicks it; a release un-clicks it and emits its event, after
    /// which it is hovered again when `rehover_on_release` holds (as image
    /// buttons are) and left alone otherwise; any event over it redraws.
    pub fn event_handler(&mut self, binds: &Bindings, event: &UIEvent, cursor: Vector2i, rehover_on_release: bool) -> (r: ButtonEventOutcome)
        requires
            old(self).global_bounds.edges_fit(),
            binds.wf(),
        ensures
            ({
                let inside = old(self).global_bounds.covers(cursor);
                let hovered = old(self).current_mouse_state.after_cursor(inside);
                let moved = old(self).rerender || hovered != old(self).current_mouse_state;
                &&& r.response == button_response_spec(hovered.spec_is_hover(), binds@, *event)
                &&& r.emits == (r.response == ButtonResponse::BindReleased)
                &&& r.rerender == (r.response != ButtonResponse::Ignore)
                &&& final(self).global_bounds == old(self).global_bounds
                &&& final(self).current_mouse_state == (match r.response {
                    ButtonResponse::BindPressed => UIMouseStates::Click,
                    ButtonResponse::BindReleased => if rehover_on_release {
                        UIMouseStates::Hover
                    } else {
                        UIMouseStates::Nothing
                    },
                    _ => hovered,
                })
                &&& final(self).rerender == (match r.response {
                    ButtonResponse::BindPressed => true,
                    ButtonResponse::BindReleased => true,
                    _ => moved,
                })
            }),
    {
        self.set_hover(cursor);
        let response = button_response(self.is_hover(), binds, event);
        match response {
            ButtonResponse::BindPressed => self.bind_pressed(cursor),
            ButtonResponse::BindReleased => if rehover_on_release {
                self.bind_released_at(cursor)
            } else {
                self.bind_released()
            },
            _ => {},
        }
        ButtonEventOutcome {
            response,
            emits: response == ButtonResponse::BindReleased,
            rerender: response != ButtonResponse::Ignore,
        }
    }
}

/// A clicked state counts as hovered.
pub proof fn lemma_click_is_hover(s: UIMouseStates)
    ensures
        s.spec_is_click() ==> s.spec_is_hover(),
{
}

/// After `set_hover(h)` the state is hovered exactly when `h` holds, and
/// a click survives as long as the cursor stays on the element.
pub proof fn lemma_set_hover_keeps_click(s: UIMouseStates, is_hover: bool)
    ensures
        s.with_hover(is_hover).spec_is_hover() == is_hover,
        s.with_hover(is_hover).spec_is_click() == (is_hover && s.spec_is_click()),
        s.with_hover(is_hover).with_hover(is_hover) == s.with_hover(is_hover),
{
}

} // verus!
