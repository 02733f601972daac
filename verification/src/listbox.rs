//! The state of an up/down scroll list box: a ring of options, the selected
//! one, an odd number of option buttons centred on the selection, and the
//! press-and-hold timer of its scroll buttons.
use vstd::prelude::*;

use crate::controls::Bindings;
use crate::event_handling::{listbox_response, listbox_response_spec, ListBoxResponse};
use crate::mouse_ui_states::UIMouseStates;
use crate::window_events::UIEvent;

verus! {

/// Time passed from `since` to `now`, or zero if `now` comes first
/// (timestamps are in any fixed unit, such as nanoseconds).
pub open spec fn elapsed(now: u64, since: u64) -> int {
    if now >= since {
        now - since
    } else {
        0
    }
}

fn elapsed_exec(now: u64, since: u64) -> (r: u64)
    ensures
        r == elapsed(now, since),
{
    if now >= since {
        now - since
    } else {
        0
    }
}

/// Which scroll button is held, with when it was pressed and when the list
/// last scrolled because of it.
#[derive(Clone, Copy, Debug, PartialEq, Eq, Structural)]
pub enum UpDownClickState {
    Up { pressed_at: u64, last_update_at: u64 },
    Down { pressed_at: u64, last_update_at: u64 },
    Idle,
}

impl UpDownClickState {
    /// A held button repeats once it has been held longer than
    /// `time_between_bind_pressed` and the last repeat is older than
    /// `time_between_updates`.
    pub open spec fn spec_is_update_needed(self, now: u64, time_between_bind_pressed: u64, time_between_updates: u64) -> bool {
        match self {
            UpDownClickState::Up { pressed_at, last_update_at } => elapsed(now, pressed_at)
                > time_between_bind_pressed && elapsed(now, last_update_at) > time_between_updates,
            UpDownClickState::Down { pressed_at, last_update_at } => elapsed(now, pressed_at)
                > time_between_bind_pressed && elapsed(now, last_update_at) > time_between_updates,
            UpDownClickState::Idle => false,
        }
    }

    pub fn is_update_needed(&self, now: u64, time_between_bind_pressed: u64, time_between_updates: u64) -> (r: bool)
        ensures
            r == self.spec_is_update_needed(now, time_between_bind_pressed, time_between_updates),
    {
        match *self {
            UpDownClickState::Up { pressed_at, last_update_at } => elapsed_exec(now, pressed_at)
                > time_between_bind_pressed && elapsed_exec(now, last_update_at) > time_between_updates,
            UpDownClickState::Down { pressed_at, last_update_at } => elapsed_exec(now, pressed_at)
                > time_between_bind_pressed && elapsed_exec(now, last_update_at) > time_between_updates,
            UpDownClickState::Idle => false,
        }
    }

    /// Records a repeat at `now`.
    pub fn increment_last_update_instant(&mut self, now: u64)
        ensures
            *final(self) == (match *old(self) {
                UpDownClickState::Up { pressed_at, .. } => UpDownClickState::Up {
                    pressed_at,
                    last_update_at: now,
                },
                UpDownClickState::Down { pressed_at, .. } => UpDownClickState::Down {
                    pressed_at,
                    last_update_at: now,
                },
                UpDownClickState::Idle => UpDownClickState::Idle,
            }),
    {
        *self = match *self {
            UpDownClickState::Up { pressed_at, .. } => UpDownClickState::Up { pressed_at, last_update_at: now },
            UpDownClickState::Down { pressed_at, .. } => UpDownClickState::Down { pressed_at, last_update_at: now },
            UpDownClickState::Idle => UpDownClickState::Idle,
        }
    }
}

/// The option before `i` in a ring of `len` options.
pub open spec fn scrolled_up(i: int, len: int) -> int {
    if i == 0 {
        len - 1
    } else {
        i - 1
    }
}

/// The option after `i` in a ring of `len` options.
pub open spec fn scrolled_down(i: int, len: int) -> int {
    (i + 1) % len
}

/// The number of option buttons that a list of `len` options shows when
/// asked for `requested`: at most `len`, and odd (an even count loses one).
pub open spec fn normalized_button_count(requested: int, len: int) -> int {
    let n = if requested > len {
        len
    } else {
        requested
    };
    if n % 2 == 0 {
        n - 1
    } else {
        n
    }
}

/// The state of an up/down scroll list box.
#[derive(Clone, Debug)]
pub struct UpDownScrollList {
    options: Vec<String>,
    number_of_buttons: usize,
    current_option_idx: usize,
    up_down_click_state: UpDownClickState,
}

impl UpDownScrollList {
    /// The text of each option.
    pub closed spec fn options_view(self) -> Seq<Seq<char>> {
        self.options@.map_values(|s: String| s@)
    }

    pub closed spec fn spec_number_of_buttons(self) -> int {
        self.number_of_buttons as int
    }

    pub closed spec fn spec_current_option_idx(self) -> int {
        self.current_option_idx as int
    }

    pub closed spec fn spec_click_state(self) -> UpDownClickState {
        self.up_down_click_state
    }

    /// At least one option, an odd number of buttons between one and the
    /// number of options, and a selected option that exists.
    pub closed spec fn wf(self) -> bool {
        &&& self.options@.len() > 0
        &&& 1 <= self.number_of_buttons <= self.options@.len()
        &&& self.number_of_buttons % 2 == 1
        &&& self.current_option_idx < self.options@.len()
    }

    pub proof fn lemma_wf(self)
        requires
            self.wf(),
        ensures
            self.options_view().len() > 0,
            1 <= self.spec_number_of_buttons() <= self.options_view().len(),
            self.spec_number_of_buttons() % 2 == 1,
            0 <= self.spec_current_option_idx() < self.options_view().len(),
    {
    }

    /// A list over `options` (a single empty option if there are none)
    /// showing `number_of_buttons` buttons (see `normalized_button_count`),
    /// with the middle option selected.
    pub fn new(options: Vec<String>, number_of_buttons: usize) -> (r: Self)
        requires
            number_of_buttons > 0,
        ensures
            r.wf(),
            r.options_view() == (if options@.len() == 0 {
                seq![Seq::<char>::empty()]
            } else {
                options@.map_values(|s: String| s@)
            }),
            r.spec_number_of_buttons() == normalized_button_count(
                number_of_buttons as int,
                r.options_view().len() as int,
            ),
            r.spec_current_option_idx() == r.options_view().len() / 2,
            r.spec_click_state() == UpDownClickState::Idle,
    {
        let mut options = options;
        let ghost given = options@;
        if options.len() == 0 {
            options.push(String::new());
            proof {
                assert(options@.map_values(|s: String| s@) =~= seq![Seq::<char>::empty()]);
            }
        }
        let len = options.len();
        let mut n = if number_of_buttons > len {
            len
        } else {
            number_of_buttons
        };
        if n % 2 == 0 {
            n = n - 1;
        }
        UpDownScrollList {
            options,
            number_of_buttons: n,
            current_option_idx: len / 2,
            up_down_click_state: UpDownClickState::Idle,
        }
    }

    pub fn number_of_options(&self) -> (r: usize)
        ensures
            r == self.options_view().len(),
    {
        self.options.len()
    }

    pub fn number_of_buttons(&self) -> (r: usize)
        ensures
            r == self.spec_number_of_buttons(),
    {
        self.number_of_buttons
    }

    pub fn current_option_idx(&self) -> (r: usize)
        ensures
            r == self.spec_current_option_idx(),
    {
        self.current_option_idx
    }

    pub fn click_state(&self) -> (r: UpDownClickState)
        ensures
            r == self.spec_click_state(),
    {
        self.up_down_click_state
    }

    /// The text of the selected option.
    pub fn current_option(&self) -> (r: &str)
        requires
            self.wf(),
        ensures
            r@ == self.options_view()[self.spec_current_option_idx()],
    {
        self.options[self.current_option_idx].as_str()
    }

    /// The text of option `idx`.
    pub fn option(&self, idx: usize) -> (r: &str)
        requires
            idx < self.options_view().len(),
        ensures
            r@ == self.options_view()[idx as int],
    {
        self.options[idx].as_str()
    }

    /// Selects the previous option, wrapping from the first to the last.
    pub fn scroll_up(&mut self)
        requires
            old(self).wf(),
        ensures
            final(self).wf(),
            final(self).options_view() == old(self).options_view(),
            final(self).spec_number_of_buttons() == old(self).spec_number_of_buttons(),
            final(self).spec_click_state() == old(self).spec_click_state(),
            final(self).spec_current_option_idx() == scrolled_up(
                old(self).spec_current_option_idx(),
                old(self).options_view().len() as int,
            ),
    {
        self.current_option_idx = if self.current_option_idx == 0 {
            self.options.len() - 1
        } else {
            self.current_option_idx - 1
        };
    }

    /// Selects the next option, wrapping from the last to the first.
    pub fn scroll_down(&mut self)
        requires
            old(self).wf(),
        ensures
            final(self).wf(),
            final(self).options_view() == old(self).options_view(),
            final(self).spec_number_of_buttons() == old(self).spec_number_of_buttons(),
            final(self).spec_click_state() == old(self).spec_click_state(),
            final(self).spec_current_option_idx() == scrolled_down(
                old(self).spec_current_option_idx(),
                old(self).options_view().len() as int,
            ),
    {
        let len = self.options.len();
        assert(self.current_option_idx < len);
        self.current_option_idx = (self.current_option_idx + 1) % len;
    }

    /// The option that button `k` shows: the buttons show consecutive
    /// options of the ring, with the selected one on the middle button.
    pub open spec fn shown_option(self, k: int) -> int {
        (self.spec_current_option_idx() - self.spec_number_of_buttons() / 2 + k)
            % (self.options_view().len() as int)
    }

    /// The option index that each button shows, top to bottom.
    pub fn button_option_indices(&self) -> (r: Vec<usize>)
        requires
            self.wf(),
        ensures
            r@.len() == self.spec_number_of_buttons(),
            forall|k: int| 0 <= k < r@.len() ==> #[trigger] r@[k] == self.shown_option(k),
    {
        let len = self.options.len();
        let half = self.number_of_buttons / 2;
        let mut idx = if self.current_option_idx >= half {
            self.current_option_idx - half
        } else {
            self.current_option_idx + (len - half)
        };
        proof {
            vstd::arithmetic::div_mod::lemma_small_mod(idx as nat, len as nat);
            vstd::arithmetic::div_mod::lemma_mod_multiples_vanish(
                1,
                self.current_option_idx - half,
                len as int,
            );
        }
        let mut r: Vec<usize> = Vec::new();
        let mut k: usize = 0;
        while k < self.number_of_buttons
            invariant
                self.wf(),
                len == self.options_view().len(),
                half == self.spec_number_of_buttons() / 2,
                0 <= k <= self.spec_number_of_buttons(),
                r@.len() == k,
                idx < len,
                idx == self.shown_option(k as int),
                forall|j: int| 0 <= j < k ==> #[trigger] r@[j] == self.shown_option(j),
            decreases self.number_of_buttons - k,
        {
            r.push(idx);
            proof {
                vstd::arithmetic::div_mod::lemma_add_mod_noop(
                    self.spec_current_option_idx() - half + k,
                    1,
                    len as int,
                );
                if len > 1 {
                    vstd::arithmetic::div_mod::lemma_small_mod(1, len as nat);
                }
            }
            idx = (idx + 1) % len;
            k = k + 1;
            proof {
                vstd::arithmetic::div_mod::lemma_mod_self_0(len as int);
                assert(idx == self.shown_option(k as int)) by {
                    vstd::arithmetic::div_mod::lemma_add_mod_noop(
                        self.spec_current_option_idx() - half + (k - 1),
                        1,
                        len as int,
                    );
                    if len == 1 {
                        assert(1int % 1 == 0) by (nonlinear_arith);
                    }
                }
            }
        }
        r
    }

    /// Selects option `idx` if it exists.
    pub fn sync_index(&mut self, idx: usize)
        requires
            old(self).wf(),
        ensures
            final(self).wf(),
            final(self).options_view() == old(self).options_view(),
            final(self).spec_number_of_buttons() == old(self).spec_number_of_buttons(),
            final(self).spec_click_state() == old(self).spec_click_state(),
            final(self).spec_current_option_idx() == (if idx < old(self).options_view().len() {
                idx as int
            } else {
                old(self).spec_current_option_idx()
            }),
    {
        if idx < self.options.len() {
            self.current_option_idx = idx;
        }
    }

    /// Selects the first option whose text is `string`, if there is one.
    pub fn sync_string(&mut self, string: &String)
        requires
            old(self).wf(),
        ensures
            final(self).wf(),
            final(self).options_view() == old(self).options_view(),
            final(self).spec_number_of_buttons() == old(self).spec_number_of_buttons(),
            final(self).spec_click_state() == old(self).spec_click_state(),
            (exists|i: int|
                0 <= i < old(self).options_view().len() && old(self).options_view()[i] == string@)
                ==> {
                &&& final(self).options_view()[final(self).spec_current_option_idx()] == string@
                &&& forall|i: int|
                    0 <= i < final(self).spec_current_option_idx() ==> old(self).options_view()[i]
                        != string@
            },
            !(exists|i: int|
                0 <= i < old(self).options_view().len() && old(self).options_view()[i] == string@)
                ==> final(self).spec_current_option_idx() == old(self).spec_current_option_idx(),
    {
        let mut i: usize = 0;
        while i < self.options.len()
            invariant
                self.wf(),
                *self == *old(self),
                i <= self.options_view().len(),
                forall|j: int| 0 <= j < i ==> self.options_view()[j] != string@,
            decreases self.options_view().len() - i,
        {
            if self.options[i].eq(string) {
                self.current_option_idx = i;
                return;
            }
            i = i + 1;
        }
    }

    /// Scrolls so that the option shown on button `selected_button_idx`
    /// becomes the selected one.
    pub fn select_button(&mut self, selected_button_idx: usize)
        requires
            old(self).wf(),
            selected_button_idx < old(self).spec_number_of_buttons(),
        ensures
            final(self).wf(),
            final(self).options_view() == old(self).options_view(),
            final(self).spec_number_of_buttons() == old(self).spec_number_of_buttons(),
            final(self).spec_click_state() == old(self).spec_click_state(),
            final(self).spec_current_option_idx() == (old(self).spec_current_option_idx() - (old(
                self,
            ).spec_number_of_buttons() / 2 - selected_button_idx)) % (old(self).options_view().len() as int),
    {
        let ghost start = self.spec_current_option_idx();
        let ghost len = self.options_view().len() as int;
        let half = self.number_of_buttons / 2;
        proof {
            vstd::arithmetic::div_mod::lemma_small_mod(start as nat, len as nat);
        }
        if selected_button_idx < half {
            let steps = half - selected_button_idx;
            let mut k: usize = 0;
            while k < steps
                invariant
                    self.wf(),
                    self.options_view() == old(self).options_view(),
                    self.spec_number_of_buttons() == old(self).spec_number_of_buttons(),
                    self.spec_click_state() == old(self).spec_click_state(),
                    len == self.options_view().len(),
                    k <= steps,
                    self.spec_current_option_idx() == (start - k) % len,
                decreases steps - k,
            {
                let ghost before = self.spec_current_option_idx();
                self.scroll_up();
                proof {
                    vstd::arithmetic::div_mod::lemma_sub_mod_noop(start - k, 1, len);
                    vstd::arithmetic::div_mod::lemma_small_mod(before as nat, len as nat);
                    if len > 1 {
                        vstd::arithmetic::div_mod::lemma_small_mod(1, len as nat);
                    } else {
                        assert(1int % 1 == 0) by (nonlinear_arith);
                    }
                    if before == 0 {
                        vstd::arithmetic::div_mod::lemma_mod_multiples_vanish(1, -1, len);
                        vstd::arithmetic::div_mod::lemma_small_mod((len - 1) as nat, len as nat);
                    } else {
                        vstd::arithmetic::div_mod::lemma_small_mod((before - 1) as nat, len as nat);
                    }
                }
                k = k + 1;
            }
        } else {
            let steps = selected_button_idx - half;
            let mut k: usize = 0;
            while k < steps
                invariant
                    self.wf(),
                    self.options_view() == old(self).options_view(),
                    self.spec_number_of_buttons() == old(self).spec_number_of_buttons(),
                    self.spec_click_state() == old(self).spec_click_state(),
                    len == self.options_view().len(),
                    k <= steps,
                    self.spec_current_option_idx() == (start + k) % len,
                decreases steps - k,
            {
                let ghost before = self.spec_current_option_idx();
                self.scroll_down();
                proof {
                    vstd::arithmetic::div_mod::lemma_add_mod_noop(start + k, 1, len);
                    vstd::arithmetic::div_mod::lemma_small_mod(before as nat, len as nat);
                    if len > 1 {
                        vstd::arithmetic::div_mod::lemma_small_mod(1, len as nat);
                    } else {
                        assert(1int % 1 == 0) by (nonlinear_arith);
                    }
                }
                k = k + 1;
            }
        }
    }

    /// Starts the press-and-hold timer of the scroll button that is clicked,
    /// unless a timer already runs (the up button is looked at first).
    pub fn bind_pressed(&mut self, up_button: UIMouseStates, down_button: UIMouseStates, now: u64)
        ensures
            final(self).wf() == old(self).wf(),
            final(self).options_view() == old(self).options_view(),
            final(self).spec_number_of_buttons() == old(self).spec_number_of_buttons(),
            final(self).spec_current_option_idx() == old(self).spec_current_option_idx(),
            final(self).spec_click_state() == (if old(self).spec_click_state() != UpDownClickState::Idle {
                old(self).spec_click_state()
            } else if up_button == UIMouseStates::Click {
                UpDownClickState::Up { pressed_at: now, last_update_at: now }
            } else if down_button == UIMouseStates::Click {
                UpDownClickState::Down { pressed_at: now, last_update_at: now }
            } else {
                UpDownClickState::Idle
            }),
    {
        if up_button == UIMouseStates::Click && up_button.is_hover() && self.up_down_click_state
            == UpDownClickState::Idle {
            self.up_down_click_state = UpDownClickState::Up { pressed_at: now, last_update_at: now };
        }
        if down_button == UIMouseStates::Click && down_button.is_hover() && self.up_down_click_state
            == UpDownClickState::Idle {
            self.up_down_click_state = UpDownClickState::Down { pressed_at: now, last_update_at: now };
        }
    }

    /// The select bind was released: the timer stops, and if the cursor is
    /// over the list, a lone hovered scroll button scrolls once, and
    /// otherwise the hovered option button (the first one when none is)
    /// gets selected.
    pub fn bind_released(
        &mut self,
        is_hover: bool,
        up_hover: bool,
        down_hover: bool,
        hovered_button: Option<usize>,
    )
        requires
            old(self).wf(),
            hovered_button matches Some(b) ==> b < old(self).spec_number_of_buttons(),
        ensures
            final(self).wf(),
            final(self).options_view() == old(self).options_view(),
            final(self).spec_number_of_buttons() == old(self).spec_number_of_buttons(),
            final(self).spec_click_state() == UpDownClickState::Idle,
            final(self).spec_current_option_idx() == (if !is_hover {
                old(self).spec_current_option_idx()
            } else if up_hover && !down_hover {
                scrolled_up(old(self).spec_current_option_idx(), old(self).options_view().len() as int)
            } else if !up_hover && down_hover {
                scrolled_down(old(self).spec_current_option_idx(), old(self).options_view().len() as int)
            } else {
                old(self).shown_option(
                    match hovered_button {
                        Some(b) => b as int,
                        None => 0,
                    },
                )
            }),
    {
        self.up_down_click_state = UpDownClickState::Idle;
        if !is_hover {
            return;
        }
        if up_hover && !down_hover {
            self.scroll_up();
        } else if !up_hover && down_hover {
            self.scroll_down();
        } else {
            let selected = match hovered_button {
                Some(b) => b,
                None => 0,
            };
            self.select_button(selected);
        }
    }

    /// Runs the press-and-hold timer: when a repeat is due the list scrolls
    /// once in the held direction, the repeat is recorded at `now`, and the
    /// result is `true` (the list changed and reports its new option).
    pub fn update(&mut self, now: u64, time_between_bind_pressed: u64, time_between_updates: u64) -> (r: bool)
        requires
            old(self).wf(),
        ensures
            final(self).wf(),
            final(self).options_view() == old(self).options_view(),
            final(self).spec_number_of_buttons() == old(self).spec_number_of_buttons(),
            r == old(self).spec_click_state().spec_is_update_needed(
                now,
                time_between_bind_pressed,
                time_between_updates,
            ),
            r ==> final(self).spec_current_option_idx() == (match old(self).spec_click_state() {
                UpDownClickState::Up { .. } => scrolled_up(
                    old(self).spec_current_option_idx(),
                    old(self).options_view().len() as int,
                ),
                _ => scrolled_down(
                    old(self).spec_current_option_idx(),
                    old(self).options_view().len() as int,
                ),
            }),
            r ==> final(self).spec_click_state() == (match old(self).spec_click_state() {
                UpDownClickState::Up { pressed_at, .. } => UpDownClickState::Up {
                    pressed_at,
                    last_update_at: now,
                },
                UpDownClickState::Down { pressed_at, .. } => UpDownClickState::Down {
                    pressed_at,
                    last_update_at: now,
                },
                UpDownClickState::Idle => UpDownClickState::Idle,
            }),
            !r ==> final(self).spec_current_option_idx() == old(self).spec_current_option_idx()
                && final(self).spec_click_state() == old(self).spec_click_state(),
    {
        if !self.up_down_click_state.is_update_needed(now, time_between_bind_pressed, time_between_updates) {
            return false;
        }
        match self.up_down_click_state {
            UpDownClickState::Up { .. } => {
                self.scroll_up();
            },
            _ => {
                self.scroll_down();
            },
        }
        self.up_down_click_state.increment_last_update_instant(now);
        true
    }

    /// Stops the timer when the mouse button is released, or when the mouse
    /// moves while neither scroll button is hovered.
    pub fn on_event(&mut self, event: &UIEvent, up_hover: bool, down_hover: bool)
        ensures
            final(self).wf() == old(self).wf(),
            final(self).options_view() == old(self).options_view(),
            final(self).spec_number_of_buttons() == old(self).spec_number_of_buttons(),
            final(self).spec_current_option_idx() == old(self).spec_current_option_idx(),
            final(self).spec_click_state() == (match *event {
                UIEvent::MouseButtonReleased { .. } => UpDownClickState::Idle,
                UIEvent::MouseMoved { .. } => if !up_hover && !down_hover {
                    UpDownClickState::Idle
                } else {
                    old(self).spec_click_state()
                },
                _ => old(self).spec_click_state(),
            }),
    {
        match *event {
            UIEvent::MouseButtonReleased { .. } => {
                self.up_down_click_state = UpDownClickState::Idle;
            },
            UIEvent::MouseMoved { .. } => {
                if !up_hover && !down_hover {
                    self.up_down_click_state = UpDownClickState::Idle;
                }
            },
            _ => {},
        }
    }
}

/// What a list box reports after handling an event: the response that was
/// chosen, whether it emits its event (its current option), and whether the
/// screen needs a redraw.
#[derive(Clone, Copy, Debug, PartialEq, Eq, Structural)]
pub struct ListBoxEventOutcome {
    pub response: ListBoxResponse,
    pub emits: bool,
    pub rerender: bool,
}

impl UpDownScrollList {
    /// The click state after `on_event` and then a press with the scroll
    /// buttons in the given states.
    pub open spec fn pressed_click_state(
        state: UpDownClickState,
        up_button: UIMouseStates,
        down_button: UIMouseStates,
        now: u64,
    ) -> UpDownClickState {
        if state != UpDownClickState::Idle {
            state
        } else if up_button == UIMouseStates::Click {
            UpDownClickState::Up { pressed_at: now, last_update_at: now }
        } else if down_button == UIMouseStates::Click {
            UpDownClickState::Down { pressed_at: now, last_update_at: now }
        } else {
            UpDownClickState::Idle
        }
    }

    /// Handles a window event once the list's own buttons have handled it:
    /// `is_hover` says whether any of them is hovered, `up_button` and
    /// `down_button` give the scroll buttons' states and `hovered_button`
    /// the hovered option button. The timer reacts first (see `on_event`),
    /// then the list does what `listbox_response` picks: a press may start
    /// the timer, a release scrolls or selects (see `bind_released`).
    pub fn event_handler(
        &mut self,
        binds: &Bindings,
        event: &UIEvent,
        is_hover: bool,
        up_button: UIMouseStates,
        down_button: UIMouseStates,
        hovered_button: Option<usize>,
        now: u64,
    ) -> (r: ListBoxEventOutcome)
        requires
            old(self).wf(),
            binds.wf(),
            hovered_button matches Some(b) ==> b < old(self).spec_number_of_buttons(),
        ensures
            final(self).wf(),
            final(self).options_view() == old(self).options_view(),
            final(self).spec_number_of_buttons() == old(self).spec_number_of_buttons(),
            r.response == listbox_response_spec(is_hover, binds@, *event),
            r.emits == (r.response == ListBoxResponse::BindPressedWithEvent || r.response
                == ListBoxResponse::BindReleased),
            r.rerender == (r.response != ListBoxResponse::Ignore),
            ({
                let up_hover = up_button.spec_is_hover();
                let down_hover = down_button.spec_is_hover();
                let timer = match *event {
                    UIEvent::MouseButtonReleased { .. } => UpDownClickState::Idle,
                    UIEvent::MouseMoved { .. } => if !up_hover && !down_hover {
                        UpDownClickState::Idle
                    } else {
                        old(self).spec_click_state()
                    },
                    _ => old(self).spec_click_state(),
                };
                match r.response {
                    ListBoxResponse::BindReleased => {
                        &&& final(self).spec_click_state() == UpDownClickState::Idle
                        &&& final(self).spec_current_option_idx() == (if up_hover && !down_hover {
                            scrolled_up(old(self).spec_current_option_idx(), old(self).options_view().len() as int)
                        } else if !up_hover && down_hover {
                            scrolled_down(old(self).spec_current_option_idx(), old(self).options_view().len() as int)
                        } else {
                            old(self).shown_option(
                                match hovered_button {
                                    Some(b) => b as int,
                                    None => 0,
                                },
                            )
                        })
                    },
                    ListBoxResponse::Ignore => {
                        &&& final(self).spec_click_state() == timer
                        &&& final(self).spec_current_option_idx() == old(self).spec_current_option_idx()
                    },
                    _ => {
                        &&& final(self).spec_click_state() == UpDownScrollList::pressed_click_state(
                            timer,
                            up_button,
                            down_button,
                            now,
                        )
                        &&& final(self).spec_current_option_idx() == old(self).spec_current_option_idx()
                    },
                }
            }),
    {
        self.on_event(event, up_button.is_hover(), down_button.is_hover());
        let response = listbox_response(is_hover, binds, event);
        match response {
            ListBoxResponse::BindPressed | ListBoxResponse::BindPressedWithEvent => {
                self.bind_pressed(up_button, down_button, now);
            },
            ListBoxResponse::BindReleased => {
                self.bind_released(is_hover, up_button.is_hover(), down_button.is_hover(), hovered_button);
            },
            ListBoxResponse::Ignore => {},
        }
        ListBoxEventOutcome {
            response,
            emits: response == ListBoxResponse::BindPressedWithEvent || response == ListBoxResponse::BindReleased,
            rerender: response != ListBoxResponse::Ignore,
        }
    }
}

/// Scrolling up and then down, or down and then up, returns to the same option.
pub proof fn lemma_scroll_round_trip(i: int, len: int)
    requires
        0 <= i < len,
    ensures
        scrolled_down(scrolled_up(i, len), len) == i,
        scrolled_up(scrolled_down(i, len), len) == i,
        0 <= scrolled_up(i, len) < len,
        0 <= scrolled_down(i, len) < len,
{
    vstd::arithmetic::div_mod::lemma_small_mod(i as nat, len as nat);
    if i + 1 < len {
        vstd::arithmetic::div_mod::lemma_small_mod((i + 1) as nat, len as nat);
    } else {
        vstd::arithmetic::div_mod::lemma_mod_self_0(len);
    }
    if i == 0 {
        vstd::arithmetic::div_mod::lemma_mod_self_0(len);
    } else {
        vstd::arithmetic::div_mod::lemma_small_mod(i as nat, len as nat);
    }
}

/// The middle button shows the selected option.
pub proof fn lemma_middle_button_shows_selection(l: UpDownScrollList)
    requires
        l.wf(),
    ensures
        l.shown_option(l.spec_number_of_buttons() / 2) == l.spec_current_option_idx(),
{
    l.lemma_wf();
    vstd::arithmetic::div_mod::lemma_small_mod(
        l.spec_current_option_idx() as nat,
        l.options_view().len(),
    );
}

/// Selecting a button makes the option it showed the selected one.
pub proof fn lemma_select_button_selects_shown_option(l: UpDownScrollList, k: int)
    requires
        l.wf(),
        0 <= k < l.spec_number_of_buttons(),
    ensures
        (l.spec_current_option_idx() - (l.spec_number_of_buttons() / 2 - k)) % (
        l.options_view().len() as int) == l.shown_option(k),
{
}


/// The index of the first widest option, given each option's measured
/// width, and that width; no option is picked when none is wider than zero.
pub open spec fn widest_option_spec(widths: Seq<i32>) -> (i32, Option<usize>)
    decreases widths.len(),
{
    if widths.len() == 0 {
        (0, None)
    } else {
        let before = widest_option_spec(widths.drop_last());
        if widths.last() > before.0 {
            (widths.last(), Some((widths.len() - 1) as usize))
        } else {
            before
        }
    }
}

/// Picks the option the list's buttons are sized for: the first one whose
/// measured width is largest (see `widest_option_spec`).
pub fn widest_option(widths: &Vec<i32>) -> (r: (i32, Option<usize>))
    ensures
        r == widest_option_spec(widths@),
        r.0 >= 0,
        forall|i: int| 0 <= i < widths@.len() ==> widths@[i] <= r.0,
        r.1 matches Some(i) ==> i < widths@.len() && widths@[i as int] == r.0 && forall|j: int|
            0 <= j < i ==> widths@[j] < r.0,
        r.1 is None ==> r.0 == 0,
{
    let mut biggest: i32 = 0;
    let mut index: Option<usize> = None;
    let mut i: usize = 0;
    while i < widths.len()
        invariant
            i <= widths@.len(),
            (biggest, index) == widest_option_spec(widths@.subrange(0, i as int)),
            biggest >= 0,
            forall|k: int| 0 <= k < i ==> widths@[k] <= biggest,
            index matches Some(k) ==> k < i && widths@[k as int] == biggest && forall|j: int|
                0 <= j < k ==> widths@[j] < biggest,
            index is None ==> biggest == 0,
        decreases widths@.len() - i,
    {
        proof {
            assert(widths@.subrange(0, i as int + 1).drop_last() =~= widths@.subrange(0, i as int));
        }
        if widths[i] > biggest {
            biggest = widths[i];
            index = Some(i);
        }
        i = i + 1;
    }
    proof {
        assert(widths@.subrange(0, i as int) =~= widths@);
    }
    (biggest, index)
}

} // verus!
