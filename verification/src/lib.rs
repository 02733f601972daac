//! Layout, input bindings and widget state logic for a small retained-mode UI.
pub mod geometry;
pub mod mouse_ui_states;
pub mod controls;
pub mod parsing;
pub mod positioning;
pub mod grid;
pub mod grid_loading;
pub mod element_tags;
pub mod window_events;
pub mod listbox;
pub mod event_handling;
pub mod slider;
pub mod pagination;
pub mod aspect_ratio;
pub mod repeatable_3x1_sprite;
pub mod repeatable_3x3_sprite;
pub mod div;
pub mod textbox;
