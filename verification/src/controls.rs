//! Input bindings: which mouse button, wheel or key triggers which UI action
//! ("bind"), and which binds are currently held down.
use std::collections::{HashMap, HashSet};
use vstd::prelude::*;

use crate::window_events::UIEvent;

verus! {

/// The actions that inputs can be bound to.
#[derive(Clone, Copy, Debug, PartialEq, Eq, Hash, Structural)]
pub enum PossibleBinds {
    Select,
    UIUp,
    UIDown,
    UILeft,
    UIRight,
    Escape,
}

/// Every mouse button, mouse wheel and keyboard key that can be bound.
#[derive(Clone, Copy, Debug, PartialEq, Eq, Hash, Structural)]
pub enum PossibleInputs {
    ButtonLeft,
    ButtonRight,
    ButtonMiddle,
    Button1,
    Button2,
    VerticalWheel,
    HorizontalWheel,
    Unknown,
    A,
    B,
    C,
    D,
    E,
    F,
    G,
    H,
    I,
    J,
    K,
    L,
    M,
    N,
    O,
    P,
    Q,
    R,
    S,
    T,
    U,
    V,
    W,
    X,
    Y,
    Z,
    Num0,
    Num1,
    Num2,
    Num3,
    Num4,
    Num5,
    Num6,
    Num7,
    Num8,
    Num9,
    Escape,
    LControl,
    LShift,
    LAlt,
    LSystem,
    RControl,
    RShift,
    RAlt,
    RSystem,
    Menu,
    LBracket,
    RBracket,
    Semicolon,
    Comma,
    Period,
    Quote,
    Slash,
    Backslash,
    Tilde,
    Equal,
    Hyphen,
    Space,
    Enter,
    Backspace,
    Tab,
    PageUp,
    PageDown,
    End,
    Home,
    Insert,
    Delete,
    Add,
    Subtract,
    Multiply,
    Divide,
    Left,
    Right,
    Up,
    Down,
    Numpad0,
    Numpad1,
    Numpad2,
    Numpad3,
    Numpad4,
    Numpad5,
    Numpad6,
    Numpad7,
    Numpad8,
    Numpad9,
    F1,
    F2,
    F3,
    F4,
    F5,
    F6,
    F7,
    F8,
    F9,
    F10,
    F11,
    F12,
    F13,
    F14,
    F15,
    Pause,
}

/// The number that stands for each PossibleBinds, in declaration order.
pub open spec fn bind_code(v: PossibleBinds) -> u8 {
    match v {
        PossibleBinds::Select => 0,
        PossibleBinds::UIUp => 1,
        PossibleBinds::UIDown => 2,
        PossibleBinds::UILeft => 3,
        PossibleBinds::UIRight => 4,
        PossibleBinds::Escape => 5,
    }
}

/// The PossibleBinds that a number stands for, if any.
pub open spec fn bind_of_code(c: u8) -> Option<PossibleBinds> {
    match c {
        0 => Some(PossibleBinds::Select),
        1 => Some(PossibleBinds::UIUp),
        2 => Some(PossibleBinds::UIDown),
        3 => Some(PossibleBinds::UILeft),
        4 => Some(PossibleBinds::UIRight),
        5 => Some(PossibleBinds::Escape),
        _ => None,
    }
}

impl PossibleBinds {
    /// The number that stands for this value in the binding tables.
    pub fn code(self) -> (c: u8)
        ensures
            c == bind_code(self),
            c < 6,
    {
        match self {
            PossibleBinds::Select => 0,
            PossibleBinds::UIUp => 1,
            PossibleBinds::UIDown => 2,
            PossibleBinds::UILeft => 3,
            PossibleBinds::UIRight => 4,
            PossibleBinds::Escape => 5,
        }
    }
}

impl PossibleBinds {
    /// The bind that a number stands for, if any.
    pub fn from_code(c: u8) -> (r: Option<PossibleBinds>)
        ensures
            r == bind_of_code(c),
    {
        match c {
            0 => Some(PossibleBinds::Select),
            1 => Some(PossibleBinds::UIUp),
            2 => Some(PossibleBinds::UIDown),
            3 => Some(PossibleBinds::UILeft),
            4 => Some(PossibleBinds::UIRight),
            5 => Some(PossibleBinds::Escape),
            _ => None,
        }
    }
}

/// Decoding a value's number gives the value back.
pub proof fn lemma_bind_code_roundtrip(v: PossibleBinds)
    ensures
        bind_of_code(bind_code(v)) == Some(v),
        bind_code(v) < 6,
{
}

/// Every number below the count of values stands for exactly one value.
pub proof fn lemma_bind_of_code_valid(c: u8)
    requires
        c < 6,
    ensures
        bind_of_code(c) is Some,
        bind_code(bind_of_code(c)->0) == c,
{
    if c == 0 {
    } else if c == 1 {
    } else if c == 2 {
    } else if c == 3 {
    } else if c == 4 {
    } else if c == 5 {
    }
}


/// The number that stands for each PossibleInputs, in declaration order.
pub open spec fn input_code(v: PossibleInputs) -> u8 {
    match v {
        PossibleInputs::ButtonLeft => 0,
        PossibleInputs::ButtonRight => 1,
        PossibleInputs::ButtonMiddle => 2,
        PossibleInputs::Button1 => 3,
        PossibleInputs::Button2 => 4,
        PossibleInputs::VerticalWheel => 5,
        PossibleInputs::HorizontalWheel => 6,
        PossibleInputs::Unknown => 7,
        PossibleInputs::A => 8,
        PossibleInputs::B => 9,
        PossibleInputs::C => 10,
        PossibleInputs::D => 11,
        PossibleInputs::E => 12,
        PossibleInputs::F => 13,
        PossibleInputs::G => 14,
        PossibleInputs::H => 15,
        PossibleInputs::I => 16,
        PossibleInputs::J => 17,
        PossibleInputs::K => 18,
        PossibleInputs::L => 19,
        PossibleInputs::M => 20,
        PossibleInputs::N => 21,
        PossibleInputs::O => 22,
        PossibleInputs::P => 23,
        PossibleInputs::Q => 24,
        PossibleInputs::R => 25,
        PossibleInputs::S => 26,
        PossibleInputs::T => 27,
        PossibleInputs::U => 28,
        PossibleInputs::V => 29,
        PossibleInputs::W => 30,
        PossibleInputs::X => 31,
        PossibleInputs::Y => 32,
        PossibleInputs::Z => 33,
        PossibleInputs::Num0 => 34,
        PossibleInputs::Num1 => 35,
        PossibleInputs::Num2 => 36,
        PossibleInputs::Num3 => 37,
        PossibleInputs::Num4 => 38,
        PossibleInputs::Num5 => 39,
        PossibleInputs::Num6 => 40,
        PossibleInputs::Num7 => 41,
        PossibleInputs::Num8 => 42,
        PossibleInputs::Num9 => 43,
        PossibleInputs::Escape => 44,
        PossibleInputs::LControl => 45,
        PossibleInputs::LShift => 46,
        PossibleInputs::LAlt => 47,
        PossibleInputs::LSystem => 48,
        PossibleInputs::RControl => 49,
        PossibleInputs::RShift => 50,
        PossibleInputs::RAlt => 51,
        PossibleInputs::RSystem => 52,
        PossibleInputs::Menu => 53,
        PossibleInputs::LBracket => 54,
        PossibleInputs::RBracket => 55,
        PossibleInputs::Semicolon => 56,
        PossibleInputs::Comma => 57,
        PossibleInputs::Period => 58,
        PossibleInputs::Quote => 59,
        PossibleInputs::Slash => 60,
        PossibleInputs::Backslash => 61,
        PossibleInputs::Tilde => 62,
        PossibleInputs::Equal => 63,
        PossibleInputs::Hyphen => 64,
        PossibleInputs::Space => 65,
        PossibleInputs::Enter => 66,
        PossibleInputs::Backspace => 67,
        PossibleInputs::Tab => 68,
        PossibleInputs::PageUp => 69,
        PossibleInputs::PageDown => 70,
        PossibleInputs::End => 71,
        PossibleInputs::Home => 72,
        PossibleInputs::Insert => 73,
        PossibleInputs::Delete => 74,
        PossibleInputs::Add => 75,
        PossibleInputs::Subtract => 76,
        PossibleInputs::Multiply => 77,
        PossibleInputs::Divide => 78,
        PossibleInputs::Left => 79,
        PossibleInputs::Right => 80,
        PossibleInputs::Up => 81,
        PossibleInputs::Down => 82,
        PossibleInputs::Numpad0 => 83,
        PossibleInputs::Numpad1 => 84,
        PossibleInputs::Numpad2 => 85,
        PossibleInputs::Numpad3 => 86,
        PossibleInputs::Numpad4 => 87,
        PossibleInputs::Numpad5 => 88,
        PossibleInputs::Numpad6 => 89,
        PossibleInputs::Numpad7 => 90,
        PossibleInputs::Numpad8 => 91,
        PossibleInputs::Numpad9 => 92,
        PossibleInputs::F1 => 93,
        PossibleInputs::F2 => 94,
        PossibleInputs::F3 => 95,
        PossibleInputs::F4 => 96,
        PossibleInputs::F5 => 97,
        PossibleInputs::F6 => 98,
        PossibleInputs::F7 => 99,
        PossibleInputs::F8 => 100,
        PossibleInputs::F9 => 101,
        PossibleInputs::F10 => 102,
        PossibleInputs::F11 => 103,
        PossibleInputs::F12 => 104,
        PossibleInputs::F13 => 105,
        PossibleInputs::F14 => 106,
        PossibleInputs::F15 => 107,
        PossibleInputs::Pause => 108,
    }
}

/// The PossibleInputs that a number stands for, if any.
pub open spec fn input_of_code(c: u8) -> Option<PossibleInputs> {
    match c {
        0 => Some(PossibleInputs::ButtonLeft),
        1 => Some(PossibleInputs::ButtonRight),
        2 => Some(PossibleInputs::ButtonMiddle),
        3 => Some(PossibleInputs::Button1),
        4 => Some(PossibleInputs::Button2),
        5 => Some(PossibleInputs::VerticalWheel),
        6 => Some(PossibleInputs::HorizontalWheel),
        7 => Some(PossibleInputs::Unknown),
        8 => Some(PossibleInputs::A),
        9 => Some(PossibleInputs::B),
        10 => Some(PossibleInputs::C),
        11 => Some(PossibleInputs::D),
        12 => Some(PossibleInputs::E),
        13 => Some(PossibleInputs::F),
        14 => Some(PossibleInputs::G),
        15 => Some(PossibleInputs::H),
        16 => Some(PossibleInputs::I),
        17 => Some(PossibleInputs::J),
        18 => Some(PossibleInputs::K),
        19 => Some(PossibleInputs::L),
        20 => Some(PossibleInputs::M),
        21 => Some(PossibleInputs::N),
        22 => Some(PossibleInputs::O),
        23 => Some(PossibleInputs::P),
        24 => Some(PossibleInputs::Q),
        25 => Some(PossibleInputs::R),
        26 => Some(PossibleInputs::S),
        27 => Some(PossibleInputs::T),
        28 => Some(PossibleInputs::U),
        29 => Some(PossibleInputs::V),
        30 => Some(PossibleInputs::W),
        31 => Some(PossibleInputs::X),
        32 => Some(PossibleInputs::Y),
        33 => Some(PossibleInputs::Z),
        34 => Some(PossibleInputs::Num0),
        35 => Some(PossibleInputs::Num1),
        36 => Some(PossibleInputs::Num2),
        37 => Some(PossibleInputs::Num3),
        38 => Some(PossibleInputs::Num4),
        39 => Some(PossibleInputs::Num5),
        40 => Some(PossibleInputs::Num6),
        41 => Some(PossibleInputs::Num7),
        42 => Some(PossibleInputs::Num8),
        43 => Some(PossibleInputs::Num9),
        44 => Some(PossibleInputs::Escape),
        45 => Some(PossibleInputs::LControl),
        46 => Some(PossibleInputs::LShift),
        47 => Some(PossibleInputs::LAlt),
        48 => Some(PossibleInputs::LSystem),
        49 => Some(PossibleInputs::RControl),
        50 => Some(PossibleInputs::RShift),
        51 => Some(PossibleInputs::RAlt),
        52 => Some(PossibleInputs::RSystem),
        53 => Some(PossibleInputs::Menu),
        54 => Some(PossibleInputs::LBracket),
        55 => Some(PossibleInputs::RBracket),
        56 => Some(PossibleInputs::Semicolon),
        57 => Some(PossibleInputs::Comma),
        58 => Some(PossibleInputs::Period),
        59 => Some(PossibleInputs::Quote),
        60 => Some(PossibleInputs::Slash),
        61 => Some(PossibleInputs::Backslash),
        62 => Some(PossibleInputs::Tilde),
        63 => Some(PossibleInputs::Equal),
        64 => Some(PossibleInputs::Hyphen),
        65 => Some(PossibleInputs::Space),
        66 => Some(PossibleInputs::Enter),
        67 => Some(PossibleInputs::Backspace),
        68 => Some(PossibleInputs::Tab),
        69 => Some(PossibleInputs::PageUp),
        70 => Some(PossibleInputs::PageDown),
        71 => Some(PossibleInputs::End),
        72 => Some(PossibleInputs::Home),
        73 => Some(PossibleInputs::Insert),
        74 => Some(PossibleInputs::Delete),
        75 => Some(PossibleInputs::Add),
        76 => Some(PossibleInputs::Subtract),
        77 => Some(PossibleInputs::Multiply),
        78 => Some(PossibleInputs::Divide),
        79 => Some(PossibleInputs::Left),
        80 => Some(PossibleInputs::Right),
        81 => Some(PossibleInputs::Up),
        82 => Some(PossibleInputs::Down),
        83 => Some(PossibleInputs::Numpad0),
        84 => Some(PossibleInputs::Numpad1),
        85 => Some(PossibleInputs::Numpad2),
        86 => Some(PossibleInputs::Numpad3),
        87 => Some(PossibleInputs::Numpad4),
        88 => Some(PossibleInputs::Numpad5),
        89 => Some(PossibleInputs::Numpad6),
        90 => Some(PossibleInputs::Numpad7),
        91 => Some(PossibleInputs::Numpad8),
        92 => Some(PossibleInputs::Numpad9),
        93 => Some(PossibleInputs::F1),
        94 => Some(PossibleInputs::F2),
        95 => Some(PossibleInputs::F3),
        96 => Some(PossibleInputs::F4),
        97 => Some(PossibleInputs::F5),
        98 => Some(PossibleInputs::F6),
        99 => Some(PossibleInputs::F7),
        100 => Some(PossibleInputs::F8),
        101 => Some(PossibleInputs::F9),
        102 => Some(PossibleInputs::F10),
        103 => Some(PossibleInputs::F11),
        104 => Some(PossibleInputs::F12),
        105 => Some(PossibleInputs::F13),
        106 => Some(PossibleInputs::F14),
        107 => Some(PossibleInputs::F15),
        108 => Some(PossibleInputs::Pause),
        _ => None,
    }
}

impl PossibleInputs {
    /// The number that stands for this value in the binding tables.
    pub fn code(self) -> (c: u8)
        ensures
            c == input_code(self),
            c < 109,
    {
        match self {
            PossibleInputs::ButtonLeft => 0,
            PossibleInputs::ButtonRight => 1,
            PossibleInputs::ButtonMiddle => 2,
            PossibleInputs::Button1 => 3,
            PossibleInputs::Button2 => 4,
            PossibleInputs::VerticalWheel => 5,
            PossibleInputs::HorizontalWheel => 6,
            PossibleInputs::Unknown => 7,
            PossibleInputs::A => 8,
            PossibleInputs::B => 9,
            PossibleInputs::C => 10,
            PossibleInputs::D => 11,
            PossibleInputs::E => 12,
            PossibleInputs::F => 13,
            PossibleInputs::G => 14,
            PossibleInputs::H => 15,
            PossibleInputs::I => 16,
            PossibleInputs::J => 17,
            PossibleInputs::K => 18,
            PossibleInputs::L => 19,
            PossibleInputs::M => 20,
            PossibleInputs::N => 21,
            PossibleInputs::O => 22,
            PossibleInputs::P => 23,
            PossibleInputs::Q => 24,
            PossibleInputs::R => 25,
            PossibleInputs::S => 26,
            PossibleInputs::T => 27,
            PossibleInputs::U => 28,
            PossibleInputs::V => 29,
            PossibleInputs::W => 30,
            PossibleInputs::X => 31,
            PossibleInputs::Y => 32,
            PossibleInputs::Z => 33,
            PossibleInputs::Num0 => 34,
            PossibleInputs::Num1 => 35,
            PossibleInputs::Num2 => 36,
            PossibleInputs::Num3 => 37,
            PossibleInputs::Num4 => 38,
            PossibleInputs::Num5 => 39,
            PossibleInputs::Num6 => 40,
            PossibleInputs::Num7 => 41,
            PossibleInputs::Num8 => 42,
            PossibleInputs::Num9 => 43,
            PossibleInputs::Escape => 44,
            PossibleInputs::LControl => 45,
            PossibleInputs::LShift => 46,
            PossibleInputs::LAlt => 47,
            PossibleInputs::LSystem => 48,
            PossibleInputs::RControl => 49,
            PossibleInputs::RShift => 50,
            PossibleInputs::RAlt => 51,
            PossibleInputs::RSystem => 52,
            PossibleInputs::Menu => 53,
            PossibleInputs::LBracket => 54,
            PossibleInputs::RBracket => 55,
            PossibleInputs::Semicolon => 56,
            PossibleInputs::Comma => 57,
            PossibleInputs::Period => 58,
            PossibleInputs::Quote => 59,
            PossibleInputs::Slash => 60,
            PossibleInputs::Backslash => 61,
            PossibleInputs::Tilde => 62,
            PossibleInputs::Equal => 63,
            PossibleInputs::Hyphen => 64,
            PossibleInputs::Space => 65,
            PossibleInputs::Enter => 66,
            PossibleInputs::Backspace => 67,
            PossibleInputs::Tab => 68,
            PossibleInputs::PageUp => 69,
            PossibleInputs::PageDown => 70,
            PossibleInputs::End => 71,
            PossibleInputs::Home => 72,
            PossibleInputs::Insert => 73,
            PossibleInputs::Delete => 74,
            PossibleInputs::Add => 75,
            PossibleInputs::Subtract => 76,
            PossibleInputs::Multiply => 77,
            PossibleInputs::Divide => 78,
            PossibleInputs::Left => 79,
            PossibleInputs::Right => 80,
            PossibleInputs::Up => 81,
            PossibleInputs::Down => 82,
            PossibleInputs::Numpad0 => 83,
            PossibleInputs::Numpad1 => 84,
            PossibleInputs::Numpad2 => 85,
            PossibleInputs::Numpad3 => 86,
            PossibleInputs::Numpad4 => 87,
            PossibleInputs::Numpad5 => 88,
            PossibleInputs::Numpad6 => 89,
            PossibleInputs::Numpad7 => 90,
            PossibleInputs::Numpad8 => 91,
            PossibleInputs::Numpad9 => 92,
            PossibleInputs::F1 => 93,
            PossibleInputs::F2 => 94,
            PossibleInputs::F3 => 95,
            PossibleInputs::F4 => 96,
            PossibleInputs::F5 => 97,
            PossibleInputs::F6 => 98,
            PossibleInputs::F7 => 99,
            PossibleInputs::F8 => 100,
            PossibleInputs::F9 => 101,
            PossibleInputs::F10 => 102,
            PossibleInputs::F11 => 103,
            PossibleInputs::F12 => 104,
            PossibleInputs::F13 => 105,
            PossibleInputs::F14 => 106,
            PossibleInputs::F15 => 107,
            PossibleInputs::Pause => 108,
        }
    }
}

impl PossibleInputs {
    /// The input that a number stands for, if any.
    pub fn from_code(c: u8) -> (r: Option<PossibleInputs>)
        ensures
            r == input_of_code(c),
    {
        match c {
            0 => Some(PossibleInputs::ButtonLeft),
            1 => Some(PossibleInputs::ButtonRight),
            2 => Some(PossibleInputs::ButtonMiddle),
            3 => Some(PossibleInputs::Button1),
            4 => Some(PossibleInputs::Button2),
            5 => Some(PossibleInputs::VerticalWheel),
            6 => Some(PossibleInputs::HorizontalWheel),
            7 => Some(PossibleInputs::Unknown),
            8 => Some(PossibleInputs::A),
            9 => Some(PossibleInputs::B),
            10 => Some(PossibleInputs::C),
            11 => Some(PossibleInputs::D),
            12 => Some(PossibleInputs::E),
            13 => Some(PossibleInputs::F),
            14 => Some(PossibleInputs::G),
            15 => Some(PossibleInputs::H),
            16 => Some(PossibleInputs::I),
            17 => Some(PossibleInputs::J),
            18 => Some(PossibleInputs::K),
            19 => Some(PossibleInputs::L),
            20 => Some(PossibleInputs::M),
            21 => Some(PossibleInputs::N),
            22 => Some(PossibleInputs::O),
            23 => Some(PossibleInputs::P),
            24 => Some(PossibleInputs::Q),
            25 => Some(PossibleInputs::R),
            26 => Some(PossibleInputs::S),
            27 => Some(PossibleInputs::T),
            28 => Some(PossibleInputs::U),
            29 => Some(PossibleInputs::V),
            30 => Some(PossibleInputs::W),
            31 => Some(PossibleInputs::X),
            32 => Some(PossibleInputs::Y),
            33 => Some(PossibleInputs::Z),
            34 => Some(PossibleInputs::Num0),
            35 => Some(PossibleInputs::Num1),
            36 => Some(PossibleInputs::Num2),
            37 => Some(PossibleInputs::Num3),
            38 => Some(PossibleInputs::Num4),
            39 => Some(PossibleInputs::Num5),
            40 => Some(PossibleInputs::Num6),
            41 => Some(PossibleInputs::Num7),
            42 => Some(PossibleInputs::Num8),
            43 => Some(PossibleInputs::Num9),
            44 => Some(PossibleInputs::Escape),
            45 => Some(PossibleInputs::LControl),
            46 => Some(PossibleInputs::LShift),
            47 => Some(PossibleInputs::LAlt),
            48 => Some(PossibleInputs::LSystem),
            49 => Some(PossibleInputs::RControl),
            50 => Some(PossibleInputs::RShift),
            51 => Some(PossibleInputs::RAlt),
            52 => Some(PossibleInputs::RSystem),
            53 => Some(PossibleInputs::Menu),
            54 => Some(PossibleInputs::LBracket),
            55 => Some(PossibleInputs::RBracket),
            56 => Some(PossibleInputs::Semicolon),
            57 => Some(PossibleInputs::Comma),
            58 => Some(PossibleInputs::Period),
            59 => Some(PossibleInputs::Quote),
            60 => Some(PossibleInputs::Slash),
            61 => Some(PossibleInputs::Backslash),
            62 => Some(PossibleInputs::Tilde),
            63 => Some(PossibleInputs::Equal),
            64 => Some(PossibleInputs::Hyphen),
            65 => Some(PossibleInputs::Space),
            66 => Some(PossibleInputs::Enter),
            67 => Some(PossibleInputs::Backspace),
            68 => Some(PossibleInputs::Tab),
            69 => Some(PossibleInputs::PageUp),
            70 => Some(PossibleInputs::PageDown),
            71 => Some(PossibleInputs::End),
            72 => Some(PossibleInputs::Home),
            73 => Some(PossibleInputs::Insert),
            74 => Some(PossibleInputs::Delete),
            75 => Some(PossibleInputs::Add),
            76 => Some(PossibleInputs::Subtract),
            77 => Some(PossibleInputs::Multiply),
            78 => Some(PossibleInputs::Divide),
            79 => Some(PossibleInputs::Left),
            80 => Some(PossibleInputs::Right),
            81 => Some(PossibleInputs::Up),
            82 => Some(PossibleInputs::Down),
            83 => Some(PossibleInputs::Numpad0),
            84 => Some(PossibleInputs::Numpad1),
            85 => Some(PossibleInputs::Numpad2),
            86 => Some(PossibleInputs::Numpad3),
            87 => Some(PossibleInputs::Numpad4),
            88 => Some(PossibleInputs::Numpad5),
            89 => Some(PossibleInputs::Numpad6),
            90 => Some(PossibleInputs::Numpad7),
            91 => Some(PossibleInputs::Numpad8),
            92 => Some(PossibleInputs::Numpad9),
            93 => Some(PossibleInputs::F1),
            94 => Some(PossibleInputs::F2),
            95 => Some(PossibleInputs::F3),
            96 => Some(PossibleInputs::F4),
            97 => Some(PossibleInputs::F5),
            98 => Some(PossibleInputs::F6),
            99 => Some(PossibleInputs::F7),
            100 => Some(PossibleInputs::F8),
            101 => Some(PossibleInputs::F9),
            102 => Some(PossibleInputs::F10),
            103 => Some(PossibleInputs::F11),
            104 => Some(PossibleInputs::F12),
            105 => Some(PossibleInputs::F13),
            106 => Some(PossibleInputs::F14),
            107 => Some(PossibleInputs::F15),
            108 => Some(PossibleInputs::Pause),
            _ => None,
        }
    }
}

/// Decoding a value's number gives the value back.
pub proof fn lemma_input_code_roundtrip(v: PossibleInputs)
    ensures
        input_of_code(input_code(v)) == Some(v),
        input_code(v) < 109,
{
}

/// Every number below the count of values stands for exactly one value.
pub proof fn lemma_input_of_code_valid(c: u8)
    requires
        c < 109,
    ensures
        input_of_code(c) is Some,
        input_code(input_of_code(c)->0) == c,
{
    if c == 0 {
    } else if c == 1 {
    } else if c == 2 {
    } else if c == 3 {
    } else if c == 4 {
    } else if c == 5 {
    } else if c == 6 {
    } else if c == 7 {
    } else if c == 8 {
    } else if c == 9 {
    } else if c == 10 {
    } else if c == 11 {
    } else if c == 12 {
    } else if c == 13 {
    } else if c == 14 {
    } else if c == 15 {
    } else if c == 16 {
    } else if c == 17 {
    } else if c == 18 {
    } else if c == 19 {
    } else if c == 20 {
    } else if c == 21 {
    } else if c == 22 {
    } else if c == 23 {
    } else if c == 24 {
    } else if c == 25 {
    } else if c == 26 {
    } else if c == 27 {
    } else if c == 28 {
    } else if c == 29 {
    } else if c == 30 {
    } else if c == 31 {
    } else if c == 32 {
    } else if c == 33 {
    } else if c == 34 {
    } else if c == 35 {
    } else if c == 36 {
    } else if c == 37 {
    } else if c == 38 {
    } else if c == 39 {
    } else if c == 40 {
    } else if c == 41 {
    } else if c == 42 {
    } else if c == 43 {
    } else if c == 44 {
    } else if c == 45 {
    } else if c == 46 {
    } else if c == 47 {
    } else if c == 48 {
    } else if c == 49 {
    } else if c == 50 {
    } else if c == 51 {
    } else if c == 52 {
    } else if c == 53 {
    } else if c == 54 {
    } else if c == 55 {
    } else if c == 56 {
    } else if c == 57 {
    } else if c == 58 {
    } else if c == 59 {
    } else if c == 60 {
    } else if c == 61 {
    } else if c == 62 {
    } else if c == 63 {
    } else if c == 64 {
    } else if c == 65 {
    } else if c == 66 {
    } else if c == 67 {
    } else if c == 68 {
    } else if c == 69 {
    } else if c == 70 {
    } else if c == 71 {
    } else if c == 72 {
    } else if c == 73 {
    } else if c == 74 {
    } else if c == 75 {
    } else if c == 76 {
    } else if c == 77 {
    } else if c == 78 {
    } else if c == 79 {
    } else if c == 80 {
    } else if c == 81 {
    } else if c == 82 {
    } else if c == 83 {
    } else if c == 84 {
    } else if c == 85 {
    } else if c == 86 {
    } else if c == 87 {
    } else if c == 88 {
    } else if c == 89 {
    } else if c == 90 {
    } else if c == 91 {
    } else if c == 92 {
    } else if c == 93 {
    } else if c == 94 {
    } else if c == 95 {
    } else if c == 96 {
    } else if c == 97 {
    } else if c == 98 {
    } else if c == 99 {
    } else if c == 100 {
    } else if c == 101 {
    } else if c == 102 {
    } else if c == 103 {
    } else if c == 104 {
    } else if c == 105 {
    } else if c == 106 {
    } else if c == 107 {
    } else if c == 108 {
    }
}

/// Whether a bind is currently held down.
#[derive(Clone, Copy, Debug, PartialEq, Eq, Structural)]
pub struct BindInfo {
    pub is_pressed: bool,
}

impl Default for BindInfo {
    fn default() -> (r: Self)
        ensures
            !r.is_pressed,
    {
        BindInfo { is_pressed: false }
    }
}

/// The mathematical content of a binding table: which bind each input
/// triggers, and for each bind the inputs registered to it and whether it is
/// held down.
pub struct BindingsView {
    pub input_bindings: Map<PossibleInputs, PossibleBinds>,
    pub binded_inputs: Map<PossibleBinds, (Set<PossibleInputs>, BindInfo)>,
}

impl BindingsView {
    /// `input` triggers `bind`.
    pub open spec fn binds(self, input: PossibleInputs, bind: PossibleBinds) -> bool {
        self.input_bindings.contains_key(input) && self.input_bindings[input] == bind
    }

    /// `bind` has an entry and is held down.
    pub open spec fn pressed(self, bind: PossibleBinds) -> bool {
        self.binded_inputs.contains_key(bind) && self.binded_inputs[bind].1.is_pressed
    }

    /// `bind` has an entry and is not held down.
    pub open spec fn released(self, bind: PossibleBinds) -> bool {
        self.binded_inputs.contains_key(bind) && !self.binded_inputs[bind].1.is_pressed
    }
}

/// The table after `input` is pressed (`pressed`) or released (`!pressed`):
/// the bind that the input triggers, if that bind has an entry, takes the new
/// state; nothing else changes.
pub open spec fn view_after_input(v: BindingsView, input: PossibleInputs, pressed: bool) -> BindingsView {
    if v.input_bindings.contains_key(input) && v.binded_inputs.contains_key(
        v.input_bindings[input],
    ) {
        let b = v.input_bindings[input];
        BindingsView {
            input_bindings: v.input_bindings,
            binded_inputs: v.binded_inputs.insert(
                b,
                (v.binded_inputs[b].0, BindInfo { is_pressed: pressed }),
            ),
        }
    } else {
        v
    }
}

/// The table after `input` is unbound from `bind`: if `bind` has an entry,
/// `input` loses its binding (whichever bind it pointed to), `input` leaves
/// the inputs of `bind`, and `bind` loses its entry once no input is left.
/// Without an entry for `bind` nothing changes.
pub open spec fn view_after_remove(v: BindingsView, input: PossibleInputs, bind: PossibleBinds) -> BindingsView {
    if v.binded_inputs.contains_key(bind) {
        let rest = v.binded_inputs[bind].0.remove(input);
        BindingsView {
            input_bindings: v.input_bindings.remove(input),
            binded_inputs: if rest.is_empty() {
                v.binded_inputs.remove(bind)
            } else {
                v.binded_inputs.insert(bind, (rest, v.binded_inputs[bind].1))
            },
        }
    } else {
        v
    }
}

/// The table after `input` is bound to `bind`: the input points to the bind,
/// and the bind lists the input (a new entry starts released).
pub open spec fn view_after_add(v: BindingsView, input: PossibleInputs, bind: PossibleBinds) -> BindingsView {
    BindingsView {
        input_bindings: v.input_bindings.insert(input, bind),
        binded_inputs: if v.binded_inputs.contains_key(bind) {
            v.binded_inputs.insert(
                bind,
                (v.binded_inputs[bind].0.insert(input), v.binded_inputs[bind].1),
            )
        } else {
            v.binded_inputs.insert(bind, (set![input], BindInfo { is_pressed: false }))
        },
    }
}

/// The table after each input of `inputs` is pressed, in order.
pub open spec fn view_after_presses(v: BindingsView, inputs: Seq<PossibleInputs>) -> BindingsView
    decreases inputs.len(),
{
    if inputs.len() == 0 {
        v
    } else {
        view_after_presses(view_after_input(v, inputs[0], true), inputs.drop_first())
    }
}

/// The modifier keys that a key event reports as held, in the order in which
/// they are pressed: both Alts, both Controls, both Shifts, both System keys.
pub open spec fn modifier_inputs(ctrl: bool, alt: bool, shift: bool, system: bool) -> Seq<PossibleInputs> {
    (if alt { seq![PossibleInputs::LAlt, PossibleInputs::RAlt] } else { seq![] })
        + (if ctrl { seq![PossibleInputs::RControl, PossibleInputs::LControl] } else { seq![] })
        + (if shift { seq![PossibleInputs::LShift, PossibleInputs::RShift] } else { seq![] })
        + (if system { seq![PossibleInputs::RSystem, PossibleInputs::LSystem] } else { seq![] })
}

/// The binding table that a fresh settings file starts with.
pub open spec fn default_bindings_view() -> BindingsView {
    BindingsView {
        input_bindings: map![
            PossibleInputs::ButtonLeft => PossibleBinds::Select,
            PossibleInputs::Escape => PossibleBinds::Escape,
            PossibleInputs::Up => PossibleBinds::UIUp,
            PossibleInputs::Down => PossibleBinds::UIDown,
            PossibleInputs::Left => PossibleBinds::UILeft,
            PossibleInputs::Right => PossibleBinds::UIRight,
            PossibleInputs::VerticalWheel => PossibleBinds::UIDown,
            PossibleInputs::HorizontalWheel => PossibleBinds::UIRight
        ],
        binded_inputs: map![
            PossibleBinds::Select => (set![PossibleInputs::ButtonLeft], BindInfo { is_pressed: false }),
            PossibleBinds::Escape => (set![PossibleInputs::Escape], BindInfo { is_pressed: false }),
            PossibleBinds::UIUp => (set![PossibleInputs::Up, PossibleInputs::VerticalWheel], BindInfo { is_pressed: false }),
            PossibleBinds::UIDown => (set![PossibleInputs::Down, PossibleInputs::VerticalWheel], BindInfo { is_pressed: false }),
            PossibleBinds::UILeft => (set![PossibleInputs::Left, PossibleInputs::HorizontalWheel], BindInfo { is_pressed: false }),
            PossibleBinds::UIRight => (set![PossibleInputs::Right, PossibleInputs::HorizontalWheel], BindInfo { is_pressed: false })
        ],
    }
}

/// The table of which input triggers which bind, and which binds are held.
///
/// Inputs and binds are stored by their numbers (`code`); an input may stay
/// listed under a bind that it no longer points to.
#[derive(Clone, Debug)]
pub struct Bindings {
    input_bindings: HashMap<u8, u8>,
    binded_inputs: HashMap<u8, (HashSet<u8>, BindInfo)>,
}

/// The bind that a stored number stands for.
spec fn decode_bind(c: u8) -> PossibleBinds {
    match bind_of_code(c) {
        Some(b) => b,
        None => PossibleBinds::Select,
    }
}

impl View for Bindings {
    type V = BindingsView;

    closed spec fn view(&self) -> BindingsView {
        BindingsView {
            input_bindings: Map::new(
                |i: PossibleInputs| self.input_bindings@.contains_key(input_code(i)),
                |i: PossibleInputs| decode_bind(self.input_bindings@[input_code(i)]),
            ),
            binded_inputs: Map::new(
                |b: PossibleBinds| self.binded_inputs@.contains_key(bind_code(b)),
                |b: PossibleBinds|
                    (
                        Set::new(
                            |i: PossibleInputs|
                                self.binded_inputs@[bind_code(b)].0@.contains(input_code(i)),
                        ),
                        self.binded_inputs@[bind_code(b)].1,
                    ),
            ),
        }
    }
}

impl Bindings {
    /// Every stored number stands for an input or a bind.
    pub closed spec fn wf(self) -> bool {
        &&& forall|k: u8|
            #[trigger] self.input_bindings@.contains_key(k) ==> self.input_bindings@[k] < 6
        &&& forall|k: u8, c: u8|
            #[trigger] self.binded_inputs@.contains_key(k) && #[trigger] self.binded_inputs@[k].0@.contains(c)
                ==> c < 109
    }

    /// Presses or releases the bind of the mouse button or key that the event reports.
    pub fn event_handler(&mut self, event: UIEvent)
        requires
            old(self).wf(),
        ensures
            final(self).wf(),
            final(self)@ == (match event {
                UIEvent::MouseButtonPressed { button, .. } => view_after_input(old(self)@, button, true),
                UIEvent::MouseButtonReleased { button, .. } => view_after_input(old(self)@, button, false),
                UIEvent::KeyPressed { code, .. } => view_after_input(old(self)@, code, true),
                UIEvent::KeyReleased { code, .. } => view_after_input(old(self)@, code, false),
                _ => old(self)@,
            }),
    {
        match event {
            UIEvent::MouseButtonPressed { button, .. } => self.input_pressed(button),
            UIEvent::MouseButtonReleased { button, .. } => self.input_released(button),
            UIEvent::KeyPressed { code, .. } => self.input_pressed(code),
            UIEvent::KeyReleased { code, .. } => self.input_released(code),
            _ => {},
        }
    }

    pub fn is_bind_released_and_binded(&self, input: PossibleInputs, bind: PossibleBinds) -> (r: bool)
        requires
            self.wf(),
        ensures
            r == (self@.binds(input, bind) && self@.released(bind)),
    {
        self.is_bind_and_input_binded(input, bind) && self.is_bind_released(bind)
    }

    /// A bind is released when it has an entry that is not held down.
    pub fn is_bind_released(&self, bind: PossibleBinds) -> (r: bool)
        ensures
            r == self@.released(bind),
    {
        match self.get_bind_info(bind) {
            Some(bind_info) => !bind_info.is_pressed,
            None => false,
        }
    }

    pub fn is_bind_pressed_and_binded(&self, input: PossibleInputs, bind: PossibleBinds) -> (r: bool)
        requires
            self.wf(),
        ensures
            r == (self@.binds(input, bind) && self@.pressed(bind)),
    {
        self.is_bind_and_input_binded(input, bind) && self.is_bind_pressed(bind)
    }

    /// Whether `input` triggers `bind`.
    pub fn is_bind_and_input_binded(&self, input: PossibleInputs, bind: PossibleBinds) -> (r: bool)
        requires
            self.wf(),
        ensures
            r == self@.binds(input, bind),
    {
        broadcast use vstd::std_specs::hash::group_hash_axioms;

        let ic = input.code();
        let bc = bind.code();
        proof {
            lemma_bind_code_roundtrip(bind);
        }
        match self.input_bindings.get(&ic) {
            Some(c) => {
                proof {
                    lemma_bind_of_code_valid(*c);
                }
                *c == bc
            },
            None => false,
        }
    }

    /// The bind that `input` triggers, if any.
    pub fn get_binding(&self, input: PossibleInputs) -> (r: Option<PossibleBinds>)
        requires
            self.wf(),
        ensures
            r == (if self@.input_bindings.contains_key(input) {
                Some(self@.input_bindings[input])
            } else {
                None
            }),
    {
        broadcast use vstd::std_specs::hash::group_hash_axioms;

        match self.input_bindings.get(&input.code()) {
            Some(c) => {
                proof {
                    lemma_bind_of_code_valid(*c);
                }
                PossibleBinds::from_code(*c)
            },
            None => None,
        }
    }

    /// Whether `bind` has an entry, that is, at least one input registered to it.
    pub fn has_bind_entry(&self, bind: PossibleBinds) -> (r: bool)
        ensures
            r == self@.binded_inputs.contains_key(bind),
    {
        broadcast use vstd::std_specs::hash::group_hash_axioms;

        self.binded_inputs.contains_key(&bind.code())
    }

    /// Whether `input` is registered to `bind`.
    pub fn is_input_registered(&self, bind: PossibleBinds, input: PossibleInputs) -> (r: bool)
        ensures
            r == (self@.binded_inputs.contains_key(bind) && self@.binded_inputs[bind].0.contains(input)),
    {
        broadcast use vstd::std_specs::hash::group_hash_axioms;

        match self.binded_inputs.get(&bind.code()) {
            Some(tuple) => tuple.0.contains(&input.code()),
            None => false,
        }
    }

    /// A bind is pressed when it has an entry that is held down.
    pub fn is_bind_pressed(&self, bind: PossibleBinds) -> (r: bool)
        ensures
            r == self@.pressed(bind),
    {
        match self.get_bind_info(bind) {
            Some(bind_info) => bind_info.is_pressed,
            None => false,
        }
    }

    /// Presses every modifier key that a key event reports as held.
    pub fn ctrl_alt_shift_system_is_pressed(&mut self, ctrl: bool, alt: bool, shift: bool, system: bool)
        requires
            old(self).wf(),
        ensures
            final(self).wf(),
            final(self)@ == view_after_presses(old(self)@, modifier_inputs(ctrl, alt, shift, system)),
    {
        let ghost start = self@;
        let ghost s_alt: Seq<PossibleInputs> = if alt { seq![PossibleInputs::LAlt, PossibleInputs::RAlt] } else { seq![] };
        let ghost s_ctrl: Seq<PossibleInputs> = if ctrl { seq![PossibleInputs::RControl, PossibleInputs::LControl] } else { seq![] };
        let ghost s_shift: Seq<PossibleInputs> = if shift { seq![PossibleInputs::LShift, PossibleInputs::RShift] } else { seq![] };
        let ghost s_system: Seq<PossibleInputs> = if system { seq![PossibleInputs::RSystem, PossibleInputs::LSystem] } else { seq![] };
        if alt {
            self.input_pressed(PossibleInputs::LAlt);
            self.input_pressed(PossibleInputs::RAlt);
        }
        proof { lemma_presses_pair(start, s_alt); }
        let ghost after_alt = self@;
        if ctrl {
            self.input_pressed(PossibleInputs::RControl);
            self.input_pressed(PossibleInputs::LControl);
        }
        proof { lemma_presses_pair(after_alt, s_ctrl); }
        let ghost after_ctrl = self@;
        if shift {
            self.input_pressed(PossibleInputs::LShift);
            self.input_pressed(PossibleInputs::RShift);
        }
        proof { lemma_presses_pair(after_ctrl, s_shift); }
        let ghost after_shift = self@;
        if system {
            self.input_pressed(PossibleInputs::RSystem);
            self.input_pressed(PossibleInputs::LSystem);
        }
        proof {
            lemma_presses_pair(after_shift, s_system);
            lemma_presses_concat(start, s_alt, s_ctrl);
            lemma_presses_concat(start, s_alt + s_ctrl, s_shift);
            lemma_presses_concat(start, s_alt + s_ctrl + s_shift, s_system);
        }
    }

    /// Marks the bind that `input` triggers as held down.
    pub fn input_pressed(&mut self, input: PossibleInputs)
        requires
            old(self).wf(),
        ensures
            final(self).wf(),
            final(self)@ == view_after_input(old(self)@, input, true),
    {
        self.update_bind_info_from_input(input, true)
    }

    /// Marks the bind that `input` triggers as released.
    pub fn input_released(&mut self, input: PossibleInputs)
        requires
            old(self).wf(),
        ensures
            final(self).wf(),
            final(self)@ == view_after_input(old(self)@, input, false),
    {
        self.update_bind_info_from_input(input, false)
    }

    fn update_bind_info_from_input(&mut self, input: PossibleInputs, pressed: bool)
        requires
            old(self).wf(),
        ensures
            final(self).wf(),
            final(self)@ == view_after_input(old(self)@, input, pressed),
    {
        broadcast use vstd::std_specs::hash::group_hash_axioms;

        let ghost old_view = self@;
        let ic = input.code();
        let bc = match self.input_bindings.get(&ic) {
            Some(c) => *c,
            None => {
                return;
            },
        };
        proof {
            lemma_bind_of_code_valid(bc);
        }
        let entry = self.binded_inputs.remove(&bc);
        match entry {
            Some(tuple) => {
                let (set, _) = tuple;
                self.binded_inputs.insert(bc, (set, BindInfo { is_pressed: pressed }));
                proof {
                    lemma_codes_injective();
                    let b = decode_bind(bc);
                    assert(bind_code(b) == bc);
                    assert(self@.binded_inputs =~= old_view.binded_inputs.insert(
                        b,
                        (old_view.binded_inputs[b].0, BindInfo { is_pressed: pressed }),
                    ));
                    assert(self@.input_bindings =~= old_view.input_bindings);
                }
            },
            None => {
                proof {
                    lemma_codes_injective();
                    assert(self@.binded_inputs =~= old_view.binded_inputs);
                    assert(self@.input_bindings =~= old_view.input_bindings);
                }
            },
        }
    }

    /// The state of `bind`, if it has an entry.
    pub fn get_bind_info(&self, bind: PossibleBinds) -> (r: Option<BindInfo>)
        ensures
            r == (if self@.binded_inputs.contains_key(bind) {
                Some(self@.binded_inputs[bind].1)
            } else {
                None
            }),
    {
        broadcast use vstd::std_specs::hash::group_hash_axioms;

        match self.binded_inputs.get(&bind.code()) {
            Some(tuple) => Some(tuple.1),
            None => None,
        }
    }

    /// Unbinds `input` from `bind`; see `view_after_remove`.
    pub fn remove_bind(&mut self, input: PossibleInputs, bind: PossibleBinds)
        requires
            old(self).wf(),
        ensures
            final(self).wf(),
            final(self)@ == view_after_remove(old(self)@, input, bind),
    {
        broadcast use vstd::std_specs::hash::group_hash_axioms;

        let ghost old_view = self@;
        let ic = input.code();
        let bc = bind.code();
        let entry = self.binded_inputs.remove(&bc);
        let (mut set, info) = match entry {
            Some(tuple) => tuple,
            None => {
                proof {
                    assert(self@.binded_inputs =~= old_view.binded_inputs);
                    assert(self@.input_bindings =~= old_view.input_bindings);
                }
                return;
            },
        };
        let ghost old_set = set@;
        self.input_bindings.remove(&ic);
        set.remove(&ic);
        let now_empty = set.is_empty();
        if !now_empty {
            self.binded_inputs.insert(bc, (set, info));
        }
        proof {
            lemma_codes_injective();
            lemma_bind_code_roundtrip(bind);
            let rest = old_view.binded_inputs[bind].0.remove(input);
            assert(rest =~= Set::new(|i: PossibleInputs| set@.contains(input_code(i))));
            if now_empty {
                assert(rest =~= Set::empty());
            } else {
                let c = set@.choose();
                assert(set@.contains(c));
                assert(old_set.contains(c));
                lemma_input_of_code_valid(c);
                let i = input_of_code(c)->0;
                assert(rest.contains(i));
            }
            assert(self@.input_bindings =~= old_view.input_bindings.remove(input));
            if now_empty {
                assert(self@.binded_inputs =~= old_view.binded_inputs.remove(bind));
            } else {
                assert(self@.binded_inputs =~= old_view.binded_inputs.insert(
                    bind,
                    (rest, old_view.binded_inputs[bind].1),
                ));
            }
        }
    }

    fn add_bind(&mut self, input: PossibleInputs, bind: PossibleBinds)
        requires
            old(self).wf(),
        ensures
            final(self).wf(),
            final(self)@ == view_after_add(old(self)@, input, bind),
    {
        broadcast use vstd::std_specs::hash::group_hash_axioms;

        let ghost old_view = self@;
        let ic = input.code();
        let bc = bind.code();
        self.input_bindings.insert(ic, bc);
        let entry = self.binded_inputs.remove(&bc);
        match entry {
            Some(tuple) => {
                let (mut set, info) = tuple;
                set.insert(ic);
                self.binded_inputs.insert(bc, (set, info));
            },
            None => {
                let mut set: HashSet<u8> = HashSet::new();
                set.insert(ic);
                self.binded_inputs.insert(bc, (set, BindInfo { is_pressed: false }));
            },
        }
        proof {
            lemma_codes_injective();
            lemma_bind_code_roundtrip(bind);
            assert(self@.input_bindings =~= old_view.input_bindings.insert(input, bind));
            if old_view.binded_inputs.contains_key(bind) {
                assert(self@.binded_inputs[bind].0 =~= old_view.binded_inputs[bind].0.insert(input));
                assert(self@.binded_inputs =~= old_view.binded_inputs.insert(
                    bind,
                    (old_view.binded_inputs[bind].0.insert(input), old_view.binded_inputs[bind].1),
                ));
            } else {
                assert(self@.binded_inputs[bind].0 =~= set![input]);
                assert(self@.binded_inputs =~= old_view.binded_inputs.insert(
                    bind,
                    (set![input], BindInfo { is_pressed: false }),
                ));
            }
        }
    }

    /// Binds `input` to `bind`, first unbinding it from `bind`.
    pub fn set_bind(&mut self, input: PossibleInputs, bind: PossibleBinds)
        requires
            old(self).wf(),
        ensures
            final(self).wf(),
            final(self)@ == view_after_add(view_after_remove(old(self)@, input, bind), input, bind),
    {
        self.remove_bind(input, bind);
        self.add_bind(input, bind);
    }
}

/// The binding table built from a list of input-to-bind pairs, a later pair
/// for the same input winning.
pub open spec fn pairs_map(s: Seq<(PossibleInputs, PossibleBinds)>) -> Map<PossibleInputs, PossibleBinds>
    decreases s.len(),
{
    if s.len() == 0 {
        Map::empty()
    } else {
        pairs_map(s.drop_last()).insert(s.last().0, s.last().1)
    }
}

/// The table of registered inputs built from a list of entries, a later
/// entry for the same bind winning.
pub open spec fn entries_map(s: Seq<(PossibleBinds, Vec<PossibleInputs>, BindInfo)>) -> Map<
    PossibleBinds,
    (Set<PossibleInputs>, BindInfo),
>
    decreases s.len(),
{
    if s.len() == 0 {
        Map::empty()
    } else {
        entries_map(s.drop_last()).insert(s.last().0, (s.last().1@.to_set(), s.last().2))
    }
}

impl Bindings {
    /// Every binding, as input-to-bind pairs in the order of the inputs' numbers.
    pub fn input_binding_list(&self) -> (r: Vec<(PossibleInputs, PossibleBinds)>)
        requires
            self.wf(),
        ensures
            forall|k: int| 0 <= k < r@.len() ==> self@.binds(#[trigger] r@[k].0, r@[k].1),
            forall|i: PossibleInputs|
                #[trigger] self@.input_bindings.contains_key(i) ==> exists|k: int|
                    0 <= k < r@.len() && #[trigger] r@[k].0 == i,
            forall|k: int, l: int| 0 <= k < l < r@.len() ==> input_code(#[trigger] r@[k].0) < input_code(
                #[trigger] r@[l].0,
            ),
    {
        let mut r: Vec<(PossibleInputs, PossibleBinds)> = Vec::new();
        let mut c: u8 = 0;
        while c < 109
            invariant
                c <= 109,
                self.wf(),
                forall|k: int| 0 <= k < r@.len() ==> self@.binds(#[trigger] r@[k].0, r@[k].1),
                forall|k: int| 0 <= k < r@.len() ==> input_code(#[trigger] r@[k].0) < c,
                forall|i: PossibleInputs|
                    #[trigger] self@.input_bindings.contains_key(i) && input_code(i) < c ==> exists|k: int|
                        0 <= k < r@.len() && #[trigger] r@[k].0 == i,
                forall|k: int, l: int| 0 <= k < l < r@.len() ==> input_code(#[trigger] r@[k].0) < input_code(
                    #[trigger] r@[l].0,
                ),
            decreases 109 - c,
        {
            proof {
                lemma_input_of_code_valid(c);
            }
            let input = PossibleInputs::from_code(c).unwrap();
            match self.get_binding(input) {
                Some(b) => {
                    let ghost before = r@;
                    r.push((input, b));
                    proof {
                        assert forall|i: PossibleInputs|
                            #[trigger] self@.input_bindings.contains_key(i) && input_code(i) < c + 1 implies exists|k: int|
                                0 <= k < r@.len() && #[trigger] r@[k].0 == i by {
                            if input_code(i) == c {
                                lemma_codes_injective();
                                assert(r@[before.len() as int].0 == i);
                            } else {
                                let k = choose|k: int| 0 <= k < before.len() && #[trigger] before[k].0 == i;
                                assert(r@[k].0 == i);
                            }
                        }
                    }
                },
                None => {
                    proof {
                        assert forall|i: PossibleInputs|
                            #[trigger] self@.input_bindings.contains_key(i) && input_code(i) < c + 1 implies exists|k: int|
                                0 <= k < r@.len() && #[trigger] r@[k].0 == i by {
                            if input_code(i) == c {
                                lemma_codes_injective();
                            }
                        }
                    }
                },
            }
            c = c + 1;
        }
        proof {
            assert forall|i: PossibleInputs| #[trigger] self@.input_bindings.contains_key(i) implies exists|k: int|
                0 <= k < r@.len() && #[trigger] r@[k].0 == i by {
                lemma_input_code_roundtrip(i);
            }
        }
        r
    }
}

impl Bindings {
    /// The inputs registered to `bind`, in the order of their numbers.
    pub fn registered_inputs(&self, bind: PossibleBinds) -> (r: Vec<PossibleInputs>)
        ensures
            r@.len() > 0 ==> self@.binded_inputs.contains_key(bind),
            forall|k: int| 0 <= k < r@.len() ==> self@.binded_inputs[bind].0.contains(#[trigger] r@[k]),
            forall|i: PossibleInputs|
                self@.binded_inputs.contains_key(bind) && #[trigger] self@.binded_inputs[bind].0.contains(i)
                    ==> r@.contains(i),
            forall|k: int, l: int| 0 <= k < l < r@.len() ==> input_code(#[trigger] r@[k]) < input_code(#[trigger] r@[l]),
    {
        let mut r: Vec<PossibleInputs> = Vec::new();
        let mut c: u8 = 0;
        while c < 109
            invariant
                c <= 109,
                r@.len() > 0 ==> self@.binded_inputs.contains_key(bind),
                forall|k: int| 0 <= k < r@.len() ==> self@.binded_inputs[bind].0.contains(#[trigger] r@[k]),
                forall|k: int| 0 <= k < r@.len() ==> input_code(#[trigger] r@[k]) < c,
                forall|i: PossibleInputs|
                    self@.binded_inputs.contains_key(bind) && #[trigger] self@.binded_inputs[bind].0.contains(i)
                        && input_code(i) < c ==> r@.contains(i),
                forall|k: int, l: int| 0 <= k < l < r@.len() ==> input_code(#[trigger] r@[k]) < input_code(#[trigger] r@[l]),
            decreases 109 - c,
        {
            proof {
                lemma_input_of_code_valid(c);
                lemma_codes_injective();
            }
            let input = PossibleInputs::from_code(c).unwrap();
            if self.is_input_registered(bind, input) {
                let ghost before = r@;
                r.push(input);
                proof {
                    assert forall|k: int| 0 <= k < r@.len() implies self@.binded_inputs[bind].0.contains(
                        #[trigger] r@[k],
                    ) by {
                        if k < before.len() {
                            assert(r@[k] == before[k]);
                        }
                    }
                    assert forall|i: PossibleInputs|
                        self@.binded_inputs.contains_key(bind) && #[trigger] self@.binded_inputs[bind].0.contains(i)
                            && input_code(i) < c + 1 implies r@.contains(i) by {
                        if input_code(i) == c {
                            assert(r@[before.len() as int] == i);
                        } else {
                            let k = choose|k: int| 0 <= k < before.len() && before[k] == i;
                            assert(r@[k] == i);
                        }
                    }
                }
            } else {
                proof {
                    assert forall|i: PossibleInputs|
                        self@.binded_inputs.contains_key(bind) && #[trigger] self@.binded_inputs[bind].0.contains(i)
                            && input_code(i) < c + 1 implies r@.contains(i) by {
                        if input_code(i) == c {
                            assert(i == input);
                        }
                    }
                }
            }
            c = c + 1;
        }
        proof {
            assert forall|i: PossibleInputs|
                self@.binded_inputs.contains_key(bind) && #[trigger] self@.binded_inputs[bind].0.contains(i)
                    implies r@.contains(i) by {
                lemma_input_code_roundtrip(i);
            }
        }
        r
    }

    /// Every bind with an entry, its registered inputs (see
    /// `registered_inputs`) and its state, in the order of the binds' numbers.
    pub fn binded_input_list(&self) -> (r: Vec<(PossibleBinds, Vec<PossibleInputs>, BindInfo)>)
        ensures
            forall|k: int|
                0 <= k < r@.len() ==> {
                    &&& self@.binded_inputs.contains_key(#[trigger] r@[k].0)
                    &&& r@[k].1@.to_set() == self@.binded_inputs[r@[k].0].0
                    &&& r@[k].2 == self@.binded_inputs[r@[k].0].1
                },
            forall|b: PossibleBinds|
                #[trigger] self@.binded_inputs.contains_key(b) ==> exists|k: int|
                    0 <= k < r@.len() && #[trigger] r@[k].0 == b,
            forall|k: int, l: int| 0 <= k < l < r@.len() ==> bind_code(#[trigger] r@[k].0) < bind_code(#[trigger] r@[l].0),
    {
        let mut r: Vec<(PossibleBinds, Vec<PossibleInputs>, BindInfo)> = Vec::new();
        let mut c: u8 = 0;
        while c < 6
            invariant
                c <= 6,
                forall|k: int|
                    0 <= k < r@.len() ==> {
                        &&& self@.binded_inputs.contains_key(#[trigger] r@[k].0)
                        &&& r@[k].1@.to_set() == self@.binded_inputs[r@[k].0].0
                        &&& r@[k].2 == self@.binded_inputs[r@[k].0].1
                    },
                forall|k: int| 0 <= k < r@.len() ==> bind_code(#[trigger] r@[k].0) < c,
                forall|b: PossibleBinds|
                    #[trigger] self@.binded_inputs.contains_key(b) && bind_code(b) < c ==> exists|k: int|
                        0 <= k < r@.len() && #[trigger] r@[k].0 == b,
                forall|k: int, l: int| 0 <= k < l < r@.len() ==> bind_code(#[trigger] r@[k].0) < bind_code(#[trigger] r@[l].0),
            decreases 6 - c,
        {
            proof {
                lemma_bind_of_code_valid(c);
                lemma_codes_injective();
            }
            let bind = PossibleBinds::from_code(c).unwrap();
            match self.get_bind_info(bind) {
                Some(info) => {
                    let inputs = self.registered_inputs(bind);
                    let ghost before = r@;
                    proof {
                        assert(inputs@.to_set() =~= self@.binded_inputs[bind].0);
                    }
                    r.push((bind, inputs, info));
                    proof {
                        assert forall|b: PossibleBinds|
                            #[trigger] self@.binded_inputs.contains_key(b) && bind_code(b) < c + 1 implies exists|k: int|
                                0 <= k < r@.len() && #[trigger] r@[k].0 == b by {
                            if bind_code(b) == c {
                                assert(r@[before.len() as int].0 == b);
                            } else {
                                let k = choose|k: int| 0 <= k < before.len() && #[trigger] before[k].0 == b;
                                assert(r@[k].0 == b);
                            }
                        }
                    }
                },
                None => {},
            }
            c = c + 1;
        }
        proof {
            assert forall|b: PossibleBinds| #[trigger] self@.binded_inputs.contains_key(b) implies exists|k: int|
                0 <= k < r@.len() && #[trigger] r@[k].0 == b by {
                lemma_bind_code_roundtrip(b);
            }
        }
        r
    }
}

/// The set of the numbers of `inputs`.
fn input_code_set(inputs: &Vec<PossibleInputs>) -> (r: HashSet<u8>)
    ensures
        forall|c: u8| r@.contains(c) ==> c < 109,
        Set::new(|i: PossibleInputs| r@.contains(input_code(i))) == inputs@.to_set(),
{
    broadcast use vstd::std_specs::hash::group_hash_axioms;

    let mut r: HashSet<u8> = HashSet::new();
    let mut k: usize = 0;
    while k < inputs.len()
        invariant
            k <= inputs@.len(),
            forall|c: u8| r@.contains(c) ==> c < 109,
            Set::new(|i: PossibleInputs| r@.contains(input_code(i))) == inputs@.subrange(0, k as int).to_set(),
        decreases inputs@.len() - k,
    {
        let ghost before = r@;
        r.insert(inputs[k].code());
        proof {
            lemma_codes_injective();
            let i = inputs@[k as int];
            assert(inputs@.subrange(0, k as int + 1) =~= inputs@.subrange(0, k as int).push(i));
            assert(inputs@.subrange(0, k as int).push(i).to_set() =~= inputs@.subrange(0, k as int).to_set().insert(i)) by {
                assert forall|x: PossibleInputs| #[trigger] inputs@.subrange(0, k as int).push(i).to_set().contains(x) <==> inputs@.subrange(0, k as int).to_set().insert(i).contains(x) by {
                    if inputs@.subrange(0, k as int).contains(x) {
                        let j = choose|j: int| 0 <= j < k && inputs@.subrange(0, k as int)[j] == x;
                        assert(inputs@.subrange(0, k as int).push(i)[j] == x);
                    }
                    if inputs@.subrange(0, k as int).push(i).contains(x) && x != i {
                        let j = choose|j: int| 0 <= j < k + 1 && inputs@.subrange(0, k as int).push(i)[j] == x;
                        assert(inputs@.subrange(0, k as int)[j] == x);
                    }
                    if x == i {
                        assert(inputs@.subrange(0, k as int).push(i)[k as int] == x);
                    }
                }
            }
            assert(Set::new(|x: PossibleInputs| r@.contains(input_code(x))) =~= Set::new(
                |x: PossibleInputs| before.contains(input_code(x)),
            ).insert(i));
        }
        k = k + 1;
    }
    proof {
        assert(inputs@.subrange(0, k as int) =~= inputs@);
    }
    r
}

impl Bindings {
    /// The table holding exactly the given bindings and entries (a later
    /// pair or entry for the same input or bind wins); it is the inverse of
    /// `input_binding_list` and `binded_input_list`.
    pub fn from_parts(
        input_bindings: &Vec<(PossibleInputs, PossibleBinds)>,
        binded_inputs: &Vec<(PossibleBinds, Vec<PossibleInputs>, BindInfo)>,
    ) -> (r: Bindings)
        ensures
            r.wf(),
            r@.input_bindings == pairs_map(input_bindings@),
            r@.binded_inputs == entries_map(binded_inputs@),
    {
        broadcast use vstd::std_specs::hash::group_hash_axioms;

        let mut b = Bindings { input_bindings: HashMap::new(), binded_inputs: HashMap::new() };
        proof {
            assert(b@.input_bindings =~= Map::empty());
            assert(b@.binded_inputs =~= Map::empty());
        }
        let mut k: usize = 0;
        while k < input_bindings.len()
            invariant
                k <= input_bindings@.len(),
                b.wf(),
                b@.input_bindings == pairs_map(input_bindings@.subrange(0, k as int)),
                b@.binded_inputs == Map::<PossibleBinds, (Set<PossibleInputs>, BindInfo)>::empty(),
            decreases input_bindings@.len() - k,
        {
            let (input, bind) = input_bindings[k];
            let ghost before = b@;
            b.input_bindings.insert(input.code(), bind.code());
            proof {
                lemma_codes_injective();
                let s = input_bindings@.subrange(0, k as int + 1);
                assert(s.drop_last() =~= input_bindings@.subrange(0, k as int));
                assert(b@.input_bindings =~= before.input_bindings.insert(input, bind));
                assert(b@.binded_inputs =~= before.binded_inputs);
            }
            k = k + 1;
        }
        proof {
            assert(input_bindings@.subrange(0, k as int) =~= input_bindings@);
        }
        let ghost inputs_done = b@.input_bindings;
        let mut k: usize = 0;
        while k < binded_inputs.len()
            invariant
                k <= binded_inputs@.len(),
                b.wf(),
                b@.input_bindings == inputs_done,
                b@.binded_inputs == entries_map(binded_inputs@.subrange(0, k as int)),
            decreases binded_inputs@.len() - k,
        {
            let bind = binded_inputs[k].0;
            let info = binded_inputs[k].2;
            let set = input_code_set(&binded_inputs[k].1);
            let ghost before = b@;
            b.binded_inputs.insert(bind.code(), (set, info));
            proof {
                lemma_codes_injective();
                let s = binded_inputs@.subrange(0, k as int + 1);
                assert(s.drop_last() =~= binded_inputs@.subrange(0, k as int));
                assert(b@.binded_inputs =~= before.binded_inputs.insert(
                    bind,
                    (binded_inputs@[k as int].1@.to_set(), info),
                ));
                assert(b@.input_bindings =~= before.input_bindings);
            }
            k = k + 1;
        }
        proof {
            assert(binded_inputs@.subrange(0, k as int) =~= binded_inputs@);
        }
        b
    }
}

/// A list of pairs that all agree with `v` and name every key of `v`
/// builds `v`.
proof fn lemma_pairs_map_rebuilds(v: Map<PossibleInputs, PossibleBinds>, s: Seq<(PossibleInputs, PossibleBinds)>)
    requires
        forall|k: int| 0 <= k < s.len() ==> v.contains_key(#[trigger] s[k].0) && v[s[k].0] == s[k].1,
        forall|i: PossibleInputs| #[trigger] v.contains_key(i) ==> exists|k: int| 0 <= k < s.len() && #[trigger] s[k].0 == i,
    ensures
        pairs_map(s) == v,
{
    lemma_pairs_map_agrees(v, s);
    assert forall|i: PossibleInputs| #[trigger] v.contains_key(i) implies pairs_map(s).contains_key(i) by {
        let k = choose|k: int| 0 <= k < s.len() && #[trigger] s[k].0 == i;
    }
    assert(pairs_map(s) =~= v);
}

/// The keys of `pairs_map(s)` are the first components of `s`, and each
/// maps to what `v` gives it when all pairs agree with `v`.
proof fn lemma_pairs_map_agrees(v: Map<PossibleInputs, PossibleBinds>, s: Seq<(PossibleInputs, PossibleBinds)>)
    requires
        forall|k: int| 0 <= k < s.len() ==> v.contains_key(#[trigger] s[k].0) && v[s[k].0] == s[k].1,
    ensures
        forall|i: PossibleInputs| #[trigger] pairs_map(s).contains_key(i) ==> v.contains_key(i) && pairs_map(s)[i] == v[i],
        forall|k: int| 0 <= k < s.len() ==> pairs_map(s).contains_key(#[trigger] s[k].0),
    decreases s.len(),
{
    if s.len() > 0 {
        let t = s.drop_last();
        assert forall|k: int| 0 <= k < t.len() implies v.contains_key(#[trigger] t[k].0) && v[t[k].0] == t[k].1 by {
            assert(t[k] == s[k]);
        }
        lemma_pairs_map_agrees(v, t);
        assert(s.last() == s[s.len() - 1]);
        assert(v.contains_key(s[s.len() - 1].0) && v[s[s.len() - 1].0] == s[s.len() - 1].1);
        assert(pairs_map(s) == pairs_map(t).insert(s.last().0, s.last().1));
        assert forall|k: int| 0 <= k < s.len() implies pairs_map(s).contains_key(#[trigger] s[k].0) by {
            if k < s.len() - 1 {
                assert(t[k] == s[k]);
            }
        }
    }
}

/// A list of entries that all agree with `v` and name every key of `v`
/// builds `v`.
proof fn lemma_entries_map_rebuilds(
    v: Map<PossibleBinds, (Set<PossibleInputs>, BindInfo)>,
    s: Seq<(PossibleBinds, Vec<PossibleInputs>, BindInfo)>,
)
    requires
        forall|k: int|
            0 <= k < s.len() ==> {
                &&& v.contains_key(#[trigger] s[k].0)
                &&& s[k].1@.to_set() == v[s[k].0].0
                &&& s[k].2 == v[s[k].0].1
            },
        forall|b: PossibleBinds| #[trigger] v.contains_key(b) ==> exists|k: int| 0 <= k < s.len() && #[trigger] s[k].0 == b,
    ensures
        entries_map(s) == v,
{
    lemma_entries_map_agrees(v, s);
    assert forall|b: PossibleBinds| #[trigger] v.contains_key(b) implies entries_map(s).contains_key(b) by {
        let k = choose|k: int| 0 <= k < s.len() && #[trigger] s[k].0 == b;
    }
    assert(entries_map(s) =~= v);
}

proof fn lemma_entries_map_agrees(
    v: Map<PossibleBinds, (Set<PossibleInputs>, BindInfo)>,
    s: Seq<(PossibleBinds, Vec<PossibleInputs>, BindInfo)>,
)
    requires
        forall|k: int|
            0 <= k < s.len() ==> {
                &&& v.contains_key(#[trigger] s[k].0)
                &&& s[k].1@.to_set() == v[s[k].0].0
                &&& s[k].2 == v[s[k].0].1
            },
    ensures
        forall|b: PossibleBinds| #[trigger] entries_map(s).contains_key(b) ==> v.contains_key(b) && entries_map(s)[b] == v[b],
        forall|k: int| 0 <= k < s.len() ==> entries_map(s).contains_key(#[trigger] s[k].0),
    decreases s.len(),
{
    if s.len() > 0 {
        let t = s.drop_last();
        assert forall|k: int|
            0 <= k < t.len() implies {
                &&& v.contains_key(#[trigger] t[k].0)
                &&& t[k].1@.to_set() == v[t[k].0].0
                &&& t[k].2 == v[t[k].0].1
            } by {
            assert(t[k] == s[k]);
        }
        lemma_entries_map_agrees(v, t);
        assert(s.last() == s[s.len() - 1]);
        assert(v.contains_key(s[s.len() - 1].0));
        assert(entries_map(s) == entries_map(t).insert(s.last().0, (s.last().1@.to_set(), s.last().2)));
        assert forall|k: int| 0 <= k < s.len() implies entries_map(s).contains_key(#[trigger] s[k].0) by {
            if k < s.len() - 1 {
                assert(t[k] == s[k]);
            }
        }
    }
}

/// Listing a table with `input_binding_list` and `binded_input_list` and
/// rebuilding it with `from_parts` gives the same table: whatever the two
/// listings return (as their contracts state), the rebuilt view is `v`.
pub proof fn lemma_lists_rebuild_table(
    v: BindingsView,
    pairs: Seq<(PossibleInputs, PossibleBinds)>,
    entries: Seq<(PossibleBinds, Vec<PossibleInputs>, BindInfo)>,
)
    requires
        forall|k: int| 0 <= k < pairs.len() ==> v.binds(#[trigger] pairs[k].0, pairs[k].1),
        forall|i: PossibleInputs|
            #[trigger] v.input_bindings.contains_key(i) ==> exists|k: int| 0 <= k < pairs.len() && #[trigger] pairs[k].0 == i,
        forall|k: int|
            0 <= k < entries.len() ==> {
                &&& v.binded_inputs.contains_key(#[trigger] entries[k].0)
                &&& entries[k].1@.to_set() == v.binded_inputs[entries[k].0].0
                &&& entries[k].2 == v.binded_inputs[entries[k].0].1
            },
        forall|b: PossibleBinds|
            #[trigger] v.binded_inputs.contains_key(b) ==> exists|k: int| 0 <= k < entries.len() && #[trigger] entries[k].0 == b,
    ensures
        pairs_map(pairs) == v.input_bindings,
        entries_map(entries) == v.binded_inputs,
{
    lemma_pairs_map_rebuilds(v.input_bindings, pairs);
    lemma_entries_map_rebuilds(v.binded_inputs, entries);
}

impl Default for Bindings {
    fn default() -> (r: Self)
        ensures
            r.wf(),
            r@ == default_bindings_view(),
    {
        let mut bind = Bindings { input_bindings: HashMap::new(), binded_inputs: HashMap::new() };
        proof {
            assert(bind.wf());
        }
        bind.add_bind(PossibleInputs::ButtonLeft, PossibleBinds::Select);
        bind.add_bind(PossibleInputs::Escape, PossibleBinds::Escape);
        bind.add_bind(PossibleInputs::Up, PossibleBinds::UIUp);
        bind.add_bind(PossibleInputs::Down, PossibleBinds::UIDown);
        bind.add_bind(PossibleInputs::Left, PossibleBinds::UILeft);
        bind.add_bind(PossibleInputs::Right, PossibleBinds::UIRight);
        bind.add_bind(PossibleInputs::VerticalWheel, PossibleBinds::UIUp);
        bind.add_bind(PossibleInputs::VerticalWheel, PossibleBinds::UIDown);
        bind.add_bind(PossibleInputs::HorizontalWheel, PossibleBinds::UILeft);
        bind.add_bind(PossibleInputs::HorizontalWheel, PossibleBinds::UIRight);
        proof {
            assert(bind@.input_bindings =~= default_bindings_view().input_bindings);
            assert(bind@.binded_inputs =~= default_bindings_view().binded_inputs);
        }
        bind
    }
}

/// After `set_bind(input, bind)`, `input` triggers `bind` and is registered
/// under it, whatever the table held before.
pub proof fn lemma_set_bind_binds(v: BindingsView, input: PossibleInputs, bind: PossibleBinds)
    ensures
        view_after_add(view_after_remove(v, input, bind), input, bind).binds(input, bind),
        view_after_add(view_after_remove(v, input, bind), input, bind).binded_inputs.contains_key(bind),
        view_after_add(view_after_remove(v, input, bind), input, bind).binded_inputs[bind].0.contains(input),
{
}

/// Removing the only input registered to a bind leaves the input without a
/// binding and the bind without an entry.
pub proof fn lemma_remove_last_input_clears_bind(v: BindingsView, input: PossibleInputs, bind: PossibleBinds)
    requires
        v.binded_inputs.contains_key(bind),
        v.binded_inputs[bind].0.subset_of(set![input]),
    ensures
        !view_after_remove(v, input, bind).input_bindings.contains_key(input),
        !view_after_remove(v, input, bind).binded_inputs.contains_key(bind),
{
    assert(v.binded_inputs[bind].0.remove(input) =~= Set::empty());
}

/// Pressing an input holds down the bind it triggers, and releasing it lets
/// that bind go, when the bind has an entry.
pub proof fn lemma_input_press_and_release(v: BindingsView, input: PossibleInputs, bind: PossibleBinds)
    requires
        v.binds(input, bind),
        v.binded_inputs.contains_key(bind),
    ensures
        view_after_input(v, input, true).pressed(bind),
        view_after_input(v, input, false).released(bind),
        view_after_input(view_after_input(v, input, true), input, false).released(bind),
{
}

/// A bind is never both pressed and released.
pub proof fn lemma_pressed_excludes_released(v: BindingsView, bind: PossibleBinds)
    ensures
        !(v.pressed(bind) && v.released(bind)),
{
}

/// Pressing or releasing an input changes no binding and no registration,
/// only the state of the bind it triggers.
pub proof fn lemma_input_keeps_bindings(v: BindingsView, input: PossibleInputs, pressed: bool, other: PossibleBinds)
    requires
        !(v.input_bindings.contains_key(input) && v.input_bindings[input] == other),
    ensures
        view_after_input(v, input, pressed).input_bindings == v.input_bindings,
        view_after_input(v, input, pressed).binded_inputs.dom() == v.binded_inputs.dom(),
        v.binded_inputs.contains_key(other) ==> view_after_input(v, input, pressed).binded_inputs[other] == v.binded_inputs[other],
{
    assert(view_after_input(v, input, pressed).binded_inputs.dom() =~= v.binded_inputs.dom());
}

/// Pressing inputs never changes a binding or which binds have entries,
/// and a bind that is held stays held.
proof fn lemma_presses_keep_held(v: BindingsView, s: Seq<PossibleInputs>, b: PossibleBinds)
    ensures
        view_after_presses(v, s).input_bindings == v.input_bindings,
        view_after_presses(v, s).binded_inputs.dom() == v.binded_inputs.dom(),
        v.pressed(b) ==> view_after_presses(v, s).pressed(b),
    decreases s.len(),
{
    if s.len() > 0 {
        let w = view_after_input(v, s[0], true);
        assert(w.binded_inputs.dom() =~= v.binded_inputs.dom());
        lemma_presses_keep_held(w, s.drop_first(), b);
    }
}

/// Pressing a list of inputs holds down every bind that one of them
/// triggers, when that bind has an entry.
proof fn lemma_presses_hold_each(v: BindingsView, s: Seq<PossibleInputs>, k: int, b: PossibleBinds)
    requires
        0 <= k < s.len(),
        v.binds(s[k], b),
        v.binded_inputs.contains_key(b),
    ensures
        view_after_presses(v, s).pressed(b),
    decreases s.len(),
{
    let w = view_after_input(v, s[0], true);
    if k == 0 {
        assert(w.pressed(b));
        lemma_presses_keep_held(w, s.drop_first(), b);
    } else {
        assert(w.input_bindings == v.input_bindings);
        assert(w.binded_inputs.dom() =~= v.binded_inputs.dom());
        assert(s.drop_first()[k - 1] == s[k]);
        lemma_presses_hold_each(w, s.drop_first(), k - 1, b);
    }
}

/// A key event's modifier flags press both keys of each flag: when `shift`
/// is set, every bind that the left or the right Shift triggers (and that
/// has an entry) is held afterwards, and the same for Control, Alt and
/// System. Binds that were held stay held, and no binding changes.
pub proof fn lemma_modifiers_press_both_keys(
    v: BindingsView,
    ctrl: bool,
    alt: bool,
    shift: bool,
    system: bool,
    input: PossibleInputs,
    b: PossibleBinds,
)
    ensures
        ({
            let after = view_after_presses(v, modifier_inputs(ctrl, alt, shift, system));
            let pressed_by_flags = (shift && (input == PossibleInputs::LShift || input == PossibleInputs::RShift))
                || (ctrl && (input == PossibleInputs::LControl || input == PossibleInputs::RControl)) || (alt && (
            input == PossibleInputs::LAlt || input == PossibleInputs::RAlt)) || (system && (input
                == PossibleInputs::LSystem || input == PossibleInputs::RSystem));
            &&& pressed_by_flags && v.binds(input, b) && v.binded_inputs.contains_key(b) ==> after.pressed(b)
            &&& v.pressed(b) ==> after.pressed(b)
            &&& after.input_bindings == v.input_bindings
        }),
{
    let s = modifier_inputs(ctrl, alt, shift, system);
    lemma_presses_keep_held(v, s, b);
    let pressed_by_flags = (shift && (input == PossibleInputs::LShift || input == PossibleInputs::RShift))
        || (ctrl && (input == PossibleInputs::LControl || input == PossibleInputs::RControl)) || (alt && (
    input == PossibleInputs::LAlt || input == PossibleInputs::RAlt)) || (system && (input
        == PossibleInputs::LSystem || input == PossibleInputs::RSystem));
    if pressed_by_flags && v.binds(input, b) && v.binded_inputs.contains_key(b) {
        let sa: Seq<PossibleInputs> = if alt { seq![PossibleInputs::LAlt, PossibleInputs::RAlt] } else { seq![] };
        let sc: Seq<PossibleInputs> = if ctrl { seq![PossibleInputs::RControl, PossibleInputs::LControl] } else { seq![] };
        let ss: Seq<PossibleInputs> = if shift { seq![PossibleInputs::LShift, PossibleInputs::RShift] } else { seq![] };
        let sy: Seq<PossibleInputs> = if system { seq![PossibleInputs::RSystem, PossibleInputs::LSystem] } else { seq![] };
        assert(s == sa + sc + ss + sy);
        assert(s.contains(input)) by {
            if alt && input == PossibleInputs::LAlt {
                assert(s[0] == input);
            } else if alt && input == PossibleInputs::RAlt {
                assert(s[1] == input);
            } else if ctrl && (input == PossibleInputs::LControl || input == PossibleInputs::RControl) {
                let base = sa.len() as int;
                assert(s[base] == PossibleInputs::RControl);
                assert(s[base + 1] == PossibleInputs::LControl);
            } else if shift && (input == PossibleInputs::LShift || input == PossibleInputs::RShift) {
                let base = (sa.len() + sc.len()) as int;
                assert(s[base] == PossibleInputs::LShift);
                assert(s[base + 1] == PossibleInputs::RShift);
            } else {
                let base = (sa.len() + sc.len() + ss.len()) as int;
                assert(s[base] == PossibleInputs::RSystem);
                assert(s[base + 1] == PossibleInputs::LSystem);
            }
        }
        let k = choose|k: int| 0 <= k < s.len() && s[k] == input;
        lemma_presses_hold_each(v, s, k, b);
    }
}

/// Distinct inputs have distinct numbers, and so do distinct binds.
proof fn lemma_codes_injective()
    ensures
        forall|a: PossibleInputs, b: PossibleInputs| #[trigger] input_code(a) == #[trigger] input_code(b) ==> a == b,
        forall|a: PossibleBinds, b: PossibleBinds| #[trigger] bind_code(a) == #[trigger] bind_code(b) ==> a == b,
        forall|b: PossibleBinds| #[trigger] decode_bind(bind_code(b)) == b,
        forall|c: u8| c < 6 ==> #[trigger] bind_code(decode_bind(c)) == c,
{
    assert forall|a: PossibleInputs, b: PossibleInputs| #[trigger] input_code(a) == #[trigger] input_code(b) implies a == b by {
        lemma_input_code_roundtrip(a);
        lemma_input_code_roundtrip(b);
    }
    assert forall|a: PossibleBinds, b: PossibleBinds| #[trigger] bind_code(a) == #[trigger] bind_code(b) implies a == b by {
        lemma_bind_code_roundtrip(a);
        lemma_bind_code_roundtrip(b);
    }
    assert forall|b: PossibleBinds| #[trigger] decode_bind(bind_code(b)) == b by {
        lemma_bind_code_roundtrip(b);
    }
    assert forall|c: u8| c < 6 implies #[trigger] bind_code(decode_bind(c)) == c by {
        lemma_bind_of_code_valid(c);
    }
}

/// Pressing a list of at most two inputs presses them one after the other.
proof fn lemma_presses_pair(v: BindingsView, s: Seq<PossibleInputs>)
    ensures
        s.len() == 0 ==> view_after_presses(v, s) == v,
        s.len() == 2 ==> view_after_presses(v, s) == view_after_input(view_after_input(v, s[0], true), s[1], true),
{
    if s.len() == 2 {
        let v1 = view_after_input(v, s[0], true);
        assert(s.drop_first().drop_first().len() == 0);
        assert(view_after_presses(v1, s.drop_first()) == view_after_presses(view_after_input(v1, s.drop_first()[0], true), s.drop_first().drop_first()));
    }
}

/// Pressing `a` then `b` is pressing `a + b`.
proof fn lemma_presses_concat(v: BindingsView, a: Seq<PossibleInputs>, b: Seq<PossibleInputs>)
    ensures
        view_after_presses(view_after_presses(v, a), b) == view_after_presses(v, a + b),
    decreases a.len(),
{
    if a.len() == 0 {
        assert(a + b =~= b);
    } else {
        assert((a + b).drop_first() =~= a.drop_first() + b);
        lemma_presses_concat(view_after_input(v, a[0], true), a.drop_first(), b);
    }
}

} // verus!
