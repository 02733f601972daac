//! The named aspect ratios that the settings offer, and their names.
use vstd::prelude::*;

use crate::parsing::str_chars;

verus! {

/// The built-in aspect ratios, widest first.
#[derive(Clone, Copy, Debug, PartialEq, Eq, Structural)]
pub enum DefaultAspectRatios {
    _32x9,
    _21x9,
    _17x9,
    _16x10,
    _16x9,
    _4x3,
    _1x1,
}

/// No built-in aspect ratio has the given name.
#[derive(Clone, Copy, Debug, PartialEq, Eq, Structural)]
pub struct UnknownAspectRatio;

/// The name of each built-in aspect ratio, such as `16x9`.
pub open spec fn aspect_ratio_name(a: DefaultAspectRatios) -> Seq<char> {
    match a {
        DefaultAspectRatios::_32x9 => seq!['3', '2', 'x', '9'],
        DefaultAspectRatios::_21x9 => seq!['2', '1', 'x', '9'],
        DefaultAspectRatios::_17x9 => seq!['1', '7', 'x', '9'],
        DefaultAspectRatios::_16x10 => seq!['1', '6', 'x', '1', '0'],
        DefaultAspectRatios::_16x9 => seq!['1', '6', 'x', '9'],
        DefaultAspectRatios::_4x3 => seq!['4', 'x', '3'],
        DefaultAspectRatios::_1x1 => seq!['1', 'x', '1'],
    }
}

/// The built-in aspect ratio named exactly `s`, if any.
pub open spec fn aspect_ratio_named(s: Seq<char>) -> Result<DefaultAspectRatios, UnknownAspectRatio> {
    if s == aspect_ratio_name(DefaultAspectRatios::_32x9) {
        Ok(DefaultAspectRatios::_32x9)
    } else if s == aspect_ratio_name(DefaultAspectRatios::_21x9) {
        Ok(DefaultAspectRatios::_21x9)
    } else if s == aspect_ratio_name(DefaultAspectRatios::_17x9) {
        Ok(DefaultAspectRatios::_17x9)
    } else if s == aspect_ratio_name(DefaultAspectRatios::_16x10) {
        Ok(DefaultAspectRatios::_16x10)
    } else if s == aspect_ratio_name(DefaultAspectRatios::_16x9) {
        Ok(DefaultAspectRatios::_16x9)
    } else if s == aspect_ratio_name(DefaultAspectRatios::_4x3) {
        Ok(DefaultAspectRatios::_4x3)
    } else if s == aspect_ratio_name(DefaultAspectRatios::_1x1) {
        Ok(DefaultAspectRatios::_1x1)
    } else {
        Err(UnknownAspectRatio)
    }
}

/// The position of each built-in aspect ratio in the table of defaults.
pub open spec fn aspect_ratio_index(a: DefaultAspectRatios) -> usize {
    match a {
        DefaultAspectRatios::_32x9 => 0,
        DefaultAspectRatios::_21x9 => 1,
        DefaultAspectRatios::_17x9 => 2,
        DefaultAspectRatios::_16x10 => 3,
        DefaultAspectRatios::_16x9 => 4,
        DefaultAspectRatios::_4x3 => 5,
        DefaultAspectRatios::_1x1 => 6,
    }
}

fn chars_equal(a: &Vec<char>, b: &Vec<char>) -> (r: bool)
    ensures
        r == (a@ == b@),
{
    if a.len() != b.len() {
        return false;
    }
    let mut i: usize = 0;
    while i < a.len()
        invariant
            a@.len() == b@.len(),
            i <= a@.len(),
            forall|j: int| 0 <= j < i ==> a@[j] == b@[j],
        decreases a@.len() - i,
    {
        if a[i] != b[i] {
            return false;
        }
        i = i + 1;
    }
    proof {
        assert(a@ =~= b@);
    }
    true
}

fn name_chars(a: DefaultAspectRatios) -> (r: Vec<char>)
    ensures
        r@ == aspect_ratio_name(a),
{
    let v = match a {
        DefaultAspectRatios::_32x9 => vec!['3', '2', 'x', '9'],
        DefaultAspectRatios::_21x9 => vec!['2', '1', 'x', '9'],
        DefaultAspectRatios::_17x9 => vec!['1', '7', 'x', '9'],
        DefaultAspectRatios::_16x10 => vec!['1', '6', 'x', '1', '0'],
        DefaultAspectRatios::_16x9 => vec!['1', '6', 'x', '9'],
        DefaultAspectRatios::_4x3 => vec!['4', 'x', '3'],
        DefaultAspectRatios::_1x1 => vec!['1', 'x', '1'],
    };
    proof {
        assert(v@ =~= aspect_ratio_name(a));
    }
    v
}

impl DefaultAspectRatios {
    /// The name of the aspect ratio, such as `16x9`.
    pub fn to_string(&self) -> (r: String)
        ensures
            r@ == aspect_ratio_name(*self),
    {
        let s = match *self {
            DefaultAspectRatios::_32x9 => "32x9",
            DefaultAspectRatios::_21x9 => "21x9",
            DefaultAspectRatios::_17x9 => "17x9",
            DefaultAspectRatios::_16x10 => "16x10",
            DefaultAspectRatios::_16x9 => "16x9",
            DefaultAspectRatios::_4x3 => "4x3",
            DefaultAspectRatios::_1x1 => "1x1",
        };
        proof {
            reveal_strlit("32x9");
            reveal_strlit("21x9");
            reveal_strlit("17x9");
            reveal_strlit("16x10");
            reveal_strlit("16x9");
            reveal_strlit("4x3");
            reveal_strlit("1x1");
        }
        s.to_owned()
    }

    /// The aspect ratio whose name is exactly `s` (case matters).
    pub fn from_str(s: &str) -> (r: Result<DefaultAspectRatios, UnknownAspectRatio>)
        ensures
            r == aspect_ratio_named(s@),
    {
        let chars = str_chars(s);
        if chars_equal(&chars, &name_chars(DefaultAspectRatios::_32x9)) {
            Ok(DefaultAspectRatios::_32x9)
        } else if chars_equal(&chars, &name_chars(DefaultAspectRatios::_21x9)) {
            Ok(DefaultAspectRatios::_21x9)
        } else if chars_equal(&chars, &name_chars(DefaultAspectRatios::_17x9)) {
            Ok(DefaultAspectRatios::_17x9)
        } else if chars_equal(&chars, &name_chars(DefaultAspectRatios::_16x10)) {
            Ok(DefaultAspectRatios::_16x10)
        } else if chars_equal(&chars, &name_chars(DefaultAspectRatios::_16x9)) {
            Ok(DefaultAspectRatios::_16x9)
        } else if chars_equal(&chars, &name_chars(DefaultAspectRatios::_4x3)) {
            Ok(DefaultAspectRatios::_4x3)
        } else if chars_equal(&chars, &name_chars(DefaultAspectRatios::_1x1)) {
            Ok(DefaultAspectRatios::_1x1)
        } else {
            Err(UnknownAspectRatio)
        }
    }

    /// The position of the aspect ratio in the table of defaults.
    pub fn index(&self) -> (r: usize)
        ensures
            r == aspect_ratio_index(*self),
            r < 7,
    {
        match *self {
            DefaultAspectRatios::_32x9 => 0,
            DefaultAspectRatios::_21x9 => 1,
            DefaultAspectRatios::_17x9 => 2,
            DefaultAspectRatios::_16x10 => 3,
            DefaultAspectRatios::_16x9 => 4,
            DefaultAspectRatios::_4x3 => 5,
            DefaultAspectRatios::_1x1 => 6,
        }
    }

    /// The aspect ratio at a position of the table of defaults.
    pub fn from_index(i: usize) -> (r: Option<DefaultAspectRatios>)
        ensures
            r matches Some(a) ==> aspect_ratio_index(a) == i,
            r is None <==> i >= 7,
    {
        match i {
            0 => Some(DefaultAspectRatios::_32x9),
            1 => Some(DefaultAspectRatios::_21x9),
            2 => Some(DefaultAspectRatios::_17x9),
            3 => Some(DefaultAspectRatios::_16x10),
            4 => Some(DefaultAspectRatios::_16x9),
            5 => Some(DefaultAspectRatios::_4x3),
            6 => Some(DefaultAspectRatios::_1x1),
            _ => None,
        }
    }
}

/// Reading the name of an aspect ratio gives the aspect ratio back.
pub proof fn lemma_name_round_trip(a: DefaultAspectRatios)
    ensures
        aspect_ratio_named(aspect_ratio_name(a)) == Ok::<DefaultAspectRatios, UnknownAspectRatio>(a),
{
    match a {
        DefaultAspectRatios::_32x9 => {},
        DefaultAspectRatios::_21x9 => {
            assert(aspect_ratio_name(a) != aspect_ratio_name(DefaultAspectRatios::_32x9));
        },
        DefaultAspectRatios::_17x9 => {
            assert(aspect_ratio_name(a)[0] != aspect_ratio_name(DefaultAspectRatios::_32x9)[0]);
            assert(aspect_ratio_name(a)[0] != aspect_ratio_name(DefaultAspectRatios::_21x9)[0]);
        },
        DefaultAspectRatios::_16x10 => {
            assert(aspect_ratio_name(a).len() != aspect_ratio_name(DefaultAspectRatios::_32x9).len());
            assert(aspect_ratio_name(a).len() != aspect_ratio_name(DefaultAspectRatios::_21x9).len());
            assert(aspect_ratio_name(a).len() != aspect_ratio_name(DefaultAspectRatios::_17x9).len());
        },
        DefaultAspectRatios::_16x9 => {
            assert(aspect_ratio_name(a)[0] != aspect_ratio_name(DefaultAspectRatios::_32x9)[0]);
            assert(aspect_ratio_name(a)[0] != aspect_ratio_name(DefaultAspectRatios::_21x9)[0]);
            assert(aspect_ratio_name(a)[1] != aspect_ratio_name(DefaultAspectRatios::_17x9)[1]);
            assert(aspect_ratio_name(a).len() != aspect_ratio_name(DefaultAspectRatios::_16x10).len());
        },
        DefaultAspectRatios::_4x3 => {
            assert(aspect_ratio_name(a).len() != aspect_ratio_name(DefaultAspectRatios::_32x9).len());
            assert(aspect_ratio_name(a).len() != aspect_ratio_name(DefaultAspectRatios::_21x9).len());
            assert(aspect_ratio_name(a).len() != aspect_ratio_name(DefaultAspectRatios::_17x9).len());
            assert(aspect_ratio_name(a).len() != aspect_ratio_name(DefaultAspectRatios::_16x10).len());
            assert(aspect_ratio_name(a).len() != aspect_ratio_name(DefaultAspectRatios::_16x9).len());
        },
        DefaultAspectRatios::_1x1 => {
            assert(aspect_ratio_name(a).len() != aspect_ratio_name(DefaultAspectRatios::_32x9).len());
            assert(aspect_ratio_name(a).len() != aspect_ratio_name(DefaultAspectRatios::_21x9).len());
            assert(aspect_ratio_name(a).len() != aspect_ratio_name(DefaultAspectRatios::_17x9).len());
            assert(aspect_ratio_name(a).len() != aspect_ratio_name(DefaultAspectRatios::_16x10).len());
            assert(aspect_ratio_name(a).len() != aspect_ratio_name(DefaultAspectRatios::_16x9).len());
            assert(aspect_ratio_name(a)[0] != aspect_ratio_name(DefaultAspectRatios::_4x3)[0]);
        },
    }
}

/// The table position of an aspect ratio leads back to it.
pub proof fn lemma_index_round_trip(a: DefaultAspectRatios, b: DefaultAspectRatios)
    ensures
        aspect_ratio_index(a) == aspect_ratio_index(b) ==> a == b,
        aspect_ratio_index(a) < 7,
{
}

} // verus!
