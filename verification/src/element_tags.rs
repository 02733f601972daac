//! Which kind of element a tag of a UI document names; a tag that names
//! none is shown as a missing texture.
use vstd::prelude::*;

use crate::parsing::str_chars;

verus! {

/// The kinds of element a document tag can name.
#[derive(Clone, Copy, Debug, PartialEq, Eq, Structural)]
pub enum ElementKind {
    Button,
    Slider,
    Div,
    Grid,
    Background,
    Text,
    Empty,
}

/// The kind named by `tag`, compared exactly (case matters), or `None`
/// when the tag names no kind.
pub open spec fn element_kind_of(tag: Seq<char>) -> Option<ElementKind> {
    if tag == "Button"@ {
        Some(ElementKind::Button)
    } else if tag == "Slider"@ {
        Some(ElementKind::Slider)
    } else if tag == "Div"@ {
        Some(ElementKind::Div)
    } else if tag == "Grid"@ {
        Some(ElementKind::Grid)
    } else if tag == "Background"@ {
        Some(ElementKind::Background)
    } else if tag == "Text"@ {
        Some(ElementKind::Text)
    } else if tag == "Empty"@ {
        Some(ElementKind::Empty)
    } else {
        None
    }
}

/// Whether `a` and `b` hold the same characters.
fn chars_equal(a: &Vec<char>, b: &Vec<char>) -> (r: bool)
    ensures
        r == (a@ == b@),
{
    if a.len() != b.len() {
        return false;
    }
    let mut i: usize = 0;
    while i < a.len()
        invariant
            a@.len() == b@.len(),
            i <= a@.len(),
            forall|k: int| 0 <= k < i ==> a@[k] == b@[k],
        decreases a@.len() - i,
    {
        if a[i] != b[i] {
            return false;
        }
        i = i + 1;
    }
    proof {
        assert(a@ =~= b@);
    }
    true
}

fn tag_is(tag: &Vec<char>, name: &str) -> (r: bool)
    ensures
        r == (tag@ == name@),
{
    chars_equal(tag, &str_chars(name))
}

/// The kind of element that a document tag names (see `element_kind_of`).
pub fn element_kind(tag: &str) -> (r: Option<ElementKind>)
    ensures
        r == element_kind_of(tag@),
{
    let t = str_chars(tag);
    if tag_is(&t, "Button") {
        Some(ElementKind::Button)
    } else if tag_is(&t, "Slider") {
        Some(ElementKind::Slider)
    } else if tag_is(&t, "Div") {
        Some(ElementKind::Div)
    } else if tag_is(&t, "Grid") {
        Some(ElementKind::Grid)
    } else if tag_is(&t, "Background") {
        Some(ElementKind::Background)
    } else if tag_is(&t, "Text") {
        Some(ElementKind::Text)
    } else if tag_is(&t, "Empty") {
        Some(ElementKind::Empty)
    } else {
        None
    }
}


/// The tag that names each kind in a UI document.
pub open spec fn element_tag(k: ElementKind) -> Seq<char> {
    match k {
        ElementKind::Button => seq!['B', 'u', 't', 't', 'o', 'n'],
        ElementKind::Slider => seq!['S', 'l', 'i', 'd', 'e', 'r'],
        ElementKind::Div => seq!['D', 'i', 'v'],
        ElementKind::Grid => seq!['G', 'r', 'i', 'd'],
        ElementKind::Background => seq!['B', 'a', 'c', 'k', 'g', 'r', 'o', 'u', 'n', 'd'],
        ElementKind::Text => seq!['T', 'e', 'x', 't'],
        ElementKind::Empty => seq!['E', 'm', 'p', 't', 'y'],
    }
}

/// Each kind's tag is recognised as that kind, and a tag that is
/// recognised is exactly the tag of the kind it is recognised as: no two
/// kinds share a tag and no other spelling is accepted.
pub proof fn lemma_tags_name_their_kinds(k: ElementKind, tag: Seq<char>)
    ensures
        element_kind_of(element_tag(k)) == Some(k),
        element_kind_of(tag) matches Some(j) ==> tag == element_tag(j),
{
    reveal_strlit("Button");
    reveal_strlit("Slider");
    reveal_strlit("Div");
    reveal_strlit("Grid");
    reveal_strlit("Background");
    reveal_strlit("Text");
    reveal_strlit("Empty");
    assert("Button"@ =~= element_tag(ElementKind::Button));
    assert("Slider"@ =~= element_tag(ElementKind::Slider));
    assert("Div"@ =~= element_tag(ElementKind::Div));
    assert("Grid"@ =~= element_tag(ElementKind::Grid));
    assert("Background"@ =~= element_tag(ElementKind::Background));
    assert("Text"@ =~= element_tag(ElementKind::Text));
    assert("Empty"@ =~= element_tag(ElementKind::Empty));
    let t = element_tag(k);
    if k != ElementKind::Button {
        assert(t != "Button"@) by {
            if t.len() == 6 {
                assert(t[0] != 'B' || t[1] != 'u');
            }
        }
    }
    if k != ElementKind::Slider {
        assert(t != "Slider"@) by {
            if t.len() == 6 {
                assert(t[0] != 'S');
            }
        }
    }
    if k != ElementKind::Div {
        assert(t != "Div"@);
    }
    if k != ElementKind::Grid {
        assert(t != "Grid"@) by {
            if t.len() == 4 {
                assert(t[0] != 'G');
            }
        }
    }
    if k != ElementKind::Background {
        assert(t != "Background"@);
    }
    if k != ElementKind::Text {
        assert(t != "Text"@) by {
            if t.len() == 4 {
                assert(t[0] != 'T');
            }
        }
    }
}

} // verus!
