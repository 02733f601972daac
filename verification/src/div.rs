//! The layout rules of a div: a group of children placed in a rectangle
//! that either has a fixed size, or hugs its first child with padding, or
//! takes the whole surrounding rectangle.
use vstd::prelude::*;

use crate::geometry::{IntRect, Vector2i, Vector2u};
use crate::positioning::{fits_i32, UIPosition};

verus! {

#[derive(Clone, Copy, Debug, PartialEq, Eq, Structural)]
pub struct DivLayout {
    position: UIPosition,
    padding: Option<UIPosition>,
    size: Option<Vector2u>,
    use_relative_rect_size: bool,
}

impl DivLayout {
    pub closed spec fn spec_position(self) -> UIPosition {
        self.position
    }

    pub closed spec fn spec_padding(self) -> Option<UIPosition> {
        self.padding
    }

    pub closed spec fn spec_size(self) -> Option<Vector2u> {
        self.size
    }

    pub closed spec fn spec_use_relative_rect_size(self) -> bool {
        self.use_relative_rect_size
    }

    /// A layout at `position`; a fixed size wins over padding, and a div with
    /// neither takes the size of the rectangle it is placed in.
    pub fn new(position: UIPosition, padding: Option<UIPosition>, size: Option<Vector2u>) -> (r: Self)
        ensures
            r.spec_position() == position,
            r.spec_padding() == (if padding.is_some() && size.is_some() {
                None
            } else {
                padding
            }),
            r.spec_size() == size,
            r.spec_use_relative_rect_size() == (r.spec_padding().is_none() && size.is_none()),
    {
        let padding = if padding.is_some() && size.is_some() {
            None
        } else {
            padding
        };
        let use_relative_rect_size = padding.is_none() && size.is_none();
        DivLayout { position, padding, size, use_relative_rect_size }
    }

    pub fn position(&self) -> (r: UIPosition)
        ensures
            r == self.spec_position(),
    {
        self.position
    }

    pub fn padding(&self) -> (r: Option<UIPosition>)
        ensures
            r == self.spec_padding(),
    {
        self.padding
    }

    pub fn size(&self) -> (r: Option<Vector2u>)
        ensures
            r == self.spec_size(),
    {
        self.size
    }

    pub fn uses_relative_rect_size(&self) -> (r: bool)
        ensures
            r == self.spec_use_relative_rect_size(),
    {
        self.use_relative_rect_size
    }

    /// A div without a fixed size is sized by its padding.
    pub fn is_padding(&self) -> (r: bool)
        ensures
            r == self.spec_size().is_none(),
    {
        self.size.is_none()
    }

    /// Fixes the size (padding, if any, is kept).
    pub fn set_size(&mut self, size: Vector2u)
        ensures
            final(self).spec_size() == Some(size),
            final(self).spec_position() == old(self).spec_position(),
            final(self).spec_padding() == old(self).spec_padding(),
            final(self).spec_use_relative_rect_size() == old(self).spec_use_relative_rect_size(),
    {
        self.size = Some(size);
    }

    /// The arithmetic of `children_rect` stays within `i32`.
    pub open spec fn children_rect_fits(self, global_bounds: IntRect) -> bool {
        match self.spec_padding() {
            Some(p) => p.padding_fits(global_bounds),
            None => true,
        }
    }

    /// The rectangle the children are placed in: the div's bounds shrunk by
    /// the padding, or the bounds themselves.
    pub fn children_rect(&self, global_bounds: IntRect) -> (r: IntRect)
        requires
            self.children_rect_fits(global_bounds),
        ensures
            r == (match self.spec_padding() {
                Some(p) => p.spec_padded_inner_rect(global_bounds),
                None => global_bounds,
            }),
    {
        match self.padding {
            Some(p) => p.padded_inner_rect(global_bounds),
            None => global_bounds,
        }
    }

    /// The arithmetic of `padded_extent` stays within `i32`.
    pub open spec fn padded_extent_fits(self, child: IntRect) -> bool {
        match self.spec_padding() {
            Some(p) => {
                &&& fits_i32(child.width + p.left.unwrap_or(0))
                &&& fits_i32(child.width + p.left.unwrap_or(0) + p.right.unwrap_or(0))
                &&& fits_i32(child.height + p.top.unwrap_or(0))
                &&& fits_i32(child.height + p.top.unwrap_or(0) + p.bottom.unwrap_or(0))
            },
            None => true,
        }
    }

    /// With padding, the div's extent around its first child `child`: the
    /// child's extent plus the padding on each side (absent sides count zero).
    pub fn padded_extent(&self, child: IntRect) -> (r: Option<Vector2i>)
        requires
            self.padded_extent_fits(child),
        ensures
            r == (match self.spec_padding() {
                Some(p) => Some(
                    Vector2i {
                        x: (child.width + p.left.unwrap_or(0) + p.right.unwrap_or(0)) as i32,
                        y: (child.height + p.top.unwrap_or(0) + p.bottom.unwrap_or(0)) as i32,
                    },
                ),
                None => None,
            }),
    {
        match self.padding {
            Some(p) => Some(
                Vector2i::new(
                    child.width + p.left.unwrap_or(0) + p.right.unwrap_or(0),
                    child.height + p.top.unwrap_or(0) + p.bottom.unwrap_or(0),
                ),
            ),
            None => None,
        }
    }
}

} // verus!
