//! The rect struct.
//!
//! A rectangle holds both size and position.  It is commonly used for
//! things such as defining window size, and basic bounding-box collision
//! detection.  Degenerate and inverted sizes are permitted: no invariant
//! constrains the fields.

use vstd::prelude::*;
use vstd::string::StringExecFns;
use crate::vec2::{Vec2, sep_str};

verus! {

/// The rect struct: a position and a size, each a [`Vec2`].
///
/// Equality is componentwise and exact, delegated to the vectors.
#[derive(Clone, Copy, PartialEq, Eq, Structural)]
pub struct Rect {
    /// The rect position.
    pub position: Vec2,
    /// The rect size.
    pub size: Vec2,
}

impl Rect {
    /// The rect at the origin with zero size.
    pub open spec fn zero_spec() -> Rect {
        Rect { position: Vec2::zero_spec(), size: Vec2::zero_spec() }
    }

    /// The rendering of a rect: its position, then its size.
    pub open spec fn str_spec(r: Rect) -> Seq<char> {
        Vec2::str_spec(r.position) + sep_str() + Vec2::str_spec(r.size)
    }

    /// Formats the rect as a string.
    pub fn to_string(&self) -> (r: String)
        requires
            self.position.x > i64::MIN,
            self.position.y > i64::MIN,
            self.size.x > i64::MIN,
            self.size.y > i64::MIN,
        ensures
            r@ == Rect::str_spec(*self),
    {
        let mut s: String = self.position.to_string();
        proof {
            reveal_strlit(", ");
        }
        s.append(", ");
        let ts: String = self.size.to_string();
        s.append(ts.as_str());
        proof {
            assert(s@ =~= Rect::str_spec(*self));
        }
        s
    }

    /// Creates a new rect with default values.
    pub fn new() -> (r: Rect)
        ensures
            r == Rect::zero_spec(),
    {
        Rect { position: Vec2::new(), size: Vec2::new() }
    }
}

} // verus!
