//! How the solid is turned in space.
//!
//! A corner of the solid has a place in the plane of the text, `(x, y)`, and
//! a height `z` along the extrusion. An orientation says which of these, and
//! with which sign, becomes each of the three coordinates of the output.

use vstd::prelude::*;

verus! {

/// The way the text faces.
#[derive(Clone, Copy, Debug, PartialEq, Eq, Structural)]
pub enum Orientation {
    /// The text lies on the floor: extrusion runs along the third axis.
    Flat,
    /// The text stands and faces the viewer: its own vertical becomes the
    /// third axis, and the extrusion runs against the second.
    Front,
}

/// Where one output coordinate is taken from.
#[derive(Clone, Copy, Debug, PartialEq, Eq, Structural)]
pub enum Source {
    /// The horizontal position in the plane of the text.
    X,
    /// The vertical position in the plane of the text.
    Y,
    /// The height along the extrusion.
    Z,
    /// The height along the extrusion, negated.
    NegZ,
}

/// The sources of the three output coordinates, in order.
#[derive(Clone, Copy, Debug, PartialEq, Eq, Structural)]
pub struct Axes {
    pub first: Source,
    pub second: Source,
    pub third: Source,
}

/// The coordinates of an orientation: `(x, y, z)` when flat, `(x, -z, y)`
/// when facing the viewer.
pub open spec fn axes_of(orientation: Orientation) -> Axes {
    match orientation {
        Orientation::Flat => Axes { first: Source::X, second: Source::Y, third: Source::Z },
        Orientation::Front => Axes { first: Source::X, second: Source::NegZ, third: Source::Y },
    }
}

/// The source reads the height along the extrusion, with either sign.
pub open spec fn reads_height(source: Source) -> bool {
    source == Source::Z || source == Source::NegZ
}

/// How many of the three coordinates satisfy a test.
pub open spec fn count_where(axes: Axes, test: spec_fn(Source) -> bool) -> nat {
    (if test(axes.first) {
        1nat
    } else {
        0nat
    }) + (if test(axes.second) {
        1nat
    } else {
        0nat
    }) + (if test(axes.third) {
        1nat
    } else {
        0nat
    })
}

/// Every orientation only permutes the axes: each of `x`, `y` and the
/// height becomes exactly one output coordinate, and `x` stays first.
pub proof fn lemma_axes_permute(orientation: Orientation)
    ensures
        count_where(axes_of(orientation), |s: Source| s == Source::X) == 1,
        count_where(axes_of(orientation), |s: Source| s == Source::Y) == 1,
        count_where(axes_of(orientation), |s: Source| reads_height(s)) == 1,
        axes_of(orientation).first == Source::X,
{
}

/// Says where each output coordinate of a corner comes from.
pub fn map_point(orientation: Orientation) -> (axes: Axes)
    ensures
        axes == axes_of(orientation),
{
    match orientation {
        Orientation::Flat => Axes { first: Source::X, second: Source::Y, third: Source::Z },
        Orientation::Front => Axes { first: Source::X, second: Source::NegZ, third: Source::Y },
    }
}

} // verus!
