//! Where the overlay sits on the output and how large it asks to be.

use vstd::prelude::*;

verus! {

/// One edge of the output rectangle.
#[derive(Clone, Copy, Debug, PartialEq, Eq, Structural)]
pub enum Anchor {
    Top,
    Bottom,
    Left,
    Right,
}

impl Anchor {
    /// The edge across the output from this one.
    pub open spec fn spec_opposite(self) -> Anchor {
        match self {
            Anchor::Top => Anchor::Bottom,
            Anchor::Bottom => Anchor::Top,
            Anchor::Left => Anchor::Right,
            Anchor::Right => Anchor::Left,
        }
    }

    /// `Top` and `Bottom` run along the x axis.
    pub open spec fn spec_is_horizontal(self) -> bool {
        self is Top || self is Bottom
    }

    /// The edge across the output from this one.
    #[verifier::when_used_as_spec(spec_opposite)]
    pub fn opposite(self) -> (r: Anchor)
        ensures
            r == self.spec_opposite(),
    {
        match self {
            Anchor::Top => Anchor::Bottom,
            Anchor::Bottom => Anchor::Top,
            Anchor::Left => Anchor::Right,
            Anchor::Right => Anchor::Left,
        }
    }

    /// Whether the edge runs along the x axis, as `Top` and `Bottom` do.
    #[verifier::when_used_as_spec(spec_is_horizontal)]
    pub fn is_horizontal(self) -> (r: bool)
        ensures
            r == self.spec_is_horizontal(),
    {
        match self {
            Anchor::Top | Anchor::Bottom => true,
            Anchor::Left | Anchor::Right => false,
        }
    }
}

/// The mathematical content of a [`PositionInfo`].
pub ghost struct Geometry {
    /// How far the bar reaches in from its edge.
    pub thickness: nat,
    /// How far the bar runs along its edge.
    pub length: nat,
    /// The edge that the bar lies along.
    pub edge: Anchor,
    /// The end of that edge from which the bar is placed.
    pub close_to: Anchor,
    /// How far from that end the bar begins. The surface covers this
    /// stretch too and leaves it clear.
    pub offset: nat,
}

impl Geometry {
    /// The bar never spans from an edge to the edge across from it, and its
    /// long side fits the width of a protocol integer.
    pub open spec fn wf(self) -> bool {
        &&& self.close_to != self.edge.opposite()
        &&& self.thickness <= u32::MAX
        &&& self.length + self.offset <= u32::MAX
    }

    /// The width of the surface: along a horizontal edge the offset and the
    /// length together, along a vertical one the thickness.
    pub open spec fn width(self) -> nat {
        if self.edge.is_horizontal() {
            self.length + self.offset
        } else {
            self.thickness
        }
    }

    /// The height of the surface: along a horizontal edge the thickness,
    /// along a vertical one the offset and the length together.
    pub open spec fn height(self) -> nat {
        if self.edge.is_horizontal() {
            self.thickness
        } else {
            self.length + self.offset
        }
    }
}

/// The thickness, length, edge and offset that place the overlay. Fixed once
/// made.
#[derive(Clone, Copy, Debug, PartialEq, Eq, Structural)]
pub struct PositionInfo {
    thickness: u32,
    length: u32,
    edge: Anchor,
    close_to: Anchor,
    offset: u32,
}

impl View for PositionInfo {
    type V = Geometry;

    closed spec fn view(&self) -> Geometry {
        Geometry {
            thickness: self.thickness as nat,
            length: self.length as nat,
            edge: self.edge,
            close_to: self.close_to,
            offset: self.offset as nat,
        }
    }
}

impl PositionInfo {
    /// Every value of this type is well formed.
    #[verifier::type_invariant]
    pub open spec fn inv(&self) -> bool {
        self@.wf()
    }

    /// A bar `thickness` deep and `length` long that lies along `edge`,
    /// `offset` away from the `close_to` end of it. There is no such bar
    /// where `close_to` is the edge across from `edge`, nor where length and
    /// offset together exceed what a protocol integer holds.
    pub fn new(thickness: u32, length: u32, edge: Anchor, close_to: Anchor, offset: u32) -> (r:
        Option<PositionInfo>)
        ensures
            r is Some <==> close_to != edge.opposite() && length + offset <= u32::MAX,
            r matches Some(p) ==> p@ == (Geometry {
                thickness: thickness as nat,
                length: length as nat,
                edge,
                close_to,
                offset: offset as nat,
            }),
    {
        if close_to == edge.opposite() {
            return None;
        }
        if length > u32::MAX - offset {
            return None;
        }
        Some(PositionInfo { thickness, length, edge, close_to, offset })
    }

    /// The width that the surface asks for: along a horizontal edge the
    /// length and the offset together, along a vertical one the thickness.
    pub fn win_width(&self) -> (w: u32)
        ensures
            w == self@.width(),
            self@.edge is Top || self@.edge is Bottom ==> w == self@.length + self@.offset,
            self@.edge is Left || self@.edge is Right ==> w == self@.thickness,
    {
        proof {
            use_type_invariant(self);
        }
        match self.edge {
            Anchor::Top | Anchor::Bottom => self.length + self.offset,
            Anchor::Left | Anchor::Right => self.thickness,
        }
    }

    /// The height that the surface asks for: along a horizontal edge the
    /// thickness, along a vertical one the length and the offset together.
    pub fn win_height(&self) -> (h: u32)
        ensures
            h == self@.height(),
            self@.edge is Top || self@.edge is Bottom ==> h == self@.thickness,
            self@.edge is Left || self@.edge is Right ==> h == self@.length + self@.offset,
    {
        proof {
            use_type_invariant(self);
        }
        match self.edge {
            Anchor::Top | Anchor::Bottom => self.thickness,
            Anchor::Left | Anchor::Right => self.length + self.offset,
        }
    }

    /// Width and height together.
    pub fn size(&self) -> (r: (u32, u32))
        ensures
            r.0 == self@.width(),
            r.1 == self@.height(),
    {
        (self.win_width(), self.win_height())
    }

    /// How far the bar reaches in from its edge.
    pub fn thickness(&self) -> (r: u32)
        ensures
            r == self@.thickness,
    {
        self.thickness
    }

    /// How far the bar runs along its edge.
    pub fn length(&self) -> (r: u32)
        ensures
            r == self@.length,
    {
        self.length
    }

    /// The edge that the bar lies along.
    pub fn edge(&self) -> (r: Anchor)
        ensures
            r == self@.edge,
    {
        self.edge
    }

    /// The end of that edge from which the bar is placed.
    pub fn close_to(&self) -> (r: Anchor)
        ensures
            r == self@.close_to,
    {
        self.close_to
    }

    /// How far from that end the bar begins.
    pub fn offset(&self) -> (r: u32)
        ensures
            r == self@.offset,
    {
        self.offset
    }
}

/// Along `Top` and `Bottom` the height is the thickness and the width is
/// length plus offset; along `Left` and `Right` the two change places.
pub proof fn lemma_size_follows_edge(g: Geometry)
    ensures
        g.edge is Top || g.edge is Bottom ==> g.height() == g.thickness && g.width() == g.length
            + g.offset,
        g.edge is Left || g.edge is Right ==> g.width() == g.thickness && g.height() == g.length
            + g.offset,
{
}

} // verus!
