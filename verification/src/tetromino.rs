//! The seven tetrominoes, their quarter-turn rotation, and the choice of the
//! next piece from a random draw.

use vstd::prelude::*;
use crate::color::Color;

verus! {

/// The seven tetromino shapes.
#[derive(Clone, Copy, Debug, PartialEq, Eq, Structural)]
pub enum Kind {
    I,
    O,
    T,
    L,
    J,
    S,
    Z,
}

/// Four cell offsets and a colour: the mathematical content of a tetromino.
pub struct Shape {
    pub offsets: Seq<(int, int)>,
    pub color: Color,
}

/// A quarter turn of one offset about the 4x4 box: `(x, y)` goes to `(y, 3 - x)`.
pub open spec fn turn(p: (int, int)) -> (int, int) {
    (p.1, 3 - p.0)
}

impl Kind {
    /// The kind that a random draw selects: the draw modulo seven, counted
    /// through I, O, T, L, J, S, Z.
    pub open spec fn of_draw(draw: nat) -> Kind {
        let i = draw % 7;
        if i == 0 {
            Kind::I
        } else if i == 1 {
            Kind::O
        } else if i == 2 {
            Kind::T
        } else if i == 3 {
            Kind::L
        } else if i == 4 {
            Kind::J
        } else if i == 5 {
            Kind::S
        } else {
            Kind::Z
        }
    }

    /// The colour of the kind's blocks.
    pub open spec fn hue(self) -> Color {
        match self {
            Kind::I => Color::Cyan,
            Kind::O => Color::Yellow,
            Kind::T => Color::Purple,
            Kind::L => Color::Orange,
            Kind::J => Color::Blue,
            Kind::S => Color::Green,
            Kind::Z => Color::Red,
        }
    }

    /// The cell offsets of the kind in its spawn orientation.
    pub open spec fn cells(self) -> Seq<(int, int)> {
        match self {
            Kind::I => seq![(0, 1), (1, 1), (2, 1), (3, 1)],
            Kind::O => seq![(1, 0), (2, 0), (1, 1), (2, 1)],
            Kind::T => seq![(1, 0), (0, 1), (1, 1), (2, 1)],
            Kind::L => seq![(2, 0), (0, 1), (1, 1), (2, 1)],
            Kind::J => seq![(0, 0), (0, 1), (1, 1), (2, 1)],
            Kind::S => seq![(1, 0), (2, 0), (0, 1), (1, 1)],
            Kind::Z => seq![(0, 0), (1, 0), (1, 1), (2, 1)],
        }
    }

    /// Selects the next piece from a random draw. The draw is taken modulo
    /// seven as it comes; nothing evens out the bias of the source.
    pub fn from_draw(draw: u32) -> (kind: Kind)
        ensures
            kind == Kind::of_draw(draw as nat),
    {
        let i: u32 = draw % 7;
        if i == 0 {
            Kind::I
        } else if i == 1 {
            Kind::O
        } else if i == 2 {
            Kind::T
        } else if i == 3 {
            Kind::L
        } else if i == 4 {
            Kind::J
        } else if i == 5 {
            Kind::S
        } else {
            Kind::Z
        }
    }

    /// The colour of the kind's blocks.
    pub fn color(self) -> (c: Color)
        ensures
            c == self.hue(),
    {
        match self {
            Kind::I => Color::Cyan,
            Kind::O => Color::Yellow,
            Kind::T => Color::Purple,
            Kind::L => Color::Orange,
            Kind::J => Color::Blue,
            Kind::S => Color::Green,
            Kind::Z => Color::Red,
        }
    }
}

impl Shape {
    /// The shape of a kind as it spawns.
    pub open spec fn of(kind: Kind) -> Shape {
        Shape { offsets: kind.cells(), color: kind.hue() }
    }

    /// The shape has four cells, all inside the 4x4 box.
    pub open spec fn in_box(self) -> bool {
        &&& self.offsets.len() == 4
        &&& forall|i: int|
            0 <= i < 4 ==> 0 <= (#[trigger] self.offsets[i]).0 < 4 && 0 <= self.offsets[i].1 < 4
    }

    /// The shape after a quarter turn.
    pub open spec fn turned(self) -> Shape {
        Shape { offsets: self.offsets.map_values(|p: (int, int)| turn(p)), color: self.color }
    }
}

/// A tetromino: four cell offsets inside a 4x4 box, and a colour.
#[derive(Clone, Copy, Debug, PartialEq, Eq)]
pub struct Tetromino {
    offsets: [(i32, i32); 4],
    color: Color,
}

impl View for Tetromino {
    type V = Shape;

    closed spec fn view(&self) -> Shape {
        Shape {
            offsets: Seq::new(4, |i: int| (self.offsets@[i].0 as int, self.offsets@[i].1 as int)),
            color: self.color,
        }
    }
}

impl Tetromino {
    /// Every value of the type keeps its cells inside the 4x4 box.
    pub open spec fn wf(&self) -> bool {
        self@.in_box()
    }

    /// The prototype of a kind, in its spawn orientation.
    pub fn canonical(kind: Kind) -> (t: Tetromino)
        ensures
            t.wf(),
            t@ == Shape::of(kind),
    {
        let offsets: [(i32, i32); 4] = match kind {
            Kind::I => [(0, 1), (1, 1), (2, 1), (3, 1)],
            Kind::O => [(1, 0), (2, 0), (1, 1), (2, 1)],
            Kind::T => [(1, 0), (0, 1), (1, 1), (2, 1)],
            Kind::L => [(2, 0), (0, 1), (1, 1), (2, 1)],
            Kind::J => [(0, 0), (0, 1), (1, 1), (2, 1)],
            Kind::S => [(1, 0), (2, 0), (0, 1), (1, 1)],
            Kind::Z => [(0, 0), (1, 0), (1, 1), (2, 1)],
        };
        let t = Tetromino { offsets, color: kind.color() };
        assert(t@.offsets =~= kind.cells());
        t
    }

    /// The tetromino turned by a quarter about its box.
    pub fn rotated(&self) -> (t: Tetromino)
        requires
            self.wf(),
        ensures
            t.wf(),
            t@ == self@.turned(),
    {
        let o = &self.offsets;
        proof {
            assert(self@.offsets[0] == (o@[0].0 as int, o@[0].1 as int));
            assert(self@.offsets[1] == (o@[1].0 as int, o@[1].1 as int));
            assert(self@.offsets[2] == (o@[2].0 as int, o@[2].1 as int));
            assert(self@.offsets[3] == (o@[3].0 as int, o@[3].1 as int));
        }
        let t = Tetromino {
            offsets: [
                (o[0].1, 3 - o[0].0),
                (o[1].1, 3 - o[1].0),
                (o[2].1, 3 - o[2].0),
                (o[3].1, 3 - o[3].0),
            ],
            color: self.color,
        };
        assert(t@.offsets =~= self@.turned().offsets);
        t
    }

    /// The offset of cell `i`.
    pub fn offset(&self, i: usize) -> (p: (i32, i32))
        requires
            i < 4,
        ensures
            (p.0 as int, p.1 as int) == self@.offsets[i as int],
    {
        self.offsets[i]
    }

    /// The four cell offsets.
    pub fn offsets(&self) -> (o: [(i32, i32); 4])
        ensures
            forall|i: int| 0 <= i < 4 ==> (#[trigger] o@[i].0 as int, o@[i].1 as int) == self@.offsets[i],
    {
        self.offsets
    }

    /// The colour of the blocks.
    pub fn color(&self) -> (c: Color)
        ensures
            c == self@.color,
    {
        self.color
    }
}

/// Four quarter turns bring an offset back to where it was.
pub proof fn lemma_turn_has_order_four(p: (int, int))
    ensures
        turn(turn(turn(turn(p)))) == p,
{
}

/// Four quarter turns bring any shape back to the offsets it started with.
pub proof fn lemma_four_turns(shape: Shape)
    ensures
        shape.turned().turned().turned().turned() == shape,
{
    assert(shape.turned().turned().turned().turned().offsets =~= shape.offsets);
}

/// A quarter turn keeps a shape inside its box.
pub proof fn lemma_turn_stays_in_box(shape: Shape)
    requires
        shape.in_box(),
    ensures
        shape.turned().in_box(),
{
    assert forall|i: int| 0 <= i < 4 implies 0 <= (#[trigger] shape.turned().offsets[i]).0 < 4 && 0
        <= shape.turned().offsets[i].1 < 4 by {}
}

/// Each spawn shape lies inside the box, and each kind has its own colour.
pub proof fn lemma_kinds(a: Kind, b: Kind)
    ensures
        Shape::of(a).in_box(),
        a.hue() == b.hue() ==> a == b,
{
}

} // verus!
