//! The solids the library knows, the values each one is made of, and the
//! menu code that selects one.

use crate::text::{same_text, trim, trimmed};
use vstd::prelude::*;
use vstd::string::*;

verus! {

/// A solid of uniform density, centred on the coordinate axes.
#[derive(Clone, Copy, Debug, PartialEq, Eq, Structural)]
pub enum ShapeKind {
    /// A rectangular prism.
    Rectangle,
    /// A ball.
    Sphere,
    /// A cylinder whose axis is the z axis.
    Cylinder,
}

/// One scalar that describes a solid.
#[derive(Clone, Copy, Debug, PartialEq, Eq, Structural)]
pub enum Field {
    Mass,
    Depth,
    Width,
    Height,
    Radius,
}

/// The values a solid is made of, in the order in which they are asked for:
/// the mass first, then the dimensions.
pub open spec fn fields_of(kind: ShapeKind) -> Seq<Field> {
    match kind {
        ShapeKind::Rectangle => seq![Field::Mass, Field::Depth, Field::Width, Field::Height],
        ShapeKind::Sphere => seq![Field::Mass, Field::Radius],
        ShapeKind::Cylinder => seq![Field::Mass, Field::Radius, Field::Height],
    }
}

/// The line that asks for a value.
pub open spec fn prompt_of(field: Field) -> Seq<char> {
    match field {
        Field::Mass => "Please enter mass:"@,
        Field::Depth => "Please enter depth: "@,
        Field::Width => "Please enter width: "@,
        Field::Height => "Please enter height: "@,
        Field::Radius => "Please enter radius: "@,
    }
}

/// The line that announces a selected solid. It names that solid and no
/// other.
pub open spec fn banner_of(kind: ShapeKind) -> Seq<char> {
    match kind {
        ShapeKind::Rectangle => "Solid Rectangle Selected:"@,
        ShapeKind::Sphere => "Solid Sphere Selected:"@,
        ShapeKind::Cylinder => "Solid Cylinder Selected:"@,
    }
}

/// The solid that a menu code stands for: `1`, `2` or `3`, and nothing else.
pub open spec fn shape_of_code(code: Seq<char>) -> Option<ShapeKind> {
    if code == seq!['1'] {
        Some(ShapeKind::Rectangle)
    } else if code == seq!['2'] {
        Some(ShapeKind::Sphere)
    } else if code == seq!['3'] {
        Some(ShapeKind::Cylinder)
    } else {
        None
    }
}

/// The solid that a typed line selects: the line is trimmed, then read as a
/// menu code.
pub open spec fn shape_of_line(line: Seq<char>) -> Option<ShapeKind> {
    shape_of_code(trim(line))
}

impl ShapeKind {
    /// The values this solid asks for, in asking order.
    pub fn fields(&self) -> (r: Vec<Field>)
        ensures
            r@ == fields_of(*self),
    {
        let r = match self {
            ShapeKind::Rectangle => vec![Field::Mass, Field::Depth, Field::Width, Field::Height],
            ShapeKind::Sphere => vec![Field::Mass, Field::Radius],
            ShapeKind::Cylinder => vec![Field::Mass, Field::Radius, Field::Height],
        };
        assert(r@ =~= fields_of(*self));
        r
    }

    /// How many values this solid asks for.
    pub fn field_count(&self) -> (r: usize)
        ensures
            r == fields_of(*self).len(),
    {
        match self {
            ShapeKind::Rectangle => 4,
            ShapeKind::Sphere => 2,
            ShapeKind::Cylinder => 3,
        }
    }

    /// The value asked for at position `index`.
    pub fn field_at(&self, index: usize) -> (r: Option<Field>)
        ensures
            r == if index < fields_of(*self).len() {
                Some(fields_of(*self)[index as int])
            } else {
                None
            },
    {
        match (self, index) {
            (_, 0) => Some(Field::Mass),
            (ShapeKind::Rectangle, 1) => Some(Field::Depth),
            (ShapeKind::Rectangle, 2) => Some(Field::Width),
            (ShapeKind::Rectangle, 3) => Some(Field::Height),
            (ShapeKind::Sphere, 1) => Some(Field::Radius),
            (ShapeKind::Cylinder, 1) => Some(Field::Radius),
            (ShapeKind::Cylinder, 2) => Some(Field::Height),
            _ => None,
        }
    }

    /// The line that announces this solid once it is selected.
    pub fn banner(&self) -> (r: &'static str)
        ensures
            r@ == banner_of(*self),
    {
        match self {
            ShapeKind::Rectangle => "Solid Rectangle Selected:",
            ShapeKind::Sphere => "Solid Sphere Selected:",
            ShapeKind::Cylinder => "Solid Cylinder Selected:",
        }
    }
}

impl Field {
    /// The line that asks for this value.
    pub fn prompt(&self) -> (r: &'static str)
        ensures
            r@ == prompt_of(*self),
    {
        match self {
            Field::Mass => "Please enter mass:",
            Field::Depth => "Please enter depth: ",
            Field::Width => "Please enter width: ",
            Field::Height => "Please enter height: ",
            Field::Radius => "Please enter radius: ",
        }
    }
}

/// Reads an already trimmed menu code.
pub fn shape_from_code(code: &str) -> (r: Option<ShapeKind>)
    ensures
        r == shape_of_code(code@),
{
    proof {
        reveal_strlit("1");
        reveal_strlit("2");
        reveal_strlit("3");
        assert("1"@ =~= seq!['1']);
        assert("2"@ =~= seq!['2']);
        assert("3"@ =~= seq!['3']);
    }
    if same_text(code, "1") {
        Some(ShapeKind::Rectangle)
    } else if same_text(code, "2") {
        Some(ShapeKind::Sphere)
    } else if same_text(code, "3") {
        Some(ShapeKind::Cylinder)
    } else {
        None
    }
}

/// Reads the line typed at the shape menu. White space round the code is
/// ignored; any line that is not one of the three codes selects nothing.
pub fn choose_shape(line: &str) -> (r: Option<ShapeKind>)
    ensures
        r == shape_of_line(line@),
{
    shape_from_code(trimmed(line))
}

/// Every solid has a banner of its own: the banners of two different solids
/// are different lines, so the line shown tells which solid was selected.
pub proof fn lemma_banner_tells_the_shape(a: ShapeKind, b: ShapeKind)
    ensures
        banner_of(a) == banner_of(b) <==> a == b,
{
    reveal_strlit("Solid Rectangle Selected:");
    reveal_strlit("Solid Sphere Selected:");
    reveal_strlit("Solid Cylinder Selected:");
    assert("Solid Rectangle Selected:"@[6] == 'R');
    assert("Solid Sphere Selected:"@[6] == 'S');
    assert("Solid Cylinder Selected:"@[6] == 'C');
}

} // verus!
