//! The nine editable quantities of the chain, and how each is labelled.

use vstd::prelude::*;

verus! {

/// One of the nine quantities of the chain: the length of a link, the angle
/// of a joint or the angular velocity of a joint.
#[derive(Clone, Copy, Debug, PartialEq, Eq, Structural)]
pub enum Var {
    L1,
    L2,
    L3,
    A1,
    A2,
    A3,
    O1,
    O2,
    O3,
}

/// What a quantity measures.
#[derive(Clone, Copy, Debug, PartialEq, Eq, Structural)]
pub enum Quantity {
    /// A link length, in metres.
    Length,
    /// A joint angle, in degrees, relative to the link before it.
    Angle,
    /// A joint's angular velocity, in radians per second.
    Velocity,
}

impl Quantity {
    /// The letter that stands for the quantity.
    pub open spec fn spec_symbol(self) -> Seq<char> {
        match self {
            Quantity::Length => "L"@,
            Quantity::Angle => "θ"@,
            Quantity::Velocity => "ω"@,
        }
    }

    /// The unit written after a value of the quantity.
    pub open spec fn spec_unit(self) -> Seq<char> {
        match self {
            Quantity::Length => " m"@,
            Quantity::Angle => "º"@,
            Quantity::Velocity => " rad/s"@,
        }
    }

    /// The heading over the three quantities of this kind.
    pub open spec fn spec_title(self) -> Seq<char> {
        match self {
            Quantity::Length => "Lengths"@,
            Quantity::Angle => "Angles"@,
            Quantity::Velocity => "Velocities"@,
        }
    }

    /// The quantity of this kind at the given joint, counted from one.
    pub open spec fn spec_at(self, joint: int) -> Var
        recommends
            1 <= joint <= 3,
    {
        match self {
            Quantity::Length => if joint == 1 {
                Var::L1
            } else if joint == 2 {
                Var::L2
            } else {
                Var::L3
            },
            Quantity::Angle => if joint == 1 {
                Var::A1
            } else if joint == 2 {
                Var::A2
            } else {
                Var::A3
            },
            Quantity::Velocity => if joint == 1 {
                Var::O1
            } else if joint == 2 {
                Var::O2
            } else {
                Var::O3
            },
        }
    }

    /// The letter that stands for the quantity.
    pub fn symbol(self) -> (s: &'static str)
        ensures
            s@ == self.spec_symbol(),
    {
        match self {
            Quantity::Length => "L",
            Quantity::Angle => "θ",
            Quantity::Velocity => "ω",
        }
    }

    /// The unit written after a value of the quantity.
    pub fn unit(self) -> (s: &'static str)
        ensures
            s@ == self.spec_unit(),
    {
        match self {
            Quantity::Length => " m",
            Quantity::Angle => "º",
            Quantity::Velocity => " rad/s",
        }
    }

    /// The heading over the three quantities of this kind.
    pub fn title(self) -> (s: &'static str)
        ensures
            s@ == self.spec_title(),
    {
        match self {
            Quantity::Length => "Lengths",
            Quantity::Angle => "Angles",
            Quantity::Velocity => "Velocities",
        }
    }

    /// The quantity of this kind at the given joint, counted from one; none
    /// where the chain has no such joint.
    pub fn at(self, joint: u8) -> (found: Option<Var>)
        ensures
            found == if 1 <= joint <= 3 {
                Some(self.spec_at(joint as int))
            } else {
                None
            },
            found matches Some(v) ==> v.spec_quantity() == self && v.spec_joint() == joint,
    {
        match (self, joint) {
            (Quantity::Length, 1) => Some(Var::L1),
            (Quantity::Length, 2) => Some(Var::L2),
            (Quantity::Length, 3) => Some(Var::L3),
            (Quantity::Angle, 1) => Some(Var::A1),
            (Quantity::Angle, 2) => Some(Var::A2),
            (Quantity::Angle, 3) => Some(Var::A3),
            (Quantity::Velocity, 1) => Some(Var::O1),
            (Quantity::Velocity, 2) => Some(Var::O2),
            (Quantity::Velocity, 3) => Some(Var::O3),
            _ => None,
        }
    }
}

/// The digit written below the symbol for a joint, counted from one.
pub open spec fn spec_subscript(joint: int) -> Seq<char>
    recommends
        1 <= joint <= 3,
{
    if joint == 1 {
        "1"@
    } else if joint == 2 {
        "2"@
    } else {
        "3"@
    }
}

impl Var {
    /// What the quantity measures.
    pub open spec fn spec_quantity(self) -> Quantity {
        match self {
            Var::L1 | Var::L2 | Var::L3 => Quantity::Length,
            Var::A1 | Var::A2 | Var::A3 => Quantity::Angle,
            Var::O1 | Var::O2 | Var::O3 => Quantity::Velocity,
        }
    }

    /// The joint that the quantity belongs to, counted from one.
    pub open spec fn spec_joint(self) -> int {
        match self {
            Var::L1 | Var::A1 | Var::O1 => 1,
            Var::L2 | Var::A2 | Var::O2 => 2,
            Var::L3 | Var::A3 | Var::O3 => 3,
        }
    }

    /// What the quantity measures.
    #[verifier::when_used_as_spec(spec_quantity)]
    pub fn quantity(self) -> (q: Quantity)
        ensures
            q == self.spec_quantity(),
    {
        match self {
            Var::L1 | Var::L2 | Var::L3 => Quantity::Length,
            Var::A1 | Var::A2 | Var::A3 => Quantity::Angle,
            Var::O1 | Var::O2 | Var::O3 => Quantity::Velocity,
        }
    }

    /// The joint that the quantity belongs to, counted from one.
    pub fn joint(self) -> (j: u8)
        ensures
            j == self.spec_joint(),
            1 <= j <= 3,
    {
        match self {
            Var::L1 | Var::A1 | Var::O1 => 1,
            Var::L2 | Var::A2 | Var::O2 => 2,
            Var::L3 | Var::A3 | Var::O3 => 3,
        }
    }

    /// The letter that stands for the quantity.
    pub fn symbol(self) -> (s: &'static str)
        ensures
            s@ == self.spec_quantity().spec_symbol(),
    {
        self.quantity().symbol()
    }

    /// The unit written after the value.
    pub fn unit(self) -> (s: &'static str)
        ensures
            s@ == self.spec_quantity().spec_unit(),
    {
        self.quantity().unit()
    }

    /// The digit written below the symbol.
    pub fn subscript(self) -> (s: &'static str)
        ensures
            s@ == spec_subscript(self.spec_joint()),
    {
        match self {
            Var::L1 | Var::A1 | Var::O1 => "1",
            Var::L2 | Var::A2 | Var::O2 => "2",
            Var::L3 | Var::A3 | Var::O3 => "3",
        }
    }
}

/// A quantity is known by what it measures and its joint: each is found
/// again at its own place, and two that agree in both are one.
pub proof fn lemma_quantity_and_joint_identify(a: Var, b: Var)
    ensures
        1 <= a.spec_joint() <= 3,
        a.spec_quantity().spec_at(a.spec_joint()) == a,
        a.spec_quantity() == b.spec_quantity() && a.spec_joint() == b.spec_joint() ==> a == b,
{
}

/// No two quantities share a label: the symbol tells what is measured and
/// the subscript tells the joint.
pub proof fn lemma_labels_are_distinct(a: Var, b: Var)
    requires
        a.spec_quantity().spec_symbol() == b.spec_quantity().spec_symbol(),
        spec_subscript(a.spec_joint()) == spec_subscript(b.spec_joint()),
    ensures
        a == b,
{
    reveal_strlit("L");
    reveal_strlit("θ");
    reveal_strlit("ω");
    reveal_strlit("1");
    reveal_strlit("2");
    reveal_strlit("3");
    let sa = a.spec_quantity().spec_symbol();
    let sb = b.spec_quantity().spec_symbol();
    assert(sa[0] == sb[0]);
    let ja = spec_subscript(a.spec_joint());
    let jb = spec_subscript(b.spec_joint());
    assert(ja[0] == jb[0]);
}

} // verus!
