//! The state of the calculator and the one way to change it.

use vstd::prelude::*;
use crate::field::Var;
use crate::scalar::Scalar;

verus! {

/// The nine quantities of the chain.
#[derive(Clone, Copy, Debug, PartialEq, Eq, Structural)]
pub struct Model {
    /// Length of the first link, in metres.
    pub l1: Scalar,
    /// Length of the second link, in metres.
    pub l2: Scalar,
    /// Length of the third link, in metres.
    pub l3: Scalar,
    /// Angle of the first joint, in degrees.
    pub a1: Scalar,
    /// Angle of the second joint, in degrees.
    pub a2: Scalar,
    /// Angle of the third joint, in degrees.
    pub a3: Scalar,
    /// Angular velocity of the first joint, in radians per second.
    pub o1: Scalar,
    /// Angular velocity of the second joint, in radians per second.
    pub o2: Scalar,
    /// Angular velocity of the third joint, in radians per second.
    pub o3: Scalar,
}

/// A request to change the state.
#[derive(Clone, Copy, Debug, PartialEq, Eq, Structural)]
pub enum Msg {
    /// The given quantity was edited and the given value was entered.
    UpdateVar(Var, Scalar),
}

impl Model {
    /// The state at start: links of length 1, 1 and 1, angles of 25, 310 and
    /// 60 degrees, angular velocities of 4, -2 and 6 radians per second.
    pub open spec fn spec_initial() -> Model {
        Model {
            l1: Scalar { bits: 0x3ff0_0000_0000_0000 },
            l2: Scalar { bits: 0x3ff0_0000_0000_0000 },
            l3: Scalar { bits: 0x3ff0_0000_0000_0000 },
            a1: Scalar { bits: 0x4039_0000_0000_0000 },
            a2: Scalar { bits: 0x4073_6000_0000_0000 },
            a3: Scalar { bits: 0x404e_0000_0000_0000 },
            o1: Scalar { bits: 0x4010_0000_0000_0000 },
            o2: Scalar { bits: 0xc000_0000_0000_0000 },
            o3: Scalar { bits: 0x4018_0000_0000_0000 },
        }
    }

    /// The value of one quantity.
    pub open spec fn spec_get(self, var: Var) -> Scalar {
        match var {
            Var::L1 => self.l1,
            Var::L2 => self.l2,
            Var::L3 => self.l3,
            Var::A1 => self.a1,
            Var::A2 => self.a2,
            Var::A3 => self.a3,
            Var::O1 => self.o1,
            Var::O2 => self.o2,
            Var::O3 => self.o3,
        }
    }

    /// This state with one quantity set to a value.
    pub open spec fn spec_with(self, var: Var, val: Scalar) -> Model {
        match var {
            Var::L1 => Model { l1: val, ..self },
            Var::L2 => Model { l2: val, ..self },
            Var::L3 => Model { l3: val, ..self },
            Var::A1 => Model { a1: val, ..self },
            Var::A2 => Model { a2: val, ..self },
            Var::A3 => Model { a3: val, ..self },
            Var::O1 => Model { o1: val, ..self },
            Var::O2 => Model { o2: val, ..self },
            Var::O3 => Model { o3: val, ..self },
        }
    }

    /// Every quantity is a number.
    pub open spec fn all_numbers(self) -> bool {
        forall|var: Var| !(#[trigger] self.spec_get(var)).spec_is_nan()
    }

    /// The state after a request: the named quantity holds the sanitized
    /// entry, the rest is as before.
    pub open spec fn spec_after(self, msg: Msg) -> Model {
        match msg {
            Msg::UpdateVar(var, val) => self.spec_with(var, val.spec_sanitized()),
        }
    }

    /// The value of one quantity.
    #[verifier::when_used_as_spec(spec_get)]
    pub fn get(self, var: Var) -> (val: Scalar)
        ensures
            val == self.spec_get(var),
    {
        match var {
            Var::L1 => self.l1,
            Var::L2 => self.l2,
            Var::L3 => self.l3,
            Var::A1 => self.a1,
            Var::A2 => self.a2,
            Var::A3 => self.a3,
            Var::O1 => self.o1,
            Var::O2 => self.o2,
            Var::O3 => self.o3,
        }
    }
}

/// The state at start.
pub fn init() -> (model: Model)
    ensures
        model == Model::spec_initial(),
        model.all_numbers(),
        model.l1.stands_for(1) && model.l2.stands_for(1) && model.l3.stands_for(1),
        model.a1.stands_for(25) && model.a2.stands_for(310) && model.a3.stands_for(60),
        model.o1.stands_for(4) && model.o2.stands_for(-2) && model.o3.stands_for(6),
{
    let model = Model {
        l1: Scalar { bits: 0x3ff0_0000_0000_0000 },
        l2: Scalar { bits: 0x3ff0_0000_0000_0000 },
        l3: Scalar { bits: 0x3ff0_0000_0000_0000 },
        a1: Scalar { bits: 0x4039_0000_0000_0000 },
        a2: Scalar { bits: 0x4073_6000_0000_0000 },
        a3: Scalar { bits: 0x404e_0000_0000_0000 },
        o1: Scalar { bits: 0x4010_0000_0000_0000 },
        o2: Scalar { bits: 0xc000_0000_0000_0000 },
        o3: Scalar { bits: 0x4018_0000_0000_0000 },
    };
    proof {
        lemma_initial_all_numbers();
        lemma_initial_values();
    }
    model
}

/// Carries out a request: stores the entered value under the quantity it
/// names, positive zero where the entry is not a number, and leaves the other
/// eight quantities as they were.
pub fn update(msg: Msg, model: &mut Model)
    ensures
        *final(model) == old(model).spec_after(msg),
        msg matches Msg::UpdateVar(var, val) ==> {
            &&& final(model).spec_get(var) == val.spec_sanitized()
            &&& forall|other: Var|
                other != var ==> #[trigger] final(model).spec_get(other) == old(model).spec_get(
                    other,
                )
        },
        old(model).all_numbers() ==> final(model).all_numbers(),
{
    match msg {
        Msg::UpdateVar(var, val) => {
            let val = val.sanitized();
            proof {
                lemma_with_sets_one(*old(model), var, val);
                lemma_with_keeps_numbers(*old(model), var, val);
            }
            match var {
                Var::L1 => model.l1 = val,
                Var::L2 => model.l2 = val,
                Var::L3 => model.l3 = val,
                Var::A1 => model.a1 = val,
                Var::A2 => model.a2 = val,
                Var::A3 => model.a3 = val,
                Var::O1 => model.o1 = val,
                Var::O2 => model.o2 = val,
                Var::O3 => model.o3 = val,
            }
        },
    }
}

/// Every quantity of the state at start is a finite number.
pub proof fn lemma_initial_all_numbers()
    ensures
        Model::spec_initial().all_numbers(),
        forall|var: Var| (#[trigger] Model::spec_initial().spec_get(var)).spec_is_finite(),
{
    let m = Model::spec_initial();
    assert forall|var: Var| (#[trigger] m.spec_get(var)).spec_is_finite() by {
        crate::scalar::lemma_fields_by_mask(m.spec_get(var).bits);
    }
}

/// The state at start holds links of length 1, angles of 25, 310 and 60
/// degrees, and angular velocities of 4, -2 and 6 radians per second.
pub proof fn lemma_initial_values()
    ensures
        Model::spec_initial().l1.stands_for(1),
        Model::spec_initial().l2.stands_for(1),
        Model::spec_initial().l3.stands_for(1),
        Model::spec_initial().a1.stands_for(25),
        Model::spec_initial().a2.stands_for(310),
        Model::spec_initial().a3.stands_for(60),
        Model::spec_initial().o1.stands_for(4),
        Model::spec_initial().o2.stands_for(-2),
        Model::spec_initial().o3.stands_for(6),
{
    crate::scalar::lemma_small_whole_numbers();
}

/// Setting one quantity is read back under its name and changes no other.
pub proof fn lemma_with_sets_one(model: Model, var: Var, val: Scalar)
    ensures
        model.spec_with(var, val).spec_get(var) == val,
        forall|other: Var|
            other != var ==> #[trigger] model.spec_with(var, val).spec_get(other)
                == model.spec_get(other),
{
}

/// A state of numbers stays one when a number is stored in it.
pub proof fn lemma_with_keeps_numbers(model: Model, var: Var, val: Scalar)
    requires
        !val.spec_is_nan(),
    ensures
        model.all_numbers() ==> model.spec_with(var, val).all_numbers(),
{
    lemma_with_sets_one(model, var, val);
    if model.all_numbers() {
        let next = model.spec_with(var, val);
        assert forall|v: Var| !(#[trigger] next.spec_get(v)).spec_is_nan() by {
            if v != var {
                assert(next.spec_get(v) == model.spec_get(v));
            }
        }
    }
}

/// Repeating an edit changes nothing more, of two edits of one quantity the
/// later one stands, and edits of two different quantities may come in
/// either order.
pub proof fn lemma_edits_compose(model: Model, a: Var, x: Scalar, b: Var, y: Scalar)
    ensures
        model.spec_after(Msg::UpdateVar(a, x)).spec_after(Msg::UpdateVar(a, x))
            == model.spec_after(Msg::UpdateVar(a, x)),
        model.spec_after(Msg::UpdateVar(a, x)).spec_after(Msg::UpdateVar(a, y))
            == model.spec_after(Msg::UpdateVar(a, y)),
        a != b ==> model.spec_after(Msg::UpdateVar(a, x)).spec_after(Msg::UpdateVar(b, y))
            == model.spec_after(Msg::UpdateVar(b, y)).spec_after(Msg::UpdateVar(a, x)),
{
}

} // verus!
