//! The input form: which quantities it shows, in what order, under which
//! headings and with which labels.

use vstd::prelude::*;
use crate::field::{spec_subscript, Quantity, Var};
use crate::model::Model;
use crate::scalar::Scalar;

verus! {

/// One line of the form: a labelled input for one quantity.
#[derive(Clone, Copy, Debug)]
pub struct Row {
    /// The quantity that an edit of this line changes.
    pub var: Var,
    /// The letter of the label.
    pub symbol: &'static str,
    /// The digit below the letter.
    pub subscript: &'static str,
    /// The value that the input shows.
    pub value: Scalar,
    /// The unit after the input.
    pub unit: &'static str,
}

/// What a line of the form shows.
pub struct RowView {
    pub var: Var,
    pub symbol: Seq<char>,
    pub subscript: Seq<char>,
    pub value: Scalar,
    pub unit: Seq<char>,
}

impl View for Row {
    type V = RowView;

    open spec fn view(&self) -> RowView {
        RowView {
            var: self.var,
            symbol: self.symbol@,
            subscript: self.subscript@,
            value: self.value,
            unit: self.unit@,
        }
    }
}

/// Three lines of the form under one heading.
#[derive(Debug)]
pub struct Section {
    /// The heading.
    pub title: &'static str,
    /// The lines, from the first joint to the third.
    pub rows: Vec<Row>,
}

/// What a section of the form shows.
pub struct SectionView {
    pub title: Seq<char>,
    pub rows: Seq<RowView>,
}

impl View for Section {
    type V = SectionView;

    open spec fn view(&self) -> SectionView {
        SectionView { title: self.title@, rows: self.rows@.map_values(|row: Row| row@) }
    }
}

/// The line for one quantity with a given value: its symbol, the digit of
/// its joint, the value and its unit.
pub open spec fn spec_row(var: Var, val: Scalar) -> RowView {
    RowView {
        var,
        symbol: var.spec_quantity().spec_symbol(),
        subscript: spec_subscript(var.spec_joint()),
        value: val,
        unit: var.spec_quantity().spec_unit(),
    }
}

/// The section for one kind of quantity in a given state: its heading over
/// the lines of the first, second and third joint, each with the value that
/// the state holds.
pub open spec fn spec_section(model: Model, quantity: Quantity) -> SectionView {
    SectionView {
        title: quantity.spec_title(),
        rows: Seq::new(
            3,
            |i: int| spec_row(quantity.spec_at(i + 1), model.spec_get(quantity.spec_at(i + 1))),
        ),
    }
}

/// The place of a kind of quantity in the form.
pub open spec fn spec_section_index(quantity: Quantity) -> int {
    match quantity {
        Quantity::Length => 0,
        Quantity::Angle => 1,
        Quantity::Velocity => 2,
    }
}

/// The form in a given state: lengths, then angles, then velocities.
pub open spec fn spec_view(model: Model) -> Seq<SectionView> {
    seq![
        spec_section(model, Quantity::Length),
        spec_section(model, Quantity::Angle),
        spec_section(model, Quantity::Velocity),
    ]
}

/// Lays out the line for one quantity.
pub fn char_sub_val_un(var: Var, val: Scalar) -> (row: Row)
    ensures
        row@ == spec_row(var, val),
{
    Row { var, symbol: var.symbol(), subscript: var.subscript(), value: val, unit: var.unit() }
}

/// Lays out the section for one kind of quantity.
pub fn section(model: &Model, quantity: Quantity) -> (sec: Section)
    ensures
        sec@ == spec_section(*model, quantity),
        sec.rows@.len() == 3,
        forall|i: int|
            0 <= i < 3 ==> (#[trigger] sec.rows@[i])@ == spec_section(*model, quantity).rows[i],
{
    let mut rows: Vec<Row> = Vec::new();
    let mut joint: u8 = 1;
    while joint <= 3
        invariant
            1 <= joint <= 4,
            rows@.len() == joint - 1,
            forall|i: int|
                0 <= i < rows@.len() ==> (#[trigger] rows@[i])@ == spec_row(
                    quantity.spec_at(i + 1),
                    model.spec_get(quantity.spec_at(i + 1)),
                ),
        decreases 4 - joint,
    {
        if let Some(var) = quantity.at(joint) {
            rows.push(char_sub_val_un(var, model.get(var)));
        }
        joint = joint + 1;
    }
    let sec = Section { title: quantity.title(), rows };
    assert(sec@.rows =~= spec_section(*model, quantity).rows);
    sec
}

/// Lays out the form for a state: one section for each kind of quantity,
/// nine lines in all, each showing the value that the state holds.
pub fn view(model: &Model) -> (form: Vec<Section>)
    ensures
        form@.len() == 3,
        forall|s: int| 0 <= s < 3 ==> (#[trigger] form@[s])@ == spec_view(*model)[s],
        forall|s: int| 0 <= s < 3 ==> (#[trigger] form@[s]).rows@.len() == 3,
        forall|s: int, i: int|
            0 <= s < 3 && 0 <= i < 3 ==> (#[trigger] form@[s].rows@[i])@ == spec_view(
                *model,
            )[s].rows[i],
{
    let mut form: Vec<Section> = Vec::new();
    form.push(section(model, Quantity::Length));
    form.push(section(model, Quantity::Angle));
    form.push(section(model, Quantity::Velocity));
    form
}

/// Every quantity has exactly one line in the form, in the section of its
/// kind at the place of its joint, and that line shows its value.
pub proof fn lemma_view_shows_each_once(model: Model, var: Var)
    ensures
        spec_view(model).len() == 3,
        forall|s: int| 0 <= s < 3 ==> (#[trigger] spec_view(model)[s]).rows.len() == 3,
        forall|s: int, i: int|
            0 <= s < 3 && 0 <= i < 3 ==> ((#[trigger] spec_view(model)[s].rows[i]).var == var
                <==> s == spec_section_index(var.spec_quantity()) && i == var.spec_joint() - 1),
        spec_view(model)[spec_section_index(var.spec_quantity())].rows[var.spec_joint() - 1]
            == spec_row(var, model.spec_get(var)),
{
}

/// An edit changes one line of the form and no other: the line of the
/// edited quantity shows the sanitized entry.
pub proof fn lemma_edit_changes_one_row(model: Model, var: Var, val: Scalar, s: int, i: int)
    requires
        0 <= s < 3,
        0 <= i < 3,
    ensures
        ({
            let before = spec_view(model)[s].rows[i];
            let after = spec_view(model.spec_after(crate::model::Msg::UpdateVar(var, val)))[s].rows[i];
            if before.var == var {
                after == spec_row(var, val.spec_sanitized())
            } else {
                after == before
            }
        }),
{
    crate::model::lemma_with_sets_one(model, var, val.spec_sanitized());
}

} // verus!
