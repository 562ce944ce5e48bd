use planar3r::field::{Quantity, Var};
use planar3r::form::{char_sub_val_un, section, view};
use planar3r::model::{init, update, Msg};
use planar3r::scalar::Scalar;

fn bits_of(x: f64) -> Scalar {
    Scalar::from_bits(x.to_bits())
}

#[test]
fn symbols_units_and_subscripts() {
    let table = [
        (Var::L1, "L", "1", " m"),
        (Var::L2, "L", "2", " m"),
        (Var::L3, "L", "3", " m"),
        (Var::A1, "θ", "1", "º"),
        (Var::A2, "θ", "2", "º"),
        (Var::A3, "θ", "3", "º"),
        (Var::O1, "ω", "1", " rad/s"),
        (Var::O2, "ω", "2", " rad/s"),
        (Var::O3, "ω", "3", " rad/s"),
    ];
    for (var, symbol, subscript, unit) in table.iter() {
        assert_eq!(var.symbol(), *symbol);
        assert_eq!(var.subscript(), *subscript);
        assert_eq!(var.unit(), *unit);
    }
}

#[test]
fn quantity_and_joint_of_each_field() {
    let table = [
        (Var::L1, Quantity::Length, 1u8),
        (Var::L2, Quantity::Length, 2),
        (Var::L3, Quantity::Length, 3),
        (Var::A1, Quantity::Angle, 1),
        (Var::A2, Quantity::Angle, 2),
        (Var::A3, Quantity::Angle, 3),
        (Var::O1, Quantity::Velocity, 1),
        (Var::O2, Quantity::Velocity, 2),
        (Var::O3, Quantity::Velocity, 3),
    ];
    for (var, quantity, joint) in table.iter() {
        assert_eq!(var.quantity(), *quantity);
        assert_eq!(var.joint(), *joint);
        assert_eq!(quantity.at(*joint), Some(*var));
    }
}

#[test]
fn no_field_beyond_the_third_joint() {
    for quantity in [Quantity::Length, Quantity::Angle, Quantity::Velocity].iter() {
        assert_eq!(quantity.at(0), None);
        assert_eq!(quantity.at(4), None);
        assert_eq!(quantity.at(255), None);
    }
}

#[test]
fn titles_of_the_sections() {
    assert_eq!(Quantity::Length.title(), "Lengths");
    assert_eq!(Quantity::Angle.title(), "Angles");
    assert_eq!(Quantity::Velocity.title(), "Velocities");
    assert_eq!(Quantity::Length.symbol(), "L");
    assert_eq!(Quantity::Angle.symbol(), "θ");
    assert_eq!(Quantity::Velocity.symbol(), "ω");
    assert_eq!(Quantity::Length.unit(), " m");
    assert_eq!(Quantity::Angle.unit(), "º");
    assert_eq!(Quantity::Velocity.unit(), " rad/s");
}

#[test]
fn row_of_one_field() {
    let row = char_sub_val_un(Var::A3, bits_of(60.0));
    assert_eq!(row.var, Var::A3);
    assert_eq!(row.symbol, "θ");
    assert_eq!(row.subscript, "3");
    assert_eq!(f64::from_bits(row.value.to_bits()), 60.0);
    assert_eq!(row.unit, "º");
}

#[test]
fn row_shows_the_value_it_was_given() {
    let row = char_sub_val_un(Var::O1, bits_of(f64::NAN));
    assert!(f64::from_bits(row.value.to_bits()).is_nan());
    assert_eq!(row.symbol, "ω");
    assert_eq!(row.subscript, "1");
    assert_eq!(row.unit, " rad/s");
}

#[test]
fn section_of_angles_at_start() {
    let sec = section(&init(), Quantity::Angle);
    assert_eq!(sec.title, "Angles");
    assert_eq!(sec.rows.len(), 3);
    let vars: Vec<Var> = sec.rows.iter().map(|r| r.var).collect();
    assert_eq!(vars, vec![Var::A1, Var::A2, Var::A3]);
    let values: Vec<f64> = sec.rows.iter().map(|r| f64::from_bits(r.value.to_bits())).collect();
    assert_eq!(values, vec![25.0, 310.0, 60.0]);
}

#[test]
fn form_at_start() {
    let form = view(&init());
    assert_eq!(form.len(), 3);
    let titles: Vec<&str> = form.iter().map(|s| s.title).collect();
    assert_eq!(titles, vec!["Lengths", "Angles", "Velocities"]);
    let mut labels: Vec<String> = Vec::new();
    let mut values: Vec<f64> = Vec::new();
    let mut vars: Vec<Var> = Vec::new();
    for sec in form.iter() {
        assert_eq!(sec.rows.len(), 3);
        for row in sec.rows.iter() {
            labels.push(format!("{}{} = _{}", row.symbol, row.subscript, row.unit));
            values.push(f64::from_bits(row.value.to_bits()));
            vars.push(row.var);
        }
    }
    assert_eq!(
        labels,
        vec![
            "L1 = _ m",
            "L2 = _ m",
            "L3 = _ m",
            "θ1 = _º",
            "θ2 = _º",
            "θ3 = _º",
            "ω1 = _ rad/s",
            "ω2 = _ rad/s",
            "ω3 = _ rad/s",
        ]
    );
    assert_eq!(values, vec![1.0, 1.0, 1.0, 25.0, 310.0, 60.0, 4.0, -2.0, 6.0]);
    assert_eq!(
        vars,
        vec![Var::L1, Var::L2, Var::L3, Var::A1, Var::A2, Var::A3, Var::O1, Var::O2, Var::O3]
    );
}

#[test]
fn form_shows_an_edit() {
    let mut m = init();
    update(Msg::UpdateVar(Var::L1, bits_of(2.5)), &mut m);
    let form = view(&m);
    let mut values: Vec<f64> = Vec::new();
    for sec in form.iter() {
        for row in sec.rows.iter() {
            values.push(f64::from_bits(row.value.to_bits()));
        }
    }
    assert_eq!(values, vec![2.5, 1.0, 1.0, 25.0, 310.0, 60.0, 4.0, -2.0, 6.0]);
}

#[test]
fn form_shows_zero_after_a_malformed_entry() {
    let mut m = init();
    update(Msg::UpdateVar(Var::A2, bits_of(f64::NAN)), &mut m);
    let form = view(&m);
    assert_eq!(form[1].rows[1].var, Var::A2);
    assert_eq!(form[1].rows[1].value.to_bits(), 0);
    assert_eq!(f64::from_bits(form[1].rows[0].value.to_bits()), 25.0);
    assert_eq!(f64::from_bits(form[1].rows[2].value.to_bits()), 60.0);
}

#[test]
fn form_is_the_same_for_the_same_state() {
    let m = init();
    let a = view(&m);
    let b = view(&m);
    assert_eq!(format!("{:?}", a), format!("{:?}", b));
}
