use render_kit::util::variable::UpdateVariable;

#[test]
fn update_variable_starts_changed() {
    let var = UpdateVariable::from(7u32);
    assert!(var.has_changed());
    assert_eq!(*var.get_value(), 7);
}

#[test]
fn update_variable_set_value_replaces() {
    let mut var = UpdateVariable::from(String::from("before"));
    var.set_value(String::from("after"));
    assert_eq!(var.get_value(), "after");
    assert!(var.has_changed());
}

#[test]
fn update_variable_mutate_value_edits_in_place() {
    let mut var = UpdateVariable::from(vec![1, 2, 3]);
    var.mutate_value(|list| list.push(4));
    assert_eq!(*var.get_value(), vec![1, 2, 3, 4]);
    assert!(var.has_changed());
}

#[test]
fn update_variable_mutate_value_sees_current_value() {
    let mut var = UpdateVariable::from(10i64);
    var.set_value(20);
    var.mutate_value(|value| *value += 1);
    assert_eq!(*var.get_value(), 21);
}
