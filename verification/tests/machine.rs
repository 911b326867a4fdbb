use command_core::comparison::Comparison;
use command_core::machine::Machine;
use command_core::number::Number;
use command_core::signal::Failure;
use command_core::value::Value;
use command_core::variable::{Name, Permission, Variable};

fn number(n: f64) -> Value {
    Value::Number(Number::from_bits(n.to_bits()))
}

fn read_write(section: &str) -> Permission {
    Permission::ReadWrite(String::from(section))
}

#[test]
fn new_machine_has_section_flag_and_no_variables() {
    let vm = Machine::new(String::from("main"));
    assert_eq!(vm.current_section(), "main");
    assert!(vm.comparison_is(Comparison::Equal));
    assert!(!vm.comparison_is(Comparison::NotEqual));
    assert!(!vm.comparison_is(Comparison::Less));
    assert!(!vm.comparison_is(Comparison::Greater));
    assert_eq!(vm.value_of(&Variable::make_name("x", "main")), None);
}

#[test]
fn make_name_keeps_both_parts() {
    let name = Variable::make_name("x", "main");
    assert_eq!(name, Name { section: String::from("main"), local: String::from("x") });
    assert!(name.same(&Variable::make_name("x", "main")));
    assert!(!name.same(&Variable::make_name("x", "other")));
    assert!(!name.same(&Variable::make_name("y", "main")));
    assert!(!name.same(&Variable::make_name("main", "x")));
}

#[test]
fn names_do_not_run_together() {
    let a = Variable::make_name("bc", "a");
    let b = Variable::make_name("c", "ab");
    assert!(!a.same(&b));
    let mut vm = Machine::new(String::from("a"));
    vm.declare_variable(Variable::new("bc", "a", number(1.0), read_write("a")));
    assert_eq!(vm.value_of(&a), Some(&number(1.0)));
    assert_eq!(vm.value_of(&b), None);
}

#[test]
fn variable_new_fills_every_field() {
    let v = Variable::new("x", "main", number(3.0), read_write("main"));
    assert_eq!(v.name, Variable::make_name("x", "main"));
    assert_eq!(v.value, number(3.0));
    assert_eq!(v.permission, read_write("main"));
}

#[test]
fn declared_variable_is_found() {
    let mut vm = Machine::new(String::from("main"));
    vm.declare_variable(Variable::new("x", "main", number(3.0), read_write("main")));
    assert_eq!(vm.value_of(&Variable::make_name("x", "main")), Some(&number(3.0)));
    assert_eq!(vm.value_of(&Variable::make_name("y", "main")), None);
    assert_eq!(vm.value_of(&Variable::make_name("x", "other")), None);
}

#[test]
fn declaring_again_replaces() {
    let mut vm = Machine::new(String::from("main"));
    vm.declare_variable(Variable::new("x", "main", number(3.0), read_write("main")));
    vm.declare_variable(Variable::new("y", "main", number(4.0), read_write("main")));
    vm.declare_variable(Variable::new("x", "main", Value::text(String::from("t")), read_write("main")));
    assert_eq!(
        vm.value_of(&Variable::make_name("x", "main")),
        Some(&Value::Text(String::from("t")))
    );
    assert_eq!(vm.value_of(&Variable::make_name("y", "main")), Some(&number(4.0)));
}

#[test]
fn modify_overwrites_an_existing_variable() {
    let mut vm = Machine::new(String::from("main"));
    vm.declare_variable(Variable::new("x", "main", number(3.0), read_write("main")));
    vm.declare_variable(Variable::new("y", "main", number(4.0), read_write("main")));
    assert_eq!(vm.modify_variable(Variable::make_name("x", "main"), number(9.0)), Ok(()));
    assert_eq!(vm.value_of(&Variable::make_name("x", "main")), Some(&number(9.0)));
    assert_eq!(vm.value_of(&Variable::make_name("y", "main")), Some(&number(4.0)));
    assert_eq!(vm.modify_variable(Variable::make_name("y", "main"), number(5.0)), Ok(()));
    assert_eq!(vm.value_of(&Variable::make_name("x", "main")), Some(&number(9.0)));
    assert_eq!(vm.value_of(&Variable::make_name("y", "main")), Some(&number(5.0)));
}

#[test]
fn modify_of_an_unknown_variable_fails_and_changes_nothing() {
    let mut vm = Machine::new(String::from("main"));
    vm.declare_variable(Variable::new("x", "main", number(3.0), read_write("main")));
    assert_eq!(
        vm.modify_variable(Variable::make_name("z", "main"), number(9.0)),
        Err(Failure::Unresolved(Variable::make_name("z", "main")))
    );
    assert_eq!(
        vm.modify_variable(Variable::make_name("x", "other"), number(9.0)),
        Err(Failure::Unresolved(Variable::make_name("x", "other")))
    );
    assert_eq!(vm.value_of(&Variable::make_name("x", "main")), Some(&number(3.0)));
    assert_eq!(vm.value_of(&Variable::make_name("z", "main")), None);
}

#[test]
fn modify_does_not_ask_for_permission() {
    let mut vm = Machine::new(String::from("main"));
    vm.declare_variable(Variable::new("x", "main", number(3.0), read_write("elsewhere")));
    assert_eq!(vm.modify_variable(Variable::make_name("x", "main"), number(9.0)), Ok(()));
    assert_eq!(vm.value_of(&Variable::make_name("x", "main")), Some(&number(9.0)));
}

#[test]
fn sections_keep_their_variables_apart() {
    let mut vm = Machine::new(String::from("main"));
    vm.declare_variable(Variable::new("x", "main", number(1.0), read_write("main")));
    vm.enter_section(String::from("other"));
    assert_eq!(vm.current_section(), "other");
    vm.declare_variable(Variable::new("x", "other", number(2.0), read_write("other")));
    assert_eq!(vm.value_of(&Variable::make_name("x", "main")), Some(&number(1.0)));
    assert_eq!(vm.value_of(&Variable::make_name("x", "other")), Some(&number(2.0)));
    assert_eq!(vm.modify_variable(Variable::make_name("x", "other"), number(3.0)), Ok(()));
    assert_eq!(vm.value_of(&Variable::make_name("x", "main")), Some(&number(1.0)));
    assert_eq!(vm.value_of(&Variable::make_name("x", "other")), Some(&number(3.0)));
}

#[test]
fn flag_holds_the_last_outcome() {
    let mut vm = Machine::new(String::from("main"));
    for outcome in [Comparison::Less, Comparison::Greater, Comparison::NotEqual, Comparison::Equal] {
        vm.set_comparison(outcome);
        for other in [Comparison::Less, Comparison::Greater, Comparison::NotEqual, Comparison::Equal] {
            assert_eq!(vm.comparison_is(other), other == outcome);
        }
    }
}

#[test]
fn failures_are_fatal_or_not() {
    assert!(Failure::InvalidExitCode.is_fatal());
    assert!(Failure::InputUnavailable.is_fatal());
    assert!(!Failure::Evaluation(String::from("e")).is_fatal());
    assert!(!Failure::Comparison(String::from("c")).is_fatal());
    assert!(!Failure::Unresolved(Variable::make_name("x", "main")).is_fatal());
}
