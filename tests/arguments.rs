use tf_executor::args::{
    build_args, generate_flags, generate_inputs, generate_options, init_args, Operation,
};
use tf_executor::inputs::{collect_inputs, integer_text, render_value, render_var, InputValues};

fn entry(name: &str, value: InputValues) -> (String, InputValues) {
    (name.to_string(), value)
}

#[test]
fn string_input_renders_verbatim() {
    let t = render_var("x", &InputValues::Str("bar".to_string()));
    assert_eq!(t, "-var=x=bar");
}

#[test]
fn integer_input_renders_decimal() {
    let t = render_var("n", &InputValues::Integer(5));
    assert_eq!(t, "-var=n=5");
}

#[test]
fn float_input_renders_its_text() {
    let t = render_var("f", &InputValues::Float(1.5f32.to_string()));
    assert_eq!(t, "-var=f=1.5");
}

#[test]
fn integer_text_edges() {
    assert_eq!(integer_text(0), "0");
    assert_eq!(integer_text(-7), "-7");
    assert_eq!(integer_text(1200), "1200");
    assert_eq!(integer_text(i32::MAX), i32::MAX.to_string());
    assert_eq!(integer_text(i32::MIN), i32::MIN.to_string());
}

#[test]
fn values_are_not_escaped() {
    let v = InputValues::Str("a b=c".to_string());
    assert_eq!(render_value(&v), "a b=c");
    assert_eq!(render_var("k", &v), "-var=k=a b=c");
}

#[test]
fn apply_has_one_var_per_entry_then_auto_approve() {
    let entries = vec![
        entry("str", InputValues::Str("bar".to_string())),
        entry("n", InputValues::Integer(5)),
    ];
    for op in [Operation::Apply, Operation::Plan, Operation::Destroy, Operation::Refresh] {
        let a = build_args(op, &entries);
        assert_eq!(a.len(), 4);
        assert_eq!(a[0], op.keyword());
        assert_eq!(a.iter().filter(|t| *t == "-var=str=bar").count(), 1);
        assert_eq!(a.iter().filter(|t| *t == "-var=n=5").count(), 1);
        assert_eq!(a[3], "-auto-approve");
    }
}

#[test]
fn apply_without_inputs() {
    let a = build_args(Operation::Apply, &Vec::new());
    assert_eq!(a, vec!["apply".to_string(), "-auto-approve".to_string()]);
}

#[test]
fn output_ends_with_json_and_has_no_vars() {
    let entries = vec![entry("x", InputValues::Str("bar".to_string()))];
    let a = build_args(Operation::Output, &entries);
    assert_eq!(a, vec!["output".to_string(), "-json".to_string()]);
    assert!(a.iter().all(|t| !t.starts_with("-var=")));
}

#[test]
fn other_operations_take_no_vars_or_flags() {
    let entries = vec![entry("x", InputValues::Integer(1))];
    for (op, word) in [
        (Operation::Init, "init"),
        (Operation::Taint, "taint"),
        (Operation::Untaint, "untaint"),
        (Operation::Show, "show"),
        (Operation::State, "state"),
    ] {
        assert_eq!(build_args(op, &entries), vec![word.to_string()]);
    }
}

#[test]
fn init_arguments_fetch_from_git() {
    let a = init_args("https://example.com/mod");
    assert_eq!(
        a,
        vec!["init".to_string(), "-from-module=git::https://example.com/mod".to_string()]
    );
}

#[test]
fn later_entry_for_a_name_wins() {
    let pairs = vec![
        entry("a", InputValues::Integer(1)),
        entry("b", InputValues::Integer(2)),
        entry("a", InputValues::Integer(3)),
    ];
    let r = collect_inputs(&pairs);
    assert_eq!(r.len(), 2);
    let args = build_args(Operation::Plan, &r);
    assert!(args.contains(&"-var=a=3".to_string()));
    assert!(args.contains(&"-var=b=2".to_string()));
    assert!(!args.contains(&"-var=a=1".to_string()));
}

#[test]
fn stages_of_the_argument_vector() {
    let entries = vec![entry("x", InputValues::Integer(-3))];
    assert_eq!(generate_inputs(Operation::Refresh, &entries), vec!["-var=x=-3".to_string()]);
    assert!(generate_inputs(Operation::Output, &entries).is_empty());
    assert!(generate_inputs(Operation::Show, &entries).is_empty());
    assert_eq!(generate_flags(Operation::Destroy), vec!["-auto-approve".to_string()]);
    assert_eq!(generate_flags(Operation::Output), vec!["-json".to_string()]);
    assert!(generate_flags(Operation::State).is_empty());
    assert!(generate_options(Operation::Init).is_empty());
}

#[test]
fn keywords_of_operations() {
    let all = [
        (Operation::Init, "init"),
        (Operation::Plan, "plan"),
        (Operation::Apply, "apply"),
        (Operation::Destroy, "destroy"),
        (Operation::Refresh, "refresh"),
        (Operation::Taint, "taint"),
        (Operation::Untaint, "untaint"),
        (Operation::Show, "show"),
        (Operation::Output, "output"),
        (Operation::State, "state"),
    ];
    for (op, word) in all {
        assert_eq!(op.keyword(), word);
    }
}
