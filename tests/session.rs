use tf_executor::args::Operation;
use tf_executor::executor::{Executor, ExecutorOptions};
use tf_executor::inputs::InputValues;
use tf_executor::outcome::{decode, decode_output, process_result, ExecError, ProcessOutcome};
use tf_executor::{executable, executable_path};

fn options(static_workspace: bool) -> ExecutorOptions {
    ExecutorOptions { static_workspace, debug_mode: false, output: false }
}

fn outcome(success: bool, stdout: &str, stderr: &str) -> ProcessOutcome {
    ProcessOutcome { success, stdout: stdout.to_string(), stderr: stderr.to_string() }
}

#[test]
fn executable_paths() {
    assert_eq!(executable_path(), "./.tf");
    assert_eq!(executable("linux"), "./.tf/terraform");
    assert_eq!(executable("windows"), "./.tf/terraform.exe");
}

#[test]
fn static_workspace_is_shared() {
    let a = Executor::new(options(true));
    let b = Executor::new(options(true));
    assert_eq!(a.workspace().dir(), "./.tf/mod");
    assert_eq!(a.workspace().dir(), b.workspace().dir());
}

#[test]
fn fresh_workspaces_differ() {
    let a = Executor::new(options(false));
    let b = Executor::new(options(false));
    assert_ne!(a.workspace().dir(), b.workspace().dir());
    let id = a.workspace().dir().strip_prefix("./.tf/").unwrap().to_string();
    assert_eq!(id.len(), 36);
    assert!(id.chars().all(|c| c == '-' || c.is_ascii_digit() || ('a'..='f').contains(&c)));
}

#[test]
fn new_executor_starts_empty() {
    let e = Executor::new(ExecutorOptions::default());
    assert!(!e.workspace().initialized());
    assert!(e.inputs().is_empty());
    assert_eq!(e.current_op(), None);
    assert!(!e.options().output);
}

#[test]
fn init_runs_once() {
    let mut e = Executor::new(options(true));
    let first = e.init("https://example.com/m").unwrap();
    assert_eq!(first[0], "init");
    assert!(e.init_finished(outcome(true, "ok", "")).is_ok());
    assert!(e.workspace().initialized());
    assert!(e.init("https://example.com/m").is_none());
    assert_eq!(e.current_op(), Some(Operation::Init));
}

#[test]
fn failed_init_can_be_asked_again() {
    let mut e = Executor::new(options(true));
    assert!(e.init("https://example.com/m").is_some());
    let r = e.init_finished(outcome(false, "", "no such module"));
    assert!(matches!(r, Err(ExecError::Process(m)) if m == "no such module"));
    assert!(!e.workspace().initialized());
    assert!(e.init("https://example.com/m").is_some());
}

#[test]
fn operations_use_current_inputs() {
    let mut e = Executor::new(options(true));
    e.set_inputs(vec![("str".to_string(), InputValues::Str("bar".to_string()))])
        .set_inputs(vec![("n".to_string(), InputValues::Integer(5))]);
    assert_eq!(e.inputs().len(), 1);
    assert_eq!(e.plan(), vec!["plan", "-var=n=5", "-auto-approve"]);
    assert_eq!(e.current_op(), Some(Operation::Plan));
    assert_eq!(e.apply(), vec!["apply", "-var=n=5", "-auto-approve"]);
    assert_eq!(e.refresh(), vec!["refresh", "-var=n=5", "-auto-approve"]);
    assert_eq!(e.destroy(), vec!["destroy", "-var=n=5", "-auto-approve"]);
    assert_eq!(e.current_op(), Some(Operation::Destroy));
    assert_eq!(e.output(), vec!["output", "-json"]);
    assert_eq!(e.current_op(), Some(Operation::Output));
}

#[test]
fn failure_carries_stderr_not_stdout() {
    let r = process_result(outcome(false, "partial", "no such module"));
    match r {
        Err(e) => {
            assert!(matches!(e, ExecError::Process(_)));
            assert_eq!(e.message(), "no such module");
        }
        Ok(_) => panic!("expected a process failure"),
    }
}

#[test]
fn success_yields_stdout() {
    let r = process_result(outcome(true, "done", "warn"));
    assert!(matches!(r, Ok(s) if s == "done"));
}

#[test]
fn output_decodes_json() {
    let r = decode_output(outcome(true, "{\"a\":{\"value\":1}}", "")).ok().unwrap();
    let mut inner = serde_json::Map::new();
    inner.insert("value".to_string(), serde_json::Value::from(1));
    let mut outer = serde_json::Map::new();
    outer.insert("a".to_string(), serde_json::Value::Object(inner));
    assert_eq!(r, serde_json::Value::Object(outer));
}

#[test]
fn malformed_output_is_a_decode_failure() {
    let r = decode_output(outcome(true, "{bad", ""));
    assert!(matches!(r, Err(ExecError::Decode(_))));
    assert!(matches!(decode("{bad"), Err(ExecError::Decode(m)) if !m.is_empty()));
}

#[test]
fn failed_output_run_is_a_process_failure() {
    let r = decode_output(outcome(false, "{\"a\":1}", "boom"));
    assert!(matches!(r, Err(ExecError::Process(m)) if m == "boom"));
}
