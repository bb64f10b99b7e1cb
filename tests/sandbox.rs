use antlion::{
    join, workspace_home, workspace_root, wrapper_program, wrapper_source, EvalError, EvalStep,
    Evaluation, InstallStep, Provision, Sandbox, ENTRY_POINT, OUTPUT_FILE, PROJECT_NAME,
};
use proc_macro2::TokenStream;
use std::str::FromStr;

fn fresh(root: &str) -> Sandbox {
    Sandbox::provisioned(Provision { home: "/base/id".to_string(), root: root.to_string() })
}

fn is_hyphenated_id(id: &str) -> bool {
    id.len() == 36
        && id.chars().enumerate().all(|(i, c)| {
            if i == 8 || i == 13 || i == 18 || i == 23 {
                c == '-'
            } else {
                c.is_ascii_digit() || ('a'..='f').contains(&c)
            }
        })
}

/// Runs an install, reporting the outcomes in turn; returns the specs attempted.
fn drive_install(sandbox: Sandbox, deps: &[&str], outcomes: &[bool]) -> (Vec<String>, Result<Sandbox, antlion::InstallError>) {
    let mut run = sandbox.deps(deps);
    let mut attempted = Vec::new();
    let mut i = 0;
    while let InstallStep::Add { project, spec } = run.step() {
        assert_eq!(project, "/ws");
        attempted.push(spec);
        run.report(outcomes[i]);
        i += 1;
    }
    (attempted, run.finish())
}

/// Runs an evaluation against a fake backend: `output` is what the program
/// leaves in the output file, `write_ok` whether writing the source works.
fn drive_eval(
    mut run: Evaluation<u32>,
    write_ok: bool,
    output: Option<&str>,
) -> (Vec<String>, Sandbox, Result<u32, EvalError>) {
    let mut log = Vec::new();
    loop {
        match run.step() {
            EvalStep::RemoveFile { path } => {
                log.push(format!("remove {}", path));
                run.report_io(true);
            }
            EvalStep::WriteFile { path, contents } => {
                log.push(format!("write {} {}", path, contents.len()));
                run.report_io(write_ok);
            }
            EvalStep::BuildAndRun { project } => {
                log.push(format!("run {}", project));
                run.report_io(true);
            }
            EvalStep::ReadFile { path } => {
                log.push(format!("read {}", path));
                run.report_read(output.map(|s| s.to_string()));
            }
            EvalStep::Parse { text } => {
                log.push(format!("parse {}", text));
                run.report_parsed(text.parse::<u32>().ok());
            }
            EvalStep::Finished => break,
        }
    }
    let (sandbox, result) = run.finish();
    (log, sandbox, result)
}

#[test]
fn join_puts_a_slash_between() {
    assert_eq!(join("/tmp", "x"), "/tmp/x");
    assert_eq!(join("", "x"), "/x");
}

#[test]
fn workspace_paths_nest_the_project_in_the_home() {
    assert_eq!(workspace_home("/base", "abc"), "/base/abc");
    assert_eq!(workspace_root("/base", "abc"), "/base/abc/sandbox");
    assert_eq!(PROJECT_NAME, "sandbox");
}

#[test]
fn new_names_the_home_by_a_fresh_hyphenated_id() {
    let plan = Sandbox::new("/base");
    let id = plan.home.strip_prefix("/base/").expect("home under base");
    assert!(is_hyphenated_id(id), "{}", id);
    assert_eq!(plan.root, format!("/base/{}/sandbox", id));
}

#[test]
fn two_new_sandboxes_are_isolated() {
    let a = Sandbox::new("/base");
    let b = Sandbox::new("/base");
    assert_ne!(a.home, b.home);
    assert_ne!(a.root, b.root);
    assert!(!a.root.starts_with(&format!("{}/", b.home)));
    assert!(!b.root.starts_with(&format!("{}/", a.home)));
}

#[test]
fn new_with_id_is_exact() {
    let plan = Sandbox::new_with_id("/b", "x");
    assert_eq!(plan.home, "/b/x");
    assert_eq!(plan.root, "/b/x/sandbox");
}

#[test]
fn provisioned_sandbox_is_empty() {
    let s = fresh("/ws");
    assert_eq!(s.root(), "/ws");
    assert!(s.installed().is_empty());
    assert!(s.program().is_none());
    assert!(s.output_clear());
}

#[test]
fn wrapper_source_surrounds_the_expression() {
    let p = wrapper_source("2 + 2");
    assert!(p.starts_with("use std::io::prelude::*;"));
    assert!(p.contains("let output = { 2 + 2 }.to_string();"));
    assert!(p.contains("File::create(\"output\")"));
    assert!(p.contains("fn main()"));
    assert_eq!(OUTPUT_FILE, "output");
    assert_eq!(ENTRY_POINT, "src/main.rs");
}

#[test]
fn program_evaluates_before_creating_the_output() {
    let p = wrapper_source("Option::<String>::None.unwrap()");
    let evaluated = p.find("{ Option::<String>::None.unwrap() }").unwrap();
    let created = p.find("File::create").unwrap();
    assert!(evaluated < created);
}

#[test]
fn wrapper_program_prints_the_tokens() {
    let expr = TokenStream::from_str("2 + 2").unwrap();
    let p = wrapper_program(&expr);
    assert_eq!(p, wrapper_source("2 + 2"));
    let q = wrapper_program(&TokenStream::from_str("vec![1u8]").unwrap());
    assert!(q.contains("vec"));
    assert_ne!(p, q);
}

#[test]
fn install_adds_every_spec_in_order() {
    let (attempted, r) = drive_install(fresh("/ws"), &["a", "b", "c"], &[true, true, true]);
    assert_eq!(attempted, vec!["a", "b", "c"]);
    let s = r.ok().expect("installed");
    assert_eq!(s.installed(), &vec!["a".to_string(), "b".to_string(), "c".to_string()]);
}

#[test]
fn install_of_nothing_finishes_at_once() {
    let run = fresh("/ws").deps(&[]);
    assert!(matches!(run.step(), InstallStep::Finished));
    assert!(run.finish().is_ok());
}

#[test]
fn install_failure_keeps_earlier_specs_and_skips_later_ones() {
    let (attempted, r) = drive_install(fresh("/ws"), &["a", "b", "c"], &[true, false]);
    assert_eq!(attempted, vec!["a", "b"]);
    match r {
        Ok(_) => panic!("the add of b failed"),
        Err(e) => {
            assert_eq!(e.spec, "b");
            assert_eq!(e.sandbox.installed(), &vec!["a".to_string()]);
        }
    }
}

#[test]
fn failed_install_asks_for_nothing_more() {
    let mut run = fresh("/ws").deps(&["a", "b"]);
    run.report(false);
    assert!(matches!(run.step(), InstallStep::Failed));
}

#[test]
fn installs_in_sequence_concatenate() {
    let (_, r) = drive_install(fresh("/ws"), &["a"], &[true]);
    let (_, r) = drive_install(r.ok().unwrap(), &["b", "c"], &[true, true]);
    let s = r.ok().unwrap();
    assert_eq!(s.installed(), &vec!["a".to_string(), "b".to_string(), "c".to_string()]);
}

#[test]
fn eval_round_trips_two_plus_two() {
    let run = fresh("/ws").eval_text::<u32>("2 + 2");
    let (log, sandbox, result) = drive_eval(run, true, Some("4"));
    assert_eq!(result, Ok(4));
    let program = wrapper_source("2 + 2");
    assert_eq!(
        log,
        vec![
            format!("write /ws/src/main.rs {}", program.len()),
            "run /ws".to_string(),
            "read /ws/output".to_string(),
            "parse 4".to_string(),
            "remove /ws/output".to_string(),
        ]
    );
    assert!(sandbox.output_clear());
    assert_eq!(sandbox.program(), &Some(program));
}

#[test]
fn eval_of_tokens_writes_their_program() {
    let expr = TokenStream::from_str("2 + 2").unwrap();
    let (_, sandbox, result) = drive_eval(fresh("/ws").eval::<u32>(expr), true, Some("4"));
    assert_eq!(result, Ok(4));
    assert_eq!(sandbox.program(), &Some(wrapper_source("2 + 2")));
}

#[test]
fn eval_without_output_fails() {
    let (log, sandbox, result) = drive_eval(fresh("/ws").eval_text::<u32>("nope("), true, None);
    assert_eq!(result, Err(EvalError::Io));
    assert_eq!(log.last().unwrap(), "read /ws/output");
    assert!(!sandbox.output_clear());
}

#[test]
fn eval_of_a_panicking_expression_fails() {
    let expr = TokenStream::from_str("Option::<u32>::None.unwrap()").unwrap();
    let (_, _, result) = drive_eval(fresh("/ws").eval::<u32>(expr), true, None);
    assert_eq!(result, Err(EvalError::Io));
}

#[test]
fn eval_with_unparsable_output_fails_to_parse() {
    let (_, sandbox, result) = drive_eval(fresh("/ws").eval_text::<u32>("\"x\""), true, Some("x"));
    assert_eq!(result, Err(EvalError::Parse));
    assert!(!sandbox.output_clear());
    // the next evaluation clears the stale output before it runs anything
    let (log, sandbox, result) = drive_eval(sandbox.eval_text::<u32>("7"), true, Some("7"));
    assert_eq!(result, Ok(7));
    assert_eq!(log[0], "remove /ws/output");
    assert!(sandbox.output_clear());
}

#[test]
fn eval_with_failed_write_fails() {
    let (log, sandbox, result) = drive_eval(fresh("/ws").eval_text::<u32>("1"), false, Some("1"));
    assert_eq!(result, Err(EvalError::Io));
    assert_eq!(log.len(), 1);
    assert!(sandbox.program().is_none());
}

#[test]
fn eval_keeps_the_manifest() {
    let (_, r) = drive_install(fresh("/ws"), &["a"], &[true]);
    let (_, sandbox, _) = drive_eval(r.ok().unwrap().eval_text::<u32>("1"), true, Some("1"));
    assert_eq!(sandbox.installed(), &vec!["a".to_string()]);
}
