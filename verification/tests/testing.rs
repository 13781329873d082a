use std::time::Duration;

use osc::testing::{
    failures, phases, summarize, Action, Assertion, Body, Config, Context, ContextError, Definition, Fixture, Json,
    ModuleCall, Options, Outcome, Phase, PhaseRun, RunStep, Script, Status, Step, Summary, Test, TestStart, Value,
    missing_definition,
};

fn get_step(component: &str, delay: Option<u64>, skip: Option<bool>) -> Step {
    Step {
        action: Action::Get { component: component.to_string(), object: String::from("o") },
        assert: Assertion::default(),
        options: Options { delay, skip },
    }
}

#[test]
fn defaults_of_a_definition() {
    let c = Config::default();
    assert_eq!(c.client_name, "osc");
    assert_eq!(c.max_payload_size, 0);
    let a = Assertion::default();
    assert!(a.value.is_none() && a.size.is_none());
    assert_eq!(a.status, Status::Success);
    assert_eq!(Status::default(), Status::Success);
    let o = Options::default();
    assert!(o.delay.is_none() && o.skip.is_none());
}

#[test]
fn json_parse_refuses_what_is_not_json() {
    assert!(Json::parse(String::from("{\"a\": [1]}")).is_ok());
    let serde_message = serde_json::from_str::<serde_json::Value>("{oops").unwrap_err().to_string();
    assert_eq!(Json::parse(String::from("{oops")).unwrap_err(), format!("{}: {{oops", serde_message));
    let doc = Json::parse(String::from("{\"a\": [1]}")).unwrap();
    assert_eq!(doc.0, serde_json::from_str::<serde_json::Value>("{\"a\":[1]}").unwrap());
}

#[test]
fn payload_is_compact_json_with_its_byte_size() {
    let v = Value::Json(Json::parse(String::from("{ \"a\" : 1 }")).unwrap());
    assert_eq!(v.to_payload(), (String::from("{\"a\":1}"), 7));
    let v = Value::Payload(serde_json::from_str("\"é\"").unwrap());
    // Two quotes and a two-byte character.
    assert_eq!(v.to_payload(), (String::from("\"é\""), 4));
}

#[test]
fn test_of_a_step_takes_its_options() {
    let t = Test::from(&get_step("c", Some(250), Some(false)));
    assert_eq!((t.delay, t.skip), (250, false));
    assert_eq!(t.start(), TestStart::Run { delay: 250 });
    let t = Test::from(&get_step("c", None, None));
    assert_eq!((t.delay, t.skip), (0, false));
    let t = Test::from(&get_step("c", Some(5), Some(true)));
    assert_eq!(t.start(), TestStart::Skip);
}

#[test]
fn fixture_has_a_test_per_step_in_order() {
    let d = Definition {
        config: Config { client_name: String::from("me"), max_payload_size: 64 },
        modules: vec![String::from("blah")],
        setup: Some(Script(String::from("echo setup"))),
        teardown: None,
        steps: vec![get_step("a", Some(1), None), get_step("b", None, Some(true))],
    };
    let f = Fixture::of(&d);
    assert_eq!(f.config.client_name, "me");
    assert_eq!(f.config.max_payload_size, 64);
    assert_eq!(f.modules, vec!["blah"]);
    assert_eq!(f.tests.len(), 2);
    assert!(matches!(&f.tests[0].body.action, Action::Get { component, .. } if component == "a"));
    assert_eq!(f.tests[0].delay, 1);
    assert!(f.tests[1].skip);
    let (setup, teardown, f2) = d.into_parts();
    assert_eq!(setup.unwrap().0, "echo setup");
    assert!(teardown.is_none());
    assert_eq!(f2.tests.len(), 2);
}

#[test]
fn phases_wrap_the_fixture_in_the_scripts() {
    let p = phases(Some(Script(String::from("s"))), Some(Script(String::from("t"))));
    assert_eq!(p.len(), 3);
    assert!(matches!(&p[0], Phase::Setup(Script(s)) if s == "s"));
    assert!(matches!(&p[1], Phase::Fixture));
    assert!(matches!(&p[2], Phase::Teardown(Script(t)) if t == "t"));
    let p = phases(None, None);
    assert_eq!(p.len(), 1);
    assert!(matches!(&p[0], Phase::Fixture));
}

fn context() -> Context {
    let mut ctx = Context::new();
    ctx.add_module(String::from("blah"), 7);
    ctx.add_component(String::from("Blah"), String::from("blah"));
    ctx.add_session(String::from("blah"), 9);
    ctx.add_component(String::from("Lonely"), String::from("nosession"));
    ctx.add_component(String::from("Orphan"), String::from("gone"));
    ctx.add_session(String::from("gone"), 3);
    ctx
}

#[test]
fn context_finds_the_module_of_a_component() {
    let ctx = context();
    assert_eq!(ctx.module("Blah").unwrap(), (7, 9));
    assert!(matches!(ctx.module("Nope"), Err(ContextError::ComponentNotFound(c)) if c == "Nope"));
    assert!(matches!(ctx.module("Lonely"), Err(ContextError::SessionNotFound(m)) if m == "nosession"));
    assert!(matches!(ctx.module("Orphan"), Err(ContextError::ModuleNotFound(m)) if m == "gone"));
}

#[test]
fn body_makes_the_module_call_of_its_action() {
    let ctx = context();
    let get = Body::new(
        Action::Get { component: String::from("Blah"), object: String::from("foo") },
        Assertion::default(),
    );
    match get.call(&ctx).unwrap() {
        ModuleCall::Get { library, session, component, object } => {
            assert_eq!((library, session, component.as_str(), object.as_str()), (7, 9, "Blah", "foo"));
        }
        other => panic!("unexpected {:?}", other),
    }
    let value = Value::Json(Json::parse(String::from("[1, 2]")).unwrap());
    let set = Body::new(
        Action::SetObject { component: String::from("Blah"), object: String::from("bar"), value, size: None },
        Assertion::default(),
    );
    match set.call(&ctx).unwrap() {
        ModuleCall::SetObject { payload, size, .. } => assert_eq!((payload.as_str(), size), ("[1,2]", 5)),
        other => panic!("unexpected {:?}", other),
    }
    let value = Value::Json(Json::parse(String::from("[1, 2]")).unwrap());
    let sized = Body::new(
        Action::SetObject { component: String::from("Blah"), object: String::from("bar"), value, size: Some(99) },
        Assertion::default(),
    );
    assert!(matches!(sized.call(&ctx).unwrap(), ModuleCall::SetObject { size: 99, .. }));
    let missing = Body::new(
        Action::Get { component: String::from("Nope"), object: String::from("foo") },
        Assertion::default(),
    );
    assert!(matches!(missing.call(&ctx), Err(ContextError::ComponentNotFound(_))));
}

#[test]
fn outcomes_of_runs() {
    let d = Duration::from_millis(3);
    assert!(matches!(Outcome::of_run(d, Ok(()), String::from("log")), Outcome::Success { duration } if duration == d));
    match Outcome::of_run(d, Err(String::from("boom")), String::from("log")) {
        Outcome::Failure { duration, failure } => {
            assert_eq!(duration, d);
            assert_eq!(failure.error, "boom");
            assert_eq!(failure.log, "log");
        }
        other => panic!("unexpected {:?}", other),
    }
    match Outcome::failed(d, String::from("e"), None) {
        Outcome::Failure { failure, .. } => assert_eq!(failure.log, ""),
        other => panic!("unexpected {:?}", other),
    }
    assert!(matches!(Outcome::skipped(), Outcome::Skipped));
}

#[test]
fn summary_counts_add_up() {
    let d = Duration::from_millis(1);
    let outcomes = vec![
        Outcome::passed(d),
        Outcome::failed(d, String::from("a"), None),
        Outcome::skipped(),
        Outcome::failed(d, String::from("b"), Some(String::from("l"))),
        Outcome::passed(d),
    ];
    let s = summarize(&outcomes);
    assert_eq!(s, Summary { passed: 2, failed: 2, skipped: 1, total: 5 });
    assert_eq!(s.passed + s.failed + s.skipped, s.total);
    let f = failures(&outcomes);
    assert_eq!(f.iter().map(|(i, _)| *i).collect::<Vec<_>>(), vec![1, 3]);
    assert_eq!(f[1].1.error, "b");
    assert_eq!(summarize(&vec![]), Summary { passed: 0, failed: 0, skipped: 0, total: 0 });
}

#[test]
fn outcome_lines_align_their_times() {
    assert_eq!(Outcome::passed(Duration::from_millis(12)).line(), "passed    12ms");
    assert_eq!(Outcome::failed(Duration::from_micros(3500), String::from("e"), None).line(), "failed   3ms");
    assert_eq!(Outcome::skipped().line(), "skipped");
    assert_eq!(Outcome::skipped().verdict(), "skipped");
    assert_eq!(Outcome::passed(Duration::from_secs(2)).verdict(), "passed");
}

#[test]
fn phase_run_stops_at_the_first_failure() {
    let all = || phases(Some(Script(String::from("s"))), Some(Script(String::from("t"))));
    let mut run = PhaseRun::new(all());
    assert!(matches!(run.step(Ok(())), RunStep::Run(Phase::Setup(_))));
    assert!(matches!(run.step(Ok(())), RunStep::Run(Phase::Fixture)));
    assert!(matches!(run.step(Ok(())), RunStep::Run(Phase::Teardown(_))));
    assert!(matches!(run.step(Ok(())), RunStep::Finished(Ok(()))));
    let mut run = PhaseRun::new(all());
    assert!(matches!(run.step(Ok(())), RunStep::Run(Phase::Setup(_))));
    assert!(matches!(run.step(Err(String::from("setup failed"))), RunStep::Finished(Err(e)) if e == "setup failed"));
    // Nothing runs after a failure, not even the teardown.
    assert!(matches!(run.step(Ok(())), RunStep::Finished(Ok(()))));
}

#[test]
fn run_messages() {
    assert_eq!(missing_definition("/m/test.yml"), "Test definition file not found: /m/test.yml");
    assert_eq!(ContextError::ComponentNotFound(String::from("C")).message(), "Component not found: C");
    assert_eq!(ContextError::SessionNotFound(String::from("m")).message(), "Session not found: m");
    assert_eq!(ContextError::ModuleNotFound(String::from("m")).message(), "Module not found: m");
    assert_eq!(Summary { passed: 1, failed: 0, skipped: 2, total: 3 }.verdict(), "PASSED");
    assert_eq!(Summary { passed: 1, failed: 1, skipped: 0, total: 2 }.verdict(), "FAILED");
}
