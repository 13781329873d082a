//! Module test definitions and the decisions of the module test runner: which module a step
//! goes to, what it sends, and how the outcomes of the steps add up.
use vstd::prelude::*;

use crate::json::{
    error_message, json_error_message, json_parses, json_read, json_read_error, json_text,
    json_to_string, parse_json,
};
use crate::mpi::{decimal, decimal_text};
use crate::keyed::{entries_view, get_key, insert_key, lookup, put_key, unique_keys};

verus! {

/// The client settings of a test definition.
#[derive(Debug)]
pub struct Config {
    pub client_name: String,
    pub max_payload_size: u32,
}

impl Clone for Config {
    fn clone(&self) -> (r: Self)
        ensures
            r == *self,
    {
        Config { client_name: self.client_name.clone(), max_payload_size: self.max_payload_size }
    }
}

impl Default for Config {
    fn default() -> (r: Self)
        ensures
            r.client_name@ == "osc"@,
            r.max_payload_size == 0,
    {
        Config { client_name: "osc".to_owned(), max_payload_size: 0 }
    }
}

/// A shell script run before or after the steps.
#[derive(Debug)]
pub struct Script(pub String);

impl Clone for Script {
    fn clone(&self) -> (r: Self)
        ensures
            r == *self,
    {
        Script(self.0.clone())
    }
}

/// A JSON document given as text in a test definition.
#[derive(Debug)]
pub struct Json(pub crate::json::JsonDocument);

impl Clone for Json {
    fn clone(&self) -> (r: Self)
        ensures
            r == *self,
    {
        Json(self.0.clone())
    }
}

impl Json {
    /// Reads the JSON document of a text. A text that is not one is refused with serde's
    /// message of the parse error, a colon, a space and the text.
    pub fn parse(text: String) -> (r: Result<Json, String>)
        ensures
            r is Ok <==> json_parses(text@),
            r matches Ok(j) ==> j.0 == json_read(text@),
            r matches Err(t) ==> t@ == json_error_message(json_read_error(text@)) + ": "@ + text@,
    {
        match parse_json(text.as_str()) {
            Ok(value) => Ok(Json(value)),
            Err(e) => {
                proof {
                    reveal_strlit(": ");
                }
                let message = error_message(&e);
                let message = message.concat(": ");
                Err(message.concat(text.as_str()))
            },
        }
    }
}

/// A value that a step sets.
#[derive(Debug)]
pub enum Value {
    Payload(crate::json::JsonDocument),
    Json(Json),
}

impl Clone for Value {
    fn clone(&self) -> (r: Self)
        ensures
            r == *self,
    {
        match self {
            Value::Payload(p) => Value::Payload(p.clone()),
            Value::Json(j) => Value::Json(j.clone()),
        }
    }
}

/// The number of bytes of a text in UTF-8, as the module interface counts payload sizes.
pub open spec fn byte_len(s: Seq<char>) -> nat {
    vstd::utf8::encode_utf8(s).len()
}

/// The JSON document of a value.
pub open spec fn value_document(v: Value) -> crate::json::JsonDocument {
    match v {
        Value::Payload(p) => p,
        Value::Json(j) => j.0,
    }
}

impl Value {
    /// The compact JSON text of the value's document and its size in bytes.
    pub fn to_payload(&self) -> (r: (String, i32))
        ensures
            r.0@ == json_text(value_document(*self)),
            r.1 == #[verifier::truncate] ((#[verifier::truncate] (byte_len(r.0@) as usize)) as i32),
    {
        let doc = match self {
            Value::Payload(payload) => payload,
            Value::Json(json) => &json.0,
        };
        let payload = match json_to_string(doc) {
            Ok(text) => text,
            Err(_) => String::new(),
        };
        let size = payload.as_str().len();
        (payload, #[verifier::truncate] (size as i32))
    }
}

/// What a step does.
#[derive(Debug)]
pub enum Action {
    Get { component: String, object: String },
    SetObject { component: String, object: String, value: Value, size: Option<i32> },
}

impl Clone for Action {
    fn clone(&self) -> (r: Self)
        ensures
            r == *self,
    {
        match self {
            Action::Get { component, object } => Action::Get { component: component.clone(), object: object.clone() },
            Action::SetObject { component, object, value, size } => Action::SetObject {
                component: component.clone(),
                object: object.clone(),
                value: value.clone(),
                size: *size,
            },
        }
    }
}

/// The status that a step is expected to end with.
#[derive(Clone, Copy, Debug, PartialEq, Eq, Structural)]
pub enum Status {
    Success,
    Failure,
    Exit(i32),
}

impl Default for Status {
    fn default() -> (r: Self)
        ensures
            r == Status::Success,
    {
        Status::Success
    }
}

/// What a step expects.
#[derive(Debug)]
pub struct Assertion {
    pub value: Option<Value>,
    pub size: Option<i32>,
    pub status: Status,
}

impl Clone for Assertion {
    fn clone(&self) -> (r: Self)
        ensures
            r == *self,
    {
        let value = match &self.value {
            Some(v) => Some(v.clone()),
            None => None,
        };
        Assertion { value, size: self.size, status: self.status }
    }
}

impl Default for Assertion {
    fn default() -> (r: Self)
        ensures
            r.value is None,
            r.size is None,
            r.status == Status::Success,
    {
        Assertion { value: None, size: None, status: Status::Success }
    }
}

/// The options of a step.
#[derive(Debug)]
pub struct Options {
    /// Delay in milliseconds before the step runs.
    pub delay: Option<u64>,
    /// Skip this step.
    pub skip: Option<bool>,
}

impl Default for Options {
    fn default() -> (r: Self)
        ensures
            r.delay is None,
            r.skip is None,
    {
        Options { delay: None, skip: None }
    }
}

/// A step of a test definition.
#[derive(Debug)]
pub struct Step {
    pub action: Action,
    pub assert: Assertion,
    pub options: Options,
}

/// A test definition: the client settings, the modules, the scripts and the steps.
#[derive(Debug)]
pub struct Definition {
    pub config: Config,
    pub modules: Vec<String>,
    pub setup: Option<Script>,
    pub teardown: Option<Script>,
    pub steps: Vec<Step>,
}


/// The body of a test: the action of its step and what the step expects.
#[derive(Debug)]
pub struct Body {
    pub action: Action,
    pub assertion: Assertion,
}

impl Body {
    /// The body that performs the action.
    pub fn new(action: Action, assertion: Assertion) -> (r: Self)
        ensures
            r.action == action,
            r.assertion == assertion,
    {
        Body { action, assertion }
    }
}

/// A test of a fixture: a step, with its delay in milliseconds and whether it is skipped.
#[derive(Debug)]
pub struct Test {
    pub delay: u64,
    pub skip: bool,
    pub body: Body,
}

/// The test that a step makes: no delay and no skipping unless the step's options ask.
pub open spec fn test_of(step: Step) -> Test {
    Test {
        delay: match step.options.delay {
            Some(d) => d,
            None => 0,
        },
        skip: match step.options.skip {
            Some(b) => b,
            None => false,
        },
        body: Body { action: step.action, assertion: step.assert },
    }
}

impl<'a> From<&'a Step> for Test {
    fn from(step: &'a Step) -> (r: Self) {
        let body = Body::new(step.action.clone(), step.assert.clone());
        let delay = step.options.delay.unwrap_or(0);
        let skip = step.options.skip.unwrap_or(false);
        Test { body, delay, skip }
    }
}

impl<'a> vstd::std_specs::convert::FromSpecImpl<&'a Step> for Test {
    open spec fn obeys_from_spec() -> bool {
        true
    }

    open spec fn from_spec(step: &'a Step) -> Self {
        test_of(*step)
    }
}

/// The tests of a definition, with its client settings and its modules.
#[derive(Debug)]
pub struct Fixture {
    pub config: Config,
    pub modules: Vec<String>,
    pub tests: Vec<Test>,
}

fn clone_names(v: &Vec<String>) -> (r: Vec<String>)
    ensures
        r@ == v@,
{
    let r = v.clone();
    assert forall|i: int| 0 <= i < r@.len() implies r@[i] == v@[i] by {
        assert(cloned::<String>(v[i], r[i]));
    }
    assert(r@ =~= v@);
    r
}

impl Fixture {
    /// The fixture of a definition: its client settings, its modules, and a test per step, in order.
    pub fn of(definition: &Definition) -> (r: Fixture)
        ensures
            r.config == definition.config,
            r.modules@ == definition.modules@,
            r.tests@ == definition.steps@.map_values(|s: Step| test_of(s)),
    {
        let config = definition.config.clone();
        let modules = clone_names(&definition.modules);
        let mut tests: Vec<Test> = Vec::new();
        let mut i: usize = 0;
        while i < definition.steps.len()
            invariant
                i <= definition.steps@.len(),
                tests@ == definition.steps@.take(i as int).map_values(|s: Step| test_of(s)),
            decreases definition.steps@.len() - i,
        {
            let test = Test::from(&definition.steps[i]);
            tests.push(test);
            assert(definition.steps@.take(i + 1).map_values(|s: Step| test_of(s)) =~= definition.steps@.take(
                i as int,
            ).map_values(|s: Step| test_of(s)).push(test_of(definition.steps@[i as int])));
            i = i + 1;
        }
        assert(definition.steps@.take(i as int) =~= definition.steps@);
        Fixture { config, modules, tests }
    }
}

impl Definition {
    /// The setup script, the teardown script and the fixture of this definition.
    pub fn into_parts(&self) -> (r: (Option<Script>, Option<Script>, Fixture))
        ensures
            r.0 == self.setup,
            r.1 == self.teardown,
            r.2.config == self.config,
            r.2.modules@ == self.modules@,
            r.2.tests@ == self.steps@.map_values(|s: Step| test_of(s)),
    {
        let setup = match &self.setup {
            Some(s) => Some(s.clone()),
            None => None,
        };
        let teardown = match &self.teardown {
            Some(s) => Some(s.clone()),
            None => None,
        };
        let fixture = Fixture::of(self);
        (setup, teardown, fixture)
    }
}

/// Why a test failed: the error and the log it printed.
#[derive(Debug)]
pub struct Failure {
    pub error: String,
    pub log: String,
}

/// The outcome of a test.
#[derive(Debug)]
pub enum Outcome {
    Success { duration: std::time::Duration },
    Failure { duration: std::time::Duration, failure: Failure },
    Skipped,
}

impl Outcome {
    /// A test that passed in the given time.
    pub fn passed(duration: std::time::Duration) -> (r: Self)
        ensures
            r == (Outcome::Success { duration }),
    {
        Outcome::Success { duration }
    }

    /// A skipped test.
    pub fn skipped() -> (r: Self)
        ensures
            r == Outcome::Skipped,
    {
        Outcome::Skipped
    }

    /// A test that failed in the given time with the given error; a missing log is empty.
    pub fn failed(duration: std::time::Duration, error: String, log: Option<String>) -> (r: Self)
        ensures
            r matches Outcome::Failure { duration: d, failure } && d == duration && failure.error == error
                && (match log {
                Some(l) => failure.log == l,
                None => failure.log@ == Seq::<char>::empty(),
            }),
    {
        let log = match log {
            Some(l) => l,
            None => String::new(),
        };
        Outcome::Failure { duration, failure: Failure { error, log } }
    }

    /// The outcome of a test whose body ran in the given time with the given result and log.
    pub fn of_run(duration: std::time::Duration, result: Result<(), String>, log: String) -> (r: Self)
        ensures
            match result {
                Ok(()) => r == (Outcome::Success { duration }),
                Err(e) => r matches Outcome::Failure { duration: d, failure } && d == duration && failure.error == e
                    && failure.log == log,
            },
    {
        match result {
            Ok(()) => Outcome::passed(duration),
            Err(e) => Outcome::failed(duration, e, Some(log)),
        }
    }
}

/// The whole milliseconds of a duration, as `std::time::Duration::as_millis` gives them.
pub uninterp spec fn duration_millis(d: std::time::Duration) -> u128;

/// `std::time::Duration::as_millis`.
#[verifier::external_body]
fn millis(d: &std::time::Duration) -> (r: u128)
    ensures
        r == duration_millis(*d),
{
    d.as_millis()
}

/// The word for an outcome.
pub open spec fn verdict_of(o: Outcome) -> Seq<char> {
    match o {
        Outcome::Success { .. } => "passed"@,
        Outcome::Skipped => "skipped"@,
        Outcome::Failure { .. } => "failed"@,
    }
}

/// The line of a test's outcome: its word, and for a test that ran, the milliseconds it took
/// after the word, aligned: `passed    12ms`, `failed   12ms`, `skipped`.
pub open spec fn outcome_line(o: Outcome) -> Seq<char> {
    match o {
        Outcome::Success { duration } => verdict_of(o) + "    "@ + decimal(duration_millis(duration) as nat) + "ms"@,
        Outcome::Skipped => verdict_of(o),
        Outcome::Failure { duration, .. } => verdict_of(o) + "   "@ + decimal(duration_millis(duration) as nat)
            + "ms"@,
    }
}

impl Outcome {
    /// The word for this outcome.
    pub fn verdict(&self) -> (r: &'static str)
        ensures
            r@ == verdict_of(*self),
    {
        match self {
            Outcome::Success { .. } => "passed",
            Outcome::Skipped => "skipped",
            Outcome::Failure { .. } => "failed",
        }
    }

    /// The line of this outcome.
    pub fn line(&self) -> (r: String)
        ensures
            r@ == outcome_line(*self),
    {
        let word = self.verdict().to_owned();
        match self {
            Outcome::Success { duration } => word.concat("    ").concat(decimal_text(millis(duration)).as_str()).concat("ms"),
            Outcome::Skipped => word,
            Outcome::Failure { duration, .. } => word.concat("   ").concat(decimal_text(millis(duration)).as_str()).concat("ms"),
        }
    }
}

/// What running a test starts with.
#[derive(Debug, PartialEq, Eq, Structural)]
pub enum TestStart {
    /// The test is skipped.
    Skip,
    /// The body runs after waiting the given milliseconds (none where zero).
    Run { delay: u64 },
}

impl Test {
    /// What running this test starts with: a skipped test is not run; otherwise the body runs
    /// after its delay.
    pub fn start(&self) -> (r: TestStart)
        ensures
            r == (if self.skip {
                TestStart::Skip
            } else {
                TestStart::Run { delay: self.delay }
            }),
    {
        if self.skip {
            TestStart::Skip
        } else {
            TestStart::Run { delay: self.delay }
        }
    }
}


/// Why a step could not be sent to a module.
#[derive(Debug)]
pub enum ContextError {
    ComponentNotFound(String),
    SessionNotFound(String),
    ModuleNotFound(String),
}

/// The abstract view of a context error: its kind and the name it carries.
pub open spec fn context_error_view(e: ContextError) -> (u8, Seq<char>) {
    match e {
        ContextError::ComponentNotFound(n) => (0, n@),
        ContextError::SessionNotFound(n) => (1, n@),
        ContextError::ModuleNotFound(n) => (2, n@),
    }
}

/// The loaded modules of a test run: which module serves each component, and for each module
/// the handle of its library and of its open session (handles that the runner keeps).
#[derive(Debug)]
pub struct Context {
    modules: Vec<(String, usize)>,
    components: Vec<(String, String)>,
    sessions: Vec<(String, usize)>,
}

/// The context as mathematical values: library handles by module, module by component,
/// session handles by module.
pub struct ContextView {
    pub modules: Seq<(Seq<char>, usize)>,
    pub components: Seq<(Seq<char>, Seq<char>)>,
    pub sessions: Seq<(Seq<char>, usize)>,
}

impl View for Context {
    type V = ContextView;

    closed spec fn view(&self) -> ContextView {
        ContextView {
            modules: entries_view(self.modules@),
            components: entries_view(self.components@),
            sessions: entries_view(self.sessions@),
        }
    }
}

/// Where a step for a component goes: the module that serves the component, with the handles
/// of its library and session, or why there is none.
pub open spec fn module_of(ctx: ContextView, component: Seq<char>) -> Result<(usize, usize), (u8, Seq<char>)> {
    match lookup(ctx.components, component) {
        None => Err((0u8, component)),
        Some(m) => match lookup(ctx.sessions, m) {
            None => Err((1u8, m)),
            Some(session) => match lookup(ctx.modules, m) {
                None => Err((2u8, m)),
                Some(library) => Ok((library, session)),
            },
        },
    }
}

impl Context {
    /// Names are unique in each of the three lists.
    pub closed spec fn wf(&self) -> bool {
        &&& unique_keys(self@.modules)
        &&& unique_keys(self@.components)
        &&& unique_keys(self@.sessions)
    }

    /// A context with nothing loaded.
    pub fn new() -> (r: Context)
        ensures
            r.wf(),
            r@.modules.len() == 0,
            r@.components.len() == 0,
            r@.sessions.len() == 0,
    {
        Context { modules: Vec::new(), components: Vec::new(), sessions: Vec::new() }
    }

    /// Records the library handle of a loaded module.
    pub fn add_module(&mut self, module: String, library: usize)
        requires
            old(self).wf(),
        ensures
            final(self).wf(),
            final(self)@.modules == insert_key(old(self)@.modules, module@, library),
            final(self)@.components == old(self)@.components,
            final(self)@.sessions == old(self)@.sessions,
    {
        put_key(&mut self.modules, module, library);
    }

    /// Records that a module serves a component; a later module of the same component replaces
    /// an earlier one.
    pub fn add_component(&mut self, component: String, module: String)
        requires
            old(self).wf(),
        ensures
            final(self).wf(),
            final(self)@.components == insert_key(old(self)@.components, component@, module@),
            final(self)@.modules == old(self)@.modules,
            final(self)@.sessions == old(self)@.sessions,
    {
        put_key(&mut self.components, component, module);
    }

    /// Records the session handle of a module.
    pub fn add_session(&mut self, module: String, session: usize)
        requires
            old(self).wf(),
        ensures
            final(self).wf(),
            final(self)@.sessions == insert_key(old(self)@.sessions, module@, session),
            final(self)@.modules == old(self)@.modules,
            final(self)@.components == old(self)@.components,
    {
        put_key(&mut self.sessions, module, session);
    }

    /// The library and session handles of the module that serves a component.
    pub fn module(&self, component: &str) -> (r: Result<(usize, usize), ContextError>)
        requires
            self.wf(),
        ensures
            match r {
                Ok(h) => module_of(self@, component@) == Ok::<(usize, usize), (u8, Seq<char>)>(h),
                Err(e) => module_of(self@, component@) == Err::<(usize, usize), (u8, Seq<char>)>(context_error_view(e)),
            },
    {
        let key = component.to_owned();
        let module = match get_key(&self.components, &key) {
            Some(m) => m,
            None => {
                return Err(ContextError::ComponentNotFound(key));
            },
        };
        let session = match get_key(&self.sessions, module) {
            Some(s) => *s,
            None => {
                return Err(ContextError::SessionNotFound(module.clone()));
            },
        };
        let library = match get_key(&self.modules, module) {
            Some(l) => *l,
            None => {
                return Err(ContextError::ModuleNotFound(module.clone()));
            },
        };
        Ok((library, session))
    }
}

/// A call of the module interface that a step makes.
#[derive(Debug)]
pub enum ModuleCall {
    Get { library: usize, session: usize, component: String, object: String },
    SetObject { library: usize, session: usize, component: String, object: String, payload: String, size: i32 },
}

impl Body {
    /// The module call that this body makes in a context: a get of the object, or a set of the
    /// value's JSON text with the step's size where it gives one, else the text's byte size.
    pub fn call(&self, ctx: &Context) -> (r: Result<ModuleCall, ContextError>)
        requires
            ctx.wf(),
        ensures
            match self.action {
                Action::Get { component, object } => match module_of(ctx@, component@) {
                    Ok((l, s)) => r matches Ok(ModuleCall::Get { library, session, component: c, object: o })
                        && library == l && session == s && c == component && o == object,
                    Err(e) => r matches Err(err) && context_error_view(err) == e,
                },
                Action::SetObject { component, object, value, size } => match module_of(ctx@, component@) {
                    Ok((l, s)) => r matches Ok(
                        ModuleCall::SetObject { library, session, component: c, object: o, payload, size: n },
                    ) && library == l && session == s && c == component && o == object
                        && payload@ == json_text(value_document(value)) && n == (match size {
                        Some(n) => n,
                        None => #[verifier::truncate] ((#[verifier::truncate] (byte_len(payload@) as usize)) as i32),
                    }),
                    Err(e) => r matches Err(err) && context_error_view(err) == e,
                },
            },
    {
        match &self.action {
            Action::Get { component, object } => {
                let (library, session) = match ctx.module(component.as_str()) {
                    Ok(h) => h,
                    Err(e) => {
                        return Err(e);
                    },
                };
                Ok(ModuleCall::Get { library, session, component: component.clone(), object: object.clone() })
            },
            Action::SetObject { component, object, value, size } => {
                let (library, session) = match ctx.module(component.as_str()) {
                    Ok(h) => h,
                    Err(e) => {
                        return Err(e);
                    },
                };
                let (payload, payload_size) = value.to_payload();
                let payload_size = size.unwrap_or(payload_size);
                Ok(
                    ModuleCall::SetObject {
                        library,
                        session,
                        component: component.clone(),
                        object: object.clone(),
                        payload,
                        size: payload_size,
                    },
                )
            },
        }
    }
}


/// The number of skipped outcomes.
pub open spec fn count_skipped(s: Seq<Outcome>) -> nat
    decreases s.len(),
{
    if s.len() == 0 {
        0
    } else {
        count_skipped(s.drop_last()) + if s.last() is Skipped {
            1nat
        } else {
            0nat
        }
    }
}

/// The number of failed outcomes.
pub open spec fn count_failed(s: Seq<Outcome>) -> nat
    decreases s.len(),
{
    if s.len() == 0 {
        0
    } else {
        count_failed(s.drop_last()) + if s.last() is Failure {
            1nat
        } else {
            0nat
        }
    }
}

/// The number of passed outcomes.
pub open spec fn count_passed(s: Seq<Outcome>) -> nat
    decreases s.len(),
{
    if s.len() == 0 {
        0
    } else {
        count_passed(s.drop_last()) + if s.last() is Success {
            1nat
        } else {
            0nat
        }
    }
}

/// The counts of a test run.
#[derive(Debug, PartialEq, Eq, Structural)]
pub struct Summary {
    pub passed: usize,
    pub failed: usize,
    pub skipped: usize,
    pub total: usize,
}

proof fn lemma_counts(s: Seq<Outcome>)
    ensures
        count_passed(s) + count_failed(s) + count_skipped(s) == s.len(),
    decreases s.len(),
{
    if s.len() > 0 {
        lemma_counts(s.drop_last());
    }
}

/// Counts the outcomes of a test run: the total, the failed and skipped ones, and as passed
/// the rest.
pub fn summarize(outcomes: &Vec<Outcome>) -> (r: Summary)
    ensures
        r.total == outcomes@.len(),
        r.failed == count_failed(outcomes@),
        r.skipped == count_skipped(outcomes@),
        r.passed == r.total - r.failed - r.skipped,
{
    let total = outcomes.len();
    let mut skipped: usize = 0;
    let mut failed: usize = 0;
    let mut i: usize = 0;
    while i < total
        invariant
            total == outcomes@.len(),
            i <= total,
            skipped == count_skipped(outcomes@.take(i as int)),
            failed == count_failed(outcomes@.take(i as int)),
            skipped + failed <= i,
        decreases total - i,
    {
        proof {
            lemma_counts(outcomes@.take(i as int));
        }
        assert(outcomes@.take(i + 1).drop_last() =~= outcomes@.take(i as int));
        match &outcomes[i] {
            Outcome::Skipped => {
                skipped = skipped + 1;
            },
            Outcome::Failure { .. } => {
                failed = failed + 1;
            },
            Outcome::Success { .. } => {},
        }
        i = i + 1;
    }
    assert(outcomes@.take(i as int) =~= outcomes@);
    Summary { passed: total - failed - skipped, failed, skipped, total }
}

/// The tests of a run add up: every outcome is counted as passed, failed or skipped, once.
pub proof fn law_summary_adds_up(outcomes: Seq<Outcome>)
    ensures
        count_passed(outcomes) + count_failed(outcomes) + count_skipped(outcomes) == outcomes.len(),
{
    lemma_counts(outcomes);
}

/// The positions of the failed outcomes, in order.
pub open spec fn failure_positions(s: Seq<Outcome>) -> Seq<usize>
    decreases s.len(),
{
    if s.len() == 0 {
        Seq::empty()
    } else if s.last() is Failure {
        failure_positions(s.drop_last()).push((s.len() - 1) as usize)
    } else {
        failure_positions(s.drop_last())
    }
}

/// The failures of a run, each with the position of its test, in order.
pub fn failures(outcomes: &Vec<Outcome>) -> (r: Vec<(usize, &Failure)>)
    ensures
        r@.map_values(|f: (usize, &Failure)| f.0) == failure_positions(outcomes@),
        forall|k: int| 0 <= k < r@.len() ==> ((#[trigger] r@[k]).0 < outcomes@.len()
            && (outcomes@[r@[k].0 as int] matches Outcome::Failure { failure, .. } && *r@[k].1 == failure)),
{
    let mut r: Vec<(usize, &Failure)> = Vec::new();
    let mut i: usize = 0;
    while i < outcomes.len()
        invariant
            i <= outcomes@.len(),
            r@.map_values(|f: (usize, &Failure)| f.0) == failure_positions(outcomes@.take(i as int)),
            forall|k: int| 0 <= k < r@.len() ==> ((#[trigger] r@[k]).0 < i
                && (outcomes@[r@[k].0 as int] matches Outcome::Failure { failure, .. } && *r@[k].1 == failure)),
        decreases outcomes@.len() - i,
    {
        let ghost before = r@;
        assert(outcomes@.take(i + 1).drop_last() =~= outcomes@.take(i as int));
        match &outcomes[i] {
            Outcome::Failure { failure, .. } => {
                r.push((i, failure));
                assert(r@.map_values(|f: (usize, &Failure)| f.0) =~= before.map_values(|f: (usize, &Failure)| f.0).push(i));
            },
            _ => {},
        }
        i = i + 1;
    }
    assert(outcomes@.take(i as int) =~= outcomes@);
    r
}

/// A phase of a module test run.
#[derive(Debug)]
pub enum Phase {
    /// Run the setup script.
    Setup(Script),
    /// Run the tests of the fixture.
    Fixture,
    /// Run the teardown script.
    Teardown(Script),
}

/// The phases of a module test run, in order: the setup script where there is one, the
/// fixture, and the teardown script where there is one.
pub open spec fn phases_of(setup: Option<Script>, teardown: Option<Script>) -> Seq<Phase> {
    (match setup {
        Some(s) => seq![Phase::Setup(s)],
        None => Seq::<Phase>::empty(),
    }) + seq![Phase::Fixture] + (match teardown {
        Some(t) => seq![Phase::Teardown(t)],
        None => Seq::<Phase>::empty(),
    })
}

/// The phases of a module test run; a run stops at the first phase that fails.
pub fn phases(setup: Option<Script>, teardown: Option<Script>) -> (r: Vec<Phase>)
    ensures
        r@ == phases_of(setup, teardown),
{
    let ghost expected = phases_of(setup, teardown);
    let mut r: Vec<Phase> = Vec::new();
    if let Some(s) = setup {
        r.push(Phase::Setup(s));
    }
    r.push(Phase::Fixture);
    if let Some(t) = teardown {
        r.push(Phase::Teardown(t));
    }
    assert(r@ =~= expected);
    r
}

/// What a module test run does next.
#[derive(Debug)]
pub enum RunStep {
    /// Run this phase, then report how it went.
    Run(Phase),
    /// The run is over, with this result.
    Finished(Result<(), String>),
}

/// A module test run going through its phases in order, stopping at the first that fails.
#[derive(Debug)]
pub struct PhaseRun {
    remaining: Vec<Phase>,
}

impl PhaseRun {
    /// The phases that have not run yet, in order.
    pub closed spec fn remaining(&self) -> Seq<Phase> {
        self.remaining@
    }

    /// A run of the given phases, none run yet.
    pub fn new(phases: Vec<Phase>) -> (r: PhaseRun)
        ensures
            r.remaining() == phases@,
    {
        PhaseRun { remaining: phases }
    }

    /// Takes how the phase before went (`Ok(())` to begin): a failure ends the run with its
    /// error and no later phase runs; otherwise the next phase runs, and once none is left the
    /// run ends in success.
    pub fn step(&mut self, previous: Result<(), String>) -> (r: RunStep)
        ensures
            match previous {
                Err(e) => r == RunStep::Finished(Err(e)) && final(self).remaining().len() == 0,
                Ok(()) => if old(self).remaining().len() > 0 {
                    r == RunStep::Run(old(self).remaining()[0]) && final(self).remaining() == old(
                        self,
                    ).remaining().drop_first()
                } else {
                    r == RunStep::Finished(Ok(())) && final(self).remaining().len() == 0
                },
            },
    {
        match previous {
            Err(e) => {
                self.remaining = Vec::new();
                RunStep::Finished(Err(e))
            },
            Ok(()) => {
                if self.remaining.len() > 0 {
                    let ghost before = self.remaining@;
                    let phase = self.remaining.remove(0);
                    assert(self.remaining@ =~= before.drop_first());
                    RunStep::Run(phase)
                } else {
                    RunStep::Finished(Ok(()))
                }
            },
        }
    }
}

/// The message of a module test run whose definition file is missing.
pub fn missing_definition(path: &str) -> (r: String)
    ensures
        r@ == "Test definition file not found: "@ + path@,
{
    "Test definition file not found: ".to_owned().concat(path)
}

impl ContextError {
    /// The message of this error: what was not found, and its name.
    pub fn message(&self) -> (r: String)
        ensures
            r@ == match *self {
                ContextError::ComponentNotFound(c) => "Component not found: "@ + c@,
                ContextError::SessionNotFound(m) => "Session not found: "@ + m@,
                ContextError::ModuleNotFound(m) => "Module not found: "@ + m@,
            },
    {
        match self {
            ContextError::ComponentNotFound(c) => "Component not found: ".to_owned().concat(c.as_str()),
            ContextError::SessionNotFound(m) => "Session not found: ".to_owned().concat(m.as_str()),
            ContextError::ModuleNotFound(m) => "Module not found: ".to_owned().concat(m.as_str()),
        }
    }
}

impl Summary {
    /// The verdict of a run: `FAILED` where a test failed, `PASSED` otherwise.
    pub fn verdict(&self) -> (r: &'static str)
        ensures
            r@ == (if self.failed > 0 {
                "FAILED"@
            } else {
                "PASSED"@
            }),
    {
        if self.failed > 0 {
            "FAILED"
        } else {
            "PASSED"
        }
    }
}

} // verus!
