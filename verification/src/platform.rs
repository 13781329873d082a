//! Routing of platform requests to the loaded modules, and the reading of module replies.
use vstd::prelude::*;

use serde_json::Error as JsonError;

use crate::json::{
    json_parses, json_read, json_read_error, json_string_array, json_text, json_to_string, parse_json,
    string_array_field,
};

verus! {

/// The values that a platform setting holds.
#[derive(Debug)]
pub enum Value {
    Bool(bool),
    Number(i32),
    String(String),
    Array(Vec<ArrayValue>),
    Object(Vec<(String, ObjectValue)>),
}

/// A value of an array setting.
#[derive(Debug)]
pub enum ArrayValue {
    Bool(bool),
    Number(i32),
    String(String),
    Object(ObjectValue),
}

/// A value of a field of an object setting.
#[derive(Debug)]
pub enum ObjectValue {
    Bool(bool),
    Number(i32),
    String(String),
}


/// Whether the list of names holds the name.
pub open spec fn names_contain(names: Seq<String>, name: Seq<char>) -> bool {
    exists|i: int| 0 <= i < names.len() && (#[trigger] names[i])@ == name
}

/// A name is among names exactly when some name of the list has its text.
pub proof fn law_names_contain(names: Seq<String>, name: Seq<char>)
    ensures
        names_contain(names, name) <==> exists|i: int| 0 <= i < names.len() && (#[trigger] names[i])@ == name,
{
}

/// Whether a list of strings holds the given one.
pub fn contains_name(names: &Vec<String>, name: &String) -> (r: bool)
    ensures
        r == names_contain(names@, name@),
{
    let mut i: usize = 0;
    while i < names.len()
        invariant
            i <= names@.len(),
            forall|k: int| 0 <= k < i ==> (#[trigger] names@[k])@ != name@,
        decreases names@.len() - i,
    {
        if names[i] == *name {
            assert(names@[i as int]@ == name@);
            return true;
        }
        i = i + 1;
    }
    false
}

/// A loaded module as the platform sees it: the components it serves, and whether a
/// session with it is open.
#[derive(Debug)]
pub struct ModuleSlot {
    pub components: Vec<String>,
    pub open: bool,
}

/// The position of the first module that serves the component, if one does.
pub open spec fn first_serving(modules: Seq<ModuleSlot>, component: Seq<char>) -> Option<int>
    decreases modules.len(),
{
    if modules.len() == 0 {
        None
    } else {
        match first_serving(modules.drop_last(), component) {
            Some(i) => Some(i),
            None => if names_contain(modules.last().components@, component) {
                Some(modules.len() - 1)
            } else {
                None
            },
        }
    }
}

/// Why a platform request failed.
#[derive(Debug)]
pub enum PlatformError {
    /// No module serves the component.
    ModuleNotFound,
    /// The module that serves the component has no open session.
    ModuleNotOpen,
    /// The module refused to report the object; it answered with this status.
    GetFailed { component: String, object: String, status: i32 },
    /// The module refused the desired value; it answered with this status.
    SetFailed { component: String, object: String, value: String, status: i32 },
    /// The module reported a payload that is not a JSON document.
    InvalidPayload(JsonError),
}

/// Where a request for a component goes: the first module that serves it, if its session is open.
pub open spec fn route_of(modules: Seq<ModuleSlot>, component: Seq<char>) -> Result<usize, PlatformError> {
    match first_serving(modules, component) {
        None => Err(PlatformError::ModuleNotFound),
        Some(i) => if modules[i].open {
            Ok(i as usize)
        } else {
            Err(PlatformError::ModuleNotOpen)
        },
    }
}

/// The platform: the loaded modules, in load order.
#[derive(Debug)]
pub struct Platform {
    pub modules: Vec<ModuleSlot>,
}

proof fn lemma_first_serving(modules: Seq<ModuleSlot>, component: Seq<char>)
    ensures
        match first_serving(modules, component) {
            Some(i) => 0 <= i < modules.len() && names_contain(modules[i].components@, component)
                && forall|k: int| 0 <= k < i ==> !names_contain(#[trigger] modules[k].components@, component),
            None => forall|k: int| 0 <= k < modules.len() ==> !names_contain(#[trigger] modules[k].components@, component),
        },
    decreases modules.len(),
{
    if modules.len() > 0 {
        lemma_first_serving(modules.drop_last(), component);
        assert forall|k: int| 0 <= k < modules.len() - 1 implies modules[k] == modules.drop_last()[k] by {}
    }
}

impl Platform {
    /// The position of the first module that serves the component, if one does.
    pub fn find_module(&self, component: &str) -> (r: Option<usize>)
        ensures
            match r {
                Some(i) => i < self.modules@.len() && first_serving(self.modules@, component@) == Some(i as int),
                None => first_serving(self.modules@, component@) is None,
            },
    {
        let key = component.to_owned();
        assert(key@ == component@);
        let mut i: usize = 0;
        proof {
            lemma_first_serving(self.modules@, component@);
        }
        while i < self.modules.len()
            invariant
                i <= self.modules@.len(),
                key@ == component@,
                forall|k: int| 0 <= k < i ==> !names_contain(#[trigger] self.modules@[k].components@, component@),
                match first_serving(self.modules@, component@) {
                    Some(j) => 0 <= j < self.modules@.len() && names_contain(self.modules@[j].components@, component@)
                        && forall|k: int| 0 <= k < j ==> !names_contain(#[trigger] self.modules@[k].components@, component@),
                    None => forall|k: int| 0 <= k < self.modules@.len() ==> !names_contain(#[trigger] self.modules@[k].components@, component@),
                },
            decreases self.modules@.len() - i,
        {
            if contains_name(&self.modules[i].components, &key) {
                proof {
                    let fs = first_serving(self.modules@, component@);
                    if fs is None {
                        assert(!names_contain(self.modules@[i as int].components@, component@));
                    } else {
                        let j = fs.unwrap();
                        if j < i {
                            assert(!names_contain(self.modules@[j].components@, component@));
                        } else if j > i {
                            assert(!names_contain(self.modules@[i as int].components@, component@));
                        }
                    }
                }
                return Some(i);
            }
            i = i + 1;
        }
        None
    }

    /// Where a request for a component goes: the first module that serves it, where its
    /// session is open.
    pub fn route(&self, component: &str) -> (r: Result<usize, PlatformError>)
        ensures
            r == route_of(self.modules@, component@),
    {
        match self.find_module(component) {
            None => Err(PlatformError::ModuleNotFound),
            Some(i) => if self.modules[i].open {
                Ok(i)
            } else {
                Err(PlatformError::ModuleNotOpen)
            },
        }
    }
}

/// Reads a module's reply to a get request: with status zero, the JSON document of the
/// payload, or the parse error where the payload is not one; any other status is a failure
/// that names the component, the object and the status.
pub fn get_outcome(component: &str, object: &str, status: i32, payload: String) -> (r: Result<
    crate::json::JsonDocument,
    PlatformError,
>)
    ensures
        status == 0 && json_parses(payload@) ==> r == Ok::<crate::json::JsonDocument, PlatformError>(
            json_read(payload@),
        ),
        status == 0 && !json_parses(payload@) ==> (r matches Err(PlatformError::InvalidPayload(e)) && e
            == json_read_error(payload@)),
        status != 0 ==> (r matches Err(PlatformError::GetFailed { component: c, object: o, status: s })
            && c@ == component@ && o@ == object@ && s == status),
{
    if status == 0 {
        match parse_json(payload.as_str()) {
            Ok(value) => Ok(value),
            Err(e) => Err(PlatformError::InvalidPayload(e)),
        }
    } else {
        Err(PlatformError::GetFailed { component: component.to_owned(), object: object.to_owned(), status })
    }
}

/// The payload of a set request: the compact JSON text of the value, and its size in bytes.
pub fn set_payload(value: &crate::json::JsonDocument) -> (r: (String, usize))
    ensures
        r.0@ == json_text(*value),
        r.1 == #[verifier::truncate] (crate::testing::byte_len(r.0@) as usize),
{
    let payload = match json_to_string(value) {
        Ok(text) => text,
        Err(_) => String::new(),
    };
    let size = payload.as_str().len();
    (payload, size)
}

/// Reads a module's reply to a set request: status zero is success; any other status is a
/// failure that names the component, the object, the value and the status.
pub fn set_outcome(component: &str, object: &str, value: &str, status: i32) -> (r: Result<(), PlatformError>)
    ensures
        status == 0 ==> r is Ok,
        status != 0 ==> (r matches Err(PlatformError::SetFailed { component: c, object: o, value: v, status: s })
            && c@ == component@ && o@ == object@ && v@ == value@ && s == status),
{
    if status == 0 {
        Ok(())
    } else {
        Err(PlatformError::SetFailed {
            component: component.to_owned(),
            object: object.to_owned(),
            value: value.to_owned(),
            status,
        })
    }
}

/// A request for a component goes to the first module that serves it: no module before it
/// serves the component; and no module is found only where none serves it.
pub proof fn law_route_first_serving(p: Platform, component: Seq<char>)
    ensures
        match route_of(p.modules@, component) {
            Err(PlatformError::ModuleNotFound) => forall|k: int|
                0 <= k < p.modules@.len() ==> !names_contain(#[trigger] p.modules@[k].components@, component),
            Ok(i) => p.modules@[i as int].open && names_contain(p.modules@[i as int].components@, component)
                && forall|k: int| 0 <= k < i ==> !names_contain(#[trigger] p.modules@[k].components@, component),
            _ => true,
        },
{
    lemma_first_serving(p.modules@, component);
    assert(p.modules.len() == p.modules@.len());
}


/// An error of the module manager, with its message.
#[derive(Debug)]
pub struct Error(pub String);

/// A module as the module manager sees it: its library's path and the components it serves.
#[derive(Debug)]
pub struct ManagedModule {
    pub path: String,
    pub components: Vec<String>,
}

/// The module manager: the modules found, in load order.
#[derive(Debug)]
pub struct ModuleManager {
    pub modules: Vec<ManagedModule>,
}

/// The position of the first managed module that serves the component, if one does.
pub open spec fn first_managed(modules: Seq<ManagedModule>, component: Seq<char>, from: int) -> Option<int>
    decreases modules.len() - from,
{
    if from < 0 || from >= modules.len() {
        None
    } else if names_contain(modules[from].components@, component) {
        Some(from)
    } else {
        first_managed(modules, component, from + 1)
    }
}

proof fn lemma_first_managed(modules: Seq<ManagedModule>, component: Seq<char>, from: int)
    requires
        0 <= from,
    ensures
        match first_managed(modules, component, from) {
            Some(i) => from <= i < modules.len() && (exists|j: int|
                0 <= j < modules[i].components@.len() && (#[trigger] modules[i].components@[j])@ == component)
                && forall|k: int, j: int|
                from <= k < i && 0 <= j < modules[k].components@.len() ==> (#[trigger] modules[k].components@[j])@
                    != component,
            None => forall|k: int, j: int|
                from <= k < modules.len() && 0 <= j < modules[k].components@.len() ==> (
                #[trigger] modules[k].components@[j])@ != component,
        },
    decreases modules.len() - from,
{
    if from < modules.len() && !names_contain(modules[from].components@, component) {
        lemma_first_managed(modules, component, from + 1);
        assert forall|j: int| 0 <= j < modules[from].components@.len() implies (
        #[trigger] modules[from].components@[j])@ != component by {
            if modules[from].components@[j]@ == component {
                assert(names_contain(modules[from].components@, component));
            }
        }
    }
}

/// A request for a component goes to the first managed module whose component list contains
/// it: that module lists the component, no module before it does, and no module is found
/// only where no module lists it.
pub proof fn law_select_first_serving(modules: Seq<ManagedModule>, component: Seq<char>)
    ensures
        match first_managed(modules, component, 0) {
            Some(i) => 0 <= i < modules.len() && (exists|j: int|
                0 <= j < modules[i].components@.len() && (#[trigger] modules[i].components@[j])@ == component)
                && forall|k: int, j: int|
                0 <= k < i && 0 <= j < modules[k].components@.len() ==> (#[trigger] modules[k].components@[j])@
                    != component,
            None => forall|k: int, j: int|
                0 <= k < modules.len() && 0 <= j < modules[k].components@.len() ==> (
                #[trigger] modules[k].components@[j])@ != component,
        },
{
    lemma_first_managed(modules, component, 0);
}

impl ModuleManager {
    /// The module that a request for a component goes to: the first that serves it.
    pub fn select(&self, component: &str) -> (r: Result<usize, Error>)
        ensures
            match first_managed(self.modules@, component@, 0) {
                Some(i) => r == Ok::<usize, Error>(i as usize),
                None => r matches Err(e) && e.0@ == "Module not found"@,
            },
            r matches Ok(i) ==> i < self.modules@.len() && (exists|j: int|
                0 <= j < self.modules@[i as int].components@.len() && (#[trigger] self.modules@[i as int].components@[j])@
                    == component@) && forall|k: int, j: int|
                0 <= k < i && 0 <= j < self.modules@[k].components@.len() ==> (#[trigger] self.modules@[k].components@[j])@
                    != component@,
            r is Err ==> forall|k: int, j: int|
                0 <= k < self.modules@.len() && 0 <= j < self.modules@[k].components@.len() ==> (
                #[trigger] self.modules@[k].components@[j])@ != component@,
    {
        proof {
            law_select_first_serving(self.modules@, component@);
        }
        let key = component.to_owned();
        let mut i: usize = 0;
        while i < self.modules.len()
            invariant
                i <= self.modules@.len(),
                key@ == component@,
                first_managed(self.modules@, component@, 0) == first_managed(self.modules@, component@, i as int),
            decreases self.modules@.len() - i,
        {
            if contains_name(&self.modules[i].components, &key) {
                proof {
                    law_select_first_serving(self.modules@, component@);
                }
                return Ok(i);
            }
            i = i + 1;
        }
        Err(Error("Module not found".to_owned()))
    }
}

/// Reads a module's reply to the manager's get request: status zero gives the payload.
pub fn mmi_get_outcome(status: i32, payload: String) -> (r: Result<String, Error>)
    ensures
        status == 0 ==> r == Ok::<String, Error>(payload),
        status != 0 ==> (r matches Err(e) && e.0@ == "Get failed"@),
{
    if status == 0 {
        Ok(payload)
    } else {
        Err(Error("Get failed".to_owned()))
    }
}

/// Reads a module's reply to the manager's set request: status zero is success.
pub fn mmi_set_outcome(status: i32) -> (r: Result<(), Error>)
    ensures
        status == 0 ==> r is Ok,
        status != 0 ==> (r matches Err(e) && e.0@ == "Set failed"@),
{
    if status == 0 {
        Ok(())
    } else {
        Err(Error("Set failed".to_owned()))
    }
}

/// Why the information that a module gave could not be read.
#[derive(Debug)]
pub enum InfoError {
    /// The payload is not a JSON document.
    Json(JsonError),
    /// The payload has no `Components` member that is an array of strings.
    NoComponents,
}

/// The components that a module's information names: the strings of the `Components` array of
/// the payload that `MmiGetInfo` gave.
pub fn info_components(payload: &str) -> (r: Result<Vec<String>, InfoError>)
    ensures
        !json_parses(payload@) ==> (r matches Err(InfoError::Json(e)) && e == json_read_error(payload@)),
        json_parses(payload@) ==> match json_string_array(json_read(payload@), "Components"@) {
            Some(cs) => r matches Ok(v) && v@.map_values(|s: String| s@) == cs,
            None => r matches Err(InfoError::NoComponents),
        },
{
    let doc = match parse_json(payload) {
        Ok(doc) => doc,
        Err(e) => {
            return Err(InfoError::Json(e));
        },
    };
    match string_array_field(&doc, "Components") {
        Some(components) => Ok(components),
        None => Err(InfoError::NoComponents),
    }
}

} // verus!
