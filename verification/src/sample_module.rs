//! The sample "Blah" module: what it reports about itself and how it takes desired values.
use vstd::prelude::*;

use crate::module::ModuleInfo;

verus! {

/// `libc::EINVAL`, the errno of an invalid argument: 22 on Linux, where modules run (libc's
/// `unix/linux_like` definitions).
#[verifier::external_body]
fn einval() -> (r: i32)
    ensures
        r == 22,
{
    libc::EINVAL
}

/// Why the module refused a request.
#[derive(Clone, Copy, Debug, PartialEq, Eq, Structural)]
pub enum ModuleError {
    InvalidArgument,
    IoError,
    SerdeError,
}

impl From<i32> for ModuleError {
    fn from(code: i32) -> (r: Self) {
        if code == einval() {
            ModuleError::InvalidArgument
        } else {
            ModuleError::IoError
        }
    }
}

impl vstd::std_specs::convert::FromSpecImpl<i32> for ModuleError {
    open spec fn obeys_from_spec() -> bool {
        true
    }

    open spec fn from_spec(code: i32) -> Self {
        if code == 22 {
            ModuleError::InvalidArgument
        } else {
            ModuleError::IoError
        }
    }
}

/// What the module reports about itself, whatever the client.
pub fn get_info(client_name: &str) -> (r: Result<ModuleInfo, ModuleError>)
    ensures
        r matches Ok(info) && info.name@ == "Blah"@ && info.description@ == "Blah module"@
            && info.manufacturer@ == "Microsoft"@ && info.components@.len() == 1
            && info.components@[0]@ == "Blah"@,
{
    let mut components: Vec<String> = Vec::new();
    components.push("Blah".to_owned());
    Ok(
        ModuleInfo {
            name: "Blah".to_owned(),
            description: "Blah module".to_owned(),
            manufacturer: "Microsoft".to_owned(),
            components,
        },
    )
}

/// The state of a session with the module.
#[derive(Debug)]
pub struct Context {
    pub message: String,
}

impl Default for Context {
    fn default() -> (r: Self)
        ensures
            r.message@ == Seq::<char>::empty(),
    {
        Context { message: String::new() }
    }
}

/// The desired value of the object "foo".
#[derive(Debug)]
pub struct Foo {
    pub message: String,
}

/// The desired value of the object "bar".
#[derive(Debug)]
pub struct Bar {
    pub message: String,
}

/// Takes the desired value of "foo"; it changes nothing.
pub fn set_foo(foo: Foo) -> (r: Result<(), ModuleError>)
    ensures
        r is Ok,
{
    Ok(())
}

/// Takes the desired value of "bar": the session keeps its message.
pub fn set_bar(context: &mut Context, bar: Bar) -> (r: Result<(), ModuleError>)
    ensures
        r is Ok,
        final(context).message == bar.message,
{
    context.message = bar.message;
    Ok(())
}

/// The object that a set request is for.
#[derive(Clone, Copy, Debug, PartialEq, Eq, Structural)]
pub enum SetTarget {
    Foo,
    Bar,
}

/// The object that a set request for a component and object is for: component "Blah" has
/// objects "foo" and "bar"; anything else is an invalid argument.
pub fn set_target(component_name: &str, object_name: &str) -> (r: Result<SetTarget, ModuleError>)
    ensures
        r == (if component_name@ == "Blah"@ {
            if object_name@ == "foo"@ {
                Ok(SetTarget::Foo)
            } else if object_name@ == "bar"@ {
                Ok(SetTarget::Bar)
            } else {
                Err(ModuleError::InvalidArgument)
            }
        } else {
            Err(ModuleError::InvalidArgument)
        }),
{
    let component = component_name.to_owned();
    let object = object_name.to_owned();
    if component == "Blah".to_owned() {
        if object == "foo".to_owned() {
            Ok(SetTarget::Foo)
        } else if object == "bar".to_owned() {
            Ok(SetTarget::Bar)
        } else {
            Err(ModuleError::InvalidArgument)
        }
    } else {
        Err(ModuleError::InvalidArgument)
    }
}

/// The status of a module call that succeeded.
pub const MODULE_OK: i32 = 0;

/// The status that `MmiGetInfo` returns: `EINVAL` where the client name, the payload or the
/// payload size pointer is null; otherwise success where the module gave its information,
/// and `EINVAL` where it did not.
pub fn get_info_status(
    client_name_null: bool,
    payload_null: bool,
    payload_size_null: bool,
    info: &Result<ModuleInfo, ModuleError>,
) -> (r: i32)
    ensures
        r == (if client_name_null || payload_null || payload_size_null || info is Err {
            22i32
        } else {
            0i32
        }),
{
    if client_name_null || payload_null || payload_size_null {
        einval()
    } else {
        match info {
            Ok(_) => MODULE_OK,
            Err(_) => einval(),
        }
    }
}

/// The status that `MmiSet` returns: `EINVAL` where the session, the component name, the
/// object name or the payload pointer is null or the payload size is negative; otherwise
/// success where the module took the value, and `EINVAL` where it refused it.
pub fn set_status(
    session_null: bool,
    component_null: bool,
    object_null: bool,
    payload_null: bool,
    payload_size_bytes: i32,
    result: &Result<(), ModuleError>,
) -> (r: i32)
    ensures
        r == (if session_null || component_null || object_null || payload_null || payload_size_bytes < 0
            || result is Err {
            22i32
        } else {
            0i32
        }),
{
    if session_null || component_null || object_null || payload_null || payload_size_bytes < 0 {
        einval()
    } else {
        match result {
            Ok(()) => MODULE_OK,
            Err(_) => einval(),
        }
    }
}

} // verus!
