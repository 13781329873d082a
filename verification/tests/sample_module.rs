use osc::sample_module::{get_info_status, set_status, MODULE_OK};
use osc::sample_module::{get_info, set_bar, set_foo, set_target, Bar, Context, Foo, ModuleError, SetTarget};

#[test]
fn sample_module_describes_itself() {
    let info = get_info("client").unwrap();
    assert_eq!(info.name, "Blah");
    assert_eq!(info.description, "Blah module");
    assert_eq!(info.manufacturer, "Microsoft");
    assert_eq!(info.components, vec!["Blah"]);
}

#[test]
fn sample_module_routes_sets_by_object() {
    assert!(matches!(set_target("Blah", "foo"), Ok(SetTarget::Foo)));
    assert!(matches!(set_target("Blah", "bar"), Ok(SetTarget::Bar)));
    assert!(matches!(set_target("Blah", "baz"), Err(ModuleError::InvalidArgument)));
    assert!(matches!(set_target("Other", "foo"), Err(ModuleError::InvalidArgument)));
}

#[test]
fn sample_module_keeps_the_last_bar_message() {
    let mut ctx = Context::default();
    assert_eq!(ctx.message, "");
    set_bar(&mut ctx, Bar { message: String::from("hi") }).unwrap();
    assert_eq!(ctx.message, "hi");
    assert!(set_foo(Foo { message: String::from("x") }).is_ok());
}

#[test]
fn sample_module_error_codes() {
    assert!(matches!(ModuleError::from(22), ModuleError::InvalidArgument));
    assert!(matches!(ModuleError::from(5), ModuleError::IoError));
    assert_eq!(22, libc::EINVAL);
}

#[test]
fn sample_module_call_statuses() {
    let info = get_info("c");
    assert_eq!(get_info_status(false, false, false, &info), MODULE_OK);
    assert_eq!(get_info_status(true, false, false, &info), libc::EINVAL);
    assert_eq!(get_info_status(false, false, true, &info), libc::EINVAL);
    assert_eq!(get_info_status(false, false, false, &Err(ModuleError::IoError)), libc::EINVAL);
    assert_eq!(set_status(false, false, false, false, 3, &Ok(())), 0);
    assert_eq!(set_status(false, false, false, false, -1, &Ok(())), libc::EINVAL);
    assert_eq!(set_status(false, true, false, false, 3, &Ok(())), libc::EINVAL);
    assert_eq!(set_status(false, false, false, false, 3, &Err(ModuleError::InvalidArgument)), libc::EINVAL);
}
