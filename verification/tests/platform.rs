use osc::platform::{info_components, InfoError};
use osc::module::{check_module_file, ModuleFileError};
use osc::platform::{
    contains_name, get_outcome, mmi_get_outcome, mmi_set_outcome, set_outcome, ManagedModule, ModuleManager,
    ModuleSlot, Platform, PlatformError,
};

fn slot(components: &[&str], open: bool) -> ModuleSlot {
    ModuleSlot { components: components.iter().map(|c| c.to_string()).collect(), open }
}

#[test]
fn route_goes_to_the_first_module_serving_the_component() {
    let p = Platform { modules: vec![slot(&["a"], true), slot(&["b", "c"], true), slot(&["c"], true)] };
    assert_eq!(p.route("a").unwrap(), 0);
    assert_eq!(p.route("c").unwrap(), 1);
    assert!(matches!(p.route("z"), Err(PlatformError::ModuleNotFound)));
}

#[test]
fn route_refuses_a_module_that_is_not_open() {
    let p = Platform { modules: vec![slot(&["a"], false), slot(&["a"], true)] };
    assert!(matches!(p.route("a"), Err(PlatformError::ModuleNotOpen)));
    assert_eq!(p.find_module("a"), Some(0));
    assert_eq!(Platform { modules: vec![] }.find_module("a"), None);
}

#[test]
fn contains_name_finds_exact_names() {
    let names = vec![String::from("ab"), String::from("c")];
    assert!(contains_name(&names, &String::from("c")));
    assert!(!contains_name(&names, &String::from("a")));
}

#[test]
fn get_and_set_outcomes_follow_the_status() {
    let doc = get_outcome("c", "o", 0, String::from("{\"x\": true}")).unwrap();
    assert_eq!(doc, serde_json::from_str::<serde_json::Value>("{\"x\":true}").unwrap());
    assert!(matches!(get_outcome("c", "o", 0, String::from("not json")), Err(PlatformError::InvalidPayload(_))));
    match get_outcome("c", "o", 5, String::from("{}")) {
        Err(PlatformError::GetFailed { component, object, status }) => {
            assert_eq!((component.as_str(), object.as_str(), status), ("c", "o", 5));
        }
        other => panic!("unexpected {:?}", other),
    }
    assert!(set_outcome("c", "o", "1", 0).is_ok());
    match set_outcome("c", "o", "1", -1) {
        Err(PlatformError::SetFailed { component, object, value, status }) => {
            assert_eq!((component.as_str(), object.as_str(), value.as_str(), status), ("c", "o", "1", -1));
        }
        other => panic!("unexpected {:?}", other),
    }
}

#[test]
fn module_manager_selects_the_first_module_of_a_component() {
    let m = ModuleManager {
        modules: vec![
            ManagedModule { path: String::from("/a.so"), components: vec![String::from("x")] },
            ManagedModule { path: String::from("/b.so"), components: vec![String::from("y"), String::from("x")] },
        ],
    };
    assert_eq!(m.select("x").unwrap(), 0);
    assert_eq!(m.select("y").unwrap(), 1);
    assert_eq!(m.select("z").unwrap_err().0, "Module not found");
}

#[test]
fn mmi_outcomes_follow_the_status() {
    assert_eq!(mmi_get_outcome(0, String::from("1")).unwrap(), "1");
    assert_eq!(mmi_get_outcome(22, String::from("1")).unwrap_err().0, "Get failed");
    assert!(mmi_set_outcome(0).is_ok());
    assert_eq!(mmi_set_outcome(1).unwrap_err().0, "Set failed");
}

#[test]
fn set_payload_is_compact_json_with_its_size() {
    let v: serde_json::Value = serde_json::from_str("{ \"a\" : \"é\" }").unwrap();
    assert_eq!(osc::platform::set_payload(&v), (String::from("{\"a\":\"é\"}"), 10));
}

#[test]
fn module_files_are_shared_libraries() {
    assert_eq!(check_module_file("/usr/lib/osconfig/blah.so"), Ok(()));
    assert_eq!(check_module_file("blah.txt"), Err(ModuleFileError::InvalidExtension));
    assert_eq!(check_module_file("blah"), Err(ModuleFileError::InvalidExtension));
    assert_eq!(check_module_file("/tmp/.so"), Err(ModuleFileError::InvalidExtension));
    assert_eq!(check_module_file("a.so.1"), Err(ModuleFileError::InvalidExtension));
}

#[test]
fn module_info_names_its_components() {
    assert_eq!(
        info_components(r#"{"Name": "m", "Components": ["Blah", "Héllo"]}"#).unwrap(),
        vec!["Blah", "Héllo"]
    );
    assert!(info_components(r#"{"Components": []}"#).unwrap().is_empty());
    assert!(matches!(info_components(r#"{"Components": ["a", 1]}"#), Err(InfoError::NoComponents)));
    assert!(matches!(info_components(r#"{"Components": "a"}"#), Err(InfoError::NoComponents)));
    assert!(matches!(info_components(r#"["Components"]"#), Err(InfoError::NoComponents)));
    assert!(matches!(info_components("{"), Err(InfoError::Json(_))));
}
