use osc::mim::{Primitive, TypeSchema};
use osc::schema_store::{MimComponentSchema, MimObject, MimObjectSchema, MimSchema, Schema};

fn object(name: &str, desired: bool, p: Primitive) -> MimObject {
    MimObject::MimObject(MimObjectSchema { name: name.to_string(), desired, schema: TypeSchema::Primitive(p) })
}

fn component(name: &str, contents: Vec<MimObject>) -> MimComponentSchema {
    MimComponentSchema { name: name.to_string(), contents }
}

fn store() -> Schema {
    let mut s = Schema::new();
    s.add_model(&MimSchema {
        name: String::from("m1"),
        contents: vec![
            component("Net", vec![object("hostname", false, Primitive::String), object("dns", true, Primitive::String)]),
            component("Time", vec![object("zone", false, Primitive::String)]),
        ],
    });
    s.add_model(&MimSchema {
        name: String::from("m2"),
        contents: vec![
            component("Ssh", vec![object("port", true, Primitive::Integer), object("port", true, Primitive::Boolean)]),
        ],
    });
    s
}

#[test]
fn store_lists_components_and_their_kinds() {
    let s = store();
    assert_eq!(s.components(), vec!["Net", "Time", "Ssh"]);
    assert_eq!(s.reported_components(), vec!["Net", "Time"]);
    assert_eq!(s.desired_components(), vec!["Net", "Ssh"]);
}

#[test]
fn store_lists_objects_by_kind() {
    let s = store();
    assert_eq!(s.objects("Net"), vec!["hostname", "dns"]);
    assert_eq!(s.reported_objects(&String::from("Net")), vec!["hostname"]);
    assert_eq!(s.desired_objects(&String::from("Net")), vec!["dns"]);
    assert!(s.reported_objects(&String::from("Ssh")).is_empty());
}

#[test]
fn store_later_object_of_a_name_wins() {
    let s = store();
    assert_eq!(s.objects("Ssh"), vec!["port"]);
    assert!(matches!(s.setting(&String::from("Ssh"), &String::from("port")), TypeSchema::Primitive(Primitive::Boolean)));
}

#[test]
fn store_later_component_replaces_the_earlier() {
    let mut s = store();
    s.add_model(&MimSchema {
        name: String::from("m3"),
        contents: vec![component("Net", vec![object("mtu", false, Primitive::Integer)])],
    });
    assert_eq!(s.components(), vec!["Time", "Ssh", "Net"]);
    assert_eq!(s.objects("Net"), vec!["mtu"]);
    assert!(matches!(s.setting(&String::from("Net"), &String::from("mtu")), TypeSchema::Primitive(Primitive::Integer)));
}

#[test]
fn store_keeps_the_errors_of_unreadable_files() {
    let mut s = Schema::new();
    assert!(s.errors().is_empty());
    s.add_error(String::from("a.json: expected value"));
    assert_eq!(s.errors(), &[String::from("a.json: expected value")]);
    assert!(s.components().is_empty());
}

#[test]
fn store_loads_files_in_order() {
    let files: Vec<osc::schema_store::MimFile> = vec![
        (
            String::from("/mim/a.json"),
            Ok(MimSchema {
                name: String::from("a"),
                contents: vec![component("Net", vec![object("hostname", false, Primitive::String)])],
            }),
        ),
        (String::from("/mim/bad.json"), Err(String::from("expected value at line 1 column 1"))),
        (
            String::from("/mim/b.json"),
            Ok(MimSchema {
                name: String::from("b"),
                contents: vec![
                    component("Time", vec![object("zone", true, Primitive::String)]),
                    component("Net", vec![object("mtu", true, Primitive::Integer)]),
                ],
            }),
        ),
    ];
    let s = Schema::load(&files);
    assert_eq!(s.components(), vec!["Time", "Net"]);
    assert_eq!(s.objects("Net"), vec!["mtu"]);
    assert_eq!(s.desired_objects(&String::from("Net")), vec!["mtu"]);
    assert_eq!(s.errors(), &[String::from("/mim/bad.json: expected value at line 1 column 1")]);
}

#[test]
fn store_load_entry_takes_one_file() {
    let mut s = Schema::new();
    let model = MimSchema { name: String::from("m"), contents: vec![component("C", vec![object("o", false, Primitive::Boolean)])] };
    s.load_entry("/x.json", Ok(&model));
    assert_eq!(s.components(), vec!["C"]);
    assert!(s.errors().is_empty());
    s.load_entry("/y.json", Err(String::from("oops")));
    assert_eq!(s.errors(), &[String::from("/y.json: oops")]);
    assert_eq!(s.components(), vec!["C"]);
}
