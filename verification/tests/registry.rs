use osc::registry::{Manifest, Module, Property, Read, ReadAction, Registry, RegistryError, Schema};

fn readable(name: &str, path: &str) -> Property {
    Property {
        name: name.to_string(),
        schema: Schema::String,
        read: Some(Read { action: ReadAction::FileContent { path: path.to_string() } }),
    }
}

fn path_of(r: Result<ReadAction, RegistryError>) -> String {
    match r {
        Ok(ReadAction::FileContent { path }) => path,
        Err(e) => panic!("unexpected error {:?}", e),
    }
}

#[test]
fn registry_gets_the_read_action_of_a_loaded_property() {
    let mut reg = Registry::new();
    let m = Manifest {
        name: String::from("hostname"),
        properties: vec![
            readable("name", "/etc/hostname"),
            Property { name: String::from("hosts"), schema: Schema::Bool, read: None },
        ],
    };
    reg.load_manifest(m).unwrap();
    assert_eq!(path_of(reg.get("hostname", "name")), "/etc/hostname");
    assert_eq!(reg.get("hostname", "hosts").unwrap_err(), RegistryError::NotReadable);
    assert_eq!(reg.get("hostname", "nope").unwrap_err(), RegistryError::PropertyNotFound);
    assert_eq!(reg.get("other", "name").unwrap_err(), RegistryError::ModuleNotFound);
}

#[test]
fn registry_later_manifest_of_a_module_replaces_the_earlier() {
    let mut reg = Registry::new();
    reg.load_manifest(Manifest { name: String::from("m"), properties: vec![readable("a", "/1")] }).unwrap();
    reg.load_manifest(Manifest { name: String::from("n"), properties: vec![readable("a", "/2")] }).unwrap();
    reg.load_manifest(Manifest { name: String::from("m"), properties: vec![readable("b", "/3")] }).unwrap();
    assert_eq!(reg.get("m", "a").unwrap_err(), RegistryError::PropertyNotFound);
    assert_eq!(path_of(reg.get("m", "b")), "/3");
    assert_eq!(path_of(reg.get("n", "a")), "/2");
}

#[test]
fn module_later_property_of_a_name_wins() {
    let (name, module) = Module::new(Manifest {
        name: String::from("m"),
        properties: vec![readable("p", "/old"), readable("p", "/new")],
    })
    .unwrap();
    assert_eq!(name, "m");
    assert_eq!(path_of(module.resolve("p")), "/new");
}

#[test]
fn read_resolves_to_its_action() {
    let r = Read { action: ReadAction::FileContent { path: String::from("/x") } };
    assert!(matches!(r.resolve(), ReadAction::FileContent { path } if path == "/x"));
}
