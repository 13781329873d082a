use osc::codegen::{derived_component, parse_object, return_type, strip, MethodShape, ObjectAttr};
use osc::codegen::{component_of_impl, Bound, TypeShape};
use osc::codegen::{
    component_definition, module_type_name, object_definition, objects_of_fields, unraw, Attr, AttrError,
    DispatchError, Kind, ObjectDefinition, Scope, SPEC_URL,
};

fn named(n: &str) -> Attr {
    Attr { name: Some(n.to_string()) }
}

#[test]
fn unraw_drops_the_raw_prefix_only() {
    assert_eq!(unraw("r#type"), "type");
    assert_eq!(unraw("rtype"), "rtype");
    assert_eq!(unraw("r#"), "");
    assert_eq!(unraw("r"), "r");
}

#[test]
fn attrs_merge_to_the_one_name_given() {
    assert!(Attr::default().name.is_none());
    assert_eq!(Attr::default().try_merge(named("a")).unwrap().name.as_deref(), Some("a"));
    assert_eq!(named("a").try_merge(Attr::default()).unwrap().name.as_deref(), Some("a"));
    assert_eq!(named("a").try_merge(named("b")).unwrap_err(), AttrError::DuplicateName);
    assert_eq!(Attr::from_attrs(vec![]).unwrap().name, None);
    assert_eq!(
        Attr::from_attrs(vec![Attr::default(), named("x"), Attr::default()]).unwrap().name.as_deref(),
        Some("x")
    );
    assert_eq!(Attr::from_attrs(vec![named("x"), Attr::default(), named("y")]).unwrap_err(), AttrError::DuplicateName);
}

#[test]
fn object_is_named_by_its_attribute_or_its_method() {
    let o = object_definition(None, "r#match", Kind::Reported);
    assert_eq!((o.name.as_str(), o.ident.as_str(), o.kind), ("match", "r#match", Kind::Reported));
    let o = object_definition(Some(String::from("Obj")), "get_obj", Kind::Desired);
    assert_eq!((o.name.as_str(), o.kind), ("Obj", Kind::Desired));
}

fn objects() -> Vec<ObjectDefinition> {
    vec![
        object_definition(None, "a", Kind::Reported),
        object_definition(None, "b", Kind::Desired),
        object_definition(Some(String::from("a")), "a2", Kind::Reported),
        object_definition(None, "c", Kind::Reported),
    ]
}

#[test]
fn component_splits_resolvers_by_kind() {
    let c = component_definition(Attr::default(), "Blah", &objects());
    assert_eq!(c.name, "Blah");
    assert_eq!(c.ident, "Blah");
    assert_eq!(c.reported_objects.iter().map(|o| o.ident.as_str()).collect::<Vec<_>>(), vec!["a", "a2", "c"]);
    assert_eq!(c.desired_objects.iter().map(|o| o.ident.as_str()).collect::<Vec<_>>(), vec!["b"]);
    let c = component_definition(named("Other"), "r#Blah", &objects());
    assert_eq!((c.name.as_str(), c.ident.as_str()), ("Other", "Blah"));
}

#[test]
fn dispatch_picks_the_first_resolver_of_a_name() {
    let c = component_definition(Attr::default(), "Blah", &objects());
    assert_eq!(c.reported_target("a").unwrap(), 0);
    assert_eq!(c.reported_target("c").unwrap(), 2);
    assert_eq!(c.desired_target("b").unwrap(), 0);
    assert!(matches!(c.desired_target("a"), Err(DispatchError::UnknownObject(o)) if o == "a"));
    assert_eq!(c.module_get_target("Blah", "c").unwrap(), 2);
    assert_eq!(c.module_set_target("Blah", "b").unwrap(), 0);
    assert!(matches!(c.module_get_target("Other", "a"), Err(DispatchError::UnknownComponent(n)) if n == "Other"));
    assert!(matches!(c.module_set_target("Blah", "zz"), Err(DispatchError::UnknownObject(o)) if o == "zz"));
}

#[test]
fn derived_component_reports_each_field() {
    let fs = objects_of_fields(&vec![String::from("x"), String::from("y")]);
    assert_eq!(fs.len(), 2);
    assert_eq!((fs[1].name.as_str(), fs[1].ident.as_str(), fs[1].kind), ("y", "y", Kind::Reported));
    assert_eq!(module_type_name("Blah"), "BlahModule");
}

#[test]
fn diagnostics_name_their_scope() {
    let s = Scope::ComponentAttr;
    assert_eq!(s.name(), "OSConfig component");
    assert_eq!(s.message("needs a name"), "OSConfig component needs a name");
    assert_eq!(s.spec_link(), format!("{}{}", SPEC_URL, s.spec_section()));
}

fn path(segments: &[&str]) -> osc::codegen::TypeShape {
    osc::codegen::TypeShape::Path(segments.iter().map(|s| s.to_string()).collect())
}

#[test]
fn topmost_ident_reads_through_parentheses_and_references() {
    assert_eq!(path(&["crate", "blah", "Blah"]).topmost_ident(), Some(String::from("Blah")));
    assert_eq!(TypeShape::Paren(Box::new(TypeShape::Group(Box::new(path(&["A"]))))).topmost_ident(), Some(String::from("A")));
    assert_eq!(TypeShape::Reference(Box::new(TypeShape::Paren(Box::new(path(&["B"]))))).topmost_ident(), Some(String::from("B")));
    let dyn_ref = TypeShape::Reference(Box::new(TypeShape::TraitObject(Bound::Trait(vec![String::from("std"), String::from("Any")]))));
    assert_eq!(dyn_ref.topmost_ident(), Some(String::from("Any")));
    assert_eq!(TypeShape::Reference(Box::new(TypeShape::TraitObject(Bound::Lifetime))).topmost_ident(), None);
    assert_eq!(TypeShape::TraitObject(Bound::Trait(vec![String::from("T")])).topmost_ident(), None);
    assert_eq!(TypeShape::Reference(Box::new(TypeShape::Reference(Box::new(path(&["C"]))))).topmost_ident(), None);
    assert_eq!(path(&[]).topmost_ident(), None);
    assert_eq!(TypeShape::Other.topmost_ident(), None);
}

#[test]
fn component_of_impl_needs_a_type_ident() {
    let c = component_of_impl(Attr::default(), &path(&["r#Blah"]), &objects()).unwrap();
    assert_eq!((c.name.as_str(), c.ident.as_str(), c.reported_objects.len()), ("Blah", "Blah", 3));
    let e = component_of_impl(Attr::default(), &TypeShape::Other, &objects()).unwrap_err();
    assert_eq!(e, "OSConfig component could not determine ident for the `impl` type");
}

#[test]
fn derived_component_is_named_by_its_struct() {
    let c = derived_component("Blah", &vec![String::from("foo"), String::from("bar")]);
    assert_eq!((c.name.as_str(), c.ident.as_str()), ("Blah", "Blah"));
    assert_eq!(c.reported_objects.iter().map(|o| o.name.as_str()).collect::<Vec<_>>(), vec!["foo", "bar"]);
    assert!(c.desired_objects.is_empty());
}

#[test]
fn parse_object_strips_its_attributes_and_reads_the_return_type() {
    assert_eq!(
        strip("osc_object", vec![String::from("doc"), String::from("osc_object"), String::from("inline")]),
        vec!["doc", "inline"]
    );
    let mut m = MethodShape {
        ident: String::from("r#type"),
        attrs: vec![String::from("osc_object"), String::from("doc"), String::from("osc_object")],
        output: Some(TypeShape::Paren(Box::new(path(&["String"])))),
    };
    let (d, ty) = parse_object(&mut m, Some(ObjectAttr { name: None, kind: Kind::Desired })).unwrap();
    assert_eq!((d.name.as_str(), d.ident.as_str(), d.kind), ("type", "r#type", Kind::Desired));
    assert!(matches!(ty, TypeShape::Path(ref s) if s == &vec![String::from("String")]));
    assert_eq!(m.attrs, vec!["doc"]);
    let mut m = MethodShape { ident: String::from("set"), attrs: vec![String::from("osc_object")], output: None };
    assert!(parse_object(&mut m, None).is_none());
    assert!(m.attrs.is_empty());
    let (d, ty) = parse_object(
        &mut MethodShape { ident: String::from("set"), attrs: vec![], output: None },
        Some(ObjectAttr { name: Some(String::from("Set")), kind: Kind::Reported }),
    )
    .unwrap();
    assert_eq!(d.name, "Set");
    assert!(matches!(ty, TypeShape::Unit));
    assert!(matches!(return_type(&Some(TypeShape::Group(Box::new(TypeShape::Other)))), TypeShape::Other));
}
