use osc::mim::{
    Array, ArrayFieldSchema, ArrayPrimitive, ArraySchema, Field, IntegerEnum, IntegerEnumValue,
    Object, Primitive, PrimitiveField, StringEnum, StringEnumValue, TypeSchema, ArrayField,
    IntegerEnumField, IntegerEnumSchema, StringEnumSchema,
};
use osc::prompt::{Answer, PromptError, PromptValue, Prompter, Question, Step};

fn label(q: &Question) -> String {
    match q {
        Question::Text { label } => label.clone(),
        Question::Integer { label } => label.clone(),
        Question::Boolean { label } => label.clone(),
        Question::Choice { label, .. } => label.clone(),
        Question::AddAnother => String::from("<add another>"),
    }
}

fn asked(step: Step) -> Question {
    match step {
        Step::Ask(q) => q,
        Step::Done(v) => panic!("expected a question, got {:?}", v),
    }
}

fn done(step: Step) -> PromptValue {
    match step {
        Step::Done(v) => v,
        Step::Ask(q) => panic!("expected a value, got {:?}", q),
    }
}

fn colors() -> IntegerEnum {
    IntegerEnum {
        value_schema: IntegerEnumSchema::Integer,
        values: vec![
            IntegerEnumValue { name: String::from("red"), enum_value: 0 },
            IntegerEnumValue { name: String::from("green"), enum_value: 1 },
            IntegerEnumValue { name: String::from("blue"), enum_value: 2 },
        ],
    }
}

#[test]
fn prompt_string_setting_gives_the_text() {
    let (mut p, step) = Prompter::start(String::from("motd"), TypeSchema::Primitive(Primitive::String));
    let q = asked(step);
    assert!(matches!(q, Question::Text { .. }));
    assert_eq!(label(&q), "motd");
    let v = done(p.answer(Answer::Text(String::from("hello"))).unwrap());
    assert!(matches!(v, PromptValue::String(ref s) if s == "hello"));
}

#[test]
fn prompt_integer_setting_gives_the_number() {
    let (mut p, step) = Prompter::start(String::from("port"), TypeSchema::Primitive(Primitive::Integer));
    assert!(matches!(asked(step), Question::Integer { .. }));
    let v = done(p.answer(Answer::Integer(-42)).unwrap());
    assert!(matches!(v, PromptValue::Number(-42)));
}

#[test]
fn prompt_boolean_first_option_is_true() {
    let (mut p, _) = Prompter::start(String::from("enabled"), TypeSchema::Primitive(Primitive::Boolean));
    let v = done(p.answer(Answer::Choice(0)).unwrap());
    assert!(matches!(v, PromptValue::Bool(true)));
    let (mut p, _) = Prompter::start(String::from("enabled"), TypeSchema::Primitive(Primitive::Boolean));
    let v = done(p.answer(Answer::Choice(1)).unwrap());
    assert!(matches!(v, PromptValue::Bool(false)));
}

#[test]
fn prompt_boolean_refuses_a_third_option() {
    let (mut p, _) = Prompter::start(String::from("enabled"), TypeSchema::Primitive(Primitive::Boolean));
    assert_eq!(p.answer(Answer::Choice(2)).unwrap_err(), PromptError::UnexpectedAnswer);
    // The refused answer changes nothing: the question still stands.
    let v = done(p.answer(Answer::Choice(1)).unwrap());
    assert!(matches!(v, PromptValue::Bool(false)));
}

#[test]
fn prompt_integer_enum_offers_sorted_names_and_gives_declared_position() {
    let (mut p, step) = Prompter::start(String::from("color"), TypeSchema::IntegerEnum(colors()));
    match asked(step) {
        Question::Choice { label, options } => {
            assert_eq!(label, "color");
            assert_eq!(options, vec!["blue", "green", "red"]);
        }
        q => panic!("unexpected question {:?}", q),
    }
    // "blue" is the first of the sorted options and the third declared value.
    let v = done(p.answer(Answer::Choice(0)).unwrap());
    assert!(matches!(v, PromptValue::Number(2)));
}

#[test]
fn prompt_string_enum_gives_the_picked_name() {
    let schema = StringEnum {
        value_schema: StringEnumSchema::String,
        values: vec![
            StringEnumValue { name: String::from("zeta"), enum_value: String::from("z") },
            StringEnumValue { name: String::from("alpha"), enum_value: String::from("a") },
        ],
    };
    let (mut p, step) = Prompter::start(String::from("letter"), TypeSchema::StringEnum(schema));
    match asked(step) {
        Question::Choice { options, .. } => assert_eq!(options, vec!["alpha", "zeta"]),
        q => panic!("unexpected question {:?}", q),
    }
    let v = done(p.answer(Answer::Choice(1)).unwrap());
    assert!(matches!(v, PromptValue::String(ref s) if s == "zeta"));
    assert_eq!(p.answer(Answer::Choice(0)).unwrap_err(), PromptError::Finished);
}

#[test]
fn prompt_wrong_kind_of_answer_is_refused() {
    let (mut p, _) = Prompter::start(String::from("motd"), TypeSchema::Primitive(Primitive::String));
    assert_eq!(p.answer(Answer::Integer(3)).unwrap_err(), PromptError::UnexpectedAnswer);
    assert_eq!(p.answer(Answer::Confirm(true)).unwrap_err(), PromptError::UnexpectedAnswer);
    let v = done(p.answer(Answer::Text(String::from("ok"))).unwrap());
    assert!(matches!(v, PromptValue::String(ref s) if s == "ok"));
}

#[test]
fn prompt_object_asks_each_field_in_order() {
    let object = Object {
        fields: vec![
            Field::Primitive(PrimitiveField { name: String::from("name"), schema: Primitive::String }),
            Field::IntegerEnum(IntegerEnumField { name: String::from("color"), schema: colors() }),
            Field::Array(ArrayField { name: String::from("sizes"), schema: ArrayFieldSchema::Integer }),
        ],
    };
    let (mut p, step) = Prompter::start(String::from("thing"), TypeSchema::Object(object));
    let q = asked(step);
    assert!(matches!(q, Question::Text { .. }));
    assert_eq!(label(&q), "name");
    let q = asked(p.answer(Answer::Text(String::from("box"))).unwrap());
    assert_eq!(label(&q), "color");
    let q = asked(p.answer(Answer::Choice(2)).unwrap());
    // An array field is entered as one value of its element type.
    assert!(matches!(q, Question::Integer { .. }));
    assert_eq!(label(&q), "sizes");
    let v = done(p.answer(Answer::Integer(7)).unwrap());
    match v {
        PromptValue::Object(entries) => {
            assert_eq!(entries.len(), 3);
            assert_eq!(entries[0].0, "name");
            assert!(matches!(entries[0].1, PromptValue::String(ref s) if s == "box"));
            assert_eq!(entries[1].0, "color");
            // "red" is the third sorted option and the first declared value.
            assert!(matches!(entries[1].1, PromptValue::Number(0)));
            assert_eq!(entries[2].0, "sizes");
            assert!(matches!(entries[2].1, PromptValue::Number(7)));
        }
        other => panic!("expected an object, got {:?}", other),
    }
}

#[test]
fn prompt_object_without_fields_is_complete_at_once() {
    let (mut p, step) = Prompter::start(String::from("empty"), TypeSchema::Object(Object { fields: vec![] }));
    let v = done(step);
    assert!(matches!(v, PromptValue::Object(ref es) if es.is_empty()));
    assert_eq!(p.answer(Answer::Confirm(true)).unwrap_err(), PromptError::Finished);
}

#[test]
fn prompt_object_later_field_of_same_name_wins() {
    let object = Object {
        fields: vec![
            Field::Primitive(PrimitiveField { name: String::from("x"), schema: Primitive::String }),
            Field::Primitive(PrimitiveField { name: String::from("x"), schema: Primitive::Integer }),
        ],
    };
    let (mut p, _) = Prompter::start(String::from("dup"), TypeSchema::Object(object));
    let q = asked(p.answer(Answer::Text(String::from("first"))).unwrap());
    assert!(matches!(q, Question::Integer { .. }));
    let v = done(p.answer(Answer::Integer(9)).unwrap());
    match v {
        PromptValue::Object(entries) => {
            assert_eq!(entries.len(), 1);
            assert_eq!(entries[0].0, "x");
            assert!(matches!(entries[0].1, PromptValue::Number(9)));
        }
        other => panic!("expected an object, got {:?}", other),
    }
}

#[test]
fn prompt_array_of_strings_asks_for_more_until_declined() {
    let schema = TypeSchema::Array(Array { element_schema: ArraySchema::Primitive(ArrayPrimitive::String) });
    let (mut p, step) = Prompter::start(String::from("names"), schema);
    let q = asked(step);
    assert!(matches!(q, Question::Text { .. }));
    assert_eq!(label(&q), "names");
    assert!(matches!(asked(p.answer(Answer::Text(String::from("a"))).unwrap()), Question::AddAnother));
    // Only a confirmation answers "add another?".
    assert_eq!(p.answer(Answer::Text(String::from("x"))).unwrap_err(), PromptError::UnexpectedAnswer);
    assert!(matches!(asked(p.answer(Answer::Confirm(true)).unwrap()), Question::Text { .. }));
    assert!(matches!(asked(p.answer(Answer::Text(String::from("b"))).unwrap()), Question::AddAnother));
    let v = done(p.answer(Answer::Confirm(false)).unwrap());
    match v {
        PromptValue::Array(items) => {
            assert_eq!(items.len(), 2);
            assert!(matches!(items[0], PromptValue::String(ref s) if s == "a"));
            assert!(matches!(items[1], PromptValue::String(ref s) if s == "b"));
        }
        other => panic!("expected an array, got {:?}", other),
    }
}

#[test]
fn prompt_array_of_objects_enters_each_object() {
    let element = Object {
        fields: vec![
            Field::Primitive(PrimitiveField { name: String::from("k"), schema: Primitive::String }),
            Field::Primitive(PrimitiveField { name: String::from("on"), schema: Primitive::Boolean }),
        ],
    };
    let schema = TypeSchema::Array(Array { element_schema: ArraySchema::Object(element) });
    let (mut p, step) = Prompter::start(String::from("list"), schema);
    assert_eq!(label(&asked(step)), "k");
    assert_eq!(label(&asked(p.answer(Answer::Text(String::from("one"))).unwrap())), "on");
    assert!(matches!(asked(p.answer(Answer::Choice(0)).unwrap()), Question::AddAnother));
    assert_eq!(label(&asked(p.answer(Answer::Confirm(true)).unwrap())), "k");
    assert_eq!(label(&asked(p.answer(Answer::Text(String::from("two"))).unwrap())), "on");
    assert!(matches!(asked(p.answer(Answer::Choice(1)).unwrap()), Question::AddAnother));
    let v = done(p.answer(Answer::Confirm(false)).unwrap());
    match v {
        PromptValue::Array(items) => {
            assert_eq!(items.len(), 2);
            match &items[1] {
                PromptValue::Object(es) => {
                    assert_eq!(es.len(), 2);
                    assert!(matches!(es[0].1, PromptValue::String(ref s) if s == "two"));
                    assert!(matches!(es[1].1, PromptValue::Bool(false)));
                }
                other => panic!("expected an object, got {:?}", other),
            }
        }
        other => panic!("expected an array, got {:?}", other),
    }
    assert_eq!(p.answer(Answer::Confirm(false)).unwrap_err(), PromptError::Finished);
}

#[test]
fn choice_options_are_the_names_sorted() {
    let names = vec![String::from("b"), String::from("a"), String::from("B"), String::from("a")];
    assert_eq!(osc::prompt::choice_options(names), vec!["B", "a", "a", "b"]);
    assert!(osc::prompt::choice_options(vec![]).is_empty());
}
