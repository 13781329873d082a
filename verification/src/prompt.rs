//! Interactive entry of a setting's value from its MIM schema, as a state machine: the
//! machine asks questions, the caller puts them to the user and hands back the answers, and
//! the machine builds the value.
use vstd::prelude::*;

use crate::mim::{
    ArraySchema, ArraySchemaView, Field, FieldView, IntegerEnum, ObjectView, Primitive, StringEnum, TypeSchema,
    TypeSchemaView, array_field_type, element_type, field_name, field_type,
};

verus! {

/// A value entered by the user.
#[derive(Debug)]
pub enum PromptValue {
    String(String),
    Number(i64),
    Bool(bool),
    Array(Vec<PromptValue>),
    Object(Vec<(String, PromptValue)>),
}

impl View for PromptValue {
    type V = PromptValue;

    open spec fn view(&self) -> PromptValue {
        *self
    }
}

/// A question to put to the user.
#[derive(Debug)]
pub enum Question {
    /// Enter a text.
    Text { label: String },
    /// Enter an integer.
    Integer { label: String },
    /// Pick "true" or "false" (in that order).
    Boolean { label: String },
    /// Pick one of the options.
    Choice { label: String, options: Vec<String> },
    /// Confirm whether to add another item to the array.
    AddAnother,
}

/// An answer of the user.
#[derive(Debug)]
pub enum Answer {
    Text(String),
    Integer(i32),
    Choice(usize),
    Confirm(bool),
}

/// An answer that does not fit the question, or one given after the value is complete.
#[derive(Debug, PartialEq, Eq, Structural)]
pub enum PromptError {
    UnexpectedAnswer,
    Finished,
}

/// Whether text `a` comes before or equals text `b`, comparing character by character.
pub open spec fn text_le(a: Seq<char>, b: Seq<char>) -> bool
    decreases a.len(),
{
    if a.len() == 0 {
        true
    } else if b.len() == 0 {
        false
    } else if (a[0] as u32) < (b[0] as u32) {
        true
    } else if (a[0] as u32) > (b[0] as u32) {
        false
    } else {
        text_le(a.drop_first(), b.drop_first())
    }
}

/// Sorts names with `slice::sort`: the result holds the same names, in ascending order.
/// `String` orders by the bytes of its UTF-8 text, which orders as the characters do.
#[verifier::external_body]
fn sort_names(names: &mut Vec<String>)
    ensures
        final(names)@.to_multiset() == old(names)@.to_multiset(),
        forall|i: int, j: int|
            0 <= i < j < final(names)@.len() ==> text_le(#[trigger] final(names)@[i]@, #[trigger] final(names)@[j]@),
{
    names.sort();
}

/// The options of a choice among names, in the order they are offered: sorted.
pub fn choice_options(names: Vec<String>) -> (r: Vec<String>)
    ensures
        sorted_options(names@, r@),
{
    let mut options = names;
    sort_names(&mut options);
    options
}

/// The names of the values of an enumeration, in declaration order.
pub open spec fn integer_enum_names(e: IntegerEnum) -> Seq<String> {
    e.values@.map_values(|v: crate::mim::IntegerEnumValue| v.name)
}

/// The names of the values of an enumeration, in declaration order.
pub open spec fn string_enum_names(e: StringEnum) -> Seq<String> {
    e.values@.map_values(|v: crate::mim::StringEnumValue| v.name)
}

fn enum_names_integer(e: &IntegerEnum) -> (r: Vec<String>)
    ensures
        r@ == integer_enum_names(*e),
{
    let mut r: Vec<String> = Vec::new();
    let mut i: usize = 0;
    while i < e.values.len()
        invariant
            i <= e.values@.len(),
            r@ == integer_enum_names(*e).take(i as int),
        decreases e.values@.len() - i,
    {
        r.push(e.values[i].name());
        assert(integer_enum_names(*e).take(i + 1) =~= integer_enum_names(*e).take(i as int).push(e.values@[i as int].name));
        i = i + 1;
    }
    assert(integer_enum_names(*e).take(i as int) =~= integer_enum_names(*e));
    r
}

fn enum_names_string(e: &StringEnum) -> (r: Vec<String>)
    ensures
        r@ == string_enum_names(*e),
{
    let mut r: Vec<String> = Vec::new();
    let mut i: usize = 0;
    while i < e.values.len()
        invariant
            i <= e.values@.len(),
            r@ == string_enum_names(*e).take(i as int),
        decreases e.values@.len() - i,
    {
        r.push(e.values[i].name());
        assert(string_enum_names(*e).take(i + 1) =~= string_enum_names(*e).take(i as int).push(e.values@[i as int].name));
        i = i + 1;
    }
    assert(string_enum_names(*e).take(i as int) =~= string_enum_names(*e));
    r
}

/// The options of a choice among names: the names, sorted.
pub open spec fn sorted_options(names: Seq<String>, options: Seq<String>) -> bool {
    &&& options.to_multiset() == names.to_multiset()
    &&& forall|i: int, j: int| 0 <= i < j < options.len() ==> text_le(#[trigger] options[i]@, #[trigger] options[j]@)
}

/// The position of the first name equal to the given one.
pub open spec fn first_position(names: Seq<String>, name: Seq<char>, from: int) -> Option<int>
    decreases names.len() - from,
{
    if from < 0 || from >= names.len() {
        None
    } else if names[from]@ == name {
        Some(from)
    } else {
        first_position(names, name, from + 1)
    }
}

fn position_of(names: &Vec<String>, name: &String) -> (r: Option<usize>)
    ensures
        match r {
            Some(i) => first_position(names@, name@, 0) == Some(i as int),
            None => first_position(names@, name@, 0) is None,
        },
{
    let mut i: usize = 0;
    while i < names.len()
        invariant
            i <= names@.len(),
            first_position(names@, name@, 0) == first_position(names@, name@, i as int),
        decreases names@.len() - i,
    {
        if names[i] == *name {
            return Some(i);
        }
        i = i + 1;
    }
    None
}


/// Whether a schema is entered by a single question.
pub open spec fn is_leaf(s: TypeSchemaView) -> bool {
    s is Primitive || s is IntegerEnum || s is StringEnum
}

/// The names that a choice for a leaf schema offers, in declaration order (none for others).
pub open spec fn choice_names(s: TypeSchemaView) -> Seq<String> {
    match s {
        TypeSchemaView::IntegerEnum(e) => e.values.map_values(|v: crate::mim::IntegerEnumValue| v.name),
        TypeSchemaView::StringEnum(e) => e.values.map_values(|v: crate::mim::StringEnumValue| v.name),
        _ => Seq::empty(),
    }
}

/// The question for a leaf: its label, and for an enumeration its names sorted.
pub open spec fn leaf_question_fits(q: Question, label: Seq<char>, s: TypeSchemaView, options: Seq<String>) -> bool {
    match s {
        TypeSchemaView::Primitive(Primitive::String) => q matches Question::Text { label: l } && l@ == label,
        TypeSchemaView::Primitive(Primitive::Integer) => q matches Question::Integer { label: l } && l@ == label,
        TypeSchemaView::Primitive(Primitive::Boolean) => q matches Question::Boolean { label: l } && l@ == label,
        TypeSchemaView::IntegerEnum(_) | TypeSchemaView::StringEnum(_) => q matches Question::Choice {
            label: l,
            options: o,
        } && l@ == label && o@ == options && sorted_options(choice_names(s), options),
        _ => false,
    }
}

/// The value that an answer to a leaf question gives, where it fits the question: a text for
/// a text, an integer for an integer, `true` for the first of the two boolean options, for an
/// integer enumeration the position of the picked name among the declared ones, and for a
/// string enumeration the picked name.
pub open spec fn leaf_value_of(s: TypeSchemaView, options: Seq<String>, a: Answer) -> Option<PromptValue> {
    match (s, a) {
        (TypeSchemaView::Primitive(Primitive::String), Answer::Text(t)) => Some(PromptValue::String(t)),
        (TypeSchemaView::Primitive(Primitive::Integer), Answer::Integer(n)) => Some(PromptValue::Number(n as i64)),
        (TypeSchemaView::Primitive(Primitive::Boolean), Answer::Choice(i)) => if i < 2 {
            Some(PromptValue::Bool(i == 0))
        } else {
            None
        },
        (TypeSchemaView::IntegerEnum(_), Answer::Choice(i)) => if i < options.len() {
            match first_position(choice_names(s), options[i as int]@, 0) {
                Some(p) => Some(PromptValue::Number(p as i64)),
                None => None,
            }
        } else {
            None
        },
        (TypeSchemaView::StringEnum(_), Answer::Choice(i)) => if i < options.len() {
            Some(PromptValue::String(options[i as int]))
        } else {
            None
        },
        _ => None,
    }
}

/// Whether a value fits a leaf schema.
pub open spec fn conforms_leaf(v: PromptValue, s: TypeSchemaView) -> bool {
    match s {
        TypeSchemaView::Primitive(Primitive::String) => v is String,
        TypeSchemaView::Primitive(Primitive::Integer) => v matches PromptValue::Number(n) && i32::MIN <= n <= i32::MAX,
        TypeSchemaView::Primitive(Primitive::Boolean) => v is Bool,
        TypeSchemaView::IntegerEnum(e) => v matches PromptValue::Number(n) && exists|p: int|
            0 <= p < e.values.len() && n == #[trigger] (p as i64),
        TypeSchemaView::StringEnum(e) => v matches PromptValue::String(x) && exists|i: int|
            0 <= i < e.values.len() && (#[trigger] e.values[i]).name@ == x@,
        _ => false,
    }
}

/// The fields of an object keyed by name.
pub open spec fn fields_by_name(fields: Seq<FieldView>) -> Seq<(Seq<char>, FieldView)> {
    fields.map_values(|f: FieldView| (field_name(f), f))
}

/// The entries of an object value keyed by name.
pub open spec fn entries_by_name(es: Seq<(String, PromptValue)>) -> Seq<(Seq<char>, PromptValue)> {
    crate::keyed::entries_view(es)
}

/// Whether a value fits an object schema: one entry per field name and no other, each fitting
/// the type of the last field of its name.
pub open spec fn conforms_object(v: PromptValue, o: ObjectView) -> bool {
    match v {
        PromptValue::Object(es) => {
            let named = entries_by_name(es@);
            let fields = fields_by_name(o.fields);
            &&& crate::keyed::unique_keys(named)
            &&& forall|i: int| 0 <= i < o.fields.len() ==> crate::keyed::lookup(named, #[trigger] field_name(o.fields[i])) is Some
            &&& forall|k: int| 0 <= k < named.len() ==> ((#[trigger] crate::keyed::lookup(fields, named[k].0)) matches Some(f)
                && conforms_leaf(named[k].1, field_type(f)))
        },
        _ => false,
    }
}

/// Whether a value fits a setting's schema: a leaf value for a leaf; an object's entries for
/// an object; for an array, one item or more, each fitting the element type.
pub open spec fn conforms(v: PromptValue, s: TypeSchemaView) -> bool {
    match s {
        TypeSchemaView::Object(o) => conforms_object(v, o),
        TypeSchemaView::Array(ArraySchemaView::Object(o)) => v matches PromptValue::Array(items) && items@.len() >= 1
            && forall|i: int| 0 <= i < items@.len() ==> conforms_object(#[trigger] items@[i], o),
        TypeSchemaView::Array(a) => v matches PromptValue::Array(items) && items@.len() >= 1
            && forall|i: int| 0 <= i < items@.len() ==> conforms_leaf(#[trigger] items@[i], element_type(a)),
        _ => conforms_leaf(v, s),
    }
}

/// The answer to a leaf question fits the leaf's schema.
pub proof fn law_leaf_values_conform(s: TypeSchemaView, options: Seq<String>, a: Answer)
    requires
        is_leaf(s),
        sorted_options(choice_names(s), options),
    ensures
        leaf_value_of(s, options, a) matches Some(v) ==> conforms_leaf(v, s),
{
    if let Some(v) = leaf_value_of(s, options, a) {
        match (s, a) {
            (TypeSchemaView::IntegerEnum(e), Answer::Choice(i)) => {
                assert(e.values.len() == choice_names(s).len());
                lemma_first_position_bound(choice_names(s), options[i as int]@, 0);
            },
            (TypeSchemaView::StringEnum(e), Answer::Choice(i)) => {
                let names = choice_names(s);
                vstd::seq_lib::to_multiset_contains(options, options[i as int]);
                vstd::seq_lib::to_multiset_contains(names, options[i as int]);
                assert(options.contains(options[i as int]));
                assert(options.to_multiset().count(options[i as int]) > 0);
                assert(names.to_multiset().count(options[i as int]) > 0);
                assert(names.contains(options[i as int]));
                let k = choose|k: int| 0 <= k < names.len() && names[k] == options[i as int];
                assert(e.values[k].name == options[i as int]);
            },
            _ => {},
        }
    }
}

proof fn lemma_first_position_bound(names: Seq<String>, name: Seq<char>, from: int)
    ensures
        first_position(names, name, from) matches Some(p) ==> 0 <= from <= p < names.len() && names[p]@ == name,
    decreases names.len() - from,
{
    if !(from < 0 || from >= names.len()) && names[from]@ != name {
        lemma_first_position_bound(names, name, from + 1);
    }
}

proof fn lemma_first_position(names: Seq<String>, name: Seq<char>, from: int)
    requires
        0 <= from,
    ensures
        match first_position(names, name, from) {
            Some(p) => from <= p < names.len() && names[p]@ == name && forall|k: int|
                from <= k < p ==> (#[trigger] names[k])@ != name,
            None => forall|k: int| from <= k < names.len() ==> (#[trigger] names[k])@ != name,
        },
    decreases names.len() - from,
{
    if from < names.len() && names[from]@ != name {
        lemma_first_position(names, name, from + 1);
    }
}

/// The value of a picked enumeration name is the position of its first declaration: the
/// declared name there is the picked one and no earlier one is; a name that is not declared
/// has no position.
pub proof fn law_enum_position(names: Seq<String>, name: Seq<char>)
    ensures
        match first_position(names, name, 0) {
            Some(p) => 0 <= p < names.len() && names[p]@ == name && forall|k: int|
                0 <= k < p ==> (#[trigger] names[k])@ != name,
            None => forall|k: int| 0 <= k < names.len() ==> (#[trigger] names[k])@ != name,
        },
{
    lemma_first_position(names, name, 0);
}


/// The question for a leaf schema, with the options it offers.
fn leaf_question(label: &String, schema: &TypeSchema) -> (r: (Question, Vec<String>))
    requires
        is_leaf(schema@),
    ensures
        leaf_question_fits(r.0, label@, schema@, r.1@),
        sorted_options(choice_names(schema@), r.1@),
{
    match schema {
        TypeSchema::Primitive(Primitive::String) => {
            let options: Vec<String> = Vec::new();
            assert(options@ =~= Seq::<String>::empty());
            (Question::Text { label: label.clone() }, options)
        },
        TypeSchema::Primitive(Primitive::Integer) => {
            let options: Vec<String> = Vec::new();
            assert(options@ =~= Seq::<String>::empty());
            (Question::Integer { label: label.clone() }, options)
        },
        TypeSchema::Primitive(Primitive::Boolean) => {
            let options: Vec<String> = Vec::new();
            assert(options@ =~= Seq::<String>::empty());
            (Question::Boolean { label: label.clone() }, options)
        },
        TypeSchema::IntegerEnum(e) => {
            let mut options = enum_names_integer(e);
            assert(options@ == choice_names(schema@));
            sort_names(&mut options);
            let shown = clone_strings(&options);
            (Question::Choice { label: label.clone(), options: shown }, options)
        },
        TypeSchema::StringEnum(e) => {
            let mut options = enum_names_string(e);
            assert(options@ == choice_names(schema@));
            sort_names(&mut options);
            let shown = clone_strings(&options);
            (Question::Choice { label: label.clone(), options: shown }, options)
        },
        _ => (Question::AddAnother, Vec::new()),
    }
}

fn clone_strings(v: &Vec<String>) -> (r: Vec<String>)
    ensures
        r@ == v@,
{
    let r = v.clone();
    assert forall|i: int| 0 <= i < r@.len() implies r@[i] == v@[i] by {
        assert(cloned::<String>(v[i], r[i]));
    }
    assert(r@ =~= v@);
    r
}

/// The value that an answer to a leaf question gives, or `UnexpectedAnswer` where it does not
/// fit the question.
pub fn leaf_value(schema: &TypeSchema, options: &Vec<String>, answer: Answer) -> (r: Result<PromptValue, PromptError>)
    ensures
        match leaf_value_of(schema@, options@, answer) {
            Some(v) => r == Ok::<PromptValue, PromptError>(v),
            None => r == Err::<PromptValue, PromptError>(PromptError::UnexpectedAnswer),
        },
{
    match (schema, answer) {
        (TypeSchema::Primitive(Primitive::String), Answer::Text(t)) => Ok(PromptValue::String(t)),
        (TypeSchema::Primitive(Primitive::Integer), Answer::Integer(n)) => Ok(PromptValue::Number(n as i64)),
        (TypeSchema::Primitive(Primitive::Boolean), Answer::Choice(i)) => {
            if i < 2 {
                Ok(PromptValue::Bool(i == 0))
            } else {
                Err(PromptError::UnexpectedAnswer)
            }
        },
        (TypeSchema::IntegerEnum(e), Answer::Choice(i)) => {
            if i < options.len() {
                let names = enum_names_integer(e);
                match position_of(&names, &options[i]) {
                    Some(p) => Ok(PromptValue::Number(p as i64)),
                    None => Err(PromptError::UnexpectedAnswer),
                }
            } else {
                Err(PromptError::UnexpectedAnswer)
            }
        },
        (TypeSchema::StringEnum(e), Answer::Choice(i)) => {
            if i < options.len() {
                Ok(PromptValue::String(options[i].clone()))
            } else {
                Err(PromptError::UnexpectedAnswer)
            }
        },
        _ => Err(PromptError::UnexpectedAnswer),
    }
}


/// What the machine waits for.
#[derive(Debug)]
pub enum Asking {
    /// The answer to a leaf question: its label, its schema and the options it offered.
    Leaf { label: String, schema: TypeSchema, options: Vec<String> },
    /// Whether to add another item to the array.
    AddAnother,
    /// Nothing: the value is complete.
    Done,
}

/// The next step of the entry: a question to put to the user, or the complete value.
#[derive(Debug)]
pub enum Step {
    Ask(Question),
    Done(PromptValue),
}

/// The entry of a setting's value: the setting's name and schema, and how far the entry is.
#[derive(Debug)]
pub struct Prompter {
    label: String,
    root: TypeSchema,
    /// The items of an array setting entered so far.
    items: Vec<PromptValue>,
    /// The fields of the object being entered: the setting's, or its array elements'.
    fields: Vec<Field>,
    /// The next field to enter.
    next: usize,
    /// The fields entered so far, with their values.
    entries: Vec<(String, PromptValue)>,
    asking: Asking,
}

/// The fields of a list, as mathematical values.
pub open spec fn fields_view(v: Seq<Field>) -> Seq<FieldView> {
    v.map_values(|f: Field| f@)
}

/// The fields entered so far fit the fields before `next`, in order.
pub open spec fn progress_ok(fields: Seq<FieldView>, next: int, entries: Seq<(String, PromptValue)>) -> bool {
    &&& entries.len() == next <= fields.len()
    &&& forall|i: int| 0 <= i < next ==> (#[trigger] entries[i]).0@ == field_name(fields[i]) && conforms_leaf(
        entries[i].1,
        field_type(fields[i]),
    )
}

/// The items of an array setting entered so far fit the element type.
pub open spec fn items_fit(s: TypeSchemaView, items: Seq<PromptValue>) -> bool {
    match s {
        TypeSchemaView::Array(ArraySchemaView::Object(o)) => forall|i: int|
            0 <= i < items.len() ==> conforms_object(#[trigger] items[i], o),
        TypeSchemaView::Array(a) => forall|i: int|
            0 <= i < items.len() ==> conforms_leaf(#[trigger] items[i], element_type(a)),
        _ => true,
    }
}

/// The machine waits for the answer to the leaf question of the given label and schema.
pub open spec fn waits_for_leaf(asking: Asking, label: Seq<char>, schema: TypeSchemaView) -> bool {
    &&& asking matches Asking::Leaf { label: l, schema: s, options }
    &&& l@ == label
    &&& s@ == schema
    &&& is_leaf(schema)
    &&& sorted_options(choice_names(schema), options@)
}

/// The machine waits for the answer to the question of the next field of an object.
pub open spec fn waits_for_field(asking: Asking, fields: Seq<FieldView>, next: int) -> bool {
    &&& 0 <= next < fields.len()
    &&& waits_for_leaf(asking, field_name(fields[next]), field_type(fields[next]))
}

/// The question that the machine puts while it waits as it does.
pub open spec fn asks(asking: Asking, q: Question) -> bool {
    match asking {
        Asking::Leaf { label, schema, options } => leaf_question_fits(q, label@, schema@, options@),
        Asking::AddAnother => q is AddAnother,
        Asking::Done => false,
    }
}

proof fn lemma_field_types_are_leaves(f: FieldView)
    ensures
        is_leaf(field_type(f)),
{
}

impl Prompter {
    /// The schema of the setting being entered.
    pub closed spec fn schema(&self) -> TypeSchemaView {
        self.root@
    }

    /// The name of the setting being entered.
    pub closed spec fn name(&self) -> Seq<char> {
        self.label@
    }

    /// What the machine waits for.
    pub closed spec fn waiting(&self) -> Asking {
        self.asking
    }

    /// The entry state fits the schema: values entered so far fit their types, and the
    /// question waited for is the one that comes next.
    pub closed spec fn wf(&self) -> bool {
        &&& fields_view(self.fields@) == object_fields(self.root@)
        &&& items_fit(self.root@, self.items@)
        &&& match self.root@ {
            TypeSchemaView::Object(o) => {
                &&& progress_ok(o.fields, self.next as int, self.entries@)
                &&& (self.asking is Done || waits_for_field(self.asking, o.fields, self.next as int))
            },
            TypeSchemaView::Array(ArraySchemaView::Object(o)) => {
                &&& (self.asking is Done || (self.asking is AddAnother && self.items@.len() >= 1) || (progress_ok(
                    o.fields,
                    self.next as int,
                    self.entries@,
                ) && waits_for_field(self.asking, o.fields, self.next as int)))
            },
            TypeSchemaView::Array(a) => {
                &&& (self.asking is Done || (self.asking is AddAnother && self.items@.len() >= 1) || waits_for_leaf(
                    self.asking,
                    self.label@,
                    element_type(a),
                ))
            },
            _ => self.asking is Done || waits_for_leaf(self.asking, self.label@, self.root@),
        }
    }

    /// Asks the question of a leaf.
    fn ask_leaf(&mut self, label: String, schema: TypeSchema) -> (r: Step)
        requires
            is_leaf(schema@),
        ensures
            waits_for_leaf(final(self).asking, label@, schema@),
            r matches Step::Ask(q) && asks(final(self).asking, q),
            final(self).label == old(self).label,
            final(self).root == old(self).root,
            final(self).items == old(self).items,
            final(self).fields == old(self).fields,
            final(self).next == old(self).next,
            final(self).entries == old(self).entries,
    {
        let (question, options) = leaf_question(&label, &schema);
        self.asking = Asking::Leaf { label, schema, options };
        Step::Ask(question)
    }
}


proof fn lemma_lookup_parallel<A, B>(a: Seq<(Seq<char>, A)>, b: Seq<(Seq<char>, B)>, k: Seq<char>)
    requires
        a.len() == b.len(),
        forall|i: int| 0 <= i < a.len() ==> (#[trigger] a[i]).0 == b[i].0,
    ensures
        (crate::keyed::lookup(a, k) is Some) == (crate::keyed::lookup(b, k) is Some),
        crate::keyed::lookup(a, k) is Some ==> exists|j: int|
            0 <= j < a.len() && (#[trigger] a[j]).0 == k && a[j].1 == crate::keyed::lookup(a, k).unwrap() && b[j].1
                == crate::keyed::lookup(b, k).unwrap(),
    decreases a.len(),
{
    if a.len() > 0 {
        let da = a.drop_last();
        let db = b.drop_last();
        assert forall|i: int| 0 <= i < da.len() implies (#[trigger] da[i]).0 == db[i].0 by {
            assert(a[i].0 == b[i].0);
        }
        lemma_lookup_parallel(da, db, k);
        assert(a.last().0 == b.last().0) by {
            assert(a[a.len() - 1].0 == b[a.len() - 1].0);
        }
        if a.last().0 == k {
            assert(a[a.len() - 1].0 == k);
        } else if crate::keyed::lookup(da, k) is Some {
            let j = choose|j: int|
                0 <= j < da.len() && (#[trigger] da[j]).0 == k && da[j].1 == crate::keyed::lookup(da, k).unwrap() && db[j].1
                    == crate::keyed::lookup(db, k).unwrap();
            assert(a[j] == da[j]);
            assert(b[j] == db[j]);
        }
    }
}

/// Entries of an object each put in turn, in order: a later entry of a name replaces an
/// earlier one.
fn merge_entries(raw: Vec<(String, PromptValue)>) -> (r: Vec<(String, PromptValue)>)
    ensures
        crate::keyed::entries_view(r@) == crate::keyed::from_entries(crate::keyed::entries_view(raw@)),
        crate::keyed::unique_keys(crate::keyed::entries_view(r@)),
{
    let ghost rv = crate::keyed::entries_view(raw@);
    let n: usize = raw.len();
    let mut rest = raw;
    let mut r: Vec<(String, PromptValue)> = Vec::new();
    let mut i: usize = 0;
    assert(crate::keyed::entries_view(r@) =~= crate::keyed::from_entries(rv.take(0)));
    while rest.len() > 0
        invariant
            i <= n,
            rest@.len() == n - i,
            rv.len() == n,
            forall|j: int| 0 <= j < rest@.len() ==> (#[trigger] rest@[j]).0@ == rv[j + i].0 && rest@[j].1 == rv[j + i].1,
            crate::keyed::entries_view(r@) == crate::keyed::from_entries(rv.take(i as int)),
            crate::keyed::unique_keys(crate::keyed::entries_view(r@)),
        decreases rest@.len(),
    {
        let ghost before = rest@;
        let (key, value) = rest.remove(0);
        assert(key@ == rv[i as int].0 && value == rv[i as int].1);
        assert forall|j: int| 0 <= j < rest@.len() implies (#[trigger] rest@[j]).0@ == rv[j + i + 1].0 && rest@[j].1
            == rv[j + i + 1].1 by {
            assert(rest@[j] == before[j + 1]);
        }
        crate::keyed::put_key(&mut r, key, value);
        assert(rv.take(i + 1).drop_last() =~= rv.take(i as int));
        i = i + 1;
    }
    assert(rv.take(i as int) =~= rv);
    r
}

/// The fields of the objects that a schema's values are made of: an object's own, or those of
/// an array's object elements; none for other schemas.
pub open spec fn object_fields(s: TypeSchemaView) -> Seq<FieldView> {
    match s {
        TypeSchemaView::Object(o) => o.fields,
        TypeSchemaView::Array(ArraySchemaView::Object(o)) => o.fields,
        _ => Seq::empty(),
    }
}

/// Whether a schema's values are entered field by field.
pub open spec fn has_fields(s: TypeSchemaView) -> bool {
    s is Object || s matches TypeSchemaView::Array(ArraySchemaView::Object(_))
}

/// `v` is the object whose fields were entered as given, each put in turn: a later entry of a
/// name replaces an earlier one.
pub open spec fn object_from(v: PromptValue, entered: Seq<(String, PromptValue)>) -> bool {
    v matches PromptValue::Object(es) && entries_by_name(es@) == crate::keyed::from_entries(
        entries_by_name(entered),
    )
}

proof fn lemma_object_conforms(o: ObjectView, entered: Seq<(String, PromptValue)>, v: PromptValue)
    requires
        progress_ok(o.fields, o.fields.len() as int, entered),
        object_from(v, entered),
        v matches PromptValue::Object(es) && crate::keyed::unique_keys(entries_by_name(es@)),
    ensures
        conforms_object(v, o),
{
    if let PromptValue::Object(es) = v {
        let named = entries_by_name(es@);
        let ev = entries_by_name(entered);
        let fields = fields_by_name(o.fields);
        assert forall|i: int| 0 <= i < ev.len() implies (#[trigger] ev[i]).0 == fields[i].0 by {
            assert(entered[i].0@ == field_name(o.fields[i]));
        }
        assert forall|i: int| 0 <= i < o.fields.len() implies crate::keyed::lookup(
            named,
            #[trigger] field_name(o.fields[i]),
        ) is Some by {
            crate::keyed::law_from_entries_lookup(ev, field_name(o.fields[i]));
            crate::keyed::lemma_lookup_absent(ev, field_name(o.fields[i]));
            assert(entered[i].0@ == field_name(o.fields[i]));
            assert(ev[i].0 == field_name(o.fields[i]));
        }
        assert forall|k: int| 0 <= k < named.len() implies ((#[trigger] crate::keyed::lookup(
            fields,
            named[k].0,
        )) matches Some(f) && conforms_leaf(named[k].1, field_type(f))) by {
            let key = named[k].0;
            crate::keyed::lemma_lookup_at(named, k);
            crate::keyed::law_from_entries_lookup(ev, key);
            lemma_lookup_parallel(ev, fields, key);
            let j = choose|j: int|
                0 <= j < ev.len() && (#[trigger] ev[j]).0 == key && ev[j].1 == crate::keyed::lookup(ev, key).unwrap()
                    && fields[j].1 == crate::keyed::lookup(fields, key).unwrap();
            assert(ev[j].1 == entered[j].1);
            assert(fields[j].1 == o.fields[j]);
            assert(conforms_leaf(entered[j].1, field_type(o.fields[j])));
        }
    }
}

impl Prompter {
    /// The items of an array setting entered so far.
    pub closed spec fn items(&self) -> Seq<PromptValue> {
        self.items@
    }

    /// The fields of the object being entered that have been entered so far, with their values.
    pub closed spec fn entered(&self) -> Seq<(String, PromptValue)> {
        self.entries@
    }

    /// The position of the next field to enter.
    pub closed spec fn next_field(&self) -> int {
        self.next as int
    }

    /// Asks for the next field of the object being entered or, where every field has been
    /// entered, completes the object: it is the value of an object setting, or the next item
    /// of an array setting.
    fn continue_object(&mut self) -> (r: Step)
        requires
            has_fields(old(self).root@),
            fields_view(old(self).fields@) == object_fields(old(self).root@),
            progress_ok(object_fields(old(self).root@), old(self).next as int, old(self).entries@),
            items_fit(old(self).root@, old(self).items@),
        ensures
            final(self).wf(),
            final(self).label == old(self).label,
            final(self).root == old(self).root,
            final(self).fields == old(self).fields,
            old(self).next < old(self).fields@.len() ==> {
                &&& final(self).items == old(self).items
                &&& final(self).entries == old(self).entries
                &&& final(self).next == old(self).next
                &&& waits_for_field(final(self).asking, object_fields(old(self).root@), old(self).next as int)
                &&& r matches Step::Ask(q) && asks(final(self).asking, q)
            },
            old(self).next >= old(self).fields@.len() ==> {
                &&& final(self).entries@.len() == 0
                &&& final(self).next == 0
                &&& completed(old(self).root@, old(self).entries@, old(self).items@, final(self).items@, final(self).asking, r)
            },
    {
        if self.next < self.fields.len() {
            let label = self.fields[self.next].name();
            let schema = self.fields[self.next].schema();
            proof {
                lemma_field_types_are_leaves(self.fields@[self.next as int]@);
            }
            self.ask_leaf(label, schema)
        } else {
            let mut raw: Vec<(String, PromptValue)> = Vec::new();
            core::mem::swap(&mut raw, &mut self.entries);
            let ghost entered = raw@;
            assert(fields_view(self.fields@).len() == self.fields@.len());
            self.next = 0;
            let merged = merge_entries(raw);
            let value = PromptValue::Object(merged);
            proof {
                match self.root@ {
                    TypeSchemaView::Object(o) => lemma_object_conforms(o, entered, value),
                    TypeSchemaView::Array(ArraySchemaView::Object(o)) => lemma_object_conforms(o, entered, value),
                    _ => {},
                }
            }
            match &self.root {
                TypeSchema::Object(_) => {
                    self.asking = Asking::Done;
                    Step::Done(value)
                },
                _ => {
                    let ghost before = self.items@;
                    self.items.push(value);
                    assert(self.items@.drop_last() =~= before);
                    self.asking = Asking::AddAnother;
                    Step::Ask(Question::AddAnother)
                },
            }
        }
    }
}

/// The object entered, with the given fields, completes: for an object setting it is the value,
/// and the entry ends; for an array setting it is added to the items, and the machine asks
/// whether to add another.
pub open spec fn completed(
    root: TypeSchemaView,
    entered: Seq<(String, PromptValue)>,
    items_before: Seq<PromptValue>,
    items_after: Seq<PromptValue>,
    asking: Asking,
    r: Step,
) -> bool {
    match root {
        TypeSchemaView::Object(o) => {
            &&& items_after == items_before
            &&& asking is Done
            &&& r matches Step::Done(v) && object_from(v, entered) && conforms_object(v, o)
        },
        TypeSchemaView::Array(ArraySchemaView::Object(o)) => {
            &&& items_after.len() == items_before.len() + 1
            &&& items_after.drop_last() == items_before
            &&& object_from(items_after.last(), entered)
            &&& conforms_object(items_after.last(), o)
            &&& asking is AddAnother
            &&& r matches Step::Ask(Question::AddAnother)
        },
        _ => false,
    }
}

impl Prompter {
    /// Begins entering another item of an array setting: asks for the element, or for an
    /// object element its first field.
    fn begin_item(&mut self) -> (r: Step)
        requires
            old(self).root@ is Array,
            fields_view(old(self).fields@) == object_fields(old(self).root@),
            items_fit(old(self).root@, old(self).items@),
        ensures
            final(self).wf(),
            final(self).label == old(self).label,
            final(self).root == old(self).root,
            final(self).fields == old(self).fields,
            starts_item(old(self).root@, old(self).label@, old(self).items@, final(self).items@, final(self).entries@,
                final(self).next as int, final(self).asking, r),
    {
        let object_element = match &self.root {
            TypeSchema::Array(a) => match &a.element_schema {
                ArraySchema::Object(_) => true,
                ArraySchema::Primitive(_) => false,
            },
            _ => false,
        };
        if object_element {
            self.entries = Vec::new();
            self.next = 0;
            self.continue_object()
        } else {
            let schema = match &self.root {
                TypeSchema::Array(a) => a.schema(),
                _ => TypeSchema::Primitive(Primitive::String),
            };
            let label = self.label.clone();
            self.ask_leaf(label, schema)
        }
    }
}

/// Entering an item of an array setting begins: for an element of object type with fields, the
/// machine asks for the first field; for one without, the empty object completes at once; for
/// an element of another type, the machine asks for it under the setting's name.
pub open spec fn starts_item(
    root: TypeSchemaView,
    label: Seq<char>,
    items_before: Seq<PromptValue>,
    items_after: Seq<PromptValue>,
    entered: Seq<(String, PromptValue)>,
    next: int,
    asking: Asking,
    r: Step,
) -> bool {
    match root {
        TypeSchemaView::Array(ArraySchemaView::Object(o)) => if o.fields.len() > 0 {
            &&& items_after == items_before
            &&& entered.len() == 0
            &&& next == 0
            &&& waits_for_field(asking, o.fields, 0)
            &&& r matches Step::Ask(q) && asks(asking, q)
        } else {
            &&& entered.len() == 0
            &&& next == 0
            &&& completed(root, Seq::empty(), items_before, items_after, asking, r)
        },
        TypeSchemaView::Array(a) => {
            &&& items_after == items_before
            &&& waits_for_leaf(asking, label, element_type(a))
            &&& r matches Step::Ask(q) && asks(asking, q)
        },
        _ => false,
    }
}

/// Whether an answer fits what the machine waits for: for a leaf question, an answer that
/// gives a value; for whether to add another item, a confirmation.
pub open spec fn fits(asking: Asking, a: Answer) -> bool {
    match asking {
        Asking::Leaf { label: _, schema, options } => leaf_value_of(schema@, options@, a) is Some,
        Asking::AddAnother => a is Confirm,
        Asking::Done => false,
    }
}

/// The effect of entering value `v` for the leaf question of the given label: a field is added
/// to the object being entered and the entry goes on with the next field or completes the
/// object; an item is added to an array of leaves, and the machine asks whether to add
/// another; a leaf setting's value is complete.
pub open spec fn enters(old: Prompter, label: String, v: PromptValue, new: Prompter, r: Step) -> bool {
    let fields = object_fields(old.schema());
    if has_fields(old.schema()) {
        let entered = old.entered().push((label, v));
        if old.next_field() + 1 < fields.len() {
            &&& new.items() == old.items()
            &&& new.entered() == entered
            &&& new.next_field() == old.next_field() + 1
            &&& waits_for_field(new.waiting(), fields, old.next_field() + 1)
            &&& r matches Step::Ask(q) && asks(new.waiting(), q)
        } else {
            &&& new.entered().len() == 0
            &&& new.next_field() == 0
            &&& completed(old.schema(), entered, old.items(), new.items(), new.waiting(), r)
        }
    } else if old.schema() is Array {
        &&& new.items() == old.items().push(v)
        &&& new.waiting() is AddAnother
        &&& r matches Step::Ask(Question::AddAnother)
    } else {
        &&& new.waiting() is Done
        &&& r == Step::Done(v)
    }
}

impl Prompter {
    /// Begins entering a value for the setting of the given name and schema: the machine asks
    /// its first question, or, for an object without fields, gives the value at once.
    pub fn start(label: String, schema: TypeSchema) -> (r: (Prompter, Step))
        ensures
            r.0.wf(),
            r.0.name() == label@,
            r.0.schema() == schema@,
            r.1 matches Step::Ask(q) ==> asks(r.0.waiting(), q),
            r.1 matches Step::Done(v) ==> conforms(v, schema@) && r.0.waiting() is Done,
            match schema@ {
                TypeSchemaView::Object(o) => if o.fields.len() > 0 {
                    &&& r.0.entered().len() == 0
                    &&& r.0.next_field() == 0
                    &&& waits_for_field(r.0.waiting(), o.fields, 0)
                } else {
                    r.1 matches Step::Done(v) && object_from(v, Seq::empty())
                },
                TypeSchemaView::Array(_) => starts_item(schema@, label@, Seq::empty(), r.0.items(), r.0.entered(),
                    r.0.next_field(), r.0.waiting(), r.1),
                _ => waits_for_leaf(r.0.waiting(), label@, schema@),
            },
    {
        let fields = match &schema {
            TypeSchema::Object(o) => o.fields(),
            TypeSchema::Array(a) => match &a.element_schema {
                ArraySchema::Object(o) => o.fields(),
                ArraySchema::Primitive(_) => Vec::new(),
            },
            _ => Vec::new(),
        };
        assert(fields_view(fields@) == object_fields(schema@)) by {
            assert(fields_view(fields@) =~= object_fields(schema@));
        }
        let kind: u8 = match &schema {
            TypeSchema::Object(_) => 0,
            TypeSchema::Array(_) => 1,
            _ => 2,
        };
        let root = schema.clone();
        let mut p = Prompter {
            label: label.clone(),
            root,
            items: Vec::new(),
            fields,
            next: 0,
            entries: Vec::new(),
            asking: Asking::Done,
        };
        assert(p.entries@ =~= Seq::<(String, PromptValue)>::empty());
        let step = if kind == 0 {
            p.continue_object()
        } else if kind == 1 {
            assert(p.items@ =~= Seq::<PromptValue>::empty());
            p.begin_item()
        } else {
            p.ask_leaf(label, schema)
        };
        (p, step)
    }

    /// Takes the user's answer to the question asked: enters the value it gives and asks the
    /// next question, or gives the complete value. An answer that does not fit the question
    /// is refused and changes nothing, and so is any answer once the value is complete.
    pub fn answer(&mut self, answer: Answer) -> (r: Result<Step, PromptError>)
        requires
            old(self).wf(),
        ensures
            final(self).wf(),
            final(self).name() == old(self).name(),
            final(self).schema() == old(self).schema(),
            r matches Ok(Step::Ask(q)) ==> asks(final(self).waiting(), q),
            r matches Ok(Step::Done(v)) ==> conforms(v, old(self).schema()) && final(self).waiting() is Done,
            r is Err ==> *final(self) == *old(self),
            r is Err <==> !fits(old(self).waiting(), answer),
            r matches Err(e) ==> (e is Finished <==> old(self).waiting() is Done),
            r matches Ok(step) ==> match old(self).waiting() {
                Asking::Leaf { label, schema, options } => match leaf_value_of(schema@, options@, answer) {
                    Some(v) => enters(*old(self), label, v, *final(self), step),
                    None => false,
                },
                Asking::AddAnother => match answer {
                    Answer::Confirm(true) => starts_item(old(self).schema(), old(self).name(), old(self).items(),
                        final(self).items(), final(self).entered(), final(self).next_field(), final(self).waiting(), step),
                    Answer::Confirm(false) => step matches Step::Done(PromptValue::Array(items)) && items@ == old(self).items(),
                    _ => false,
                },
                Asking::Done => false,
            },
    {
        let mut asking = Asking::Done;
        core::mem::swap(&mut asking, &mut self.asking);
        match asking {
            Asking::Done => Err(PromptError::Finished),
            Asking::Leaf { label, schema, options } => {
                let ghost a = answer;
                match leaf_value(&schema, &options, answer) {
                    Err(e) => {
                        self.asking = Asking::Leaf { label, schema, options };
                        Err(e)
                    },
                    Ok(v) => {
                        proof {
                            law_leaf_values_conform(schema@, options@, a);
                        }
                        Ok(self.enter(label, v))
                    },
                }
            },
            Asking::AddAnother => match answer {
                Answer::Confirm(true) => Ok(self.begin_item()),
                Answer::Confirm(false) => {
                    let mut items: Vec<PromptValue> = Vec::new();
                    core::mem::swap(&mut items, &mut self.items);
                    Ok(Step::Done(PromptValue::Array(items)))
                },
                _ => {
                    self.asking = Asking::AddAnother;
                    Err(PromptError::UnexpectedAnswer)
                },
            },
        }
    }

    /// Enters the value that the answer to a leaf question gave.
    fn enter(&mut self, label: String, v: PromptValue) -> (r: Step)
        requires
            old(self).asking is Done,
            fields_view(old(self).fields@) == object_fields(old(self).root@),
            items_fit(old(self).root@, old(self).items@),
            ({
                let fields = object_fields(old(self).root@);
                if has_fields(old(self).root@) {
                    &&& fields_view(old(self).fields@) == fields
                    &&& progress_ok(fields, old(self).next as int, old(self).entries@)
                    &&& old(self).next < fields.len()
                    &&& label@ == field_name(fields[old(self).next as int])
                    &&& conforms_leaf(v, field_type(fields[old(self).next as int]))
                } else {
                    match old(self).root@ {
                        TypeSchemaView::Array(a) => conforms_leaf(v, element_type(a)),
                        s => conforms_leaf(v, s),
                    }
                }
            }),
        ensures
            final(self).label == old(self).label,
            final(self).root == old(self).root,
            final(self).fields == old(self).fields,
            enters(*old(self), label, v, *final(self), r),
            final(self).wf(),
    {
        assert(fields_view(self.fields@).len() == self.fields@.len());
        if self.next < self.fields.len() {
            self.entries.push((label, v));
            self.next = self.next + 1;
            self.continue_object()
        } else {
            match &self.root {
                TypeSchema::Array(_) => {
                    self.items.push(v);
                    self.asking = Asking::AddAnother;
                    Step::Ask(Question::AddAnother)
                },
                _ => Step::Done(v),
            }
        }
    }
}

} // verus!
