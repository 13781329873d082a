//! Type schemas of the management interface model (MIM).
use vstd::prelude::*;

verus! {

/// A primitive setting type.
#[derive(Clone, Copy, Debug, PartialEq, Eq, Structural)]
pub enum Primitive {
    String,
    Integer,
    Boolean,
}

/// The value schema of an integer enumeration.
#[derive(Clone, Copy, Debug, PartialEq, Eq, Structural)]
pub enum IntegerEnumSchema {
    Integer,
}

/// The value schema of a string enumeration.
#[derive(Clone, Copy, Debug, PartialEq, Eq, Structural)]
pub enum StringEnumSchema {
    String,
}

/// A primitive array element type.
#[derive(Clone, Copy, Debug, PartialEq, Eq, Structural)]
pub enum ArrayPrimitive {
    String,
    Integer,
}

/// The element type of an array field inside an object.
#[derive(Clone, Copy, Debug, PartialEq, Eq, Structural)]
pub enum ArrayFieldSchema {
    String,
    Integer,
}

/// One named value of an integer enumeration.
#[derive(Debug)]
pub struct IntegerEnumValue {
    pub name: String,
    pub enum_value: u32,
}

impl Clone for IntegerEnumValue {
    fn clone(&self) -> (r: Self)
        ensures
            r == *self,
    {
        IntegerEnumValue { name: self.name.clone(), enum_value: self.enum_value }
    }
}

impl IntegerEnumValue {
    /// The name of this enumeration value.
    pub fn name(&self) -> (r: String)
        ensures
            r == self.name,
    {
        self.name.clone()
    }
}

/// One named value of a string enumeration.
#[derive(Debug)]
pub struct StringEnumValue {
    pub name: String,
    pub enum_value: String,
}

impl Clone for StringEnumValue {
    fn clone(&self) -> (r: Self)
        ensures
            r == *self,
    {
        StringEnumValue { name: self.name.clone(), enum_value: self.enum_value.clone() }
    }
}

impl StringEnumValue {
    /// The name of this enumeration value.
    pub fn name(&self) -> (r: String)
        ensures
            r == self.name,
    {
        self.name.clone()
    }
}

/// An enumeration whose values are integers.
#[derive(Debug)]
pub struct IntegerEnum {
    pub value_schema: IntegerEnumSchema,
    pub values: Vec<IntegerEnumValue>,
}

pub struct IntegerEnumView {
    pub value_schema: IntegerEnumSchema,
    pub values: Seq<IntegerEnumValue>,
}

impl View for IntegerEnum {
    type V = IntegerEnumView;

    open spec fn view(&self) -> IntegerEnumView {
        IntegerEnumView { value_schema: self.value_schema, values: self.values@ }
    }
}

fn clone_integer_enum_values(v: &Vec<IntegerEnumValue>) -> (r: Vec<IntegerEnumValue>)
    ensures
        r@ == v@,
{
    let r = v.clone();
    assert forall|i: int| 0 <= i < r@.len() implies r@[i] == v@[i] by {
        assert(cloned::<IntegerEnumValue>(v[i], r[i]));
    }
    assert(r@ =~= v@);
    r
}

impl Clone for IntegerEnum {
    fn clone(&self) -> (r: Self)
        ensures
            r@ == self@,
    {
        IntegerEnum {
            value_schema: self.value_schema,
            values: clone_integer_enum_values(&self.values),
        }
    }
}

impl IntegerEnum {
    /// The values of this enumeration, in declaration order.
    pub fn values(&self) -> (r: Vec<IntegerEnumValue>)
        ensures
            r@ == self.values@,
    {
        clone_integer_enum_values(&self.values)
    }
}


/// An enumeration whose values are strings.
#[derive(Debug)]
pub struct StringEnum {
    pub value_schema: StringEnumSchema,
    pub values: Vec<StringEnumValue>,
}

pub struct StringEnumView {
    pub value_schema: StringEnumSchema,
    pub values: Seq<StringEnumValue>,
}

impl View for StringEnum {
    type V = StringEnumView;

    open spec fn view(&self) -> StringEnumView {
        StringEnumView { value_schema: self.value_schema, values: self.values@ }
    }
}

fn clone_string_enum_values(v: &Vec<StringEnumValue>) -> (r: Vec<StringEnumValue>)
    ensures
        r@ == v@,
{
    let r = v.clone();
    assert forall|i: int| 0 <= i < r@.len() implies r@[i] == v@[i] by {
        assert(cloned::<StringEnumValue>(v[i], r[i]));
    }
    assert(r@ =~= v@);
    r
}

impl Clone for StringEnum {
    fn clone(&self) -> (r: Self)
        ensures
            r@ == self@,
    {
        StringEnum { value_schema: self.value_schema, values: clone_string_enum_values(&self.values) }
    }
}

impl StringEnum {
    /// The values of this enumeration, in declaration order.
    pub fn values(&self) -> (r: Vec<StringEnumValue>)
        ensures
            r@ == self.values@,
    {
        clone_string_enum_values(&self.values)
    }
}

/// A field of primitive type inside an object.
#[derive(Debug)]
pub struct PrimitiveField {
    pub name: String,
    pub schema: Primitive,
}

/// A field of integer enumeration type inside an object.
#[derive(Debug)]
pub struct IntegerEnumField {
    pub name: String,
    pub schema: IntegerEnum,
}

/// A field of string enumeration type inside an object.
#[derive(Debug)]
pub struct StringEnumField {
    pub name: String,
    pub schema: StringEnum,
}

/// A field of array type inside an object.
#[derive(Debug)]
pub struct ArrayField {
    pub name: String,
    pub schema: ArrayFieldSchema,
}

/// A named field of an object schema.
#[derive(Debug)]
pub enum Field {
    Primitive(PrimitiveField),
    IntegerEnum(IntegerEnumField),
    StringEnum(StringEnumField),
    Array(ArrayField),
}

/// A field as a mathematical value: its name and its type.
pub enum FieldView {
    Primitive(Seq<char>, Primitive),
    IntegerEnum(Seq<char>, IntegerEnumView),
    StringEnum(Seq<char>, StringEnumView),
    Array(Seq<char>, ArrayFieldSchema),
}

impl View for Field {
    type V = FieldView;

    open spec fn view(&self) -> FieldView {
        match self {
            Field::Primitive(f) => FieldView::Primitive(f.name@, f.schema),
            Field::IntegerEnum(f) => FieldView::IntegerEnum(f.name@, f.schema@),
            Field::StringEnum(f) => FieldView::StringEnum(f.name@, f.schema@),
            Field::Array(f) => FieldView::Array(f.name@, f.schema),
        }
    }
}

impl Clone for Field {
    fn clone(&self) -> (r: Self)
        ensures
            r@ == self@,
    {
        match self {
            Field::Primitive(f) => Field::Primitive(
                PrimitiveField { name: f.name.clone(), schema: f.schema },
            ),
            Field::IntegerEnum(f) => Field::IntegerEnum(
                IntegerEnumField { name: f.name.clone(), schema: f.schema.clone() },
            ),
            Field::StringEnum(f) => Field::StringEnum(
                StringEnumField { name: f.name.clone(), schema: f.schema.clone() },
            ),
            Field::Array(f) => Field::Array(ArrayField { name: f.name.clone(), schema: f.schema }),
        }
    }
}

/// An object schema: an ordered list of named fields.
#[derive(Debug)]
pub struct Object {
    pub fields: Vec<Field>,
}

pub struct ObjectView {
    pub fields: Seq<FieldView>,
}

impl View for Object {
    type V = ObjectView;

    open spec fn view(&self) -> ObjectView {
        ObjectView { fields: self.fields@.map_values(|f: Field| f@) }
    }
}

fn clone_fields(v: &Vec<Field>) -> (r: Vec<Field>)
    ensures
        r@.map_values(|f: Field| f@) == v@.map_values(|f: Field| f@),
{
    let r = v.clone();
    assert forall|i: int| 0 <= i < r@.len() implies r@[i]@ == v@[i]@ by {
        assert(cloned::<Field>(v[i], r[i]));
    }
    assert(r@.map_values(|f: Field| f@) =~= v@.map_values(|f: Field| f@));
    r
}

impl Clone for Object {
    fn clone(&self) -> (r: Self)
        ensures
            r@ == self@,
    {
        Object { fields: clone_fields(&self.fields) }
    }
}

impl Object {
    /// The fields of this object, in declaration order.
    pub fn fields(&self) -> (r: Vec<Field>)
        ensures
            r@.map_values(|f: Field| f@) == self@.fields,
    {
        clone_fields(&self.fields)
    }
}

/// The element schema of an array.
#[derive(Debug)]
pub enum ArraySchema {
    Primitive(ArrayPrimitive),
    Object(Object),
}

pub enum ArraySchemaView {
    Primitive(ArrayPrimitive),
    Object(ObjectView),
}

impl View for ArraySchema {
    type V = ArraySchemaView;

    open spec fn view(&self) -> ArraySchemaView {
        match self {
            ArraySchema::Primitive(p) => ArraySchemaView::Primitive(*p),
            ArraySchema::Object(o) => ArraySchemaView::Object(o@),
        }
    }
}

impl Clone for ArraySchema {
    fn clone(&self) -> (r: Self)
        ensures
            r@ == self@,
    {
        match self {
            ArraySchema::Primitive(p) => ArraySchema::Primitive(*p),
            ArraySchema::Object(o) => ArraySchema::Object(o.clone()),
        }
    }
}

/// An array schema.
#[derive(Debug)]
pub struct Array {
    pub element_schema: ArraySchema,
}

impl View for Array {
    type V = ArraySchemaView;

    open spec fn view(&self) -> ArraySchemaView {
        self.element_schema@
    }
}

impl Clone for Array {
    fn clone(&self) -> (r: Self)
        ensures
            r@ == self@,
    {
        Array { element_schema: self.element_schema.clone() }
    }
}

/// The schema of a setting.
#[derive(Debug)]
pub enum TypeSchema {
    Primitive(Primitive),
    IntegerEnum(IntegerEnum),
    StringEnum(StringEnum),
    Array(Array),
    Object(Object),
}

pub enum TypeSchemaView {
    Primitive(Primitive),
    IntegerEnum(IntegerEnumView),
    StringEnum(StringEnumView),
    Array(ArraySchemaView),
    Object(ObjectView),
}

impl View for TypeSchema {
    type V = TypeSchemaView;

    open spec fn view(&self) -> TypeSchemaView {
        match self {
            TypeSchema::Primitive(p) => TypeSchemaView::Primitive(*p),
            TypeSchema::IntegerEnum(e) => TypeSchemaView::IntegerEnum(e@),
            TypeSchema::StringEnum(e) => TypeSchemaView::StringEnum(e@),
            TypeSchema::Array(a) => TypeSchemaView::Array(a@),
            TypeSchema::Object(o) => TypeSchemaView::Object(o@),
        }
    }
}

impl Clone for TypeSchema {
    fn clone(&self) -> (r: Self)
        ensures
            r@ == self@,
    {
        match self {
            TypeSchema::Primitive(p) => TypeSchema::Primitive(*p),
            TypeSchema::IntegerEnum(e) => TypeSchema::IntegerEnum(e.clone()),
            TypeSchema::StringEnum(e) => TypeSchema::StringEnum(e.clone()),
            TypeSchema::Array(a) => TypeSchema::Array(a.clone()),
            TypeSchema::Object(o) => TypeSchema::Object(o.clone()),
        }
    }
}

/// The setting type that an array of the given element schema holds.
pub open spec fn element_type(element: ArraySchemaView) -> TypeSchemaView {
    match element {
        ArraySchemaView::Primitive(ArrayPrimitive::String) => TypeSchemaView::Primitive(Primitive::String),
        ArraySchemaView::Primitive(ArrayPrimitive::Integer) => TypeSchemaView::Primitive(Primitive::Integer),
        ArraySchemaView::Object(o) => TypeSchemaView::Object(o),
    }
}

/// The setting type of an array field's elements.
pub open spec fn array_field_type(a: ArrayFieldSchema) -> TypeSchemaView {
    match a {
        ArrayFieldSchema::String => TypeSchemaView::Primitive(Primitive::String),
        ArrayFieldSchema::Integer => TypeSchemaView::Primitive(Primitive::Integer),
    }
}

/// The name of a field.
pub open spec fn field_name(f: FieldView) -> Seq<char> {
    match f {
        FieldView::Primitive(n, _) => n,
        FieldView::IntegerEnum(n, _) => n,
        FieldView::StringEnum(n, _) => n,
        FieldView::Array(n, _) => n,
    }
}

/// The setting type of a field.
pub open spec fn field_type(f: FieldView) -> TypeSchemaView {
    match f {
        FieldView::Primitive(_, p) => TypeSchemaView::Primitive(p),
        FieldView::IntegerEnum(_, e) => TypeSchemaView::IntegerEnum(e),
        FieldView::StringEnum(_, e) => TypeSchemaView::StringEnum(e),
        FieldView::Array(_, a) => array_field_type(a),
    }
}

impl Array {
    /// The setting type of the elements of this array.
    pub fn schema(&self) -> (r: TypeSchema)
        ensures
            r@ == element_type(self@),
    {
        match &self.element_schema {
            ArraySchema::Primitive(primitive) => match primitive {
                ArrayPrimitive::String => TypeSchema::Primitive(Primitive::String),
                ArrayPrimitive::Integer => TypeSchema::Primitive(Primitive::Integer),
            },
            ArraySchema::Object(object_schema) => TypeSchema::Object(object_schema.clone()),
        }
    }
}

impl Field {
    /// The name of this field.
    pub fn name(&self) -> (r: String)
        ensures
            r@ == field_name(self@),
    {
        match self {
            Field::Primitive(primitive) => primitive.name.clone(),
            Field::IntegerEnum(enum_field) => enum_field.name.clone(),
            Field::StringEnum(enum_field) => enum_field.name.clone(),
            Field::Array(array_field) => array_field.name.clone(),
        }
    }

    /// The setting type of this field.
    pub fn schema(&self) -> (r: TypeSchema)
        ensures
            r@ == field_type(self@),
    {
        match self {
            Field::Primitive(primitive) => TypeSchema::from(primitive.schema),
            Field::IntegerEnum(enum_field) => TypeSchema::from(enum_field.schema.clone()),
            Field::StringEnum(enum_field) => TypeSchema::from(enum_field.schema.clone()),
            Field::Array(array_field) => TypeSchema::from(array_field.schema),
        }
    }
}

impl From<Primitive> for TypeSchema {
    fn from(primitive: Primitive) -> (r: Self) {
        TypeSchema::Primitive(primitive)
    }
}

impl vstd::std_specs::convert::FromSpecImpl<Primitive> for TypeSchema {
    open spec fn obeys_from_spec() -> bool {
        true
    }

    open spec fn from_spec(primitive: Primitive) -> Self {
        TypeSchema::Primitive(primitive)
    }
}

impl From<IntegerEnum> for TypeSchema {
    fn from(enum_: IntegerEnum) -> (r: Self) {
        TypeSchema::IntegerEnum(enum_)
    }
}

impl vstd::std_specs::convert::FromSpecImpl<IntegerEnum> for TypeSchema {
    open spec fn obeys_from_spec() -> bool {
        true
    }

    open spec fn from_spec(enum_: IntegerEnum) -> Self {
        TypeSchema::IntegerEnum(enum_)
    }
}

impl From<StringEnum> for TypeSchema {
    fn from(enum_: StringEnum) -> (r: Self) {
        TypeSchema::StringEnum(enum_)
    }
}

impl vstd::std_specs::convert::FromSpecImpl<StringEnum> for TypeSchema {
    open spec fn obeys_from_spec() -> bool {
        true
    }

    open spec fn from_spec(enum_: StringEnum) -> Self {
        TypeSchema::StringEnum(enum_)
    }
}

impl From<ArrayFieldSchema> for TypeSchema {
    fn from(array: ArrayFieldSchema) -> (r: Self)
        ensures
            array == ArrayFieldSchema::String ==> r == TypeSchema::Primitive(Primitive::String),
            array == ArrayFieldSchema::Integer ==> r == TypeSchema::Primitive(Primitive::Integer),
    {
        match array {
            ArrayFieldSchema::String => TypeSchema::Primitive(Primitive::String),
            ArrayFieldSchema::Integer => TypeSchema::Primitive(Primitive::Integer),
        }
    }
}

impl vstd::std_specs::convert::FromSpecImpl<ArrayFieldSchema> for TypeSchema {
    open spec fn obeys_from_spec() -> bool {
        true
    }

    open spec fn from_spec(array: ArrayFieldSchema) -> Self {
        match array {
            ArrayFieldSchema::String => TypeSchema::Primitive(Primitive::String),
            ArrayFieldSchema::Integer => TypeSchema::Primitive(Primitive::Integer),
        }
    }
}

/// The setting type of a field is what its schema declares: a field of an array of strings is
/// entered and checked as a string, one of an array of integers as an integer, a primitive
/// field as its primitive; an array setting's elements likewise; and converting an array
/// field's schema gives that same type.
pub proof fn law_field_types(n: Seq<char>, p: Primitive)
    ensures
        field_type(FieldView::Array(n, ArrayFieldSchema::String)) == TypeSchemaView::Primitive(Primitive::String),
        field_type(FieldView::Array(n, ArrayFieldSchema::Integer)) == TypeSchemaView::Primitive(Primitive::Integer),
        field_type(FieldView::Primitive(n, p)) == TypeSchemaView::Primitive(p),
        element_type(ArraySchemaView::Primitive(ArrayPrimitive::String)) == TypeSchemaView::Primitive(Primitive::String),
        element_type(ArraySchemaView::Primitive(ArrayPrimitive::Integer)) == TypeSchemaView::Primitive(
            Primitive::Integer,
        ),
        <TypeSchema as vstd::std_specs::convert::FromSpec<ArrayFieldSchema>>::from_spec(ArrayFieldSchema::String)
            == TypeSchema::Primitive(Primitive::String),
        <TypeSchema as vstd::std_specs::convert::FromSpec<ArrayFieldSchema>>::from_spec(ArrayFieldSchema::Integer)
            == TypeSchema::Primitive(Primitive::Integer),
{
}

} // verus!
