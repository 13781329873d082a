//! What a module tells about itself, and the model of its interface.
use vstd::prelude::*;

verus! {

/// The information that a module gives about itself.
#[derive(Debug)]
pub struct ModuleInfo {
    pub name: String,
    pub description: String,
    pub manufacturer: String,
    pub components: Vec<String>,
}

/// A module version.
#[derive(Clone, Copy, Debug, PartialEq, Eq, Structural)]
pub struct Version {
    pub major: u32,
    pub minor: u32,
    pub patch: u32,
    pub tweak: Option<u32>,
}

/// The interface model of a module: its components.
#[derive(Debug)]
pub struct Model {
    pub name: String,
    pub contents: Vec<Component>,
}

/// A component of an interface model: its objects.
#[derive(Debug)]
pub struct Component {
    pub name: String,
    pub contents: Vec<Object>,
}

/// An object of an interface model: a desired or reported setting and its type.
#[derive(Debug)]
pub struct Object {
    pub name: String,
    pub desired: bool,
    pub schema: TypeSchema,
}

/// The type of a setting of an interface model.
#[derive(Debug)]
pub enum TypeSchema {
    Primitive(PrimitiveType),
    IntegerEnum(EnumType<i32>),
    StringEnum(EnumType<String>),
    Array(ArrayType),
    Object(ObjectType),
}

/// A primitive type.
#[derive(Clone, Copy, Debug, PartialEq, Eq, Structural)]
pub enum PrimitiveType {
    String,
    Integer,
    Boolean,
}

/// An enumeration type.
#[derive(Debug)]
pub struct EnumType<T> {
    pub value_schema: EnumSchema,
    pub enum_values: Vec<EnumValue<T>>,
}

/// The value type of an enumeration.
#[derive(Clone, Copy, Debug, PartialEq, Eq, Structural)]
pub enum EnumSchema {
    Integer,
    String,
}

/// A named value of an enumeration.
#[derive(Debug)]
pub struct EnumValue<T> {
    pub name: String,
    pub enum_value: T,
}

/// An array type.
#[derive(Debug)]
pub struct ArrayType {
    pub element_schema: ArraySchema,
}

/// The element type of an array.
#[derive(Debug)]
pub enum ArraySchema {
    Primitive(PrimitiveType),
    Object(ObjectType),
}

/// An object type: its fields.
#[derive(Debug)]
pub struct ObjectType {
    pub fields: Vec<Field<FieldType>>,
}

/// The type of a field of an object type.
#[derive(Debug)]
pub enum FieldType {
    Primitive(PrimitiveType),
    Enum(EnumType<i32>),
    EnumString(EnumType<String>),
    Array(ArrayType),
}

/// A named field.
#[derive(Debug)]
pub struct Field<T> {
    pub name: String,
    pub schema: T,
}

/// A type whose values a platform client reads from replies.
pub trait ValueType {
}

/// The extension of a path's file name, as `std::path::Path::extension` gives it: the text
/// after the last dot of the file name, where the name has a dot that does not begin it.
pub uninterp spec fn path_extension(path: Seq<char>) -> Option<Seq<char>>;

/// `std::path::Path::extension` of a path given as text; an extension of a text path is text.
#[verifier::external_body]
fn extension_of(path: &str) -> (r: Option<String>)
    ensures
        match path_extension(path@) {
            Some(e) => r matches Some(x) && x@ == e,
            None => r is None,
        },
{
    match std::path::Path::new(path).extension() {
        Some(e) => Some(e.to_string_lossy().into_owned()),
        None => None,
    }
}

/// Why a file cannot be loaded as a module.
#[derive(Debug, PartialEq, Eq, Structural)]
pub enum ModuleFileError {
    /// The file's extension is not `so`.
    InvalidExtension,
}

/// Checks that a file is a module's shared library: its extension is `so`.
pub fn check_module_file(path: &str) -> (r: Result<(), ModuleFileError>)
    ensures
        r is Ok <==> path_extension(path@) == Some("so"@),
        r is Err ==> r == Err::<(), ModuleFileError>(ModuleFileError::InvalidExtension),
{
    let so = "so".to_owned();
    match extension_of(path) {
        Some(e) => if e == so {
            Ok(())
        } else {
            Err(ModuleFileError::InvalidExtension)
        },
        None => Err(ModuleFileError::InvalidExtension),
    }
}

} // verus!
