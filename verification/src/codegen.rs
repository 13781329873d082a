//! The decisions of the `osc_module` code generator: naming of components and objects,
//! merging of attribute arguments, and the dispatch that the generated module performs.
use vstd::prelude::*;

verus! {

/// The scope of a code generator diagnostic.
#[derive(Clone, Copy, Debug, PartialEq, Eq, Structural)]
pub enum Scope {
    ComponentAttr,
}

/// The link to the specification that diagnostics point to.
pub const SPEC_URL: &'static str = "TODO: GitHub URL";

/// The section of the specification that a scope refers to.
pub open spec fn section_of(scope: Scope) -> Seq<char> {
    match scope {
        Scope::ComponentAttr => "TODO: component section"@,
    }
}

/// The name of a scope, as diagnostics print it.
pub open spec fn name_of(scope: Scope) -> Seq<char> {
    match scope {
        Scope::ComponentAttr => "OSConfig component"@,
    }
}

impl Scope {
    /// The section of the specification that this scope refers to.
    pub fn spec_section(&self) -> (r: &'static str)
        ensures
            r@ == section_of(*self),
    {
        match self {
            Scope::ComponentAttr => "TODO: component section",
        }
    }

    /// The name of the scope, as diagnostics print it.
    pub fn name(&self) -> (r: &'static str)
        ensures
            r@ == name_of(*self),
    {
        match self {
            Scope::ComponentAttr => "OSConfig component",
        }
    }

    /// The link to this scope's section of the specification.
    pub fn spec_link(&self) -> (r: String)
        ensures
            r@ == SPEC_URL@ + section_of(*self),
    {
        let link = SPEC_URL.to_owned();
        link.concat(self.spec_section())
    }

    /// The message of a diagnostic of this scope: the scope's name, a space and the text.
    pub fn message(&self, msg: &str) -> (r: String)
        ensures
            r@ == name_of(*self) + " "@ + msg@,
    {
        let text = self.name().to_owned();
        text.concat(" ").concat(msg)
    }
}

/// The arguments of an `osc_component` or `osc_module` attribute.
#[derive(Debug)]
pub struct Attr {
    /// The name given explicitly, if one is.
    pub name: Option<String>,
}

impl Default for Attr {
    fn default() -> (r: Self)
        ensures
            r.name is None,
    {
        Attr { name: None }
    }
}

/// Two attributes both gave a name.
#[derive(Debug, PartialEq, Eq, Structural)]
pub enum AttrError {
    DuplicateName,
}

/// The name that the attributes give, merged in order: `None` where no attribute gives one,
/// and an error where two do.
pub open spec fn merged_name(names: Seq<Option<String>>) -> Result<Option<String>, AttrError>
    decreases names.len(),
{
    if names.len() == 0 {
        Ok(None)
    } else {
        match merged_name(names.drop_last()) {
            Err(e) => Err(e),
            Ok(prev) => if prev is Some && names.last() is Some {
                Err(AttrError::DuplicateName)
            } else if prev is Some {
                Ok(prev)
            } else {
                Ok(names.last())
            },
        }
    }
}

impl Attr {
    /// Merges two attributes: an error where both give a name, else the name of either.
    pub fn try_merge(self, another: Self) -> (r: Result<Self, AttrError>)
        ensures
            (self.name is Some && another.name is Some) ==> r == Err::<Attr, AttrError>(AttrError::DuplicateName),
            !(self.name is Some && another.name is Some) ==> (r matches Ok(a) && a.name == (if self.name is Some {
                self.name
            } else {
                another.name
            })),
    {
        let mut another = another;
        if self.name.is_some() && another.name.is_some() {
            return Err(AttrError::DuplicateName);
        }
        if self.name.is_some() {
            another.name = self.name;
        }
        Ok(another)
    }

    /// Merges the attributes in order, starting from the default: the one name that they give,
    /// or an error where two give one.
    pub fn from_attrs(attrs: Vec<Attr>) -> (r: Result<Attr, AttrError>)
        ensures
            match merged_name(attrs@.map_values(|a: Attr| a.name)) {
                Ok(n) => r matches Ok(a) && a.name == n,
                Err(e) => r == Err::<Attr, AttrError>(e),
            },
    {
        let ghost names = attrs@.map_values(|a: Attr| a.name);
        let mut acc = Attr::default();
        let mut i: usize = 0;
        while i < attrs.len()
            invariant
                i <= attrs@.len(),
                names == attrs@.map_values(|a: Attr| a.name),
                merged_name(names.take(i as int)) == Ok::<Option<String>, AttrError>(acc.name),
            decreases attrs@.len() - i,
        {
            let name = match &attrs[i].name {
                Some(n) => Some(n.clone()),
                None => None,
            };
            assert(name == names[i as int]);
            assert(names.take(i + 1).drop_last() =~= names.take(i as int));
            match acc.try_merge(Attr { name }) {
                Ok(m) => {
                    acc = m;
                },
                Err(e) => {
                    proof {
                        lemma_merged_name_stays_err(names, i as int + 1);
                    }
                    return Err(e);
                },
            }
            i = i + 1;
        }
        assert(names.take(i as int) =~= names);
        Ok(acc)
    }
}

proof fn lemma_merged_name_stays_err(names: Seq<Option<String>>, i: int)
    requires
        0 <= i <= names.len(),
        merged_name(names.take(i)) is Err,
    ensures
        merged_name(names) == merged_name(names.take(i)),
    decreases names.len() - i,
{
    if i < names.len() {
        assert(names.take(i + 1).drop_last() =~= names.take(i));
        lemma_merged_name_stays_err(names, i + 1);
    } else {
        assert(names.take(i) =~= names);
    }
}

/// The number of attributes that give a name.
pub open spec fn named_count(names: Seq<Option<String>>) -> nat
    decreases names.len(),
{
    if names.len() == 0 {
        0
    } else {
        named_count(names.drop_last()) + if names.last() is Some {
            1nat
        } else {
            0nat
        }
    }
}

/// Merging attributes fails exactly when two or more give a name; where none gives one the
/// merged attribute has none, and where one gives a name the merged attribute has that name.
pub proof fn law_merge_at_most_one_name(names: Seq<Option<String>>)
    ensures
        merged_name(names) is Err <==> named_count(names) >= 2,
        merged_name(names) == Ok::<Option<String>, AttrError>(None) <==> named_count(names) == 0,
        merged_name(names) matches Ok(Some(n)) ==> names.contains(Some(n)),
    decreases names.len(),
{
    if names.len() > 0 {
        let d = names.drop_last();
        law_merge_at_most_one_name(d);
        if let Ok(Some(n)) = merged_name(d) {
            let i = choose|i: int| 0 <= i < d.len() && d[i] == Some(n);
            assert(names[i] == Some(n));
        }
        if let Ok(Some(n)) = merged_name(names) {
            if merged_name(d) == Ok::<Option<String>, AttrError>(None) {
                assert(names[names.len() - 1] == Some(n));
            }
        }
    }
}


/// Whether a resolver method reports or takes a desired value.
#[derive(Clone, Copy, Debug, PartialEq, Eq, Structural)]
pub enum Kind {
    Reported,
    Desired,
}

/// A property resolver of a component: the object's name, the method and its kind.
#[derive(Debug)]
pub struct ObjectDefinition {
    pub name: String,
    pub ident: String,
    pub kind: Kind,
}

impl Clone for ObjectDefinition {
    fn clone(&self) -> (r: Self)
        ensures
            r == *self,
    {
        ObjectDefinition { name: self.name.clone(), ident: self.ident.clone(), kind: self.kind }
    }
}

/// An identifier without its raw prefix `r#`, where it has one.
pub open spec fn unraw_of(s: Seq<char>) -> Seq<char> {
    if s.len() >= 2 && s[0] == 'r' && s[1] == '#' {
        s.skip(2)
    } else {
        s
    }
}

/// An identifier without its raw prefix `r#`, where it has one.
pub fn unraw(ident: &str) -> (r: String)
    ensures
        r@ == unraw_of(ident@),
{
    let n = ident.unicode_len();
    if n >= 2 && ident.get_char(0) == 'r' && ident.get_char(1) == '#' {
        let rest = ident.substring_char(2, n);
        assert(ident@.subrange(2, n as int) =~= ident@.skip(2));
        rest.to_owned()
    } else {
        ident.to_owned()
    }
}

/// The resolver of an object: named by its attribute where that gives a name, else by its
/// method.
pub fn object_definition(attr_name: Option<String>, ident: &str, kind: Kind) -> (r: ObjectDefinition)
    ensures
        r.name@ == (match attr_name {
            Some(n) => n@,
            None => unraw_of(ident@),
        }),
        r.ident@ == ident@,
        r.kind == kind,
{
    let name = match attr_name {
        Some(n) => n,
        None => unraw(ident),
    };
    ObjectDefinition { name, ident: ident.to_owned(), kind }
}

/// The resolvers of the given kind, in order.
pub open spec fn of_kind(objs: Seq<ObjectDefinition>, kind: Kind) -> Seq<ObjectDefinition>
    decreases objs.len(),
{
    if objs.len() == 0 {
        Seq::empty()
    } else if objs.last().kind == kind {
        of_kind(objs.drop_last(), kind).push(objs.last())
    } else {
        of_kind(objs.drop_last(), kind)
    }
}

fn select_kind(objs: &Vec<ObjectDefinition>, kind: Kind) -> (r: Vec<ObjectDefinition>)
    ensures
        r@ == of_kind(objs@, kind),
{
    let mut r: Vec<ObjectDefinition> = Vec::new();
    let mut i: usize = 0;
    while i < objs.len()
        invariant
            i <= objs@.len(),
            r@ == of_kind(objs@.take(i as int), kind),
        decreases objs@.len() - i,
    {
        assert(objs@.take(i + 1).drop_last() =~= objs@.take(i as int));
        if objs[i].kind == kind {
            r.push(objs[i].clone());
        }
        i = i + 1;
    }
    assert(objs@.take(i as int) =~= objs@);
    r
}

/// A component that the generator implements: its name, its type, and its reported and
/// desired resolvers.
#[derive(Debug)]
pub struct ComponentDefinition {
    pub name: String,
    pub ident: String,
    pub reported_objects: Vec<ObjectDefinition>,
    pub desired_objects: Vec<ObjectDefinition>,
}

/// The component of an `impl` block: named by its attribute where that gives a name, else by
/// its type; its resolvers split by kind, each list in the order of the block.
pub fn component_definition(attr: Attr, type_ident: &str, objects: &Vec<ObjectDefinition>) -> (r: ComponentDefinition)
    ensures
        r.name@ == (match attr.name {
            Some(n) => n@,
            None => unraw_of(type_ident@),
        }),
        r.ident@ == unraw_of(type_ident@),
        r.reported_objects@ == of_kind(objects@, Kind::Reported),
        r.desired_objects@ == of_kind(objects@, Kind::Desired),
{
    let name = match attr.name {
        Some(n) => n,
        None => unraw(type_ident),
    };
    ComponentDefinition {
        name,
        ident: unraw(type_ident),
        reported_objects: select_kind(objects, Kind::Reported),
        desired_objects: select_kind(objects, Kind::Desired),
    }
}

/// The shape of a type that an `impl` block is written for, as far as naming a component
/// reads it.
#[derive(Debug)]
pub enum TypeShape {
    /// A path, by its segments' identifiers.
    Path(Vec<String>),
    /// A type in parentheses.
    Paren(Box<TypeShape>),
    /// A type in an invisible group.
    Group(Box<TypeShape>),
    /// A reference to a type.
    Reference(Box<TypeShape>),
    /// A trait object, by its first bound.
    TraitObject(Bound),
    /// The unit type `()`.
    Unit,
    /// Any other type.
    Other,
}

/// A bound of a trait object.
#[derive(Debug)]
pub enum Bound {
    /// A trait, by its path's segments' identifiers.
    Trait(Vec<String>),
    /// A lifetime.
    Lifetime,
}

/// The type inside any parentheses and groups.
pub open spec fn unparenthesized_of(t: TypeShape) -> TypeShape
    decreases t,
{
    match t {
        TypeShape::Paren(inner) => unparenthesized_of(*inner),
        TypeShape::Group(inner) => unparenthesized_of(*inner),
        _ => t,
    }
}

/// The last segment of a path, if it has one.
pub open spec fn last_segment(segments: Seq<String>) -> Option<Seq<char>> {
    if segments.len() > 0 {
        Some(segments.last()@)
    } else {
        None
    }
}

/// The topmost identifier of a type: the last segment of its path, of the path of the type it
/// refers to, or of the first trait bound of the trait object it refers to; none for other
/// types.
pub open spec fn topmost_ident_of(t: TypeShape) -> Option<Seq<char>> {
    match unparenthesized_of(t) {
        TypeShape::Path(segments) => last_segment(segments@),
        TypeShape::Reference(inner) => match unparenthesized_of(*inner) {
            TypeShape::Path(segments) => last_segment(segments@),
            TypeShape::TraitObject(Bound::Trait(segments)) => last_segment(segments@),
            _ => None,
        },
        _ => None,
    }
}

impl TypeShape {
    /// The type inside any parentheses and groups.
    pub fn unparenthesized(&self) -> (r: &TypeShape)
        ensures
            *r == unparenthesized_of(*self),
        decreases self,
    {
        match self {
            TypeShape::Paren(inner) => inner.unparenthesized(),
            TypeShape::Group(inner) => inner.unparenthesized(),
            _ => self,
        }
    }

    /// The topmost identifier of this type, where it has one.
    pub fn topmost_ident(&self) -> (r: Option<String>)
        ensures
            match topmost_ident_of(*self) {
                Some(id) => r matches Some(s) && s@ == id,
                None => r is None,
            },
    {
        match self.unparenthesized() {
            TypeShape::Path(segments) => last_of(segments),
            TypeShape::Reference(inner) => match inner.unparenthesized() {
                TypeShape::Path(segments) => last_of(segments),
                TypeShape::TraitObject(Bound::Trait(segments)) => last_of(segments),
                _ => None,
            },
            _ => None,
        }
    }
}

fn last_of(segments: &Vec<String>) -> (r: Option<String>)
    ensures
        match last_segment(segments@) {
            Some(id) => r matches Some(s) && s@ == id,
            None => r is None,
        },
{
    if segments.len() > 0 {
        Some(segments[segments.len() - 1].clone())
    } else {
        None
    }
}

/// The message of the error for an `impl` type that has no topmost identifier.
pub open spec fn no_ident_message() -> Seq<char> {
    name_of(Scope::ComponentAttr) + " "@ + "could not determine ident for the `impl` type"@
}

/// The component of an `impl` block for the given type: an error where the type has no
/// topmost identifier, else the component named by the attribute or by that identifier.
pub fn component_of_impl(attr: Attr, self_ty: &TypeShape, objects: &Vec<ObjectDefinition>) -> (r: Result<
    ComponentDefinition,
    String,
>)
    ensures
        match topmost_ident_of(*self_ty) {
            None => r matches Err(m) && m@ == no_ident_message(),
            Some(id) => r matches Ok(c) && c.name@ == (match attr.name {
                Some(n) => n@,
                None => unraw_of(id),
            }) && c.ident@ == unraw_of(id) && c.reported_objects@ == of_kind(objects@, Kind::Reported)
                && c.desired_objects@ == of_kind(objects@, Kind::Desired),
        },
{
    match self_ty.topmost_ident() {
        Some(type_ident) => Ok(component_definition(attr, type_ident.as_str(), objects)),
        None => Err(Scope::ComponentAttr.message("could not determine ident for the `impl` type")),
    }
}

/// A type shape as a mathematical value.
pub enum TypeShapeView {
    Path(Seq<Seq<char>>),
    Paren(Box<TypeShapeView>),
    Group(Box<TypeShapeView>),
    Reference(Box<TypeShapeView>),
    TraitObject(BoundView),
    Unit,
    Other,
}

/// A bound of a trait object as a mathematical value.
pub enum BoundView {
    Trait(Seq<Seq<char>>),
    Lifetime,
}

/// The texts of a list of strings.
pub open spec fn texts(v: Seq<String>) -> Seq<Seq<char>> {
    v.map_values(|s: String| s@)
}

/// A type shape as a mathematical value.
pub open spec fn shape_view(t: TypeShape) -> TypeShapeView
    decreases t,
{
    match t {
        TypeShape::Path(segments) => TypeShapeView::Path(texts(segments@)),
        TypeShape::Paren(inner) => TypeShapeView::Paren(Box::new(shape_view(*inner))),
        TypeShape::Group(inner) => TypeShapeView::Group(Box::new(shape_view(*inner))),
        TypeShape::Reference(inner) => TypeShapeView::Reference(Box::new(shape_view(*inner))),
        TypeShape::TraitObject(Bound::Trait(segments)) => TypeShapeView::TraitObject(BoundView::Trait(texts(segments@))),
        TypeShape::TraitObject(Bound::Lifetime) => TypeShapeView::TraitObject(BoundView::Lifetime),
        TypeShape::Unit => TypeShapeView::Unit,
        TypeShape::Other => TypeShapeView::Other,
    }
}

fn copy_strings(v: &Vec<String>) -> (r: Vec<String>)
    ensures
        texts(r@) == texts(v@),
{
    let r = v.clone();
    assert forall|i: int| 0 <= i < r@.len() implies r@[i] == v@[i] by {
        assert(cloned::<String>(v[i], r[i]));
    }
    assert(texts(r@) =~= texts(v@));
    r
}

/// A copy of a type shape.
fn copy_shape(t: &TypeShape) -> (r: TypeShape)
    ensures
        shape_view(r) == shape_view(*t),
    decreases t,
{
    match t {
        TypeShape::Path(segments) => TypeShape::Path(copy_strings(segments)),
        TypeShape::Paren(inner) => TypeShape::Paren(Box::new(copy_shape(inner))),
        TypeShape::Group(inner) => TypeShape::Group(Box::new(copy_shape(inner))),
        TypeShape::Reference(inner) => TypeShape::Reference(Box::new(copy_shape(inner))),
        TypeShape::TraitObject(Bound::Trait(segments)) => TypeShape::TraitObject(Bound::Trait(copy_strings(segments))),
        TypeShape::TraitObject(Bound::Lifetime) => TypeShape::TraitObject(Bound::Lifetime),
        TypeShape::Unit => TypeShape::Unit,
        TypeShape::Other => TypeShape::Other,
    }
}

/// The type that an object method returns: its declared return type without parentheses and
/// groups, or `()` where it declares none.
pub open spec fn return_type_of(output: Option<TypeShape>) -> TypeShapeView {
    match output {
        Some(t) => shape_view(unparenthesized_of(t)),
        None => TypeShapeView::Unit,
    }
}

/// The type that a method returns: its declared return type without parentheses and groups,
/// or `()` where it declares none.
pub fn return_type(output: &Option<TypeShape>) -> (r: TypeShape)
    ensures
        shape_view(r) == return_type_of(*output),
{
    match output {
        Some(t) => copy_shape(t.unparenthesized()),
        None => TypeShape::Unit,
    }
}

/// Attributes, by their paths, without those of the given path, in order.
pub open spec fn stripped(attrs: Seq<String>, path: Seq<char>) -> Seq<String>
    decreases attrs.len(),
{
    if attrs.len() == 0 {
        Seq::empty()
    } else if attrs.last()@ == path {
        stripped(attrs.drop_last(), path)
    } else {
        stripped(attrs.drop_last(), path).push(attrs.last())
    }
}

/// Removes the attributes of the given path from a list of attributes given by their paths,
/// keeping the others in order.
pub fn strip(attr_path: &str, attrs: Vec<String>) -> (r: Vec<String>)
    ensures
        r@ == stripped(attrs@, attr_path@),
{
    let key = attr_path.to_owned();
    let mut r: Vec<String> = Vec::new();
    let mut i: usize = 0;
    while i < attrs.len()
        invariant
            i <= attrs@.len(),
            key@ == attr_path@,
            r@ == stripped(attrs@.take(i as int), attr_path@),
        decreases attrs@.len() - i,
    {
        assert(attrs@.take(i + 1).drop_last() =~= attrs@.take(i as int));
        if attrs[i] != key {
            r.push(attrs[i].clone());
        }
        i = i + 1;
    }
    assert(attrs@.take(i as int) =~= attrs@);
    r
}

/// A method of an `impl` block, as far as reading an object from it goes: its name, the paths
/// of its attributes, and its declared return type.
#[derive(Debug)]
pub struct MethodShape {
    pub ident: String,
    pub attrs: Vec<String>,
    pub output: Option<TypeShape>,
}

/// What the `osc_object` attributes of a method say: the name they give, if any, and whether
/// the object is reported or desired.
#[derive(Debug)]
pub struct ObjectAttr {
    pub name: Option<String>,
    pub kind: Kind,
}

/// Reads the object of a method: its `osc_object` attributes are removed from the method in
/// any case; where they could be read, the object is named by them or else by the method, and
/// comes with the type the method returns.
pub fn parse_object(method: &mut MethodShape, attr: Option<ObjectAttr>) -> (r: Option<(ObjectDefinition, TypeShape)>)
    ensures
        final(method).attrs@ == stripped(old(method).attrs@, "osc_object"@),
        final(method).ident == old(method).ident,
        final(method).output == old(method).output,
        match attr {
            None => r is None,
            Some(a) => r matches Some((d, ty)) && d.name@ == (match a.name {
                Some(n) => n@,
                None => unraw_of(old(method).ident@),
            }) && d.ident@ == old(method).ident@ && d.kind == a.kind && shape_view(ty) == return_type_of(
                old(method).output,
            ),
        },
{
    let mut attrs: Vec<String> = Vec::new();
    core::mem::swap(&mut attrs, &mut method.attrs);
    method.attrs = strip("osc_object", attrs);
    match attr {
        None => None,
        Some(a) => {
            let definition = object_definition(a.name, method.ident.as_str(), a.kind);
            let ty = return_type(&method.output);
            Some((definition, ty))
        },
    }
}

/// The component that deriving it from a struct makes: named by the struct, with one reported
/// object per named field, in order, and no desired one.
pub fn derived_component(struct_ident: &str, fields: &Vec<String>) -> (r: ComponentDefinition)
    ensures
        r.name@ == struct_ident@,
        r.ident@ == struct_ident@,
        r.reported_objects@.len() == fields@.len(),
        forall|i: int| 0 <= i < fields@.len() ==> (#[trigger] r.reported_objects@[i]).name == fields@[i]
            && r.reported_objects@[i].ident == fields@[i] && r.reported_objects@[i].kind == Kind::Reported,
        r.desired_objects@.len() == 0,
{
    ComponentDefinition {
        name: struct_ident.to_owned(),
        ident: struct_ident.to_owned(),
        reported_objects: objects_of_fields(fields),
        desired_objects: Vec::new(),
    }
}

/// Why the generated module could not serve a request.
#[derive(Debug)]
pub enum DispatchError {
    UnknownComponent(String),
    UnknownObject(String),
}

/// The position of the first resolver of the given name, as the generated `match` picks it.
pub open spec fn first_named(objs: Seq<ObjectDefinition>, name: Seq<char>, from: int) -> Option<int>
    decreases objs.len() - from,
{
    if from < 0 || from >= objs.len() {
        None
    } else if objs[from].name@ == name {
        Some(from)
    } else {
        first_named(objs, name, from + 1)
    }
}

proof fn lemma_first_named(objs: Seq<ObjectDefinition>, name: Seq<char>, from: int)
    requires
        0 <= from,
    ensures
        match first_named(objs, name, from) {
            Some(i) => from <= i < objs.len() && objs[i].name@ == name && forall|k: int|
                from <= k < i ==> (#[trigger] objs[k]).name@ != name,
            None => forall|k: int| from <= k < objs.len() ==> (#[trigger] objs[k]).name@ != name,
        },
    decreases objs.len() - from,
{
    if from < objs.len() && objs[from].name@ != name {
        lemma_first_named(objs, name, from + 1);
    }
}

/// A request for an object goes to the first resolver whose object name is the requested one:
/// that resolver has the name, none before it has, and the object is unknown only where no
/// resolver has the name.
pub proof fn law_dispatch_by_name(objs: Seq<ObjectDefinition>, name: Seq<char>)
    ensures
        match first_named(objs, name, 0) {
            Some(i) => 0 <= i < objs.len() && objs[i].name@ == name && forall|k: int|
                0 <= k < i ==> (#[trigger] objs[k]).name@ != name,
            None => forall|k: int| 0 <= k < objs.len() ==> (#[trigger] objs[k]).name@ != name,
        },
{
    lemma_first_named(objs, name, 0);
}

fn find_named(objs: &Vec<ObjectDefinition>, name: &String) -> (r: Option<usize>)
    ensures
        match r {
            Some(i) => first_named(objs@, name@, 0) == Some(i as int),
            None => first_named(objs@, name@, 0) is None,
        },
{
    let mut i: usize = 0;
    while i < objs.len()
        invariant
            i <= objs@.len(),
            first_named(objs@, name@, 0) == first_named(objs@, name@, i as int),
        decreases objs@.len() - i,
    {
        if objs[i].name == *name {
            return Some(i);
        }
        i = i + 1;
    }
    None
}

impl ComponentDefinition {
    /// The reported resolver that the generated component calls for an object, or the error
    /// it gives for an unknown object.
    pub fn reported_target(&self, object: &str) -> (r: Result<usize, DispatchError>)
        ensures
            match first_named(self.reported_objects@, object@, 0) {
                Some(i) => r == Ok::<usize, DispatchError>(i as usize),
                None => r matches Err(DispatchError::UnknownObject(o)) && o@ == object@,
            },
            r matches Ok(i) ==> i < self.reported_objects@.len() && self.reported_objects@[i as int].name@ == object@
                && forall|k: int| 0 <= k < i ==> (#[trigger] self.reported_objects@[k]).name@ != object@,
            r is Err ==> forall|k: int|
                0 <= k < self.reported_objects@.len() ==> (#[trigger] self.reported_objects@[k]).name@ != object@,
    {
        proof {
            law_dispatch_by_name(self.reported_objects@, object@);
        }
        let key = object.to_owned();
        match find_named(&self.reported_objects, &key) {
            Some(i) => Ok(i),
            None => Err(DispatchError::UnknownObject(key)),
        }
    }

    /// The desired resolver that the generated component calls for an object, or the error it
    /// gives for an unknown object: the `desired` method that `#[osc_module]` generates refuses
    /// an object without a desired resolver, as its `reported` does.
    pub fn desired_target(&self, object: &str) -> (r: Result<usize, DispatchError>)
        ensures
            match first_named(self.desired_objects@, object@, 0) {
                Some(i) => r == Ok::<usize, DispatchError>(i as usize),
                None => r matches Err(DispatchError::UnknownObject(o)) && o@ == object@,
            },
            r matches Ok(i) ==> i < self.desired_objects@.len() && self.desired_objects@[i as int].name@ == object@
                && forall|k: int| 0 <= k < i ==> (#[trigger] self.desired_objects@[k]).name@ != object@,
            r is Err ==> forall|k: int|
                0 <= k < self.desired_objects@.len() ==> (#[trigger] self.desired_objects@[k]).name@ != object@,
    {
        proof {
            law_dispatch_by_name(self.desired_objects@, object@);
        }
        let key = object.to_owned();
        match find_named(&self.desired_objects, &key) {
            Some(i) => Ok(i),
            None => Err(DispatchError::UnknownObject(key)),
        }
    }

    /// The reported resolver that the generated module calls for a component and object: the
    /// component must be this one.
    pub fn module_get_target(&self, component: &str, object: &str) -> (r: Result<usize, DispatchError>)
        ensures
            component@ != self.name@ ==> (r matches Err(DispatchError::UnknownComponent(c)) && c@ == component@),
            component@ == self.name@ ==> match first_named(self.reported_objects@, object@, 0) {
                Some(i) => r == Ok::<usize, DispatchError>(i as usize),
                None => r matches Err(DispatchError::UnknownObject(o)) && o@ == object@,
            },
            r matches Ok(i) ==> component@ == self.name@ && i < self.reported_objects@.len() && self.reported_objects@[i as int].name@
                == object@ && forall|k: int| 0 <= k < i ==> (#[trigger] self.reported_objects@[k]).name@ != object@,
            (component@ == self.name@ && r is Err) ==> forall|k: int|
                0 <= k < self.reported_objects@.len() ==> (#[trigger] self.reported_objects@[k]).name@ != object@,
    {
        let key = component.to_owned();
        if key == self.name {
            self.reported_target(object)
        } else {
            Err(DispatchError::UnknownComponent(key))
        }
    }

    /// The desired resolver that the generated module calls for a component and object: the
    /// component must be this one.
    pub fn module_set_target(&self, component: &str, object: &str) -> (r: Result<usize, DispatchError>)
        ensures
            component@ != self.name@ ==> (r matches Err(DispatchError::UnknownComponent(c)) && c@ == component@),
            component@ == self.name@ ==> match first_named(self.desired_objects@, object@, 0) {
                Some(i) => r == Ok::<usize, DispatchError>(i as usize),
                None => r matches Err(DispatchError::UnknownObject(o)) && o@ == object@,
            },
            r matches Ok(i) ==> component@ == self.name@ && i < self.desired_objects@.len() && self.desired_objects@[i as int].name@
                == object@ && forall|k: int| 0 <= k < i ==> (#[trigger] self.desired_objects@[k]).name@ != object@,
            (component@ == self.name@ && r is Err) ==> forall|k: int|
                0 <= k < self.desired_objects@.len() ==> (#[trigger] self.desired_objects@[k]).name@ != object@,
    {
        let key = component.to_owned();
        if key == self.name {
            self.desired_target(object)
        } else {
            Err(DispatchError::UnknownComponent(key))
        }
    }
}


/// The name of the module type generated for a component type: the type's name and `Module`.
pub fn module_type_name(ident: &str) -> (r: String)
    ensures
        r@ == ident@ + "Module"@,
{
    ident.to_owned().concat("Module")
}

/// The resolvers that deriving a component from a struct makes: one reported object per named
/// field, named and resolved by the field, in order.
pub fn objects_of_fields(fields: &Vec<String>) -> (r: Vec<ObjectDefinition>)
    ensures
        r@.len() == fields@.len(),
        forall|i: int| 0 <= i < r@.len() ==> (#[trigger] r@[i]).name == fields@[i] && r@[i].ident == fields@[i]
            && r@[i].kind == Kind::Reported,
{
    let mut r: Vec<ObjectDefinition> = Vec::new();
    let mut i: usize = 0;
    while i < fields.len()
        invariant
            i <= fields@.len(),
            r@.len() == i,
            forall|k: int| 0 <= k < i ==> (#[trigger] r@[k]).name == fields@[k] && r@[k].ident == fields@[k]
                && r@[k].kind == Kind::Reported,
        decreases fields@.len() - i,
    {
        r.push(ObjectDefinition { name: fields[i].clone(), ident: fields[i].clone(), kind: Kind::Reported });
        i = i + 1;
    }
    r
}

proof fn lemma_of_kind_len(objs: Seq<ObjectDefinition>)
    ensures
        of_kind(objs, Kind::Reported).len() + of_kind(objs, Kind::Desired).len() == objs.len(),
    decreases objs.len(),
{
    if objs.len() > 0 {
        lemma_of_kind_len(objs.drop_last());
    }
}

proof fn lemma_of_kind_members(objs: Seq<ObjectDefinition>, kind: Kind, o: ObjectDefinition)
    ensures
        of_kind(objs, kind).contains(o) <==> (objs.contains(o) && o.kind == kind),
    decreases objs.len(),
{
    if objs.len() > 0 {
        let d = objs.drop_last();
        lemma_of_kind_members(d, kind, o);
        if objs.last().kind == kind {
            let r = of_kind(d, kind);
            if r.push(objs.last()).contains(o) {
                let k = choose|k: int| 0 <= k < r.push(objs.last()).len() && r.push(objs.last())[k] == o;
                if k < r.len() {
                    assert(r[k] == o);
                }
            }
            if r.contains(o) {
                let k = choose|k: int| 0 <= k < r.len() && r[k] == o;
                assert(r.push(objs.last())[k] == o);
            }
            if o == objs.last() {
                assert(r.push(objs.last())[r.len() as int] == o);
            }
        }
        if objs.contains(o) {
            let k = choose|k: int| 0 <= k < objs.len() && objs[k] == o;
            if k < objs.len() - 1 {
                assert(d[k] == o);
            }
        }
        if d.contains(o) {
            let k = choose|k: int| 0 <= k < d.len() && d[k] == o;
            assert(objs[k] == o);
        }
    }
}

/// Every resolver of a component goes to exactly one of its two lists: reported ones to the
/// reported list, desired ones to the desired list, none lost.
pub proof fn law_resolvers_split_by_kind(objs: Seq<ObjectDefinition>, o: ObjectDefinition)
    ensures
        of_kind(objs, Kind::Reported).len() + of_kind(objs, Kind::Desired).len() == objs.len(),
        objs.contains(o) <==> (of_kind(objs, Kind::Reported).contains(o) || of_kind(objs, Kind::Desired).contains(o)),
        of_kind(objs, Kind::Reported).contains(o) ==> o.kind == Kind::Reported,
        of_kind(objs, Kind::Desired).contains(o) ==> o.kind == Kind::Desired,
{
    lemma_of_kind_len(objs);
    lemma_of_kind_members(objs, Kind::Reported, o);
    lemma_of_kind_members(objs, Kind::Desired, o);
}

} // verus!
