//! The store of MIM components and their objects, as loaded from MIM files.
use vstd::prelude::*;

use crate::mim::{TypeSchema, TypeSchemaView};

verus! {

/// A MIM object: a desired or reported setting and its schema.
#[derive(Debug)]
pub struct MimObjectSchema {
    pub name: String,
    pub desired: bool,
    pub schema: TypeSchema,
}

/// A MIM object as a mathematical value.
pub struct ObjectSettingView {
    pub name: Seq<char>,
    pub desired: bool,
    pub schema: TypeSchemaView,
}

impl View for MimObjectSchema {
    type V = ObjectSettingView;

    open spec fn view(&self) -> ObjectSettingView {
        ObjectSettingView { name: self.name@, desired: self.desired, schema: self.schema@ }
    }
}

impl Clone for MimObjectSchema {
    fn clone(&self) -> (r: Self)
        ensures
            r@ == self@,
    {
        MimObjectSchema { name: self.name.clone(), desired: self.desired, schema: self.schema.clone() }
    }
}

/// An entry of a MIM component's contents.
#[derive(Debug)]
pub enum MimObject {
    MimObject(MimObjectSchema),
}

/// A MIM component as it stands in a MIM file.
#[derive(Debug)]
pub struct MimComponentSchema {
    pub name: String,
    pub contents: Vec<MimObject>,
}

/// A MIM file: a named list of components.
#[derive(Debug)]
pub struct MimSchema {
    pub name: String,
    pub contents: Vec<MimComponentSchema>,
}

/// A component of the store: its name and its objects.
#[derive(Debug)]
pub struct ComponentSettings {
    pub name: String,
    pub objects: Vec<MimObjectSchema>,
}

/// A component of the store as a mathematical value.
pub struct ComponentView {
    pub name: Seq<char>,
    pub objects: Seq<ObjectSettingView>,
}

impl View for ComponentSettings {
    type V = ComponentView;

    open spec fn view(&self) -> ComponentView {
        ComponentView { name: self.name@, objects: self.objects@.map_values(|o: MimObjectSchema| o@) }
    }
}

// ---------------------------------------------------------------------------
// Objects of one component: a list keyed by name, where a later entry wins.

/// The object of the given name; where several have it, the last one.
pub open spec fn lookup_object(objs: Seq<ObjectSettingView>, name: Seq<char>) -> Option<ObjectSettingView>
    decreases objs.len(),
{
    if objs.len() == 0 {
        None
    } else if objs.last().name == name {
        Some(objs.last())
    } else {
        lookup_object(objs.drop_last(), name)
    }
}

/// The list without the objects of the given name.
pub open spec fn remove_object(objs: Seq<ObjectSettingView>, name: Seq<char>) -> Seq<ObjectSettingView>
    decreases objs.len(),
{
    if objs.len() == 0 {
        objs
    } else if objs.last().name == name {
        remove_object(objs.drop_last(), name)
    } else {
        remove_object(objs.drop_last(), name).push(objs.last())
    }
}

/// The list after the object `o` has been put in: any object of its name is replaced.
pub open spec fn insert_object(objs: Seq<ObjectSettingView>, o: ObjectSettingView) -> Seq<ObjectSettingView> {
    remove_object(objs, o.name).push(o)
}

/// No two objects share a name.
pub open spec fn unique_object_names(objs: Seq<ObjectSettingView>) -> bool {
    forall|i: int, j: int| 0 <= i < j < objs.len() ==> objs[i].name != objs[j].name
}

/// The names of the objects, in order.
pub open spec fn object_names(objs: Seq<ObjectSettingView>) -> Seq<Seq<char>> {
    objs.map_values(|o: ObjectSettingView| o.name)
}

/// The names of the objects of the given kind, in order: the desired settings when `desired`,
/// the reported ones otherwise.
pub open spec fn object_names_of_kind(objs: Seq<ObjectSettingView>, desired: bool) -> Seq<Seq<char>>
    decreases objs.len(),
{
    if objs.len() == 0 {
        Seq::empty()
    } else if objs.last().desired == desired {
        object_names_of_kind(objs.drop_last(), desired).push(objs.last().name)
    } else {
        object_names_of_kind(objs.drop_last(), desired)
    }
}

/// The names of the reported (not desired) objects, in order.
pub open spec fn reported_object_names(objs: Seq<ObjectSettingView>) -> Seq<Seq<char>> {
    object_names_of_kind(objs, false)
}

/// The names of the desired objects, in order.
pub open spec fn desired_object_names(objs: Seq<ObjectSettingView>) -> Seq<Seq<char>> {
    object_names_of_kind(objs, true)
}

/// Some object is of the given kind: a desired setting when `desired`, a reported one
/// otherwise.
pub open spec fn has_kind(objs: Seq<ObjectSettingView>, desired: bool) -> bool {
    exists|i: int| 0 <= i < objs.len() && objs[i].desired == desired
}

/// Some object is a reported one.
pub open spec fn has_reported(objs: Seq<ObjectSettingView>) -> bool {
    has_kind(objs, false)
}

/// Some object is a desired one.
pub open spec fn has_desired(objs: Seq<ObjectSettingView>) -> bool {
    has_kind(objs, true)
}

// ---------------------------------------------------------------------------
// Components: a list keyed by name, where a later entry wins.

/// The objects of the component of the given name; where several have it, the last one.
pub open spec fn lookup_component(comps: Seq<ComponentView>, name: Seq<char>) -> Option<Seq<ObjectSettingView>>
    decreases comps.len(),
{
    if comps.len() == 0 {
        None
    } else if comps.last().name == name {
        Some(comps.last().objects)
    } else {
        lookup_component(comps.drop_last(), name)
    }
}

/// The list without the components of the given name.
pub open spec fn remove_component(comps: Seq<ComponentView>, name: Seq<char>) -> Seq<ComponentView>
    decreases comps.len(),
{
    if comps.len() == 0 {
        comps
    } else if comps.last().name == name {
        remove_component(comps.drop_last(), name)
    } else {
        remove_component(comps.drop_last(), name).push(comps.last())
    }
}

/// The list after the component `c` has been put in: any component of its name is replaced.
pub open spec fn insert_component(comps: Seq<ComponentView>, c: ComponentView) -> Seq<ComponentView> {
    remove_component(comps, c.name).push(c)
}

/// No two components share a name.
pub open spec fn unique_component_names(comps: Seq<ComponentView>) -> bool {
    forall|i: int, j: int| 0 <= i < j < comps.len() ==> comps[i].name != comps[j].name
}

/// The names of the components, in order.
pub open spec fn component_names(comps: Seq<ComponentView>) -> Seq<Seq<char>> {
    comps.map_values(|c: ComponentView| c.name)
}

/// The names of the components that have an object of the given kind, in order.
pub open spec fn component_names_of_kind(comps: Seq<ComponentView>, desired: bool) -> Seq<Seq<char>>
    decreases comps.len(),
{
    if comps.len() == 0 {
        Seq::empty()
    } else if has_kind(comps.last().objects, desired) {
        component_names_of_kind(comps.drop_last(), desired).push(comps.last().name)
    } else {
        component_names_of_kind(comps.drop_last(), desired)
    }
}

/// The names of the components that have a reported object, in order.
pub open spec fn reported_component_names(comps: Seq<ComponentView>) -> Seq<Seq<char>> {
    component_names_of_kind(comps, false)
}

/// The names of the components that have a desired object, in order.
pub open spec fn desired_component_names(comps: Seq<ComponentView>) -> Seq<Seq<char>> {
    component_names_of_kind(comps, true)
}

/// The store's shape: component names are unique, and so are the object names of each component.
pub open spec fn well_formed(comps: Seq<ComponentView>) -> bool {
    &&& unique_component_names(comps)
    &&& forall|i: int| 0 <= i < comps.len() ==> unique_object_names(#[trigger] comps[i].objects)
}


/// The objects of a list of MIM objects, as mathematical values.
pub open spec fn objects_view(v: Seq<MimObjectSchema>) -> Seq<ObjectSettingView> {
    v.map_values(|o: MimObjectSchema| o@)
}

/// The object that an entry of a component's contents holds.
pub open spec fn entry_view(e: MimObject) -> ObjectSettingView {
    match e {
        MimObject::MimObject(o) => o@,
    }
}

/// The objects of a list, each put in turn: for each name the last object of that name stays.
pub open spec fn dedup_objects(objs: Seq<ObjectSettingView>) -> Seq<ObjectSettingView>
    decreases objs.len(),
{
    if objs.len() == 0 {
        Seq::empty()
    } else {
        insert_object(dedup_objects(objs.drop_last()), objs.last())
    }
}

/// The component that a MIM component of a file makes in the store.
pub open spec fn component_of(c: MimComponentSchema) -> ComponentView {
    ComponentView {
        name: c.name@,
        objects: dedup_objects(c.contents@.map_values(|e: MimObject| entry_view(e))),
    }
}

/// The components of a list, each put in turn into `comps`.
pub open spec fn insert_components(comps: Seq<ComponentView>, cs: Seq<ComponentView>) -> Seq<ComponentView>
    decreases cs.len(),
{
    if cs.len() == 0 {
        comps
    } else {
        insert_component(insert_components(comps, cs.drop_last()), cs.last())
    }
}

/// A MIM file as the loader hands it over: its path, and either the model read from it or
/// the message of why it could not be read.
pub type MimFile = (String, Result<MimSchema, String>);

/// The components that the files that could be read declare, in order.
pub open spec fn file_declarations(files: Seq<MimFile>) -> Seq<MimComponentSchema>
    decreases files.len(),
{
    if files.len() == 0 {
        Seq::empty()
    } else {
        file_declarations(files.drop_last()) + match files.last().1 {
            Ok(m) => m.contents@,
            Err(_) => Seq::empty(),
        }
    }
}

/// The components that the files that could be read make in the store, in order.
pub open spec fn file_components(files: Seq<MimFile>) -> Seq<ComponentView> {
    file_declarations(files).map_values(|c: MimComponentSchema| component_of(c))
}

/// The entry of the error log for a file that could not be read: its path, a colon, a space
/// and the message.
pub open spec fn error_entry(path: Seq<char>, message: Seq<char>) -> Seq<char> {
    path + ": "@ + message
}

/// The error entries of the files that could not be read, in order.
pub open spec fn file_errors(files: Seq<MimFile>) -> Seq<Seq<char>>
    decreases files.len(),
{
    if files.len() == 0 {
        Seq::empty()
    } else {
        file_errors(files.drop_last()) + match files.last().1 {
            Ok(_) => Seq::empty(),
            Err(e) => seq![error_entry(files.last().0@, e@)],
        }
    }
}

// ---------------------------------------------------------------------------
// Lemmas on keyed lists of objects.

proof fn lemma_lookup_object_at(objs: Seq<ObjectSettingView>, i: int)
    requires
        unique_object_names(objs),
        0 <= i < objs.len(),
    ensures
        lookup_object(objs, objs[i].name) == Some(objs[i]),
    decreases objs.len(),
{
    if i != objs.len() - 1 {
        lemma_lookup_object_at(objs.drop_last(), i);
    }
}

proof fn lemma_lookup_object_absent(objs: Seq<ObjectSettingView>, name: Seq<char>)
    ensures
        (lookup_object(objs, name) is None) <==> (forall|k: int| 0 <= k < objs.len() ==> objs[k].name != name),
        lookup_object(objs, name) matches Some(o) ==> o.name == name,
    decreases objs.len(),
{
    if objs.len() > 0 {
        lemma_lookup_object_absent(objs.drop_last(), name);
        if objs.last().name != name {
            assert forall|k: int| 0 <= k < objs.len() - 1 implies objs[k] == objs.drop_last()[k] by {}
        }
    }
}

proof fn lemma_remove_object_absent(objs: Seq<ObjectSettingView>, name: Seq<char>)
    requires
        forall|k: int| 0 <= k < objs.len() ==> objs[k].name != name,
    ensures
        remove_object(objs, name) == objs,
    decreases objs.len(),
{
    if objs.len() > 0 {
        lemma_remove_object_absent(objs.drop_last(), name);
        assert(objs.drop_last().push(objs.last()) =~= objs);
    }
}

proof fn lemma_remove_object_at(objs: Seq<ObjectSettingView>, i: int)
    requires
        unique_object_names(objs),
        0 <= i < objs.len(),
    ensures
        objs.remove(i) == remove_object(objs, objs[i].name),
    decreases objs.len(),
{
    let n = objs[i].name;
    if i == objs.len() - 1 {
        lemma_remove_object_absent(objs.drop_last(), n);
        assert(objs.remove(i) =~= objs.drop_last());
    } else {
        lemma_remove_object_at(objs.drop_last(), i);
        assert(objs.remove(i) =~= objs.drop_last().remove(i).push(objs.last()));
    }
}

proof fn lemma_remove_object_lookup(objs: Seq<ObjectSettingView>, n: Seq<char>, m: Seq<char>)
    requires
        n != m,
    ensures
        lookup_object(remove_object(objs, n), m) == lookup_object(objs, m),
    decreases objs.len(),
{
    if objs.len() > 0 {
        lemma_remove_object_lookup(objs.drop_last(), n, m);
        if objs.last().name != n {
            assert(remove_object(objs, n).drop_last() =~= remove_object(objs.drop_last(), n));
        }
    }
}

// ---------------------------------------------------------------------------
// Lemmas on keyed lists of components.

proof fn lemma_lookup_component_at(comps: Seq<ComponentView>, i: int)
    requires
        unique_component_names(comps),
        0 <= i < comps.len(),
    ensures
        lookup_component(comps, comps[i].name) == Some(comps[i].objects),
    decreases comps.len(),
{
    if i != comps.len() - 1 {
        lemma_lookup_component_at(comps.drop_last(), i);
    }
}

proof fn lemma_lookup_component_absent(comps: Seq<ComponentView>, name: Seq<char>)
    ensures
        (lookup_component(comps, name) is None) <==> (forall|k: int| 0 <= k < comps.len() ==> comps[k].name != name),
    decreases comps.len(),
{
    if comps.len() > 0 {
        lemma_lookup_component_absent(comps.drop_last(), name);
        if comps.last().name != name {
            assert forall|k: int| 0 <= k < comps.len() - 1 implies comps[k] == comps.drop_last()[k] by {}
        }
    }
}

proof fn lemma_remove_component_absent(comps: Seq<ComponentView>, name: Seq<char>)
    requires
        forall|k: int| 0 <= k < comps.len() ==> comps[k].name != name,
    ensures
        remove_component(comps, name) == comps,
    decreases comps.len(),
{
    if comps.len() > 0 {
        lemma_remove_component_absent(comps.drop_last(), name);
        assert(comps.drop_last().push(comps.last()) =~= comps);
    }
}

proof fn lemma_remove_component_at(comps: Seq<ComponentView>, i: int)
    requires
        unique_component_names(comps),
        0 <= i < comps.len(),
    ensures
        comps.remove(i) == remove_component(comps, comps[i].name),
    decreases comps.len(),
{
    let n = comps[i].name;
    if i == comps.len() - 1 {
        lemma_remove_component_absent(comps.drop_last(), n);
        assert(comps.remove(i) =~= comps.drop_last());
    } else {
        lemma_remove_component_at(comps.drop_last(), i);
        assert(comps.remove(i) =~= comps.drop_last().remove(i).push(comps.last()));
    }
}

proof fn lemma_remove_component_lookup(comps: Seq<ComponentView>, n: Seq<char>, m: Seq<char>)
    requires
        n != m,
    ensures
        lookup_component(remove_component(comps, n), m) == lookup_component(comps, m),
    decreases comps.len(),
{
    if comps.len() > 0 {
        lemma_remove_component_lookup(comps.drop_last(), n, m);
        if comps.last().name != n {
            assert(remove_component(comps, n).drop_last() =~= remove_component(comps.drop_last(), n));
        }
    }
}

// ---------------------------------------------------------------------------
// Executable operations on keyed lists.

/// The position of the object of the given name, if there is one.
fn find_object(objs: &Vec<MimObjectSchema>, name: &String) -> (r: Option<usize>)
    ensures
        match r {
            Some(i) => i < objs@.len() && objs@[i as int]@.name == name@,
            None => forall|k: int| 0 <= k < objs@.len() ==> objs@[k]@.name != name@,
        },
{
    let mut i: usize = 0;
    while i < objs.len()
        invariant
            i <= objs@.len(),
            forall|k: int| 0 <= k < i ==> objs@[k]@.name != name@,
        decreases objs@.len() - i,
    {
        if objs[i].name == *name {
            return Some(i);
        }
        i = i + 1;
    }
    None
}

/// Puts the object `o` in, replacing any object of its name.
fn put_object(objs: &mut Vec<MimObjectSchema>, o: MimObjectSchema)
    requires
        unique_object_names(objects_view(old(objs)@)),
    ensures
        objects_view(final(objs)@) == insert_object(objects_view(old(objs)@), o@),
        unique_object_names(objects_view(final(objs)@)),
{
    let ghost old_view = objects_view(objs@);
    match find_object(objs, &o.name) {
        Some(i) => {
            proof {
                lemma_remove_object_at(old_view, i as int);
            }
            objs.remove(i);
            assert(objects_view(objs@) =~= old_view.remove(i as int));
        },
        None => {
            proof {
                lemma_remove_object_absent(old_view, o@.name);
            }
        },
    }
    let ghost removed = objects_view(objs@);
    assert forall|k: int| 0 <= k < removed.len() implies removed[k].name != o@.name by {}
    objs.push(o);
    assert(objects_view(objs@) =~= removed.push(o@));
}


/// The position of the component of the given name, if there is one.
fn find_component(comps: &Vec<ComponentSettings>, name: &String) -> (r: Option<usize>)
    ensures
        match r {
            Some(i) => i < comps@.len() && comps@[i as int]@.name == name@,
            None => forall|k: int| 0 <= k < comps@.len() ==> comps@[k]@.name != name@,
        },
{
    let mut i: usize = 0;
    while i < comps.len()
        invariant
            i <= comps@.len(),
            forall|k: int| 0 <= k < i ==> comps@[k]@.name != name@,
        decreases comps@.len() - i,
    {
        if comps[i].name == *name {
            return Some(i);
        }
        i = i + 1;
    }
    None
}

/// The components of a list, as mathematical values.
pub open spec fn components_view(v: Seq<ComponentSettings>) -> Seq<ComponentView> {
    v.map_values(|c: ComponentSettings| c@)
}

/// Puts the component `c` in, replacing any component of its name.
fn put_component(comps: &mut Vec<ComponentSettings>, c: ComponentSettings)
    requires
        well_formed(components_view(old(comps)@)),
        unique_object_names(c@.objects),
    ensures
        components_view(final(comps)@) == insert_component(components_view(old(comps)@), c@),
        well_formed(components_view(final(comps)@)),
{
    let ghost old_view = components_view(comps@);
    match find_component(comps, &c.name) {
        Some(i) => {
            proof {
                lemma_remove_component_at(old_view, i as int);
            }
            comps.remove(i);
            assert(components_view(comps@) =~= old_view.remove(i as int));
        },
        None => {
            proof {
                lemma_remove_component_absent(old_view, c@.name);
            }
        },
    }
    let ghost removed = components_view(comps@);
    assert forall|k: int| 0 <= k < removed.len() implies removed[k].name != c@.name by {}
    comps.push(c);
    assert(components_view(comps@) =~= removed.push(c@));
}

/// The component that a MIM component of a file makes: its objects, each put in turn.
fn component_settings(c: &MimComponentSchema) -> (r: ComponentSettings)
    ensures
        r@ == component_of(*c),
        unique_object_names(r@.objects),
{
    let ghost entries = c.contents@.map_values(|e: MimObject| entry_view(e));
    let mut objects: Vec<MimObjectSchema> = Vec::new();
    let mut i: usize = 0;
    assert(objects_view(objects@) =~= dedup_objects(entries.take(0)));
    while i < c.contents.len()
        invariant
            i <= c.contents@.len(),
            entries == c.contents@.map_values(|e: MimObject| entry_view(e)),
            objects_view(objects@) == dedup_objects(entries.take(i as int)),
            unique_object_names(objects_view(objects@)),
        decreases c.contents@.len() - i,
    {
        let o = match &c.contents[i] {
            MimObject::MimObject(o) => o.clone(),
        };
        assert(o@ == entries[i as int]);
        put_object(&mut objects, o);
        assert(entries.take(i + 1).drop_last() =~= entries.take(i as int));
        i = i + 1;
    }
    assert(entries.take(i as int) =~= entries);
    let r = ComponentSettings { name: c.name.clone(), objects };
    assert(r@.objects == objects_view(objects@));
    r
}

/// The names that a list of strings holds.
pub open spec fn string_views(v: Seq<String>) -> Seq<Seq<char>> {
    v.map_values(|s: String| s@)
}

/// Whether some object is of the given kind.
fn any_of_kind(objs: &Vec<MimObjectSchema>, desired: bool) -> (r: bool)
    ensures
        r == has_kind(objects_view(objs@), desired),
{
    let mut i: usize = 0;
    while i < objs.len()
        invariant
            i <= objs@.len(),
            forall|k: int| 0 <= k < i ==> objs@[k].desired != desired,
        decreases objs@.len() - i,
    {
        if objs[i].desired == desired {
            assert(objects_view(objs@)[i as int].desired == desired);
            return true;
        }
        i = i + 1;
    }
    assert forall|k: int| 0 <= k < objects_view(objs@).len() implies objects_view(objs@)[k].desired != desired by {
        assert(objs@[k].desired != desired);
    }
    false
}

/// The MIM schemas of a platform: for each component, its objects.
#[derive(Debug)]
pub struct Schema {
    components: Vec<ComponentSettings>,
    errors: Vec<String>,
}

impl View for Schema {
    type V = Seq<ComponentView>;

    closed spec fn view(&self) -> Seq<ComponentView> {
        components_view(self.components@)
    }
}

impl Schema {
    /// The store's shape holds: names of components, and of the objects of each, are unique.
    pub closed spec fn wf(&self) -> bool {
        well_formed(self@)
    }

    /// The messages of the MIM files that could not be read.
    pub closed spec fn error_log(&self) -> Seq<String> {
        self.errors@
    }

    /// An empty store.
    pub fn new() -> (s: Schema)
        ensures
            s.wf(),
            s@ == Seq::<ComponentView>::empty(),
            s.error_log() == Seq::<String>::empty(),
    {
        let s = Schema { components: Vec::new(), errors: Vec::new() };
        assert(s@ =~= Seq::<ComponentView>::empty());
        s
    }

    /// Puts in the components of a MIM file, in order; a component replaces any of its name.
    pub fn add_model(&mut self, mim: &MimSchema)
        requires
            old(self).wf(),
        ensures
            final(self).wf(),
            final(self)@ == insert_components(old(self)@, mim.contents@.map_values(|c: MimComponentSchema| component_of(c))),
            final(self).error_log() == old(self).error_log(),
    {
        let ghost start = self@;
        let ghost cs = mim.contents@.map_values(|c: MimComponentSchema| component_of(c));
        let mut i: usize = 0;
        assert(cs.take(0) =~= Seq::<ComponentView>::empty());
        while i < mim.contents.len()
            invariant
                i <= mim.contents@.len(),
                cs == mim.contents@.map_values(|c: MimComponentSchema| component_of(c)),
                well_formed(components_view(self.components@)),
                components_view(self.components@) == insert_components(start, cs.take(i as int)),
                self.errors@ == old(self).errors@,
            decreases mim.contents@.len() - i,
        {
            let c = component_settings(&mim.contents[i]);
            put_component(&mut self.components, c);
            assert(cs.take(i + 1).drop_last() =~= cs.take(i as int));
            i = i + 1;
        }
        assert(cs.take(i as int) =~= cs);
    }

    /// Records the message of a MIM file that could not be read.
    pub fn add_error(&mut self, message: String)
        ensures
            final(self)@ == old(self)@,
            final(self).wf() == old(self).wf(),
            final(self).error_log() == old(self).error_log().push(message),
    {
        self.errors.push(message);
    }

    /// Takes in one MIM file: the components of a model that was read, or, for a file that
    /// could not be read, an error entry of its path and the message.
    pub fn load_entry(&mut self, path: &str, parsed: Result<&MimSchema, String>)
        requires
            old(self).wf(),
        ensures
            final(self).wf(),
            match parsed {
                Ok(m) => {
                    &&& final(self)@ == insert_components(
                        old(self)@,
                        m.contents@.map_values(|c: MimComponentSchema| component_of(c)),
                    )
                    &&& final(self).error_log() == old(self).error_log()
                },
                Err(e) => {
                    &&& final(self)@ == old(self)@
                    &&& final(self).error_log().len() == old(self).error_log().len() + 1
                    &&& final(self).error_log().drop_last() == old(self).error_log()
                    &&& final(self).error_log().last()@ == error_entry(path@, e@)
                },
            },
    {
        match parsed {
            Ok(m) => self.add_model(m),
            Err(e) => {
                proof {
                    reveal_strlit(": ");
                }
                let message = path.to_owned().concat(": ").concat(e.as_str());
                let ghost before = self.error_log();
                self.add_error(message);
                assert(self.error_log().drop_last() =~= before);
            },
        }
    }

    /// The store of a platform's MIM files, taken in in order: the components of each file
    /// that was read, a later component replacing an earlier one of its name, and an error
    /// entry for each file that was not.
    pub fn load(files: &Vec<MimFile>) -> (s: Schema)
        ensures
            s.wf(),
            s@ == insert_components(Seq::empty(), file_components(files@)),
            string_views(s.error_log()) == file_errors(files@),
    {
        let mut s = Schema::new();
        let mut i: usize = 0;
        proof {
            assert(files@.take(0) =~= Seq::<MimFile>::empty());
            assert(file_components(files@.take(0)) =~= Seq::<ComponentView>::empty());
            assert(string_views(s.error_log()) =~= Seq::<Seq<char>>::empty());
        }
        while i < files.len()
            invariant
                i <= files@.len(),
                s.wf(),
                s@ == insert_components(Seq::empty(), file_components(files@.take(i as int))),
                string_views(s.error_log()) == file_errors(files@.take(i as int)),
            decreases files@.len() - i,
        {
            let ghost before = s@;
            let ghost log = s.error_log();
            let ghost prefix = files@.take(i as int);
            let ghost next = files@.take(i + 1);
            assert(next.drop_last() =~= prefix);
            let (path, parsed) = &files[i];
            match parsed {
                Ok(m) => {
                    s.load_entry(path.as_str(), Ok(m));
                    proof {
                        let added = m.contents@.map_values(|c: MimComponentSchema| component_of(c));
                        assert(file_declarations(next) =~= file_declarations(prefix) + m.contents@);
                        assert(file_components(next) =~= file_components(prefix) + added);
                        lemma_insert_components_append(Seq::empty(), file_components(prefix), added);
                        assert(file_errors(next) =~= file_errors(prefix));
                    }
                },
                Err(e) => {
                    s.load_entry(path.as_str(), Err(e.clone()));
                    proof {
                        assert(file_declarations(next) =~= file_declarations(prefix));
                        assert(file_components(next) =~= file_components(prefix));
                        assert(file_errors(next) =~= file_errors(prefix).push(error_entry(path@, e@)));
                        assert(string_views(s.error_log()) =~= string_views(log).push(error_entry(path@, e@)));
                    }
                },
            }
            i = i + 1;
        }
        assert(files@.take(i as int) =~= files@);
        s
    }

    /// The messages of the MIM files that could not be read.
    pub fn errors(&self) -> (r: &[String])
        ensures
            r@ == self.error_log(),
    {
        self.errors.as_slice()
    }

    /// The names of all components.
    pub fn components(&self) -> (r: Vec<String>)
        ensures
            string_views(r@) == component_names(self@),
    {
        let mut r: Vec<String> = Vec::new();
        let mut i: usize = 0;
        while i < self.components.len()
            invariant
                i <= self.components@.len(),
                r@.len() == i,
                forall|k: int| 0 <= k < i ==> r@[k]@ == self.components@[k].name@,
            decreases self.components@.len() - i,
        {
            r.push(self.components[i].name.clone());
            i = i + 1;
        }
        assert(string_views(r@) =~= component_names(self@));
        r
    }

    /// The position of a component in the store, which must hold it.
    fn position(&self, component: &String) -> (r: usize)
        requires
            self.wf(),
            lookup_component(self@, component@) is Some,
        ensures
            r < self.components@.len(),
            self.components@[r as int]@.name == component@,
            self.components@[r as int]@.objects == lookup_component(self@, component@).unwrap(),
    {
        match find_component(&self.components, component) {
            Some(i) => {
                proof {
                    lemma_lookup_component_at(self@, i as int);
                }
                i
            },
            None => {
                proof {
                    lemma_lookup_component_absent(self@, component@);
                }
                0
            },
        }
    }

    /// The names of the objects of a component.
    pub fn objects(&self, component: &str) -> (r: Vec<String>)
        requires
            self.wf(),
            lookup_component(self@, component@) is Some,
        ensures
            string_views(r@) == object_names(lookup_component(self@, component@).unwrap()),
    {
        let component = component.to_owned();
        let c = self.position(&component);
        let objs = &self.components[c].objects;
        let mut r: Vec<String> = Vec::new();
        let mut i: usize = 0;
        while i < objs.len()
            invariant
                i <= objs@.len(),
                r@.len() == i,
                forall|k: int| 0 <= k < i ==> r@[k]@ == objs@[k].name@,
            decreases objs@.len() - i,
        {
            r.push(objs[i].name.clone());
            i = i + 1;
        }
        assert(string_views(r@) =~= object_names(objects_view(objs@)));
        r
    }

    /// The names of the components that have objects of the given kind.
    fn components_of_kind(&self, desired: bool) -> (r: Vec<String>)
        ensures
            string_views(r@) == component_names_of_kind(self@, desired),
    {
        let ghost v = self@;
        let mut r: Vec<String> = Vec::new();
        let mut i: usize = 0;
        while i < self.components.len()
            invariant
                i <= self.components@.len(),
                v == self@,
                string_views(r@) == component_names_of_kind(v.take(i as int), desired),
            decreases self.components@.len() - i,
        {
            assert(v.take(i + 1).drop_last() =~= v.take(i as int));
            if any_of_kind(&self.components[i].objects, desired) {
                r.push(self.components[i].name.clone());
                assert(string_views(r@) =~= component_names_of_kind(v.take(i as int), desired).push(v[i as int].name));
            }
            i = i + 1;
        }
        assert(v.take(i as int) =~= v);
        r
    }

    /// The names of the components that have objects with reported settings.
    pub fn reported_components(&self) -> (r: Vec<String>)
        ensures
            string_views(r@) == reported_component_names(self@),
    {
        self.components_of_kind(false)
    }

    /// The names of the components that have objects with desired settings.
    pub fn desired_components(&self) -> (r: Vec<String>)
        ensures
            string_views(r@) == desired_component_names(self@),
    {
        self.components_of_kind(true)
    }

    /// The names of the objects of the given kind of a component.
    fn objects_of_kind(&self, component: &String, desired: bool) -> (r: Vec<String>)
        requires
            self.wf(),
            lookup_component(self@, component@) is Some,
        ensures
            string_views(r@) == object_names_of_kind(lookup_component(self@, component@).unwrap(), desired),
    {
        let c = self.position(component);
        let objs = &self.components[c].objects;
        let ghost v = objects_view(objs@);
        let mut r: Vec<String> = Vec::new();
        let mut i: usize = 0;
        while i < objs.len()
            invariant
                i <= objs@.len(),
                v == objects_view(objs@),
                string_views(r@) == object_names_of_kind(v.take(i as int), desired),
            decreases objs@.len() - i,
        {
            assert(v.take(i + 1).drop_last() =~= v.take(i as int));
            if objs[i].desired == desired {
                r.push(objs[i].name.clone());
                assert(string_views(r@) =~= object_names_of_kind(v.take(i as int), desired).push(v[i as int].name));
            }
            i = i + 1;
        }
        assert(v.take(i as int) =~= v);
        r
    }

    /// The names of the objects with reported settings of a component.
    pub fn reported_objects(&self, component: &String) -> (r: Vec<String>)
        requires
            self.wf(),
            lookup_component(self@, component@) is Some,
        ensures
            string_views(r@) == reported_object_names(lookup_component(self@, component@).unwrap()),
    {
        self.objects_of_kind(component, false)
    }

    /// The names of the objects with desired settings of a component.
    pub fn desired_objects(&self, component: &String) -> (r: Vec<String>)
        requires
            self.wf(),
            lookup_component(self@, component@) is Some,
        ensures
            string_views(r@) == desired_object_names(lookup_component(self@, component@).unwrap()),
    {
        self.objects_of_kind(component, true)
    }

    /// The schema of an object of a component.
    pub fn setting(&self, component: &String, object: &String) -> (r: TypeSchema)
        requires
            self.wf(),
            lookup_component(self@, component@) matches Some(objs) && lookup_object(objs, object@) is Some,
        ensures
            r@ == lookup_object(lookup_component(self@, component@).unwrap(), object@).unwrap().schema,
    {
        let c = self.position(component);
        let objs = &self.components[c].objects;
        let ghost v = objects_view(objs@);
        assert(unique_object_names(v)) by {
            assert(v == self@[c as int].objects);
        }
        match find_object(objs, object) {
            Some(i) => {
                proof {
                    lemma_lookup_object_at(v, i as int);
                }
                objs[i].schema.clone()
            },
            None => {
                proof {
                    lemma_lookup_object_absent(v, object@);
                }
                objs[0].schema.clone()
            },
        }
    }
}


// ---------------------------------------------------------------------------
// Laws of the store.

proof fn lemma_push_contains<A>(s: Seq<A>, x: A, n: A)
    ensures
        s.push(x).contains(n) <==> (s.contains(n) || x == n),
{
    if s.push(x).contains(n) {
        let k = choose|k: int| 0 <= k < s.push(x).len() && s.push(x)[k] == n;
        if k < s.len() {
            assert(s[k] == n);
        }
    }
    if s.contains(n) {
        let k = choose|k: int| 0 <= k < s.len() && s[k] == n;
        assert(s.push(x)[k] == n);
    }
    if x == n {
        assert(s.push(x)[s.len() as int] == n);
    }
}

proof fn lemma_kind_component_names_members(comps: Seq<ComponentView>, desired: bool, n: Seq<char>)
    ensures
        component_names_of_kind(comps, desired).contains(n) <==> exists|i: int|
            0 <= i < comps.len() && comps[i].name == n && has_kind(#[trigger] comps[i].objects, desired),
    decreases comps.len(),
{
    if comps.len() > 0 {
        let d = comps.drop_last();
        lemma_kind_component_names_members(d, desired, n);
        if has_kind(comps.last().objects, desired) {
            lemma_push_contains(component_names_of_kind(d, desired), comps.last().name, n);
        }
        if exists|i: int| 0 <= i < d.len() && d[i].name == n && has_kind(#[trigger] d[i].objects, desired) {
            let i = choose|i: int| 0 <= i < d.len() && d[i].name == n && has_kind(#[trigger] d[i].objects, desired);
            assert(comps[i] == d[i]);
        }
        if exists|i: int| 0 <= i < comps.len() && comps[i].name == n && has_kind(#[trigger] comps[i].objects, desired) {
            let i = choose|i: int|
                0 <= i < comps.len() && comps[i].name == n && has_kind(#[trigger] comps[i].objects, desired);
            if i < comps.len() - 1 {
                assert(d[i] == comps[i]);
            }
        }
    }
}

/// A component is listed among the components of a kind exactly when the store holds it and
/// one of its objects is of that kind.
proof fn lemma_components_of_kind(s: Schema, desired: bool, n: Seq<char>)
    requires
        s.wf(),
    ensures
        component_names_of_kind(s@, desired).contains(n) <==> (lookup_component(s@, n) matches Some(objs) && has_kind(
            objs,
            desired,
        )),
{
    lemma_kind_component_names_members(s@, desired, n);
    lemma_lookup_component_absent(s@, n);
    if exists|i: int| 0 <= i < s@.len() && s@[i].name == n {
        let i = choose|i: int| 0 <= i < s@.len() && s@[i].name == n;
        lemma_lookup_component_at(s@, i);
        if exists|j: int| 0 <= j < s@.len() && s@[j].name == n && has_kind(#[trigger] s@[j].objects, desired) {
            let j = choose|j: int| 0 <= j < s@.len() && s@[j].name == n && has_kind(#[trigger] s@[j].objects, desired);
            lemma_lookup_component_at(s@, j);
        }
    }
}

/// A component is listed among the reported components exactly when the store holds it
/// and one of its objects is a reported setting.
pub proof fn law_reported_components(s: Schema, n: Seq<char>)
    requires
        s.wf(),
    ensures
        reported_component_names(s@).contains(n) <==> (lookup_component(s@, n) matches Some(objs) && has_reported(objs)),
{
    lemma_components_of_kind(s, false, n);
}

/// A component is listed among the desired components exactly when the store holds it
/// and one of its objects is a desired setting.
pub proof fn law_desired_components(s: Schema, n: Seq<char>)
    requires
        s.wf(),
    ensures
        desired_component_names(s@).contains(n) <==> (lookup_component(s@, n) matches Some(objs) && has_desired(objs)),
{
    lemma_components_of_kind(s, true, n);
}

/// The component list names each component of the store once, and only those.
pub proof fn law_components_listed_once(s: Schema, n: Seq<char>)
    requires
        s.wf(),
    ensures
        component_names(s@).no_duplicates(),
        component_names(s@).contains(n) <==> lookup_component(s@, n) is Some,
{
    let names = component_names(s@);
    assert forall|i: int, j: int| 0 <= i < names.len() && 0 <= j < names.len() && i != j implies names[i] != names[j] by {
        if i < j {
            assert(s@[i].name != s@[j].name);
        } else {
            assert(s@[j].name != s@[i].name);
        }
    }
    lemma_lookup_component_absent(s@, n);
    if names.contains(n) {
        let k = choose|k: int| 0 <= k < names.len() && names[k] == n;
        assert(s@[k].name == n);
    }
    if lookup_component(s@, n) is Some {
        let k = choose|k: int| 0 <= k < s@.len() && s@[k].name == n;
        assert(names[k] == n);
    }
}

proof fn lemma_kind_object_names_members(objs: Seq<ObjectSettingView>, desired: bool, n: Seq<char>)
    ensures
        object_names_of_kind(objs, desired).contains(n) <==> exists|i: int|
            0 <= i < objs.len() && #[trigger] objs[i].name == n && objs[i].desired == desired,
    decreases objs.len(),
{
    if objs.len() > 0 {
        let d = objs.drop_last();
        lemma_kind_object_names_members(d, desired, n);
        if objs.last().desired == desired {
            lemma_push_contains(object_names_of_kind(d, desired), objs.last().name, n);
        }
        if exists|i: int| 0 <= i < d.len() && #[trigger] d[i].name == n && d[i].desired == desired {
            let i = choose|i: int| 0 <= i < d.len() && #[trigger] d[i].name == n && d[i].desired == desired;
            assert(objs[i] == d[i]);
        }
        if exists|i: int| 0 <= i < objs.len() && #[trigger] objs[i].name == n && objs[i].desired == desired {
            let i = choose|i: int| 0 <= i < objs.len() && #[trigger] objs[i].name == n && objs[i].desired == desired;
            if i < objs.len() - 1 {
                assert(d[i] == objs[i]);
            }
        }
    }
}

proof fn lemma_split_lengths(objs: Seq<ObjectSettingView>)
    ensures
        reported_object_names(objs).len() + desired_object_names(objs).len() == objs.len(),
    decreases objs.len(),
{
    if objs.len() > 0 {
        lemma_split_lengths(objs.drop_last());
    }
}

/// The objects of a component split into reported and desired ones: each object is in
/// exactly one of the two lists, and the two lists together are as long as the object list.
pub proof fn law_objects_split(s: Schema, component: Seq<char>, n: Seq<char>)
    requires
        s.wf(),
        lookup_component(s@, component) is Some,
    ensures
        ({
            let objs = lookup_component(s@, component).unwrap();
            &&& reported_object_names(objs).len() + desired_object_names(objs).len() == objs.len()
            &&& object_names(objs).contains(n) <==> (reported_object_names(objs).contains(n)
                || desired_object_names(objs).contains(n))
            &&& !(reported_object_names(objs).contains(n) && desired_object_names(objs).contains(n))
        }),
{
    let objs = lookup_component(s@, component).unwrap();
    lemma_lookup_component_absent(s@, component);
    let k = choose|k: int| 0 <= k < s@.len() && s@[k].name == component;
    lemma_lookup_component_at(s@, k);
    assert(unique_object_names(objs));
    lemma_split_lengths(objs);
    lemma_kind_object_names_members(objs, false, n);
    lemma_kind_object_names_members(objs, true, n);
    let names = object_names(objs);
    if names.contains(n) {
        let i = choose|i: int| 0 <= i < names.len() && names[i] == n;
        assert(objs[i].name == n);
    }
    if reported_object_names(objs).contains(n) {
        let i = choose|i: int| 0 <= i < objs.len() && #[trigger] objs[i].name == n && !objs[i].desired;
        assert(names[i] == n);
        if desired_object_names(objs).contains(n) {
            let j = choose|j: int| 0 <= j < objs.len() && #[trigger] objs[j].name == n && objs[j].desired;
            if i < j {
                assert(objs[i].name != objs[j].name);
            } else if j < i {
                assert(objs[j].name != objs[i].name);
            }
        }
    }
    if desired_object_names(objs).contains(n) {
        let i = choose|i: int| 0 <= i < objs.len() && #[trigger] objs[i].name == n && objs[i].desired;
        assert(names[i] == n);
    }
}

proof fn lemma_insert_component_lookup(comps: Seq<ComponentView>, c: ComponentView, n: Seq<char>)
    ensures
        lookup_component(insert_component(comps, c), n) == if c.name == n {
            Some(c.objects)
        } else {
            lookup_component(comps, n)
        },
{
    let r = insert_component(comps, c);
    assert(r.drop_last() =~= remove_component(comps, c.name));
    if c.name != n {
        lemma_remove_component_lookup(comps, c.name, n);
    }
}

/// Loading components: a later component replaces an earlier one of the same name, whether
/// the earlier one was in the store already or came before it in the same file; the store's
/// other components stay as they were.
pub proof fn law_insert_components_lookup(comps: Seq<ComponentView>, cs: Seq<ComponentView>, n: Seq<char>)
    ensures
        lookup_component(insert_components(comps, cs), n) == match lookup_component(cs, n) {
            Some(objs) => Some(objs),
            None => lookup_component(comps, n),
        },
    decreases cs.len(),
{
    if cs.len() > 0 {
        law_insert_components_lookup(comps, cs.drop_last(), n);
        lemma_insert_component_lookup(insert_components(comps, cs.drop_last()), cs.last(), n);
    }
}

proof fn lemma_insert_object_lookup(objs: Seq<ObjectSettingView>, o: ObjectSettingView, n: Seq<char>)
    ensures
        lookup_object(insert_object(objs, o), n) == if o.name == n {
            Some(o)
        } else {
            lookup_object(objs, n)
        },
{
    let r = insert_object(objs, o);
    assert(r.drop_last() =~= remove_object(objs, o.name));
    if o.name != n {
        lemma_remove_object_lookup(objs, o.name, n);
    }
}

/// Within a component of a MIM file, a later object replaces an earlier one of the same name:
/// the store finds for each name the last object of that name.
pub proof fn law_dedup_objects_lookup(objs: Seq<ObjectSettingView>, n: Seq<char>)
    ensures
        lookup_object(dedup_objects(objs), n) == lookup_object(objs, n),
    decreases objs.len(),
{
    if objs.len() > 0 {
        law_dedup_objects_lookup(objs.drop_last(), n);
        lemma_insert_object_lookup(dedup_objects(objs.drop_last()), objs.last(), n);
    }
}

proof fn lemma_push_no_duplicates<A>(s: Seq<A>, x: A)
    requires
        s.no_duplicates(),
        !s.contains(x),
    ensures
        s.push(x).no_duplicates(),
{
    let t = s.push(x);
    assert forall|i: int, j: int| 0 <= i < t.len() && 0 <= j < t.len() && i != j implies t[i] != t[j] by {
        if i < s.len() && j < s.len() {
            assert(t[i] == s[i] && t[j] == s[j]);
        } else if i < s.len() {
            assert(t[i] == s[i]);
        } else {
            assert(t[j] == s[j]);
        }
    }
}

proof fn lemma_object_kinds_unique(objs: Seq<ObjectSettingView>, desired: bool)
    requires
        unique_object_names(objs),
    ensures
        object_names_of_kind(objs, desired).no_duplicates(),
    decreases objs.len(),
{
    if objs.len() > 0 {
        let d = objs.drop_last();
        let last = objs.last();
        assert forall|i: int, j: int| 0 <= i < j < d.len() implies d[i].name != d[j].name by {
            assert(d[i] == objs[i] && d[j] == objs[j]);
        }
        lemma_object_kinds_unique(d, desired);
        lemma_kind_object_names_members(d, desired, last.name);
        assert forall|i: int| 0 <= i < d.len() implies (#[trigger] d[i]).name != last.name by {
            assert(d[i] == objs[i]);
            assert(objs[i].name != objs[objs.len() - 1].name);
        }
        if last.desired == desired {
            lemma_push_no_duplicates(object_names_of_kind(d, desired), last.name);
        }
    }
}

proof fn lemma_component_kinds_unique(comps: Seq<ComponentView>, desired: bool)
    requires
        unique_component_names(comps),
    ensures
        component_names_of_kind(comps, desired).no_duplicates(),
    decreases comps.len(),
{
    if comps.len() > 0 {
        let d = comps.drop_last();
        let last = comps.last();
        assert forall|i: int, j: int| 0 <= i < j < d.len() implies d[i].name != d[j].name by {
            assert(d[i] == comps[i] && d[j] == comps[j]);
        }
        lemma_component_kinds_unique(d, desired);
        lemma_kind_component_names_members(d, desired, last.name);
        assert forall|i: int| 0 <= i < d.len() implies (#[trigger] d[i]).name != last.name by {
            assert(d[i] == comps[i]);
            assert(comps[i].name != comps[comps.len() - 1].name);
        }
        if has_kind(last.objects, desired) {
            lemma_push_no_duplicates(component_names_of_kind(d, desired), last.name);
        }
    }
}

/// The reported and the desired component lists name each of their components once.
pub proof fn law_component_kinds_listed_once(s: Schema)
    requires
        s.wf(),
    ensures
        reported_component_names(s@).no_duplicates(),
        desired_component_names(s@).no_duplicates(),
{
    lemma_component_kinds_unique(s@, false);
    lemma_component_kinds_unique(s@, true);
}

/// The object lists of a component name each object once; an object is listed among the
/// reported objects exactly when the component holds an object of that name loaded as a
/// reported setting, and among the desired ones exactly when it was loaded as a desired one.
pub proof fn law_objects_listed_once(s: Schema, component: Seq<char>, n: Seq<char>)
    requires
        s.wf(),
        lookup_component(s@, component) is Some,
    ensures
        ({
            let objs = lookup_component(s@, component).unwrap();
            &&& object_names(objs).no_duplicates()
            &&& reported_object_names(objs).no_duplicates()
            &&& desired_object_names(objs).no_duplicates()
            &&& reported_object_names(objs).contains(n) <==> (lookup_object(objs, n) matches Some(o) && !o.desired)
            &&& desired_object_names(objs).contains(n) <==> (lookup_object(objs, n) matches Some(o) && o.desired)
        }),
{
    let objs = lookup_component(s@, component).unwrap();
    lemma_lookup_component_absent(s@, component);
    let k = choose|k: int| 0 <= k < s@.len() && s@[k].name == component;
    lemma_lookup_component_at(s@, k);
    assert(unique_object_names(objs));
    let names = object_names(objs);
    assert forall|i: int, j: int| 0 <= i < names.len() && 0 <= j < names.len() && i != j implies names[i]
        != names[j] by {
        if i < j {
            assert(objs[i].name != objs[j].name);
        } else {
            assert(objs[j].name != objs[i].name);
        }
    }
    lemma_object_kinds_unique(objs, false);
    lemma_object_kinds_unique(objs, true);
    lemma_kind_object_names_members(objs, false, n);
    lemma_kind_object_names_members(objs, true, n);
    lemma_lookup_object_absent(objs, n);
    if exists|i: int| 0 <= i < objs.len() && objs[i].name == n {
        let i = choose|i: int| 0 <= i < objs.len() && objs[i].name == n;
        lemma_lookup_object_at(objs, i);
        if exists|j: int| 0 <= j < objs.len() && #[trigger] objs[j].name == n && !objs[j].desired {
            let j = choose|j: int| 0 <= j < objs.len() && #[trigger] objs[j].name == n && !objs[j].desired;
            lemma_lookup_object_at(objs, j);
        }
        if exists|j: int| 0 <= j < objs.len() && #[trigger] objs[j].name == n && objs[j].desired {
            let j = choose|j: int| 0 <= j < objs.len() && #[trigger] objs[j].name == n && objs[j].desired;
            lemma_lookup_object_at(objs, j);
        }
    }
}

proof fn lemma_insert_components_append(comps: Seq<ComponentView>, a: Seq<ComponentView>, b: Seq<ComponentView>)
    ensures
        insert_components(comps, a + b) == insert_components(insert_components(comps, a), b),
    decreases b.len(),
{
    if b.len() == 0 {
        assert(a + b =~= a);
    } else {
        assert((a + b).drop_last() =~= a + b.drop_last());
        assert((a + b).last() == b.last());
        lemma_insert_components_append(comps, a, b.drop_last());
    }
}

proof fn lemma_lookup_component_last(comps: Seq<ComponentView>, j: int, c: Seq<char>)
    requires
        0 <= j < comps.len(),
        comps[j].name == c,
        forall|k: int| j < k < comps.len() ==> (#[trigger] comps[k]).name != c,
    ensures
        lookup_component(comps, c) == Some(comps[j].objects),
    decreases comps.len(),
{
    if j < comps.len() - 1 {
        let d = comps.drop_last();
        assert forall|k: int| j < k < d.len() implies (#[trigger] d[k]).name != c by {
            assert(d[k] == comps[k]);
        }
        assert(comps.last().name != c) by {
            assert(comps[comps.len() - 1].name != c);
        }
        lemma_lookup_component_last(d, j, c);
    }
}

/// Loading MIM files: a component is in the store exactly when a file that was read declares
/// it; the store lists each component once; and the component comes from the last
/// declaration of its name, with, for each object name, the last object of that name in
/// that declaration, its schema and whether it is a desired setting.
pub proof fn law_load_from_files(s: Schema, files: Seq<MimFile>, c: Seq<char>)
    requires
        s.wf(),
        s@ == insert_components(Seq::empty(), file_components(files)),
    ensures
        component_names(s@).no_duplicates(),
        component_names(s@).contains(c) <==> exists|i: int|
            0 <= i < file_declarations(files).len() && (#[trigger] file_declarations(files)[i]).name@ == c,
        forall|j: int, n: Seq<char>|
            #![trigger file_declarations(files)[j], lookup_object(lookup_component(s@, c).unwrap(), n)]
            0 <= j < file_declarations(files).len() && file_declarations(files)[j].name@ == c && (forall|k: int|
                j < k < file_declarations(files).len() ==> (#[trigger] file_declarations(files)[k]).name@ != c)
                ==> lookup_component(s@, c) is Some && lookup_object(lookup_component(s@, c).unwrap(), n)
                == lookup_object(
                file_declarations(files)[j].contents@.map_values(|e: MimObject| entry_view(e)),
                n,
            ),
{
    let decl = file_declarations(files);
    let comps = file_components(files);
    law_components_listed_once(s, c);
    law_insert_components_lookup(Seq::empty(), comps, c);
    lemma_lookup_component_absent(Seq::<ComponentView>::empty(), c);
    lemma_lookup_component_absent(comps, c);
    if exists|i: int| 0 <= i < decl.len() && (#[trigger] decl[i]).name@ == c {
        let i = choose|i: int| 0 <= i < decl.len() && (#[trigger] decl[i]).name@ == c;
        assert(comps[i].name == c);
    }
    if lookup_component(comps, c) is Some {
        let i = choose|i: int| 0 <= i < comps.len() && comps[i].name == c;
        assert(decl[i].name@ == c);
    }
    assert forall|j: int, n: Seq<char>|
        0 <= j < decl.len() && decl[j].name@ == c && (forall|k: int| j < k < decl.len() ==> (#[trigger] decl[k]).name@ != c)
        implies lookup_component(s@, c) is Some && lookup_object(lookup_component(s@, c).unwrap(), n) == lookup_object(
        decl[j].contents@.map_values(|e: MimObject| entry_view(e)),
        n,
    ) by {
        assert forall|k: int| j < k < comps.len() implies (#[trigger] comps[k]).name != c by {
            assert(decl[k].name@ != c);
        }
        lemma_lookup_component_last(comps, j, c);
        law_dedup_objects_lookup(decl[j].contents@.map_values(|e: MimObject| entry_view(e)), n);
    }
}

proof fn lemma_dedup_unique(objs: Seq<ObjectSettingView>)
    requires
        unique_object_names(objs),
    ensures
        dedup_objects(objs) == objs,
    decreases objs.len(),
{
    if objs.len() > 0 {
        let d = objs.drop_last();
        assert forall|i: int, j: int| 0 <= i < j < d.len() implies d[i].name != d[j].name by {
            assert(d[i] == objs[i] && d[j] == objs[j]);
        }
        lemma_dedup_unique(d);
        assert forall|k: int| 0 <= k < d.len() implies d[k].name != objs.last().name by {
            assert(d[k] == objs[k]);
            assert(objs[k].name != objs[objs.len() - 1].name);
        }
        lemma_remove_object_absent(d, objs.last().name);
        assert(d.push(objs.last()) =~= objs);
    }
}

/// Loading MIM files, where the last declaration of a component names each of its objects
/// once: the store holds exactly that declaration's objects, in order, each with its schema
/// and whether it is a desired setting.
pub proof fn law_load_declared_objects(s: Schema, files: Seq<MimFile>, c: Seq<char>, j: int)
    requires
        s.wf(),
        s@ == insert_components(Seq::empty(), file_components(files)),
        0 <= j < file_declarations(files).len(),
        file_declarations(files)[j].name@ == c,
        forall|k: int|
            j < k < file_declarations(files).len() ==> (#[trigger] file_declarations(files)[k]).name@ != c,
        unique_object_names(file_declarations(files)[j].contents@.map_values(|e: MimObject| entry_view(e))),
    ensures
        lookup_component(s@, c) == Some(file_declarations(files)[j].contents@.map_values(|e: MimObject| entry_view(e))),
{
    let decl = file_declarations(files);
    let comps = file_components(files);
    assert forall|k: int| j < k < comps.len() implies (#[trigger] comps[k]).name != c by {
        assert(decl[k].name@ != c);
    }
    lemma_lookup_component_last(comps, j, c);
    law_insert_components_lookup(Seq::empty(), comps, c);
    lemma_lookup_component_absent(Seq::<ComponentView>::empty(), c);
    lemma_dedup_unique(decl[j].contents@.map_values(|e: MimObject| entry_view(e)));
}

} // verus!
