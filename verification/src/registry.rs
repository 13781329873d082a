//! The registry of declarative modules: each module is a manifest of properties, and a
//! property is read by performing its read action.
use vstd::prelude::*;

use crate::keyed::{entries_view, from_entries, get_key, insert_key, lookup, put_key, unique_keys};

verus! {

/// The type of a property's value.
#[derive(Clone, Copy, Debug, PartialEq, Eq, Structural)]
pub enum Schema {
    Number,
    Bool,
    String,
}

/// How a property is read.
#[derive(Debug)]
pub enum ReadAction {
    /// The value is the content of a file.
    FileContent { path: String },
}

impl Clone for ReadAction {
    fn clone(&self) -> (r: Self)
        ensures
            r == *self,
    {
        match self {
            ReadAction::FileContent { path } => ReadAction::FileContent { path: path.clone() },
        }
    }
}

/// The read side of a property.
#[derive(Debug)]
pub struct Read {
    pub action: ReadAction,
}

impl Clone for Read {
    fn clone(&self) -> (r: Self)
        ensures
            r == *self,
    {
        Read { action: self.action.clone() }
    }
}

impl Read {
    /// The action that reading this property performs.
    pub fn resolve(&self) -> (r: ReadAction)
        ensures
            r == self.action,
    {
        self.action.clone()
    }
}

/// A property of a module manifest.
#[derive(Debug)]
pub struct Property {
    pub name: String,
    pub schema: Schema,
    pub read: Option<Read>,
}

impl View for Property {
    type V = Property;

    open spec fn view(&self) -> Property {
        *self
    }
}

impl Clone for Property {
    fn clone(&self) -> (r: Self)
        ensures
            r == *self,
    {
        let read = match &self.read {
            Some(read) => Some(read.clone()),
            None => None,
        };
        Property { name: self.name.clone(), schema: self.schema, read }
    }
}

/// A module manifest: the module's name and its properties.
#[derive(Debug)]
pub struct Manifest {
    pub name: String,
    pub properties: Vec<Property>,
}

/// Why a property could not be read.
#[derive(Debug, PartialEq, Eq, Structural)]
pub enum RegistryError {
    ModuleNotFound,
    PropertyNotFound,
    NotReadable,
}

/// The properties of a module, keyed by property name.
pub type PropertiesView = Seq<(Seq<char>, Property)>;

/// What reading a property of a module gives: its read action, or why there is none.
pub open spec fn resolution(props: PropertiesView, property: Seq<char>) -> Result<ReadAction, RegistryError> {
    match lookup(props, property) {
        None => Err(RegistryError::PropertyNotFound),
        Some(p) => match p.read {
            None => Err(RegistryError::NotReadable),
            Some(read) => Ok(read.action),
        },
    }
}

/// The properties of a manifest, keyed by name: a later property replaces an earlier one of
/// the same name.
pub open spec fn manifest_properties(manifest: Manifest) -> PropertiesView {
    from_entries(manifest.properties@.map_values(|p: Property| (p.name@, p)))
}

/// A loaded module: its properties by name.
#[derive(Debug)]
pub struct Module {
    properties: Vec<(String, Property)>,
}

impl View for Module {
    type V = PropertiesView;

    closed spec fn view(&self) -> PropertiesView {
        entries_view(self.properties@)
    }
}

impl Module {
    /// Property names are unique.
    pub closed spec fn wf(&self) -> bool {
        unique_keys(self@)
    }

    /// Makes a module from its manifest; gives the module's name with it.
    pub fn new(manifest: Manifest) -> (r: Result<(String, Module), RegistryError>)
        ensures
            r matches Ok((name, module)) && name == manifest.name && module.wf() && module@
                == manifest_properties(manifest),
    {
        let ghost entries = manifest.properties@.map_values(|p: Property| (p.name@, p));
        let mut properties: Vec<(String, Property)> = Vec::new();
        let mut i: usize = 0;
        assert(entries_view(properties@) =~= from_entries(entries.take(0)));
        while i < manifest.properties.len()
            invariant
                i <= manifest.properties@.len(),
                entries == manifest.properties@.map_values(|p: Property| (p.name@, p)),
                unique_keys(entries_view(properties@)),
                entries_view(properties@) == from_entries(entries.take(i as int)),
            decreases manifest.properties@.len() - i,
        {
            let property = manifest.properties[i].clone();
            let name = property.name.clone();
            put_key(&mut properties, name, property);
            assert(entries.take(i + 1).drop_last() =~= entries.take(i as int));
            i = i + 1;
        }
        assert(entries.take(i as int) =~= entries);
        let module = Module { properties };
        Ok((manifest.name, module))
    }

    /// The read action of a property, or why there is none.
    pub fn resolve(&self, property: &str) -> (r: Result<ReadAction, RegistryError>)
        requires
            self.wf(),
        ensures
            r == resolution(self@, property@),
    {
        let key = property.to_owned();
        match get_key(&self.properties, &key) {
            None => Err(RegistryError::PropertyNotFound),
            Some(p) => match &p.read {
                None => Err(RegistryError::NotReadable),
                Some(read) => Ok(read.resolve()),
            },
        }
    }
}

/// The modules of a registry, keyed by module name.
pub type RegistryView = Seq<(Seq<char>, PropertiesView)>;

/// What reading a property of a module of the registry gives.
pub open spec fn registry_resolution(reg: RegistryView, module: Seq<char>, property: Seq<char>) -> Result<ReadAction, RegistryError> {
    match lookup(reg, module) {
        None => Err(RegistryError::ModuleNotFound),
        Some(props) => resolution(props, property),
    }
}

/// Module names are unique, and so are the property names of each module.
pub open spec fn registry_wf(reg: RegistryView) -> bool {
    &&& unique_keys(reg)
    &&& forall|i: int| 0 <= i < reg.len() ==> unique_keys(#[trigger] reg[i].1)
}

/// The loaded modules, by name.
#[derive(Debug)]
pub struct Registry {
    modules: Vec<(String, Module)>,
}

impl View for Registry {
    type V = RegistryView;

    closed spec fn view(&self) -> RegistryView {
        entries_view(self.modules@)
    }
}

impl Registry {
    /// The registry's shape holds.
    pub closed spec fn wf(&self) -> bool {
        registry_wf(self@)
    }

    /// An empty registry.
    pub fn new() -> (r: Registry)
        ensures
            r.wf(),
            r@ == Seq::<(Seq<char>, PropertiesView)>::empty(),
    {
        let r = Registry { modules: Vec::new() };
        assert(r@ =~= Seq::<(Seq<char>, PropertiesView)>::empty());
        r
    }

    /// Adds the module of a manifest, replacing any module of its name.
    pub fn load_manifest(&mut self, manifest: Manifest) -> (r: Result<(), RegistryError>)
        requires
            old(self).wf(),
        ensures
            r is Ok,
            final(self).wf(),
            final(self)@ == insert_key(old(self)@, manifest.name@, manifest_properties(manifest)),
    {
        let ghost props = manifest_properties(manifest);
        let ghost name = manifest.name@;
        match Module::new(manifest) {
            Ok((name, module)) => {
                let ghost before = self@;
                put_key(&mut self.modules, name, module);
                assert forall|i: int| 0 <= i < self@.len() implies unique_keys(#[trigger] self@[i].1) by {
                    if i == self@.len() - 1 {
                        assert(self@[i].1 == props);
                    } else {
                        let d = crate::keyed::remove_key(before, name@);
                        assert(self@[i] == d[i]);
                        lemma_remove_keeps(before, name@, i);
                    }
                }
                Ok(())
            },
            Err(e) => Err(e),
        }
    }

    /// The read action of a property of a module, or why there is none.
    pub fn get(&self, module: &str, property: &str) -> (r: Result<ReadAction, RegistryError>)
        requires
            self.wf(),
        ensures
            r == registry_resolution(self@, module@, property@),
    {
        let key = module.to_owned();
        match get_key(&self.modules, &key) {
            None => Err(RegistryError::ModuleNotFound),
            Some(m) => {
                proof {
                    crate::keyed::lemma_lookup_absent(self@, module@);
                    let k = choose|k: int| 0 <= k < self@.len() && self@[k].0 == module@;
                    crate::keyed::lemma_lookup_at(self@, k);
                }
                m.resolve(property)
            },
        }
    }
}

proof fn lemma_remove_keeps(reg: RegistryView, k: Seq<char>, i: int)
    requires
        registry_wf(reg),
        0 <= i < crate::keyed::remove_key(reg, k).len(),
    ensures
        unique_keys(crate::keyed::remove_key(reg, k)[i].1),
    decreases reg.len(),
{
    let d = crate::keyed::remove_key(reg, k);
    if reg.len() > 0 {
        let rest = reg.drop_last();
        assert(registry_wf(rest)) by {
            assert forall|j: int| 0 <= j < rest.len() implies unique_keys(#[trigger] rest[j].1) by {
                assert(rest[j] == reg[j]);
            }
        }
        if reg.last().0 == k {
            lemma_remove_keeps(rest, k, i);
        } else if i < d.len() - 1 {
            lemma_remove_keeps(rest, k, i);
        } else {
            assert(d[i] == reg.last());
            assert(unique_keys(reg[reg.len() - 1].1));
        }
    }
}

/// After a manifest is loaded, reading a property of its module performs the read action of
/// the manifest's last property of that name; the other modules read as before.
pub proof fn law_load_then_get(reg: RegistryView, manifest: Manifest, module: Seq<char>, property: Seq<char>)
    ensures
        registry_resolution(insert_key(reg, manifest.name@, manifest_properties(manifest)), module, property) == if module
            == manifest.name@ {
            resolution(manifest.properties@.map_values(|p: Property| (p.name@, p)), property)
        } else {
            registry_resolution(reg, module, property)
        },
{
    crate::keyed::law_insert_lookup(reg, manifest.name@, manifest_properties(manifest), module);
    crate::keyed::law_from_entries_lookup(manifest.properties@.map_values(|p: Property| (p.name@, p)), property);
}

} // verus!
