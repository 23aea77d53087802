//! Tables that say, for each kind of voxel, what is known about it.

use std::any::TypeId;
use vstd::prelude::*;
use crate::world::voxel::Error;

verus! {

/// The standard library's identifier of a type.
#[verifier::external_type_specification]
#[verifier::external_body]
pub struct ExTypeId(TypeId);

/// `TypeId::eq`: two identifiers are equal exactly when they are the same
/// identifier.
#[verifier::external_body]
fn same_type(a: &TypeId, b: &TypeId) -> (same: bool)
    ensures
        same == (*a == *b),
{
    a == b
}

/// What can be stored as an attribute of voxels.
pub trait Attribute: 'static + Send + Sync {

}

impl<A: 'static + Send + Sync> Attribute for A {

}

/// Mathematical model of an [`AttributeRegistry`].
pub struct RegistryView<A> {
    /// What the attribute is called.
    pub label: Seq<char>,
    /// The attribute of each voxel id that has one.
    pub attributes: Map<u16, A>,
}

/// Stores one kind of attribute for all voxel ids that have it.
pub struct AttributeRegistry<A: Attribute> {
    map: Vec<Option<A>>,
    label: String,
}

impl<A: Attribute> View for AttributeRegistry<A> {
    type V = RegistryView<A>;

    closed spec fn view(&self) -> RegistryView<A> {
        RegistryView {
            label: self.label@,
            attributes: Map::new(
                |id: u16| id < self.map@.len() && self.map@[id as int] is Some,
                |id: u16| self.map@[id as int].unwrap(),
            ),
        }
    }
}

impl<A: Attribute> AttributeRegistry<A> {
    /// An empty table for the attribute of the given name.
    pub fn new(attribute_label: &str) -> (registry: AttributeRegistry<A>)
        ensures
            registry@.label == attribute_label@,
            registry@.attributes == Map::<u16, A>::empty(),
    {
        let registry = AttributeRegistry { map: Vec::new(), label: attribute_label.to_owned() };
        assert(registry@.attributes =~= Map::<u16, A>::empty());
        registry
    }

    /// What the attribute is called.
    pub fn get_label(&self) -> (label: &str)
        ensures
            label@ == self@.label,
    {
        self.label.as_str()
    }

    /// Stores the attribute of a voxel id that has none yet. An id that has
    /// one keeps it.
    pub fn register(&mut self, id: u16, attribute_obj: A) -> (registered: Result<(), Error>)
        ensures
            final(self)@.label == old(self)@.label,
            match registered {
                Ok(_) => !old(self)@.attributes.contains_key(id) && final(self)@.attributes == old(
                    self,
                )@.attributes.insert(id, attribute_obj),
                Err(error) => error == Error::AttributeAlreadyRegistered(id) && old(
                    self,
                )@.attributes.contains_key(id) && final(self)@ == old(self)@,
            },
    {
        let index = id as usize;
        while self.map.len() <= index
            invariant
                index == id,
                self.label == old(self).label,
                old(self).map@.len() <= self.map@.len(),
                self.map@.len() <= index + 1 || self.map@.len() == old(self).map@.len(),
                forall|i: int| 0 <= i < old(self).map@.len() ==> self.map@[i] == old(self).map@[i],
                forall|i: int| old(self).map@.len() <= i < self.map@.len() ==> self.map@[i] is None,
            decreases index + 1 - self.map@.len(),
        {
            self.map.push(None);
        }
        assert(self@.attributes =~= old(self)@.attributes);
        match self.map[index] {
            Some(_) => Err(Error::AttributeAlreadyRegistered(id)),
            None => {
                self.map[index] = Some(attribute_obj);
                assert(self@.attributes =~= old(self)@.attributes.insert(id, attribute_obj));
                Ok(())
            },
        }
    }

    /// The attribute of a voxel id; the same as [`AttributeRegistry::find`].
    pub fn get(&self, id: u16) -> (found: Result<&A, Error>)
        ensures
            match found {
                Ok(attribute) => self@.attributes.contains_key(id) && *attribute
                    == self@.attributes[id],
                Err(error) => error == Error::AttributeMissing(id) && !self@.attributes.contains_key(
                    id,
                ),
            },
    {
        self.find(id)
    }

    /// The attribute of a voxel id.
    pub fn find(&self, id: u16) -> (found: Result<&A, Error>)
        ensures
            match found {
                Ok(attribute) => self@.attributes.contains_key(id) && *attribute
                    == self@.attributes[id],
                Err(error) => error == Error::AttributeMissing(id) && !self@.attributes.contains_key(
                    id,
                ),
            },
    {
        let index = id as usize;
        if index >= self.map.len() {
            return Err(Error::AttributeMissing(id));
        }
        match &self.map[index] {
            Some(attribute) => Ok(attribute),
            None => Err(Error::AttributeMissing(id)),
        }
    }
}

/// Whether the entries hold each binding of the map once, and nothing else.
spec fn binds(entries: Seq<(String, u16)>, names: Map<Seq<char>, u16>) -> bool {
    &&& forall|i: int|
        0 <= i < entries.len() ==> names.contains_key((#[trigger] entries[i]).0@)
            && names[entries[i].0@] == entries[i].1
    &&& forall|name: Seq<char>| #[trigger]
        names.contains_key(name) ==> exists|i: int|
            0 <= i < entries.len() && (#[trigger] entries[i]).0@ == name
    &&& forall|i: int, j: int|
        0 <= i < j < entries.len() ==> (#[trigger] entries[i]).0@ != (#[trigger] entries[j]).0@
}

/// Finds the id of a voxel by its name, for scripts and for stored worlds
/// that must keep their meaning.
pub struct NameRegistry {
    entries: Vec<(String, u16)>,
    names: Ghost<Map<Seq<char>, u16>>,
}

impl View for NameRegistry {
    type V = Map<Seq<char>, u16>;

    closed spec fn view(&self) -> Map<Seq<char>, u16> {
        self.names@
    }
}

impl NameRegistry {
    #[verifier::type_invariant]
    spec fn well_formed(self) -> bool {
        binds(self.entries@, self.names@)
    }

    /// A registry that knows no name.
    pub fn new() -> (registry: NameRegistry)
        ensures
            registry@ == Map::<Seq<char>, u16>::empty(),
    {
        NameRegistry { entries: Vec::new(), names: Ghost(Map::empty()) }
    }

    /// Binds the name to the id. A name that was bound before is bound anew
    /// all the same, and the id it had is reported.
    pub fn add(&mut self, name: &str, id: u16) -> (added: Result<(), Error>)
        ensures
            final(self)@ == old(self)@.insert(name@, id),
            match added {
                Ok(_) => !old(self)@.contains_key(name@),
                Err(error) => old(self)@.contains_key(name@) && error
                    == Error::NameAlreadyRegistered(old(self)@[name@]),
            },
    {
        let mut taken = NameRegistry::new();
        core::mem::swap(self, &mut taken);
        proof {
            use_type_invariant(&taken);
        }
        let ghost names = taken.names@;
        let NameRegistry { entries, names: _ } = taken;
        let mut entries = entries;
        let ghost before = entries@;
        let owned = name.to_owned();
        let mut i: usize = 0;
        while i < entries.len()
            invariant
                i <= entries@.len(),
                entries@ == before,
                binds(before, names),
                names == old(self)@,
                owned@ == name@,
                forall|j: int| 0 <= j < i ==> (#[trigger] entries@[j]).0@ != name@,
            decreases entries@.len() - i,
        {
            if entries[i].0 == owned {
                let previous = entries[i].1;
                entries[i] = (owned, id);
                proof {
                    let after = entries@;
                    assert forall|j: int| 0 <= j < after.len() implies (#[trigger] after[j]).0@
                        == before[j].0@ by {}
                    assert forall|n: Seq<char>| #[trigger]
                        names.insert(name@, id).contains_key(n) implies exists|j: int|
                        0 <= j < after.len() && (#[trigger] after[j]).0@ == n by {
                        if n == name@ {
                            assert(after[i as int].0@ == n);
                        } else {
                            let j = choose|j: int|
                                0 <= j < before.len() && (#[trigger] before[j]).0@ == n;
                            assert(after[j].0@ == n);
                        }
                    }
                }
                *self = NameRegistry { entries, names: Ghost(names.insert(name@, id)) };
                return Err(Error::NameAlreadyRegistered(previous));
            }
            i = i + 1;
        }
        entries.push((owned, id));
        proof {
            let after = entries@;
            assert forall|j: int| 0 <= j < before.len() implies (#[trigger] after[j]) == before[j] by {}
            assert forall|n: Seq<char>| #[trigger]
                names.insert(name@, id).contains_key(n) implies exists|j: int|
                0 <= j < after.len() && (#[trigger] after[j]).0@ == n by {
                if n == name@ {
                    assert(after[before.len() as int].0@ == n);
                } else {
                    let j = choose|j: int| 0 <= j < before.len() && (#[trigger] before[j]).0@ == n;
                    assert(after[j].0@ == n);
                }
            }
        }
        *self = NameRegistry { entries, names: Ghost(names.insert(name@, id)) };
        Ok(())
    }

    /// The id that the name is bound to.
    pub fn find(&self, name: &str) -> (id: Option<u16>)
        ensures
            match id {
                Some(found) => self@.contains_key(name@) && self@[name@] == found,
                None => !self@.contains_key(name@),
            },
    {
        proof {
            use_type_invariant(self);
        }
        let owned = name.to_owned();
        let mut i: usize = 0;
        while i < self.entries.len()
            invariant
                i <= self.entries@.len(),
                binds(self.entries@, self.names@),
                owned@ == name@,
                forall|j: int| 0 <= j < i ==> (#[trigger] self.entries@[j]).0@ != name@,
            decreases self.entries@.len() - i,
        {
            if self.entries[i].0 == owned {
                return Some(self.entries[i].1);
            }
            i = i + 1;
        }
        None
    }
}

/// Keeps the registries of all attribute types in one place, at most one
/// per type. A registry is stored in a form `R` that no longer says which
/// attribute type it is for, under the identifier of that type.
pub struct AttributeRegistries<R> {
    regs: Vec<(TypeId, R)>,
}

impl<R> View for AttributeRegistries<R> {
    type V = Map<TypeId, R>;

    closed spec fn view(&self) -> Map<TypeId, R> {
        Map::new(
            |id: TypeId| exists|i: int| 0 <= i < self.regs@.len() && (#[trigger] self.regs@[i]).0 == id,
            |id: TypeId|
                self.regs@[choose|i: int|
                    0 <= i < self.regs@.len() && (#[trigger] self.regs@[i]).0 == id].1,
        )
    }
}

impl<R> AttributeRegistries<R> {
    #[verifier::type_invariant]
    spec fn well_formed(self) -> bool {
        forall|i: int, j: int|
            0 <= i < j < self.regs@.len() ==> (#[trigger] self.regs@[i]).0 != (
            #[trigger] self.regs@[j]).0
    }

    /// A place with no registry in it.
    pub fn new() -> (registries: AttributeRegistries<R>)
        ensures
            registries@ == Map::<TypeId, R>::empty(),
    {
        let registries = AttributeRegistries { regs: Vec::new() };
        assert(registries@ =~= Map::<TypeId, R>::empty());
        registries
    }

    /// Stores the registry of an attribute type that has none yet. The type
    /// is given by its identifier, and by its name for the error.
    pub fn add_registry(&mut self, type_id: TypeId, attribute_name: &'static str, reg: R) -> (added:
        Result<(), Error>)
        ensures
            match added {
                Ok(_) => !old(self)@.contains_key(type_id) && final(self)@ == old(self)@.insert(
                    type_id,
                    reg,
                ),
                Err(error) => error == Error::RegistryAlreadyAdded(attribute_name) && old(
                    self,
                )@.contains_key(type_id) && final(self)@ == old(self)@,
            },
    {
        if self.position(&type_id).is_some() {
            return Err(Error::RegistryAlreadyAdded(attribute_name));
        }
        let mut taken = AttributeRegistries::new();
        core::mem::swap(self, &mut taken);
        proof {
            use_type_invariant(&taken);
        }
        let ghost before = taken;
        let AttributeRegistries { regs } = taken;
        let mut regs = regs;
        regs.push((type_id, reg));
        *self = AttributeRegistries { regs };
        proof {
            let after = self.regs@;
            assert forall|id: TypeId| #[trigger]
                self@.contains_key(id) == before@.insert(type_id, reg).contains_key(id) by {
                if before@.contains_key(id) {
                    let i = choose|i: int|
                        0 <= i < before.regs@.len() && (#[trigger] before.regs@[i]).0 == id;
                    assert(after[i].0 == id);
                }
                if id == type_id {
                    assert(after[after.len() - 1].0 == id);
                }
                if self@.contains_key(id) && id != type_id {
                    let i = choose|i: int| 0 <= i < after.len() && (#[trigger] after[i]).0 == id;
                    assert(before.regs@[i].0 == id);
                }
            }
            assert forall|id: TypeId| #[trigger] self@.contains_key(id) implies self@[id]
                == before@.insert(type_id, reg)[id] by {
                let i = choose|i: int| 0 <= i < after.len() && (#[trigger] after[i]).0 == id;
                if id != type_id {
                    let j = choose|j: int|
                        0 <= j < before.regs@.len() && (#[trigger] before.regs@[j]).0 == id;
                    assert(after[j].0 == id);
                    assert(i == j);
                } else {
                    assert(after[after.len() - 1].0 == id);
                    assert(i == after.len() - 1);
                }
            }
            assert(self@ =~= before@.insert(type_id, reg));
        }
        Ok(())
    }

    /// The registry of an attribute type, given by the type's identifier.
    pub fn get_registry(&self, type_id: &TypeId) -> (registry: Option<&R>)
        ensures
            match registry {
                Some(found) => self@.contains_key(*type_id) && *found == self@[*type_id],
                None => !self@.contains_key(*type_id),
            },
    {
        proof {
            use_type_invariant(self);
        }
        match self.position(type_id) {
            Some(i) => {
                proof {
                    let j = choose|j: int|
                        0 <= j < self.regs@.len() && (#[trigger] self.regs@[j]).0 == *type_id;
                    assert(j == i);
                }
                Some(&self.regs[i].1)
            },
            None => None,
        }
    }

    /// Where the registry of a type stands, if it is there.
    fn position(&self, type_id: &TypeId) -> (position: Option<usize>)
        ensures
            match position {
                Some(i) => i < self.regs@.len() && self.regs@[i as int].0 == *type_id,
                None => !self@.contains_key(*type_id),
            },
    {
        let mut i: usize = 0;
        while i < self.regs.len()
            invariant
                i <= self.regs@.len(),
                forall|j: int| 0 <= j < i ==> (#[trigger] self.regs@[j]).0 != *type_id,
            decreases self.regs@.len() - i,
        {
            if same_type(&self.regs[i].0, type_id) {
                return Some(i);
            }
            i = i + 1;
        }
        None
    }
}

} // verus!
