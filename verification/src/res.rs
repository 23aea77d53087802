//! Resources that the game loads by name from below one root directory.
//!
//! The resource system decides; it reads no file. Asked for a resource, it
//! hands out the one it holds, or says which file has to be read for it.

use std::path::PathBuf;
use std::sync::Arc;
use vstd::prelude::*;

verus! {

/// The standard library's owned file system path.
#[verifier::external_type_specification]
#[verifier::external_body]
pub struct ExPathBuf(PathBuf);

/// The standard library's input and output error.
#[verifier::external_type_specification]
#[verifier::external_body]
pub struct ExIoError(std::io::Error);

/// A resource that has been read and decoded.
#[derive(Clone)]
pub struct LoadedResource {
    pub data: LoadedResourceData,
}

/// What a resource holds, by the way it was decoded.
#[derive(Clone, Debug)]
pub enum LoadedResourceData {
    Text(String),
}

/// How a resource is to be decoded.
#[derive(Clone, Copy, Debug)]
pub enum ResourceLoadType {
    PlainText,
}

/// Why a resource could not be had.
#[derive(Debug)]
pub enum ResourceError {
    /// The resource id does not name a file below the root directory.
    InvalidResourceId(String),
    /// The file could not be read.
    IoError(std::io::Error),
}

/// The answer to a request for a resource.
pub enum Lookup<'a> {
    /// The resource is held already.
    Cached(&'a Arc<LoadedResource>),
    /// The resource is not held: the file at the path has to be read and
    /// decoded in the given way.
    Missing { path: PathBuf, load_type: ResourceLoadType },
}

/// `Path::has_root` on the resource id taken as a path. What counts as a
/// root depends on the platform.
#[verifier::external_body]
fn has_root(resource_id: &str) -> bool {
    std::path::Path::new(resource_id).has_root()
}

/// `Path::is_relative` on the resource id taken as a path. What counts as
/// relative depends on the platform.
#[verifier::external_body]
fn is_relative(resource_id: &str) -> bool {
    std::path::Path::new(resource_id).is_relative()
}

/// `Path::join`: the path of the resource below the root directory.
#[verifier::external_body]
fn join(root: &PathBuf, resource_id: &str) -> PathBuf {
    root.join(resource_id)
}

/// Whether a resource id is turned down, given what the platform says of it
/// as a path: it must be relative and must not start at a root.
pub open spec fn is_invalid_resource_id(has_root: bool, is_relative: bool) -> bool {
    has_root || !is_relative
}

/// Accepts or turns down a resource id, given what the platform says of it
/// as a path.
pub fn check_resource_id(resource_id: &str, has_root: bool, is_relative: bool) -> (checked: Result<
    (),
    ResourceError,
>)
    ensures
        checked is Err == is_invalid_resource_id(has_root, is_relative),
        checked matches Err(error) ==> (error matches ResourceError::InvalidResourceId(id) && id@
            == resource_id@),
{
    if has_root || !is_relative {
        Err(ResourceError::InvalidResourceId(resource_id.to_owned()))
    } else {
        Ok(())
    }
}

/// What a file's text is as a resource, decoded in the given way.
pub open spec fn decoded(load_type: ResourceLoadType, text: String) -> LoadedResource {
    match load_type {
        ResourceLoadType::PlainText => LoadedResource { data: LoadedResourceData::Text(text) },
    }
}

/// Makes the resource out of the text that was read from its file.
pub fn decode(load_type: ResourceLoadType, text: String) -> (resource: Arc<LoadedResource>)
    ensures
        *resource == decoded(load_type, text),
{
    match load_type {
        ResourceLoadType::PlainText => Arc::new(
            LoadedResource { data: LoadedResourceData::Text(text) },
        ),
    }
}

/// Manages the loading and the keeping of all resources.
pub struct ResourceSystem {
    loaded_resources: Vec<(String, Arc<LoadedResource>)>,
    root_path: PathBuf,
}

impl ResourceSystem {
    /// The directory below which the resources lie.
    pub closed spec fn root(&self) -> PathBuf {
        self.root_path
    }

    /// Whether the resource held at a place is the first under its id.
    spec fn is_first(&self, i: int, resource_id: Seq<char>) -> bool {
        &&& 0 <= i < self.loaded_resources@.len()
        &&& self.loaded_resources@[i].0@ == resource_id
        &&& forall|j: int| 0 <= j < i ==> (#[trigger] self.loaded_resources@[j]).0@ != resource_id
    }

    /// The resource that is held under an id, if any.
    pub closed spec fn cached(&self, resource_id: Seq<char>) -> Option<Arc<LoadedResource>> {
        if exists|i: int| self.is_first(i, resource_id) {
            Some(self.loaded_resources@[choose|i: int| self.is_first(i, resource_id)].1)
        } else {
            None
        }
    }

    /// A resource system for the resources below a directory. It holds no
    /// resource yet.
    pub fn new(path: PathBuf) -> (system: ResourceSystem)
        ensures
            system.root() == path,
            forall|resource_id: Seq<char>| system.cached(resource_id) is None,
    {
        ResourceSystem { loaded_resources: Vec::new(), root_path: path }
    }

    /// Answers a request for a resource: hands out one that is held; else asks the platform
    /// about the id as a path, and names the file to read or turns the id down.
    pub fn get_loaded_resource<'a>(
        &'a self,
        resource_id: &str,
        load_type: ResourceLoadType,
    ) -> (found: Result<Lookup<'a>, ResourceError>)
        ensures
            match self.cached(resource_id@) {
                Some(resource) => found matches Ok(Lookup::Cached(held)) && *held == resource,
                None => match found {
                    Ok(Lookup::Missing { load_type: asked, .. }) => asked == load_type,
                    Ok(Lookup::Cached(_)) => false,
                    Err(ResourceError::InvalidResourceId(id)) => id@ == resource_id@,
                    Err(ResourceError::IoError(_)) => false,
                },
            },
    {
        match self.find_loaded(resource_id) {
            Some(resource) => return Ok(Lookup::Cached(resource)),
            None => {},
        }
        self.load_resource(resource_id, load_type, has_root(resource_id), is_relative(resource_id))
    }

    /// The resource that is held under an id, if any.
    fn find_loaded<'a>(&'a self, resource_id: &str) -> (found: Option<&'a Arc<LoadedResource>>)
        ensures
            match found {
                Some(held) => self.cached(resource_id@) == Some(*held),
                None => self.cached(resource_id@) is None,
            },
    {
        let owned = resource_id.to_owned();
        let mut i: usize = 0;
        while i < self.loaded_resources.len()
            invariant
                i <= self.loaded_resources@.len(),
                owned@ == resource_id@,
                forall|j: int|
                    0 <= j < i ==> (#[trigger] self.loaded_resources@[j]).0@ != resource_id@,
            decreases self.loaded_resources@.len() - i,
        {
            if self.loaded_resources[i].0 == owned {
                assert(self.is_first(i as int, resource_id@));
                return Some(&self.loaded_resources[i].1);
            }
            i = i + 1;
        }
        None
    }

    /// Plans the loading of a resource that is not held, given what the platform says of its
    /// id as a path: an invalid id is turned down, a valid one is answered with its file.
    fn load_resource<'a>(
        &'a self,
        resource_id: &str,
        load_type: ResourceLoadType,
        has_root: bool,
        is_relative: bool,
    ) -> (planned: Result<Lookup<'a>, ResourceError>)
        ensures
            planned is Err == is_invalid_resource_id(has_root, is_relative),
            match planned {
                Ok(Lookup::Missing { load_type: asked, .. }) => asked == load_type,
                Ok(Lookup::Cached(_)) => false,
                Err(ResourceError::InvalidResourceId(id)) => id@ == resource_id@,
                Err(ResourceError::IoError(_)) => false,
            },
    {
        match check_resource_id(resource_id, has_root, is_relative) {
            Err(error) => Err(error),
            Ok(_) => Ok(Lookup::Missing { path: join(&self.root_path, resource_id), load_type }),
        }
    }
}

} // verus!
