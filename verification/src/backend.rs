//! The backend for Swift packages that are built from source.

use vstd::prelude::*;
use crate::text::texts;
use crate::versions::{remembered, RemoteVersionCache};

verus! {

/// The kinds of backend.
#[derive(Clone, Copy, Debug, PartialEq, Eq, Structural)]
pub enum BackendType {
    Spm,
}

/// How a backend was asked for: its kind and the package's identifier.
#[derive(Debug, PartialEq, Eq)]
pub struct BackendArg {
    pub backend_type: BackendType,
    pub name: String,
}

/// The backend of one Swift package.
#[derive(Debug)]
pub struct SPMBackend {
    fa: BackendArg,
    remote_version_cache: RemoteVersionCache,
}

impl SPMBackend {
    /// The identifier of the package.
    pub closed spec fn identifier(&self) -> Seq<char> {
        self.fa.name@
    }

    /// The kind of backend that was asked for.
    pub closed spec fn asked_type(&self) -> BackendType {
        self.fa.backend_type
    }

    /// The remote versions that the backend remembers, oldest first.
    pub closed spec fn remote_versions(&self) -> Option<Seq<Seq<char>>> {
        self.remote_version_cache.held()
    }

    /// The name of the file in which the remote versions are kept.
    pub closed spec fn cache_file(&self) -> Seq<char> {
        self.remote_version_cache.file()
    }

    /// The backend of the package `name`, with no remote version known yet.
    pub fn new(name: String) -> (r: Self)
        ensures
            r.identifier() == name@,
            r.asked_type() == BackendType::Spm,
            r.remote_versions() is None,
            r.cache_file() == "remote_versions-$KEY.msgpack.z"@,
    {
        let fa = BackendArg { backend_type: BackendType::Spm, name };
        SPMBackend {
            remote_version_cache: RemoteVersionCache::new(
                "remote_versions-$KEY.msgpack.z".to_owned(),
            ),
            fa,
        }
    }

    pub fn get_type(&self) -> (r: BackendType)
        ensures
            r == BackendType::Spm,
    {
        BackendType::Spm
    }

    pub fn fa(&self) -> (r: &BackendArg)
        ensures
            r.name@ == self.identifier(),
            r.backend_type == self.asked_type(),
    {
        &self.fa
    }

    /// The identifier of the package.
    pub fn name(&self) -> (r: &str)
        ensures
            r@ == self.identifier(),
    {
        self.fa.name.as_str()
    }

    /// The name of the file in which the remote versions are kept.
    pub fn cache_file_name(&self) -> (r: &str)
        ensures
            r@ == self.cache_file(),
    {
        self.remote_version_cache.file_name()
    }

    /// The packages that have to be installed first: none.
    pub fn get_dependencies(&self) -> (r: Vec<BackendArg>)
        ensures
            r@.len() == 0,
    {
        Vec::new()
    }

    /// Whether the remote versions are remembered, so that the release
    /// listing need not be fetched.
    pub fn has_remote_versions(&self) -> (r: bool)
        ensures
            r == (self.remote_versions() is Some),
    {
        self.remote_version_cache.is_filled()
    }

    /// Remembers the remote versions that were kept from an earlier run,
    /// oldest first, unless a list is remembered already.
    pub fn restore_remote_versions(&mut self, versions: &Vec<String>)
        ensures
            final(self).remote_versions() == Some(
                match old(self).remote_versions() {
                    Some(held) => held,
                    None => texts(versions@),
                },
            ),
            final(self).identifier() == old(self).identifier(),
            final(self).asked_type() == old(self).asked_type(),
            final(self).cache_file() == old(self).cache_file(),
    {
        self.remote_version_cache.restore(versions)
    }

    /// The remote versions of the package, oldest first.
    ///
    /// `newest_first` holds the release tags as the hosting service lists
    /// them. It is read only where no list is remembered yet; the backend
    /// then remembers the tags in reverse. Afterwards a list is remembered,
    /// and it is the list returned.
    pub fn _list_remote_versions(&mut self, newest_first: &Vec<String>) -> (r: Vec<String>)
        ensures
            texts(r@) == remembered(old(self).remote_versions(), texts(newest_first@)),
            final(self).remote_versions() == Some(texts(r@)),
            final(self).identifier() == old(self).identifier(),
            final(self).asked_type() == old(self).asked_type(),
            final(self).cache_file() == old(self).cache_file(),
    {
        self.remote_version_cache.get_or_init(newest_first)
    }
}

} // verus!
