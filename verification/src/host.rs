//! Hosts that run binaries and WebAssembly: their sources, caches and errors, and drivers.
use vstd::prelude::*;
use std::path::PathBuf;

verus! {

#[verifier::external_type_specification]
#[verifier::external_body]
pub struct ExPathBuf(std::path::PathBuf);

/// An error of a host.
#[derive(Debug)]
pub struct HostErr {
    message: String,
}

impl HostErr {
    pub closed spec fn message(&self) -> Seq<char> {
        self.message@
    }

    pub fn new(message: String) -> (r: Self)
        ensures
            r.message() == message@,
    {
        Self { message }
    }

    pub fn to_string(&self) -> (r: String)
        ensures
            r@ == self.message(),
    {
        self.message.clone()
    }
}

/// An external binary, by its file.
#[derive(Debug, PartialEq, Eq, Hash)]
pub struct ExtBin {
    file: String,
}

impl ExtBin {
    pub closed spec fn file(&self) -> Seq<char> {
        self.file@
    }

    pub fn new(file: String) -> (r: Self)
        ensures
            r.file() == file@,
    {
        Self { file }
    }

    pub fn to_string(&self) -> (r: String)
        ensures
            r@ == self.file(),
    {
        self.file.clone()
    }
}

/// WebAssembly binaries read from a directory.
pub struct FileSystemSrc {
    path: String,
}

impl FileSystemSrc {
    pub closed spec fn path(&self) -> Seq<char> {
        self.path@
    }

    pub fn new(path: String) -> (r: Self)
        ensures
            r.path() == path@,
    {
        Self { path }
    }
}

/// Compiled modules kept in a directory.
pub struct SerializedCache {
    path: PathBuf,
}

impl SerializedCache {
    pub closed spec fn path(&self) -> PathBuf {
        self.path
    }

    pub fn new(path: PathBuf) -> (r: Self)
        ensures
            r.path() == path,
    {
        Self { path }
    }
}

/// Makes file systems rooted at a directory.
pub struct RootFileSystemFactory {
    path: PathBuf,
}

impl RootFileSystemFactory {
    pub closed spec fn path(&self) -> PathBuf {
        self.path
    }

    pub fn new(path: PathBuf) -> (r: Self)
        ensures
            r.path() == path,
    {
        Self { path }
    }
}

/// Builds WebAssembly hosts.
pub struct WasmHostBuilder {}

/// The kinds of file system a host can give a guest.
#[derive(Debug, Clone, Copy, PartialEq, Eq, Structural)]
pub enum FsKind {
    Local,
}

impl FsKind {
    pub fn default() -> (r: Self)
        ensures
            r == FsKind::Local,
    {
        FsKind::Local
    }
}

/// Whether a driver runs inside the star or outside it.
#[derive(Debug, Clone, Copy, PartialEq, Eq, Structural)]
pub enum DriverAvail {
    Internal,
    External,
}

/// The file system a guest gets: the factory that makes it, and the directories opened in it
/// beforehand.
pub struct FsConfig<F> {
    pub fs_factory: F,
    pub pre_opened_dirs: Vec<String>,
}

/// Builds a file system configuration.
pub struct FsConfigBuilder<F> {
    pub fs_factory: F,
    pub kind: FsKind,
    pub pre_opened_dirs: Vec<String>,
}

impl<F> FsConfigBuilder<F> {
    pub fn new(fs_factory: F) -> (r: Self)
        ensures
            r.fs_factory == fs_factory,
            r.kind == FsKind::Local,
            r.pre_opened_dirs@.len() == 0,
    {
        Self { fs_factory, kind: FsKind::default(), pre_opened_dirs: Vec::new() }
    }

    /// Opens one more directory beforehand.
    pub fn preopen(&mut self, dir: &str)
        ensures
            final(self).pre_opened_dirs@.len() == old(self).pre_opened_dirs@.len() + 1,
            forall|i: int|
                0 <= i < old(self).pre_opened_dirs@.len() ==> final(self).pre_opened_dirs@[i]
                    == old(self).pre_opened_dirs@[i],
            final(self).pre_opened_dirs@.last()@ == dir@,
            final(self).fs_factory == old(self).fs_factory,
            final(self).kind == old(self).kind,
    {
        self.pre_opened_dirs.push(dir.to_string());
    }

    pub fn build(self) -> (r: FsConfig<F>)
        ensures
            r.fs_factory == self.fs_factory,
            r.pre_opened_dirs@ == self.pre_opened_dirs@,
    {
        FsConfig { fs_factory: self.fs_factory, pre_opened_dirs: self.pre_opened_dirs }
    }
}

/// The configuration of a WebAssembly host: the guest's file system, if it has one, and
/// whether it gets a runtime.
pub struct WasmHostConfig<F> {
    pub fs: Option<FsConfig<F>>,
    pub runtime: bool,
}

impl<F> WasmHostConfig<F> {
    pub fn default() -> (r: Self)
        ensures
            r.fs is None,
            !r.runtime,
    {
        Self { fs: None, runtime: false }
    }

    pub fn builder() -> (r: WasmHostConfigBuilder<F>)
        ensures
            r.fs is None,
            !r.runtime,
    {
        WasmHostConfigBuilder::new()
    }
}

/// Builds the configuration of a WebAssembly host.
pub struct WasmHostConfigBuilder<F> {
    pub runtime: bool,
    pub fs: Option<FsConfigBuilder<F>>,
}

impl<F> WasmHostConfigBuilder<F> {
    pub fn new() -> (r: Self)
        ensures
            r.fs is None,
            !r.runtime,
    {
        Self { runtime: false, fs: None }
    }

    /// Gives the guest a file system made by `factory`, unless it has one already, and opens
    /// `dirs` in it beforehand.
    pub fn fs(&mut self, factory: F, dirs: &Vec<String>)
        ensures
            final(self).runtime == old(self).runtime,
            final(self).fs matches Some(b) && {
                let before = match old(self).fs {
                    Some(o) => o.pre_opened_dirs@,
                    None => Seq::<String>::empty(),
                };
                &&& b.fs_factory == (match old(self).fs {
                    Some(o) => o.fs_factory,
                    None => factory,
                })
                &&& b.pre_opened_dirs@.len() == before.len() + dirs@.len()
                &&& forall|i: int| 0 <= i < before.len() ==> b.pre_opened_dirs@[i] == before[i]
                &&& forall|i: int|
                    0 <= i < dirs@.len() ==> b.pre_opened_dirs@[before.len() + i]@ == dirs@[i]@
            },
    {
        let mut b = match self.fs.take() {
            Some(b) => b,
            None => FsConfigBuilder::new(factory),
        };
        let ghost before = b.pre_opened_dirs@;
        let mut i: usize = 0;
        while i < dirs.len()
            invariant
                i <= dirs@.len(),
                b.pre_opened_dirs@.len() == before.len() + i,
                forall|j: int| 0 <= j < before.len() ==> b.pre_opened_dirs@[j] == before[j],
                forall|j: int|
                    0 <= j < i ==> b.pre_opened_dirs@[before.len() + j]@ == dirs@[j]@,
                b.fs_factory == (match old(self).fs {
                    Some(o) => o.fs_factory,
                    None => factory,
                }),
                before == (match old(self).fs {
                    Some(o) => o.pre_opened_dirs@,
                    None => Seq::<String>::empty(),
                }),
            decreases dirs@.len() - i,
        {
            b.preopen(dirs[i].as_str());
            i = i + 1;
        }
        self.fs = Some(b);
    }

    pub fn runtime(&mut self, runtime: bool)
        ensures
            final(self).runtime == runtime,
            final(self).fs == old(self).fs,
    {
        self.runtime = runtime;
    }

    /// The configuration; it never gives the guest a runtime, whatever was asked.
    pub fn build(self) -> (r: WasmHostConfig<F>)
        ensures
            !r.runtime,
            match self.fs {
                None => r.fs is None,
                Some(b) => r.fs matches Some(c) && c.fs_factory == b.fs_factory
                    && c.pre_opened_dirs@ == b.pre_opened_dirs@,
            },
    {
        let fs = match self.fs {
            None => None,
            Some(builder) => Some(builder.build()),
        };
        WasmHostConfig { fs, runtime: false }
    }
}

} // verus!
