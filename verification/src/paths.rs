//! Where the engine's files lie, relative to the directories that the host names.

use vstd::prelude::*;
use crate::error::LifecycleError;
use crate::error::LifecycleErrorView;
use crate::platform::Platform;

verus! {

/// A directory that the host application names.
#[derive(Clone, Copy, Debug, PartialEq, Eq, Structural)]
pub enum HostRoot {
    /// The directory of the application's bundled resources.
    ResourceDir,
    /// The directory for the application's cached data.
    AppCacheDir,
    /// The system's directory for temporary files.
    TempDir,
}

/// A file or directory that the lifecycle operations work on.
#[derive(Clone, Copy, Debug, PartialEq, Eq, Structural)]
pub enum EnginePath {
    /// The directory that holds the installed bundle.
    InstallDir,
    /// The file in the install directory that records the installed digest.
    ChecksumFile,
    /// The directory that the engine keeps its own data in.
    CacheDir,
    /// The directory that the bundle is copied to before each launch.
    StagingDir,
    /// The engine's executable within the staging directory.
    StagedExecutable,
}

/// The directories that the host could name. `None`: the host could not tell.
#[derive(Clone, Debug, PartialEq, Eq)]
pub struct HostDirs {
    pub resource_dir: Option<String>,
    pub app_cache_dir: Option<String>,
    pub temp_dir: Option<String>,
}

/// A path: a directory of the host, and the names to follow from there.
#[derive(Clone, Debug, PartialEq, Eq)]
pub struct Location {
    pub base: String,
    pub segments: Vec<&'static str>,
}

/// A `Location` with its texts as sequences of characters.
pub struct LocationView {
    pub base: Seq<char>,
    pub segments: Seq<Seq<char>>,
}

/// The texts of a list of names.
pub open spec fn names(segments: Seq<&'static str>) -> Seq<Seq<char>> {
    Seq::new(segments.len(), |i: int| segments[i]@)
}

impl View for Location {
    type V = LocationView;

    open spec fn view(&self) -> LocationView {
        LocationView { base: self.base@, segments: names(self.segments@) }
    }
}

impl EnginePath {
    /// The host directory under which the path lies.
    pub open spec fn root_of(self) -> HostRoot {
        match self {
            EnginePath::InstallDir => HostRoot::ResourceDir,
            EnginePath::ChecksumFile => HostRoot::ResourceDir,
            EnginePath::CacheDir => HostRoot::AppCacheDir,
            EnginePath::StagingDir => HostRoot::TempDir,
            EnginePath::StagedExecutable => HostRoot::TempDir,
        }
    }

    /// The names that lead from the host directory to the path.
    pub open spec fn segments_of(self, platform: Platform) -> Seq<Seq<char>> {
        match self {
            EnginePath::InstallDir => seq!["cef"@],
            EnginePath::ChecksumFile => seq!["cef"@, "checksum"@],
            EnginePath::CacheDir => seq!["cefcache"@],
            EnginePath::StagingDir => seq!["huly-cef"@],
            EnginePath::StagedExecutable => seq!["huly-cef"@, platform.executable_path()],
        }
    }

    /// The host directory under which the path lies.
    pub fn root(self) -> (root: HostRoot)
        ensures
            root == self.root_of(),
    {
        match self {
            EnginePath::InstallDir => HostRoot::ResourceDir,
            EnginePath::ChecksumFile => HostRoot::ResourceDir,
            EnginePath::CacheDir => HostRoot::AppCacheDir,
            EnginePath::StagingDir => HostRoot::TempDir,
            EnginePath::StagedExecutable => HostRoot::TempDir,
        }
    }

    /// The names that lead from the host directory to the path.
    pub fn segments(self, platform: Platform) -> (segments: Vec<&'static str>)
        ensures
            names(segments@) == self.segments_of(platform),
    {
        let mut segments: Vec<&'static str> = Vec::new();
        match self {
            EnginePath::InstallDir => {
                segments.push("cef");
            },
            EnginePath::ChecksumFile => {
                segments.push("cef");
                segments.push("checksum");
            },
            EnginePath::CacheDir => {
                segments.push("cefcache");
            },
            EnginePath::StagingDir => {
                segments.push("huly-cef");
            },
            EnginePath::StagedExecutable => {
                segments.push("huly-cef");
                segments.push(platform.executable());
            },
        }
        assert(names(segments@) =~= self.segments_of(platform));
        segments
    }
}

impl HostDirs {
    /// The directory that the host named for `root`, if it named one.
    pub open spec fn named(self, root: HostRoot) -> Option<Seq<char>> {
        let dir = match root {
            HostRoot::ResourceDir => self.resource_dir,
            HostRoot::AppCacheDir => self.app_cache_dir,
            HostRoot::TempDir => self.temp_dir,
        };
        match dir {
            Some(text) => Some(text@),
            None => None,
        }
    }

    /// Where `path` lies on this host, or which directory the host could not name.
    pub open spec fn located(
        self,
        path: EnginePath,
        platform: Platform,
    ) -> Result<LocationView, LifecycleErrorView> {
        match self.named(path.root_of()) {
            Some(base) => Ok(LocationView { base, segments: path.segments_of(platform) }),
            None => Err(LifecycleErrorView::DirectoryNotFound { root: path.root_of() }),
        }
    }

    /// Where `path` lies on this host. Fails with `DirectoryNotFound` exactly if the
    /// host could not name the directory under which the path lies.
    pub fn locate(&self, path: EnginePath, platform: Platform) -> (found: Result<
        Location,
        LifecycleError,
    >)
        ensures
            match found {
                Ok(location) => self.located(path, platform) == Ok::<
                    LocationView,
                    LifecycleErrorView,
                >(location@),
                Err(error) => self.located(path, platform) == Err::<
                    LocationView,
                    LifecycleErrorView,
                >(error@),
            },
    {
        let root = path.root();
        let dir = match root {
            HostRoot::ResourceDir => &self.resource_dir,
            HostRoot::AppCacheDir => &self.app_cache_dir,
            HostRoot::TempDir => &self.temp_dir,
        };
        match dir {
            Some(base) => Ok(Location { base: base.clone(), segments: path.segments(platform) }),
            None => Err(LifecycleError::DirectoryNotFound { root }),
        }
    }
}

fn below(base: &String, name: &'static str) -> (location: Location)
    ensures
        location@ == (LocationView { base: base@, segments: seq![name@] }),
{
    let mut segments: Vec<&'static str> = Vec::new();
    segments.push(name);
    assert(names(segments@) =~= seq![name@]);
    Location { base: base.clone(), segments }
}

/// The install directory and the engine's cache directory on this host, in this
/// order. Succeeds exactly if the host named both its resource directory and its
/// cache directory; where it named neither, the failure names the resource directory.
pub fn get_cef_paths(dirs: &HostDirs) -> (found: Result<(Location, Location), LifecycleError>)
    ensures
        match found {
            Ok((install, cache)) => {
                &&& dirs.named(HostRoot::ResourceDir) == Some(install@.base)
                &&& install@.segments == seq!["cef"@]
                &&& dirs.named(HostRoot::AppCacheDir) == Some(cache@.base)
                &&& cache@.segments == seq!["cefcache"@]
            },
            Err(error) => {
                ||| (dirs.resource_dir is None && error@ == LifecycleErrorView::DirectoryNotFound {
                    root: HostRoot::ResourceDir,
                })
                ||| (dirs.resource_dir is Some && dirs.app_cache_dir is None && error@
                    == LifecycleErrorView::DirectoryNotFound { root: HostRoot::AppCacheDir })
            },
        },
{
    match &dirs.resource_dir {
        None => Err(LifecycleError::DirectoryNotFound { root: HostRoot::ResourceDir }),
        Some(resource_dir) => match &dirs.app_cache_dir {
            None => Err(LifecycleError::DirectoryNotFound { root: HostRoot::AppCacheDir }),
            Some(app_cache_dir) => Ok((below(resource_dir, "cef"), below(app_cache_dir, "cefcache"))),
        },
    }
}

} // verus!
