//! Build and deployment options.

use vstd::prelude::*;

verus! {

/// Where the archive's name comes from.
#[derive(Clone, Copy, Debug, PartialEq, Eq, Structural)]
pub enum FilenameSource {
    /// The `name` of the build manifest.
    PluginName,
    /// The base name of the plugin directory.
    Directory,
}

/// The container engine that runs the build steps.
#[derive(Clone, Copy, Debug, PartialEq, Eq, Structural)]
pub enum ContainerEngine {
    Docker,
    Podman,
}

/// How each file is stored in the archive.
#[derive(Clone, Copy, Debug, PartialEq, Eq, Structural)]
pub enum CompressMethod {
    Store,
    Deflate,
}

/// The program that an engine is run as.
pub open spec fn engine_bin(engine: ContainerEngine) -> Seq<char> {
    match engine {
        ContainerEngine::Docker => "docker"@,
        ContainerEngine::Podman => "podman"@,
    }
}

impl ContainerEngine {
    /// The program that this engine is run as.
    pub fn bin_name(&self) -> (r: &'static str)
        ensures
            r@ == engine_bin(*self),
    {
        match self {
            ContainerEngine::Docker => "docker",
            ContainerEngine::Podman => "podman",
        }
    }
}

/// The options of a build, as given on the command line.
#[derive(Clone, Debug)]
pub struct BuildOptions {
    pub plugin_root: String,
    pub output_root: String,
    pub tmp_build_root: String,
    pub build_as_root: bool,
    pub build_with_dev: bool,
    pub follow_symlinks: bool,
    pub output_filename_source: FilenameSource,
    pub container_engine: ContainerEngine,
    pub compression_method: CompressMethod,
    pub compression_level: Option<i32>,
}

} // verus!
