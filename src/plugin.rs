//! Manifest resolution: what a plugin directory declares and how its
//! backend is built.

use vstd::prelude::*;

verus! {

/// How the backend of a plugin is built.
#[derive(Clone, Copy, Debug, PartialEq, Eq, Structural)]
pub enum CustomBackend {
    /// `backend/Dockerfile` is built into an image and run.
    Dockerfile,
    /// The plugin has no backend directory.
    Absent,
}

/// The build manifest, `plugin.json`.
#[derive(Clone, Debug, PartialEq, Eq)]
pub struct PluginFile {
    pub name: String,
    pub author: String,
    pub flags: Vec<String>,
}

/// A resolved plugin project.
#[derive(Clone, Debug)]
pub struct Plugin {
    pub meta: PluginFile,
    pub root: String,
    pub custom_backend: CustomBackend,
}

/// Why a directory is not a buildable plugin.
#[derive(Clone, Debug, PartialEq, Eq)]
pub enum ManifestError {
    /// No `package.json` at the root.
    MissingFrontend,
    /// No `plugin.json` at the root.
    MissingPluginFile,
    /// `plugin.json` does not hold a build manifest; the parser's message.
    InvalidPluginFile(String),
    /// A `backend` directory without a `Dockerfile` in it.
    BackendWithoutDockerfile,
}

/// What reading `plugin.json` gave.
#[derive(Clone, Debug)]
pub enum PluginFileProbe {
    Missing,
    Unparsable(String),
    Parsed(PluginFile),
}

/// What was found at a plugin root.
#[derive(Clone, Debug)]
pub struct PluginProbe {
    pub has_package_json: bool,
    pub plugin_file: PluginFileProbe,
    pub has_backend_directory: bool,
    pub has_dockerfile: bool,
}

/// Backend classification: no directory means no backend, a directory with
/// a `Dockerfile` means a container build, anything else is refused.
pub open spec fn backend_kind(has_backend_directory: bool, has_dockerfile: bool) -> Result<
    CustomBackend,
    ManifestError,
> {
    if !has_backend_directory {
        Ok(CustomBackend::Absent)
    } else if has_dockerfile {
        Ok(CustomBackend::Dockerfile)
    } else {
        Err(ManifestError::BackendWithoutDockerfile)
    }
}

/// The outcome of resolving a plugin at `root` from what was found there.
/// The frontend descriptor is checked first, then the build manifest, then
/// the backend layout.
pub open spec fn resolve_spec(root: String, probe: PluginProbe) -> Result<Plugin, ManifestError> {
    if !probe.has_package_json {
        Err(ManifestError::MissingFrontend)
    } else {
        match probe.plugin_file {
            PluginFileProbe::Missing => Err(ManifestError::MissingPluginFile),
            PluginFileProbe::Unparsable(msg) => Err(ManifestError::InvalidPluginFile(msg)),
            PluginFileProbe::Parsed(meta) => match backend_kind(
                probe.has_backend_directory,
                probe.has_dockerfile,
            ) {
                Ok(kind) => Ok(Plugin { meta, root, custom_backend: kind }),
                Err(e) => Err(e),
            },
        }
    }
}

impl Plugin {
    /// Classifies the backend from whether `backend/` and
    /// `backend/Dockerfile` exist.
    pub fn find_custom_backend(has_backend_directory: bool, has_dockerfile: bool) -> (r: Result<
        CustomBackend,
        ManifestError,
    >)
        ensures
            r == backend_kind(has_backend_directory, has_dockerfile),
    {
        match (has_backend_directory, has_dockerfile) {
            (false, _) => Ok(CustomBackend::Absent),
            (true, true) => Ok(CustomBackend::Dockerfile),
            (true, false) => Err(ManifestError::BackendWithoutDockerfile),
        }
    }

    /// A plugin root must hold a frontend descriptor, `package.json`.
    pub fn find_frontend(has_package_json: bool) -> (r: Result<(), ManifestError>)
        ensures
            r is Ok <==> has_package_json,
            r is Err ==> r == Err::<(), ManifestError>(ManifestError::MissingFrontend),
    {
        if has_package_json {
            Ok(())
        } else {
            Err(ManifestError::MissingFrontend)
        }
    }

    /// The build manifest, from what reading `plugin.json` gave.
    pub fn find_pluginfile(probe: PluginFileProbe) -> (r: Result<PluginFile, ManifestError>)
        ensures
            probe is Missing ==> r == Err::<PluginFile, ManifestError>(
                ManifestError::MissingPluginFile,
            ),
            probe matches PluginFileProbe::Unparsable(msg) ==> r == Err::<
                PluginFile,
                ManifestError,
            >(ManifestError::InvalidPluginFile(msg)),
            probe matches PluginFileProbe::Parsed(meta) ==> r == Ok::<PluginFile, ManifestError>(
                meta,
            ),
    {
        match probe {
            PluginFileProbe::Missing => Err(ManifestError::MissingPluginFile),
            PluginFileProbe::Unparsable(msg) => Err(ManifestError::InvalidPluginFile(msg)),
            PluginFileProbe::Parsed(meta) => Ok(meta),
        }
    }

    /// Resolves the plugin at `plugin_root`.
    pub fn new(plugin_root: String, probe: PluginProbe) -> (r: Result<Plugin, ManifestError>)
        ensures
            r == resolve_spec(plugin_root, probe),
    {
        let has_backend_directory = probe.has_backend_directory;
        let has_dockerfile = probe.has_dockerfile;
        Plugin::find_frontend(probe.has_package_json)?;
        let meta = Plugin::find_pluginfile(probe.plugin_file)?;
        let custom_backend = Plugin::find_custom_backend(has_backend_directory, has_dockerfile)?;
        Ok(Plugin { meta, root: plugin_root, custom_backend })
    }
}

/// A backend directory without a `Dockerfile` is refused: such a
/// directory never resolves to a plugin, so no build of it can start.
pub proof fn lemma_backend_without_dockerfile_refused(root: String, probe: PluginProbe)
    requires
        probe.has_backend_directory,
        !probe.has_dockerfile,
    ensures
        resolve_spec(root, probe) is Err,
        probe.has_package_json && probe.plugin_file is Parsed ==> resolve_spec(root, probe)
            == Err::<Plugin, ManifestError>(ManifestError::BackendWithoutDockerfile),
{
}

} // verus!
