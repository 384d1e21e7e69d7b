//! The build pipeline: a resolved plugin with its options, the container
//! runs it needs, and the order of its stages.

use vstd::prelude::*;
use crate::config::{engine_bin, BuildOptions, CompressMethod, ContainerEngine, FilenameSource};
use crate::engine::{
    bind_hosts,
    binds_view,
    build_args_spec,
    build_image,
    run_args_spec,
    run_image,
    user_mapping,
    Bind,
    EngineCommand,
};
use crate::package::{
    archive_base_name,
    archive_filename,
    archive_filename_spec,
    base_name_spec,
    dedup,
    expected_files,
    ops_view,
    plan_archive,
    plan_ok,
    plan_spec,
    top_level_files,
    ArchiveOp,
    DirWalk,
    PackagingError,
    StagedEntry,
};
use crate::paths::{is_absolute, is_absolute_spec, join, join_spec, lemma_join_keeps_absolute};
use crate::plugin::{CustomBackend, Plugin};
use crate::text::{lower_seq, owned, replace, replace_all, views};

verus! {

/// The image that builds every frontend.
pub open spec fn builder_image() -> Seq<char> {
    "ghcr.io/steamdeckhomebrew/builder:latest"@
}

/// Length of the random suffix of a staging directory.
pub const STAGING_SUFFIX_LEN: usize = 16;

/// An ASCII letter or digit.
pub open spec fn is_alphanumeric(c: char) -> bool {
    ('a' <= c && c <= 'z') || ('A' <= c && c <= 'Z') || ('0' <= c && c <= '9')
}

/// Relies on rand's Alphanumeric::sample_string over thread_rng: `len`
/// characters drawn at random from the ASCII letters and digits.
#[verifier::external_body]
fn random_alphanumeric(len: usize) -> (r: String)
    ensures
        r@.len() == len,
        forall|i: int| 0 <= i < r@.len() ==> is_alphanumeric(#[trigger] r@[i]),
{
    rand::distributions::DistString::sample_string(
        &rand::distributions::Alphanumeric,
        &mut rand::thread_rng(),
        len,
    )
}

/// A fresh random name for a staging directory.
pub fn random_suffix() -> (r: String)
    ensures
        r@.len() == STAGING_SUFFIX_LEN,
        forall|i: int| 0 <= i < r@.len() ==> is_alphanumeric(#[trigger] r@[i]),
{
    random_alphanumeric(STAGING_SUFFIX_LEN)
}

/// Why a build could not be set up.
#[derive(Clone, Debug, PartialEq, Eq)]
pub enum SetupError {
    /// The staging root is relative; it is deleted recursively on every
    /// run, so only an absolute path is accepted.
    RelativeStagingRoot(String),
}

/// The stages of a build, in the order they run.
#[derive(Clone, Copy, Debug, PartialEq, Eq, Structural)]
pub enum BuildStage {
    ResetStaging,
    Backend,
    Frontend,
    RemoteBinaries,
    PyModules,
    Archive,
    Done,
}

/// A plugin ready to be built.
#[derive(Clone, Debug)]
pub struct Builder {
    pub docker_image: String,
    pub plugin: Plugin,
    pub plugin_root: String,
    pub output_root: String,
    /// The staging root of this run: the given one with a random suffix.
    pub tmp_build_root: String,
    pub build_as_root: bool,
    pub build_with_dev: bool,
    pub follow_symlinks: bool,
    pub output_filename_source: FilenameSource,
    pub container_engine: ContainerEngine,
    pub compression_method: CompressMethod,
    pub compression_level: Option<i32>,
    /// The user and group that containers run as, if not root.
    pub user: Option<(u32, u32)>,
}

/// The tag of a backend image: the plugin's name in lower case with spaces
/// turned into hyphens.
pub open spec fn backend_tag_spec(name: Seq<char>) -> Seq<char> {
    replace_all(lower_seq(name), " "@, "-"@)
}

/// The tag of the backend image of the plugin called `name`.
pub fn backend_image_tag(name: &str) -> (r: String)
    ensures
        r@ == backend_tag_spec(name@),
{
    let lower = crate::text::ascii_lowercase(name);
    proof {
        reveal_strlit(" ");
    }
    replace(lower.as_str(), " ", "-")
}

/// Refuses a relative staging root.
pub fn validate_tmp_build_root(tmp_build_root: &str) -> (r: Result<(), SetupError>)
    ensures
        r is Ok <==> is_absolute_spec(tmp_build_root@),
        r matches Err(SetupError::RelativeStagingRoot(p)) ==> p@ == tmp_build_root@,
{
    if is_absolute(tmp_build_root) {
        Ok(())
    } else {
        Err(SetupError::RelativeStagingRoot(owned(tmp_build_root)))
    }
}

/// The stage after `stage`; the last one stays.
pub open spec fn next_stage_spec(stage: BuildStage) -> BuildStage {
    match stage {
        BuildStage::ResetStaging => BuildStage::Backend,
        BuildStage::Backend => BuildStage::Frontend,
        BuildStage::Frontend => BuildStage::RemoteBinaries,
        BuildStage::RemoteBinaries => BuildStage::PyModules,
        BuildStage::PyModules => BuildStage::Archive,
        BuildStage::Archive => BuildStage::Done,
        BuildStage::Done => BuildStage::Done,
    }
}

/// The stage that runs after `stage` has succeeded.
pub fn next_stage(stage: BuildStage) -> (r: BuildStage)
    ensures
        r == next_stage_spec(stage),
{
    match stage {
        BuildStage::ResetStaging => BuildStage::Backend,
        BuildStage::Backend => BuildStage::Frontend,
        BuildStage::Frontend => BuildStage::RemoteBinaries,
        BuildStage::RemoteBinaries => BuildStage::PyModules,
        BuildStage::PyModules => BuildStage::Archive,
        BuildStage::Archive => BuildStage::Done,
        BuildStage::Done => BuildStage::Done,
    }
}

/// What a failure of `stage` is reported as.
pub open spec fn failure_context_spec(stage: BuildStage) -> Seq<char> {
    match stage {
        BuildStage::ResetStaging => "Temporary build directory already exists"@,
        BuildStage::Backend => "Failed to build backend. There might be more information in the output above."@,
        BuildStage::Frontend => "Failed to build frontend. There might be more information in the output above."@,
        BuildStage::RemoteBinaries => "Failed to copy remote binaries. There might be more information in the output above."@,
        BuildStage::PyModules => "Failed to build py_modules. There might be more information in the output above."@,
        BuildStage::Archive => "Failed to zip plugin."@,
        BuildStage::Done => ""@,
    }
}

/// What a failure of `stage` is reported as.
pub fn failure_context(stage: BuildStage) -> (r: String)
    ensures
        r@ == failure_context_spec(stage),
{
    match stage {
        BuildStage::ResetStaging => owned("Temporary build directory already exists"),
        BuildStage::Backend => owned(
            "Failed to build backend. There might be more information in the output above.",
        ),
        BuildStage::Frontend => owned(
            "Failed to build frontend. There might be more information in the output above.",
        ),
        BuildStage::RemoteBinaries => owned(
            "Failed to copy remote binaries. There might be more information in the output above.",
        ),
        BuildStage::PyModules => owned(
            "Failed to build py_modules. There might be more information in the output above.",
        ),
        BuildStage::Archive => owned("Failed to zip plugin."),
        BuildStage::Done => {
            proof {
                reveal_strlit("");
            }
            String::new()
        },
    }
}

/// The binds of a backend run: the backend sources, the `bin` output
/// directory of the staging tree, and the plugin root.
pub open spec fn backend_binds(root: Seq<char>, staging: Seq<char>) -> Seq<(Seq<char>, Seq<char>)> {
    seq![
        (join_spec(root, "backend"@), "/backend"@),
        (join_spec(staging, "bin"@), "/backend/out"@),
        (root, "/plugin"@),
    ]
}

/// The binds of a frontend run: the plugin root and the staging root.
pub open spec fn frontend_binds(root: Seq<char>, staging: Seq<char>) -> Seq<(Seq<char>, Seq<char>)> {
    seq![(root, "/plugin"@), (staging, "/out"@)]
}

/// Where the archive of the plugin built by `b` is written.
pub open spec fn archive_path_spec(b: Builder) -> Option<Seq<char>> {
    match base_name_spec(b.output_filename_source, b.plugin.meta.name@, b.plugin_root@) {
        Some(n) => Some(join_spec(b.output_root@, archive_filename_spec(n, b.build_with_dev))),
        None => None,
    }
}

fn bind(host: String, container: &str) -> (r: Bind)
    ensures
        r.host@ == host@,
        r.container@ == container@,
{
    Bind { host, container: owned(container) }
}

impl Builder {
    /// Sets up a build of `plugin`: the staging root of the run is the given
    /// one with `suffix` appended, and containers run as `user`.
    pub fn new(options: BuildOptions, plugin: Plugin, suffix: &str, user: Option<(u32, u32)>) -> (r:
        Result<Builder, SetupError>)
        ensures
            r is Ok <==> is_absolute_spec(options.tmp_build_root@),
            r matches Ok(b) ==> {
                &&& b.docker_image@ == builder_image()
                &&& b.plugin == plugin
                &&& b.plugin_root == options.plugin_root
                &&& b.output_root == options.output_root
                &&& b.tmp_build_root@ == join_spec(options.tmp_build_root@, suffix@)
                &&& is_absolute_spec(b.tmp_build_root@)
                &&& b.build_as_root == options.build_as_root
                &&& b.build_with_dev == options.build_with_dev
                &&& b.follow_symlinks == options.follow_symlinks
                &&& b.output_filename_source == options.output_filename_source
                &&& b.container_engine == options.container_engine
                &&& b.compression_method == options.compression_method
                &&& b.compression_level == options.compression_level
                &&& b.user == user
            },
    {
        match validate_tmp_build_root(options.tmp_build_root.as_str()) {
            Ok(()) => {},
            Err(e) => {
                return Err(e);
            },
        }
        let tmp_build_root = join(options.tmp_build_root.as_str(), suffix);
        proof {
            lemma_join_keeps_absolute(options.tmp_build_root@, suffix@);
        }
        Ok(Builder {
            docker_image: owned("ghcr.io/steamdeckhomebrew/builder:latest"),
            plugin,
            plugin_root: options.plugin_root,
            output_root: options.output_root,
            tmp_build_root,
            build_as_root: options.build_as_root,
            build_with_dev: options.build_with_dev,
            follow_symlinks: options.follow_symlinks,
            output_filename_source: options.output_filename_source,
            container_engine: options.container_engine,
            compression_method: options.compression_method,
            compression_level: options.compression_level,
            user,
        })
    }

    /// Sets up a build of `plugin` in a fresh staging directory with a
    /// random name, with containers run as the invoking user unless
    /// building as root.
    pub fn create(options: BuildOptions, plugin: Plugin) -> (r: Result<Builder, SetupError>)
        ensures
            r is Ok <==> is_absolute_spec(options.tmp_build_root@),
            r matches Ok(b) ==> {
                &&& b.plugin == plugin
                &&& b.plugin_root == options.plugin_root
                &&& b.output_root == options.output_root
                &&& exists|s: Seq<char>|
                    s.len() == STAGING_SUFFIX_LEN && (forall|i: int|
                        0 <= i < s.len() ==> is_alphanumeric(#[trigger] s[i]))
                        && b.tmp_build_root@ == join_spec(options.tmp_build_root@, s)
                &&& is_absolute_spec(b.tmp_build_root@)
                &&& b.docker_image@ == builder_image()
                &&& b.build_as_root == options.build_as_root
                &&& b.build_with_dev == options.build_with_dev
                &&& b.follow_symlinks == options.follow_symlinks
                &&& b.output_filename_source == options.output_filename_source
                &&& b.container_engine == options.container_engine
                &&& b.compression_method == options.compression_method
                &&& b.compression_level == options.compression_level
                &&& (b.user is None <==> options.build_as_root)
            },
    {
        let suffix = random_suffix();
        let user = user_mapping(options.build_as_root);
        let r = Builder::new(options, plugin, suffix.as_str(), user);
        proof {
            if r is Ok {
                assert(r->Ok_0.tmp_build_root@ == join_spec(options.tmp_build_root@, suffix@));
            }
        }
        r
    }

    /// The container run that builds the frontend.
    pub fn frontend_command(&self) -> (r: EngineCommand)
        ensures
            r.program@ == engine_bin(self.container_engine),
            views(r.args@) == run_args_spec(
                self.docker_image@,
                frontend_binds(self.plugin_root@, self.tmp_build_root@),
                self.user,
                self.build_with_dev,
            ),
            views(r.create_dirs@) == seq![self.plugin_root@, self.tmp_build_root@],
    {
        let mut binds: Vec<Bind> = Vec::new();
        binds.push(bind(self.plugin_root.clone(), "/plugin"));
        binds.push(bind(self.tmp_build_root.clone(), "/out"));
        assert(binds_view(binds@) =~= frontend_binds(self.plugin_root@, self.tmp_build_root@));
        let r = run_image(
            self.container_engine,
            self.docker_image.as_str(),
            &binds,
            self.user,
            self.build_with_dev,
        );
        assert(views(r.create_dirs@) =~= seq![self.plugin_root@, self.tmp_build_root@]);
        r
    }

    /// The container runs that build the backend: none for a plugin without
    /// one; else a build of `backend/Dockerfile` tagged after the plugin's
    /// name, then a run of that image.
    pub fn backend_commands(&self) -> (r: Vec<EngineCommand>)
        ensures
            self.plugin.custom_backend is Absent ==> r@.len() == 0,
            self.plugin.custom_backend is Dockerfile ==> {
                let backend = join_spec(self.plugin_root@, "backend"@);
                let tag = backend_tag_spec(self.plugin.meta.name@);
                &&& r@.len() == 2
                &&& r@[0].program@ == engine_bin(self.container_engine)
                &&& r@[1].program@ == engine_bin(self.container_engine)
                &&& r@[0].create_dirs@.len() == 0
                &&& views(r@[1].create_dirs@) == bind_hosts(
                    backend_binds(self.plugin_root@, self.tmp_build_root@),
                )
                &&& views(r@[0].args@) == build_args_spec(
                    join_spec(backend, "Dockerfile"@),
                    tag,
                    backend,
                )
                &&& views(r@[1].args@) == run_args_spec(
                    tag,
                    backend_binds(self.plugin_root@, self.tmp_build_root@),
                    self.user,
                    self.build_with_dev,
                )
            },
    {
        let mut r: Vec<EngineCommand> = Vec::new();
        match self.plugin.custom_backend {
            CustomBackend::Absent => {},
            CustomBackend::Dockerfile => {
                let backend = join(self.plugin_root.as_str(), "backend");
                let dockerfile = join(backend.as_str(), "Dockerfile");
                let tag = backend_image_tag(self.plugin.meta.name.as_str());
                let build = build_image(
                    self.container_engine,
                    dockerfile.as_str(),
                    tag.as_str(),
                    backend.as_str(),
                );
                let mut binds: Vec<Bind> = Vec::new();
                binds.push(bind(backend, "/backend"));
                binds.push(bind(join(self.tmp_build_root.as_str(), "bin"), "/backend/out"));
                binds.push(bind(self.plugin_root.clone(), "/plugin"));
                assert(binds_view(binds@) =~= backend_binds(self.plugin_root@, self.tmp_build_root@));
                let run = run_image(
                    self.container_engine,
                    tag.as_str(),
                    &binds,
                    self.user,
                    self.build_with_dev,
                );
                r.push(build);
                r.push(run);
            },
        }
        r
    }

    /// The Python modules directory of the plugin and its place in the
    /// staging tree.
    pub fn py_modules_dirs(&self) -> (r: (String, String))
        ensures
            r.0@ == join_spec(self.plugin_root@, "py_modules"@),
            r.1@ == join_spec(self.tmp_build_root@, "py_modules"@),
    {
        (join(self.plugin_root.as_str(), "py_modules"), join(self.tmp_build_root.as_str(), "py_modules"))
    }

    /// The name the archive and its top directory are called by.
    pub fn archive_name(&self) -> (r: Result<String, PackagingError>)
        ensures
            r matches Ok(n) ==> base_name_spec(
                self.output_filename_source,
                self.plugin.meta.name@,
                self.plugin_root@,
            ) == Some(n@),
            r is Err ==> base_name_spec(
                self.output_filename_source,
                self.plugin.meta.name@,
                self.plugin_root@,
            ) is None,
    {
        archive_base_name(
            self.output_filename_source,
            self.plugin.meta.name.as_str(),
            self.plugin_root.as_str(),
        )
    }

    /// Where the archive is written.
    pub fn archive_path(&self) -> (r: Result<String, PackagingError>)
        ensures
            r matches Ok(p) ==> archive_path_spec(*self) == Some(p@),
            r is Err ==> archive_path_spec(*self) is None,
    {
        let name = self.archive_name()?;
        let file = archive_filename(name.as_str(), self.build_with_dev);
        Ok(join(self.output_root.as_str(), file.as_str()))
    }

    /// The top-level files to look for in the staging root, given the
    /// loose Python files found there.
    pub fn top_level_paths(&self, py_files: &Vec<String>) -> (r: Vec<String>)
        ensures
            r@.len() == dedup(expected_files() + views(py_files@)).len(),
            forall|i: int|
                0 <= i < r@.len() ==> (#[trigger] r@[i])@ == join_spec(
                    self.tmp_build_root@,
                    dedup(expected_files() + views(py_files@))[i],
                ),
    {
        let names = top_level_files(py_files);
        let n = names.len();
        let mut r: Vec<String> = Vec::new();
        let mut i: usize = 0;
        while i < n
            invariant
                n == names@.len(),
                i <= n,
                r@.len() == i,
                views(names@) == dedup(expected_files() + views(py_files@)),
                forall|k: int|
                    0 <= k < i ==> (#[trigger] r@[k])@ == join_spec(
                        self.tmp_build_root@,
                        views(names@)[k],
                    ),
            decreases n - i,
        {
            r.push(join(self.tmp_build_root.as_str(), names[i].as_str()));
            i = i + 1;
        }
        r
    }

    /// Lays out the archive of this build from what the staging tree holds.
    pub fn plan_archive(&self, top: &Vec<StagedEntry>, walks: &Vec<DirWalk>) -> (r: Result<
        Vec<ArchiveOp>,
        PackagingError,
    >)
        ensures
            r matches Ok(ops) ==> plan_ok(self.tmp_build_root@, top@, walks@) && exists|n: Seq<char>|
                base_name_spec(self.output_filename_source, self.plugin.meta.name@, self.plugin_root@)
                    == Some(n) && ops_view(ops@) == plan_spec(
                    self.tmp_build_root@,
                    n,
                    top@,
                    walks@,
                    self.compression_method,
                    self.compression_level,
                ),
            base_name_spec(self.output_filename_source, self.plugin.meta.name@, self.plugin_root@)
                is Some ==> (r is Ok <==> plan_ok(self.tmp_build_root@, top@, walks@)),
    {
        let name = self.archive_name()?;
        plan_archive(
            self.tmp_build_root.as_str(),
            name.as_str(),
            top,
            walks,
            self.compression_method,
            self.compression_level,
        )
    }
}

} // verus!
