use decky::config::{BuildOptions, CompressMethod, ContainerEngine, FilenameSource};
use decky::package::{directives, ArchiveOp, DirWalk, StagedEntry};
use decky::pipeline::{failure_context, next_stage, validate_tmp_build_root, BuildStage, Builder, SetupError};
use decky::plugin::{CustomBackend, Plugin, PluginFile, PluginFileProbe, PluginProbe};

fn options(dev: bool, source: FilenameSource, tmp: &str) -> BuildOptions {
    BuildOptions {
        plugin_root: "/work/example-plugin".to_string(),
        output_root: "/work/out".to_string(),
        tmp_build_root: tmp.to_string(),
        build_as_root: false,
        build_with_dev: dev,
        follow_symlinks: true,
        output_filename_source: source,
        container_engine: ContainerEngine::Docker,
        compression_method: CompressMethod::Deflate,
        compression_level: None,
    }
}

fn example_plugin(backend: bool) -> Plugin {
    let meta = PluginFile { name: "Example".to_string(), author: "me".to_string(), flags: vec![] };
    let probe = PluginProbe {
        has_package_json: true,
        plugin_file: PluginFileProbe::Parsed(meta),
        has_backend_directory: backend,
        has_dockerfile: backend,
    };
    Plugin::new("/work/example-plugin".to_string(), probe).unwrap()
}

fn strings(v: &[&str]) -> Vec<String> {
    v.iter().map(|s| s.to_string()).collect()
}

fn example_walks(staging: &str) -> Vec<DirWalk> {
    let mut found = vec![
        Some(vec![
            StagedEntry { path: format!("{}/dist", staging), is_file: false },
            StagedEntry { path: format!("{}/dist/index.js", staging), is_file: true },
        ]),
        None,
        None,
        None,
    ];
    directives().into_iter().map(|d| DirWalk { directive: d, entries: found.remove(0) }).collect()
}

#[test]
fn example_release_archive() {
    let b = Builder::new(options(false, FilenameSource::PluginName, "/tmp/decky"), example_plugin(false), "r1", Some((1000, 1000))).unwrap();
    assert!(b.backend_commands().is_empty());
    assert_eq!(b.archive_path().unwrap(), "/work/out/Example.zip");
    let ops = b.plan_archive(&vec![], &example_walks("/tmp/decky/r1")).unwrap();
    assert!(ops.iter().any(|op| matches!(op, ArchiveOp::File { name, .. } if name == "Example/dist/index.js")));
    assert!(!ops.iter().any(|op| match op {
        ArchiveOp::File { name, .. } | ArchiveOp::Directory { name, .. } => name.starts_with("Example/bin"),
    }));
}

#[test]
fn example_dev_archive() {
    let b = Builder::new(options(true, FilenameSource::PluginName, "/tmp/decky"), example_plugin(false), "r1", None).unwrap();
    assert_eq!(b.archive_path().unwrap(), "/work/out/Example-dev.zip");
}

#[test]
fn directory_named_archive() {
    let b = Builder::new(options(false, FilenameSource::Directory, "/tmp/decky"), example_plugin(false), "r1", None).unwrap();
    assert_eq!(b.archive_path().unwrap(), "/work/out/example-plugin.zip");
}

#[test]
fn relative_staging_root_refused() {
    assert_eq!(validate_tmp_build_root("tmp/decky"), Err(SetupError::RelativeStagingRoot("tmp/decky".to_string())));
    assert_eq!(validate_tmp_build_root("/tmp/decky"), Ok(()));
    let r = Builder::new(options(false, FilenameSource::PluginName, "decky"), example_plugin(false), "r1", None);
    assert!(r.is_err());
}

#[test]
fn created_staging_root_is_random_below_given_one() {
    let b = Builder::create(options(false, FilenameSource::PluginName, "/tmp/decky"), example_plugin(false)).unwrap();
    let suffix = b.tmp_build_root.strip_prefix("/tmp/decky/").unwrap();
    assert_eq!(suffix.len(), 16);
    assert!(suffix.chars().all(|c| c.is_ascii_alphanumeric()));
    assert!(b.user.is_some());
}

#[test]
fn frontend_run() {
    let b = Builder::new(options(false, FilenameSource::PluginName, "/tmp/decky"), example_plugin(false), "r1", Some((1000, 1000))).unwrap();
    let c = b.frontend_command();
    assert_eq!(c.program, "docker");
    assert_eq!(
        c.args,
        strings(&[
            "run", "--rm", "--user", "1000:1000", "-e", "RELEASE_TYPE=production", "-v", "/work/example-plugin:/plugin",
            "-v", "/tmp/decky/r1:/out", "ghcr.io/steamdeckhomebrew/builder:latest"
        ])
    );
}

#[test]
fn backend_build_and_run() {
    let mut plugin = example_plugin(true);
    plugin.meta.name = "My Example".to_string();
    assert_eq!(plugin.custom_backend, CustomBackend::Dockerfile);
    let b = Builder::new(options(true, FilenameSource::PluginName, "/tmp/decky"), plugin, "r1", None).unwrap();
    let cs = b.backend_commands();
    assert_eq!(cs.len(), 2);
    assert_eq!(
        cs[0].args,
        strings(&["build", "-f", "/work/example-plugin/backend/Dockerfile", "-t", "my-example", "/work/example-plugin/backend"])
    );
    assert_eq!(
        cs[1].args,
        strings(&[
            "run", "--rm", "-e", "RELEASE_TYPE=development", "-v", "/work/example-plugin/backend:/backend", "-v",
            "/tmp/decky/r1/bin:/backend/out", "-v", "/work/example-plugin:/plugin", "my-example"
        ])
    );
    assert_eq!(cs[1].create_dirs, strings(&["/work/example-plugin/backend", "/tmp/decky/r1/bin", "/work/example-plugin"]));
}

#[test]
fn py_modules_locations() {
    let b = Builder::new(options(false, FilenameSource::PluginName, "/tmp/decky"), example_plugin(false), "r1", None).unwrap();
    assert_eq!(b.py_modules_dirs(), ("/work/example-plugin/py_modules".to_string(), "/tmp/decky/r1/py_modules".to_string()));
}

#[test]
fn top_level_paths_under_staging() {
    let b = Builder::new(options(false, FilenameSource::PluginName, "/tmp/decky"), example_plugin(false), "r1", None).unwrap();
    let paths = b.top_level_paths(&vec!["extra.py".to_string()]);
    assert_eq!(paths[0], "/tmp/decky/r1/LICENSE");
    assert_eq!(paths[5], "/tmp/decky/r1/extra.py");
    assert_eq!(paths.len(), 6);
}

#[test]
fn stage_order() {
    let mut s = BuildStage::ResetStaging;
    let mut seen = vec![s];
    while s != BuildStage::Done {
        s = next_stage(s);
        seen.push(s);
    }
    assert_eq!(
        seen,
        vec![
            BuildStage::ResetStaging, BuildStage::Backend, BuildStage::Frontend, BuildStage::RemoteBinaries,
            BuildStage::PyModules, BuildStage::Archive, BuildStage::Done
        ]
    );
    assert_eq!(failure_context(BuildStage::Archive), "Failed to zip plugin.");
}
