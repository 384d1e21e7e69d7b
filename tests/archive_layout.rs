use std::io::{Cursor, Read, Write};

use decky::config::{CompressMethod, FilenameSource};
use decky::package::{
    archive_base_name, archive_filename, directives, entry_name, file_options, plan_archive, top_level_files, ArchiveOp,
    DirWalk, EntryOptions, PackagingError, StagedEntry,
};

fn entry(path: &str, is_file: bool) -> StagedEntry {
    StagedEntry { path: path.to_string(), is_file }
}

fn walks(dist: Option<Vec<StagedEntry>>, bin: Option<Vec<StagedEntry>>, defaults: Option<Vec<StagedEntry>>) -> Vec<DirWalk> {
    let mut found = vec![dist, bin, defaults, None];
    directives().into_iter().map(|d| DirWalk { directive: d, entries: found.remove(0) }).collect()
}

#[test]
fn defaults_overlay_lands_at_root() {
    assert_eq!(entry_name("/s", "/s/defaults/config.json", "Example"), Some("Example/config.json".to_string()));
    assert_eq!(entry_name("/s", "/s/config.json", "Example"), Some("Example/config.json".to_string()));
    assert_eq!(entry_name("/s", "/s/defaultsx/a", "Example"), Some("Example/defaultsx/a".to_string()));
    assert_eq!(entry_name("/s", "/s/defaults", "Example"), Some("Example/".to_string()));
    assert_eq!(entry_name("/s", "/other/a", "Example"), None);
    assert_eq!(entry_name("/s/", "/s/defaults/config.json", "Example"), Some("Example/config.json".to_string()));
    assert_eq!(entry_name("/s/", "/s/config.json", "Example"), Some("Example/config.json".to_string()));
}

#[test]
fn archive_names() {
    assert_eq!(archive_filename("Example", false), "Example.zip");
    assert_eq!(archive_filename("Example", true), "Example-dev.zip");
    assert_eq!(archive_base_name(FilenameSource::PluginName, "Example", "/p/dir"), Ok("Example".to_string()));
    assert_eq!(archive_base_name(FilenameSource::Directory, "Example", "/p/dir"), Ok("dir".to_string()));
    assert_eq!(archive_base_name(FilenameSource::Directory, "Example", "/"), Err(PackagingError::NoDirectoryName));
}

#[test]
fn compression_policy() {
    assert_eq!(
        file_options(CompressMethod::Deflate, None, None),
        EntryOptions { method: CompressMethod::Deflate, level: Some(9), permissions: None }
    );
    assert_eq!(
        file_options(CompressMethod::Deflate, Some(3), Some(0o755)),
        EntryOptions { method: CompressMethod::Deflate, level: Some(3), permissions: Some(0o755) }
    );
    assert_eq!(
        file_options(CompressMethod::Store, Some(3), None),
        EntryOptions { method: CompressMethod::Store, level: None, permissions: None }
    );
}

#[test]
fn directive_order_and_policy() {
    let d = directives();
    let got: Vec<(&str, bool, Option<u32>)> = d.iter().map(|x| (x.path.as_str(), x.mandatory, x.permissions)).collect();
    assert_eq!(
        got,
        vec![("dist", true, None), ("bin", false, Some(0o755)), ("defaults", false, None), ("py_modules", false, Some(0o755))]
    );
}

#[test]
fn top_level_files_deduplicated() {
    let py = vec!["main.py".to_string(), "helper.py".to_string(), "helper.py".to_string()];
    assert_eq!(
        top_level_files(&py),
        vec!["LICENSE", "main.py", "package.json", "plugin.json", "README.md", "helper.py"]
    );
}

#[test]
fn plan_stores_files_and_directories() {
    let top = vec![entry("/s/LICENSE", true), entry("/s/main.py", false)];
    let w = walks(
        Some(vec![entry("/s/dist", false), entry("/s/dist/index.js", true)]),
        Some(vec![entry("/s/bin", false), entry("/s/bin/tool", true)]),
        Some(vec![entry("/s/defaults", false), entry("/s/defaults/config.json", true)]),
    );
    let ops = plan_archive("/s", "Example", &top, &w, CompressMethod::Deflate, None).unwrap();
    let plain = EntryOptions { method: CompressMethod::Deflate, level: Some(9), permissions: None };
    let exec = EntryOptions { method: CompressMethod::Deflate, level: Some(9), permissions: Some(0o755) };
    assert_eq!(
        ops,
        vec![
            ArchiveOp::File { name: "Example/LICENSE".to_string(), source: "/s/LICENSE".to_string(), options: plain },
            ArchiveOp::Directory { name: "Example/dist".to_string(), permissions: None },
            ArchiveOp::File { name: "Example/dist/index.js".to_string(), source: "/s/dist/index.js".to_string(), options: plain },
            ArchiveOp::Directory { name: "Example/bin".to_string(), permissions: Some(0o755) },
            ArchiveOp::File { name: "Example/bin/tool".to_string(), source: "/s/bin/tool".to_string(), options: exec },
            ArchiveOp::Directory { name: "Example/".to_string(), permissions: None },
            ArchiveOp::File { name: "Example/config.json".to_string(), source: "/s/defaults/config.json".to_string(), options: plain },
        ]
    );
}

#[test]
fn plan_requires_dist() {
    let w = walks(None, None, None);
    assert_eq!(
        plan_archive("/s", "Example", &vec![], &w, CompressMethod::Store, None),
        Err(PackagingError::MissingDirectory("dist".to_string()))
    );
}

#[test]
fn plan_refuses_paths_outside_staging() {
    let w = walks(Some(vec![entry("/elsewhere/x", true)]), None, None);
    assert_eq!(
        plan_archive("/s", "Example", &vec![], &w, CompressMethod::Store, None),
        Err(PackagingError::OutsideStaging("/elsewhere/x".to_string()))
    );
}

#[test]
fn archive_round_trip_reproduces_files() {
    let files: Vec<(&str, Vec<u8>)> = vec![
        ("/s/dist/index.js", b"console.log(1)".to_vec()),
        ("/s/bin/tool", vec![0, 1, 2, 255]),
        ("/s/defaults/settings.json", b"{}".to_vec()),
    ];
    let w = walks(
        Some(vec![entry("/s/dist", false), entry("/s/dist/index.js", true)]),
        Some(vec![entry("/s/bin", false), entry("/s/bin/tool", true)]),
        Some(vec![entry("/s/defaults", false), entry("/s/defaults/settings.json", true)]),
    );
    let ops = plan_archive("/s", "Example", &vec![], &w, CompressMethod::Deflate, Some(6)).unwrap();

    let mut writer = zip::ZipWriter::new(Cursor::new(Vec::new()));
    for op in &ops {
        match op {
            ArchiveOp::File { name, source, options } => {
                let bytes = &files.iter().find(|(p, _)| p == source).unwrap().1;
                let opts = zip::write::FileOptions::default()
                    .compression_method(zip::CompressionMethod::Deflated)
                    .compression_level(options.level);
                writer.start_file(name.as_str(), opts).unwrap();
                writer.write_all(bytes).unwrap();
            }
            ArchiveOp::Directory { name, .. } => {
                writer.add_directory(name.as_str(), zip::write::FileOptions::default()).unwrap();
            }
        }
    }
    let written = writer.finish().unwrap().into_inner();

    let mut archive = zip::ZipArchive::new(Cursor::new(written)).unwrap();
    for (path, bytes) in &files {
        let name = entry_name("/s", path, "Example").unwrap();
        let mut stored = archive.by_name(&name).unwrap();
        let mut read_back = Vec::new();
        stored.read_to_end(&mut read_back).unwrap();
        assert_eq!(&read_back, bytes);
    }
    assert!(archive.by_name("Example/settings.json").is_ok());
}
