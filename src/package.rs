//! Archive layout: the archive's name, which staged files go in, under
//! which entry names and with which options.

use vstd::prelude::*;
use crate::config::{CompressMethod, FilenameSource};
use crate::paths::{file_name, file_name_spec, join, join_spec, strip_dir, strip_dir_spec};
use crate::text::{has_prefix, owned, push_item, views};

verus! {

/// How one file is stored.
#[derive(Clone, Copy, Debug, PartialEq, Eq, Structural)]
pub struct EntryOptions {
    pub method: CompressMethod,
    /// The compression level, set for deflated entries only.
    pub level: Option<i32>,
    /// Unix permission bits, where the directory's policy sets them.
    pub permissions: Option<u32>,
}

/// A staging subdirectory that is folded into the archive.
#[derive(Clone, Debug, PartialEq, Eq)]
pub struct DirDirective {
    pub path: String,
    pub mandatory: bool,
    pub permissions: Option<u32>,
}

/// A path found in the staging tree, and whether it is a regular file.
#[derive(Clone, Debug, PartialEq, Eq)]
pub struct StagedEntry {
    pub path: String,
    pub is_file: bool,
}

/// What walking one directive's directory found: `None` when the directory
/// does not exist, else every path below it in walk order, the directory
/// itself first.
#[derive(Clone, Debug, PartialEq, Eq)]
pub struct DirWalk {
    pub directive: DirDirective,
    pub entries: Option<Vec<StagedEntry>>,
}

/// One step of writing the archive.
#[derive(Clone, Debug, PartialEq, Eq)]
pub enum ArchiveOp {
    /// Store the file at `source` as entry `name`.
    File { name: String, source: String, options: EntryOptions },
    /// Add a directory entry `name`.
    Directory { name: String, permissions: Option<u32> },
}

/// An archive step over character sequences.
pub enum OpModel {
    File { name: Seq<char>, source: Seq<char>, options: EntryOptions },
    Directory { name: Seq<char>, permissions: Option<u32> },
}

impl View for ArchiveOp {
    type V = OpModel;

    open spec fn view(&self) -> OpModel {
        match self {
            ArchiveOp::File { name, source, options } => OpModel::File {
                name: name@,
                source: source@,
                options: *options,
            },
            ArchiveOp::Directory { name, permissions } => OpModel::Directory {
                name: name@,
                permissions: *permissions,
            },
        }
    }
}

/// Why the archive could not be laid out.
#[derive(Clone, Debug, PartialEq, Eq)]
pub enum PackagingError {
    /// The plugin directory has no base name to call the archive by.
    NoDirectoryName,
    /// A mandatory directory is missing from the staging tree.
    MissingDirectory(String),
    /// A path handed in does not lie in the staging tree.
    OutsideStaging(String),
}

pub open spec fn ops_view(ops: Seq<ArchiveOp>) -> Seq<OpModel> {
    ops.map_values(|o: ArchiveOp| o@)
}

/// The highest deflate level, used when none is given.
pub const DEFAULT_DEFLATE_LEVEL: i32 = 9;

/// Options of a file: deflated entries get the given level or the highest
/// one, stored entries none.
pub open spec fn file_options_spec(
    method: CompressMethod,
    level: Option<i32>,
    permissions: Option<u32>,
) -> EntryOptions {
    EntryOptions {
        method,
        level: match method {
            CompressMethod::Deflate => match level {
                Some(l) => Some(l),
                None => Some(DEFAULT_DEFLATE_LEVEL),
            },
            CompressMethod::Store => None,
        },
        permissions,
    }
}

/// The name the archive is called by.
pub open spec fn base_name_spec(
    source: FilenameSource,
    plugin_name: Seq<char>,
    plugin_root: Seq<char>,
) -> Option<Seq<char>> {
    match source {
        FilenameSource::PluginName => Some(plugin_name),
        FilenameSource::Directory => file_name_spec(plugin_root),
    }
}

/// The archive's file name: the base name, `-dev` in development mode,
/// then `.zip`.
pub open spec fn archive_filename_spec(name: Seq<char>, dev_mode: bool) -> Seq<char> {
    if dev_mode {
        name + "-dev.zip"@
    } else {
        name + ".zip"@
    }
}

/// A path relative to the staging root with a leading `defaults` component
/// removed.
pub open spec fn strip_overlay(rel: Seq<char>) -> Seq<char> {
    match strip_dir_spec(rel, "defaults"@) {
        Some(r) => r,
        None => rel,
    }
}

/// The archive entry of a staged `path`: relative to the staging root,
/// with the `defaults` overlay lifted to the top, below a directory called
/// `name`.
pub open spec fn entry_name_spec(staging: Seq<char>, path: Seq<char>, name: Seq<char>) -> Option<
    Seq<char>,
> {
    match strip_dir_spec(path, staging) {
        Some(rel) => Some(join_spec(name, strip_overlay(rel))),
        None => None,
    }
}

/// The steps for one staged entry: a file is stored; a directory gets an
/// entry of its own when `with_dirs` holds and its name is not empty.
pub open spec fn entry_ops(
    staging: Seq<char>,
    name: Seq<char>,
    e: StagedEntry,
    opts: EntryOptions,
    with_dirs: bool,
) -> Seq<OpModel> {
    match entry_name_spec(staging, e.path@, name) {
        Some(n) => if e.is_file {
            seq![OpModel::File { name: n, source: e.path@, options: opts }]
        } else if with_dirs && n.len() > 0 {
            seq![OpModel::Directory { name: n, permissions: opts.permissions }]
        } else {
            Seq::empty()
        },
        None => Seq::empty(),
    }
}

pub open spec fn entries_ops(
    staging: Seq<char>,
    name: Seq<char>,
    es: Seq<StagedEntry>,
    opts: EntryOptions,
    with_dirs: bool,
) -> Seq<OpModel>
    decreases es.len(),
{
    if es.len() == 0 {
        Seq::empty()
    } else {
        entries_ops(staging, name, es.drop_last(), opts, with_dirs) + entry_ops(
            staging,
            name,
            es.last(),
            opts,
            with_dirs,
        )
    }
}

/// Every entry lies in the staging tree.
pub open spec fn inside(staging: Seq<char>, es: Seq<StagedEntry>) -> bool {
    forall|i: int| 0 <= i < es.len() ==> (#[trigger] strip_dir_spec(es[i].path@, staging)) is Some
}

pub open spec fn walk_ok(staging: Seq<char>, w: DirWalk) -> bool {
    match w.entries {
        None => !w.directive.mandatory,
        Some(es) => inside(staging, es@),
    }
}

pub open spec fn walk_ops(
    staging: Seq<char>,
    name: Seq<char>,
    w: DirWalk,
    method: CompressMethod,
    level: Option<i32>,
) -> Seq<OpModel> {
    match w.entries {
        None => Seq::empty(),
        Some(es) => entries_ops(
            staging,
            name,
            es@,
            file_options_spec(method, level, w.directive.permissions),
            true,
        ),
    }
}

pub open spec fn walks_ops(
    staging: Seq<char>,
    name: Seq<char>,
    ws: Seq<DirWalk>,
    method: CompressMethod,
    level: Option<i32>,
) -> Seq<OpModel>
    decreases ws.len(),
{
    if ws.len() == 0 {
        Seq::empty()
    } else {
        walks_ops(staging, name, ws.drop_last(), method, level) + walk_ops(
            staging,
            name,
            ws.last(),
            method,
            level,
        )
    }
}

/// The archive can be laid out: every top-level entry and every walked
/// path lies in the staging tree, and no mandatory directory is missing.
pub open spec fn plan_ok(staging: Seq<char>, top: Seq<StagedEntry>, walks: Seq<DirWalk>) -> bool {
    inside(staging, top) && forall|j: int| 0 <= j < walks.len() ==> walk_ok(staging, #[trigger] walks[j])
}

/// The archive's steps: the top-level files that exist, then each
/// directory in turn.
pub open spec fn plan_spec(
    staging: Seq<char>,
    name: Seq<char>,
    top: Seq<StagedEntry>,
    walks: Seq<DirWalk>,
    method: CompressMethod,
    level: Option<i32>,
) -> Seq<OpModel> {
    entries_ops(staging, name, top, file_options_spec(method, level, None), false) + walks_ops(
        staging,
        name,
        walks,
        method,
        level,
    )
}

/// Permission bits of directories whose files must stay executable.
pub const EXECUTABLE_DIR_MODE: u32 = 0o755;

/// The staging subdirectories folded into the archive, in order: path,
/// whether it is mandatory, and its permission policy.
pub open spec fn directive_table() -> Seq<(Seq<char>, bool, Option<u32>)> {
    seq![
        ("dist"@, true, None),
        ("bin"@, false, Some(EXECUTABLE_DIR_MODE)),
        ("defaults"@, false, None),
        ("py_modules"@, false, Some(EXECUTABLE_DIR_MODE)),
    ]
}

/// The top-level files always looked for.
pub open spec fn expected_files() -> Seq<Seq<char>> {
    seq!["LICENSE"@, "main.py"@, "package.json"@, "plugin.json"@, "README.md"@]
}

/// `s` without repeats, each item where it first occurs.
pub open spec fn dedup(s: Seq<Seq<char>>) -> Seq<Seq<char>>
    decreases s.len(),
{
    if s.len() == 0 {
        s
    } else {
        let d = dedup(s.drop_last());
        if d.contains(s.last()) {
            d
        } else {
            d.push(s.last())
        }
    }
}

/// The options of a file under the given policy.
pub fn file_options(method: CompressMethod, level: Option<i32>, permissions: Option<u32>) -> (r:
    EntryOptions)
    ensures
        r == file_options_spec(method, level, permissions),
{
    let level = match method {
        CompressMethod::Deflate => match level {
            Some(l) => Some(l),
            None => Some(DEFAULT_DEFLATE_LEVEL),
        },
        CompressMethod::Store => None,
    };
    EntryOptions { method, level, permissions }
}

/// The name the archive is called by: the manifest's name, or the base name
/// of the plugin directory.
pub fn archive_base_name(source: FilenameSource, plugin_name: &str, plugin_root: &str) -> (r: Result<
    String,
    PackagingError,
>)
    ensures
        r matches Ok(n) ==> base_name_spec(source, plugin_name@, plugin_root@) == Some(n@),
        r is Err ==> base_name_spec(source, plugin_name@, plugin_root@) is None && r
            == Err::<String, PackagingError>(PackagingError::NoDirectoryName),
{
    match source {
        FilenameSource::PluginName => Ok(owned(plugin_name)),
        FilenameSource::Directory => match file_name(plugin_root) {
            Some(n) => Ok(n),
            None => Err(PackagingError::NoDirectoryName),
        },
    }
}

/// The archive's file name.
pub fn archive_filename(name: &str, dev_mode: bool) -> (r: String)
    ensures
        r@ == archive_filename_spec(name@, dev_mode),
{
    let mut out = owned(name);
    if dev_mode {
        out.append("-dev.zip");
    } else {
        out.append(".zip");
    }
    out
}

/// The archive entry of the staged `path`, if it lies in the staging tree.
pub fn entry_name(staging: &str, path: &str, name: &str) -> (r: Option<String>)
    ensures
        r matches Some(n) ==> entry_name_spec(staging@, path@, name@) == Some(n@),
        r is None ==> entry_name_spec(staging@, path@, name@) is None,
{
    match strip_dir(path, staging) {
        Some(rel) => {
            let lifted = match strip_dir(rel.as_str(), "defaults") {
                Some(r) => r,
                None => rel,
            };
            Some(join(name, lifted.as_str()))
        },
        None => None,
    }
}

/// The staging subdirectories folded into the archive.
pub fn directives() -> (r: Vec<DirDirective>)
    ensures
        r@.len() == directive_table().len(),
        forall|i: int|
            0 <= i < r@.len() ==> (#[trigger] r@[i]).path@ == directive_table()[i].0
                && r@[i].mandatory == directive_table()[i].1 && r@[i].permissions
                == directive_table()[i].2,
{
    let mut r: Vec<DirDirective> = Vec::new();
    r.push(DirDirective { path: owned("dist"), mandatory: true, permissions: None });
    r.push(DirDirective { path: owned("bin"), mandatory: false, permissions: Some(EXECUTABLE_DIR_MODE) });
    r.push(DirDirective { path: owned("defaults"), mandatory: false, permissions: None });
    r.push(
        DirDirective { path: owned("py_modules"), mandatory: false, permissions: Some(EXECUTABLE_DIR_MODE) },
    );
    r
}

fn push_unique(out: &mut Vec<String>, item: String)
    ensures
        views(final(out)@) == (if views(old(out)@).contains(item@) {
            views(old(out)@)
        } else {
            views(old(out)@).push(item@)
        }),
{
    let n = out.len();
    let mut i: usize = 0;
    while i < n
        invariant
            n == out@.len(),
            i <= n,
            forall|k: int| 0 <= k < i ==> views(out@)[k] != item@,
        decreases n - i,
    {
        if out[i] == item {
            assert(views(out@)[i as int] == item@);
            return;
        }
        i = i + 1;
    }
    assert(!views(out@).contains(item@));
    push_item(out, item);
}

/// The top-level files of the archive: the expected ones, then the loose
/// Python files found at the staging root, without repeats.
pub fn top_level_files(py_files: &Vec<String>) -> (r: Vec<String>)
    ensures
        views(r@) == dedup(expected_files() + views(py_files@)),
{
    let mut all: Vec<String> = Vec::new();
    push_item(&mut all, owned("LICENSE"));
    push_item(&mut all, owned("main.py"));
    push_item(&mut all, owned("package.json"));
    push_item(&mut all, owned("plugin.json"));
    push_item(&mut all, owned("README.md"));
    assert(views(all@) =~= expected_files());
    let n = py_files.len();
    let mut j: usize = 0;
    while j < n
        invariant
            n == py_files@.len(),
            j <= n,
            views(all@) == expected_files() + views(py_files@.subrange(0, j as int)),
        decreases n - j,
    {
        push_item(&mut all, py_files[j].clone());
        j = j + 1;
        assert(views(all@) =~= expected_files() + views(py_files@.subrange(0, j as int)));
    }
    assert(py_files@.subrange(0, n as int) =~= py_files@);
    let m = all.len();
    let mut out: Vec<String> = Vec::new();
    let mut i: usize = 0;
    assert(views(all@).subrange(0, 0) =~= Seq::<Seq<char>>::empty());
    while i < m
        invariant
            m == all@.len(),
            i <= m,
            views(out@) == dedup(views(all@).subrange(0, i as int)),
        decreases m - i,
    {
        push_unique(&mut out, all[i].clone());
        i = i + 1;
        assert(views(all@).subrange(0, i as int).drop_last() =~= views(all@).subrange(0, i - 1));
    }
    assert(views(all@).subrange(0, m as int) =~= views(all@));
    out
}

fn push_entry_ops(
    staging: &str,
    name: &str,
    e: &StagedEntry,
    opts: EntryOptions,
    with_dirs: bool,
    ops: &mut Vec<ArchiveOp>,
) -> (ok: bool)
    ensures
        ok == (strip_dir_spec(e.path@, staging@) is Some),
        ops_view(final(ops)@) == ops_view(old(ops)@) + entry_ops(staging@, name@, *e, opts, with_dirs),
{
    match entry_name(staging, e.path.as_str(), name) {
        None => {
            assert(ops_view(ops@) =~= ops_view(old(ops)@) + entry_ops(staging@, name@, *e, opts, with_dirs));
            false
        },
        Some(n) => {
            if e.is_file {
                ops.push(ArchiveOp::File { name: n, source: e.path.clone(), options: opts });
            } else if with_dirs && n.unicode_len() > 0 {
                ops.push(ArchiveOp::Directory { name: n, permissions: opts.permissions });
            }
            assert(ops_view(ops@) =~= ops_view(old(ops)@) + entry_ops(staging@, name@, *e, opts, with_dirs));
            true
        },
    }
}

fn push_entries_ops(
    staging: &str,
    name: &str,
    es: &Vec<StagedEntry>,
    opts: EntryOptions,
    with_dirs: bool,
    ops: &mut Vec<ArchiveOp>,
) -> (r: Result<(), String>)
    ensures
        r is Ok <==> inside(staging@, es@),
        r matches Err(p) ==> exists|i: int|
            0 <= i < es@.len() && es@[i].path@ == p@ && strip_dir_spec(es@[i].path@, staging@) is None,
        r is Ok ==> ops_view(final(ops)@) == ops_view(old(ops)@) + entries_ops(
            staging@,
            name@,
            es@,
            opts,
            with_dirs,
        ),
{
    let n = es.len();
    let mut i: usize = 0;
    assert(es@.subrange(0, 0) =~= Seq::<StagedEntry>::empty());
    while i < n
        invariant
            n == es@.len(),
            i <= n,
            inside(staging@, es@.subrange(0, i as int)),
            ops_view(ops@) == ops_view(old(ops)@) + entries_ops(
                staging@,
                name@,
                es@.subrange(0, i as int),
                opts,
                with_dirs,
            ),
        decreases n - i,
    {
        let ghost before = ops_view(ops@);
        if !push_entry_ops(staging, name, &es[i], opts, with_dirs, ops) {
            assert(strip_dir_spec(es@[i as int].path@, staging@) is None);
            return Err(es[i].path.clone());
        }
        i = i + 1;
        let ghost sub = es@.subrange(0, i as int);
        assert(sub.drop_last() =~= es@.subrange(0, i - 1));
        assert(inside(staging@, sub)) by {
            assert forall|k: int| 0 <= k < sub.len() implies (#[trigger] strip_dir_spec(
                sub[k].path@,
                staging@,
            )) is Some by {
                if k < i - 1 {
                    assert(sub[k] == es@.subrange(0, i - 1)[k]);
                }
            }
        }
        assert(ops_view(ops@) =~= ops_view(old(ops)@) + entries_ops(staging@, name@, sub, opts, with_dirs));
    }
    assert(es@.subrange(0, n as int) =~= es@);
    Ok(())
}

/// Lays the archive out from what the staging tree holds: `top` are the
/// top-level files looked for, `walks` what walking each directive's
/// directory found.
pub fn plan_archive(
    staging: &str,
    name: &str,
    top: &Vec<StagedEntry>,
    walks: &Vec<DirWalk>,
    method: CompressMethod,
    level: Option<i32>,
) -> (r: Result<Vec<ArchiveOp>, PackagingError>)
    ensures
        r is Ok <==> plan_ok(staging@, top@, walks@),
        r matches Ok(ops) ==> ops_view(ops@) == plan_spec(staging@, name@, top@, walks@, method, level),
        r matches Err(PackagingError::MissingDirectory(p)) ==> exists|j: int|
            0 <= j < walks@.len() && walks@[j].entries is None && walks@[j].directive.mandatory
                && walks@[j].directive.path@ == p@,
        r is Err ==> !(r matches Err(PackagingError::NoDirectoryName)),
{
    let mut ops: Vec<ArchiveOp> = Vec::new();
    let top_opts = file_options(method, level, None);
    match push_entries_ops(staging, name, top, top_opts, false, &mut ops) {
        Ok(()) => {},
        Err(p) => {
            return Err(PackagingError::OutsideStaging(p));
        },
    }
    assert(ops_view(ops@) =~= entries_ops(staging@, name@, top@, top_opts, false));
    let ghost head = ops_view(ops@);
    let n = walks.len();
    let mut j: usize = 0;
    assert(walks@.subrange(0, 0) =~= Seq::<DirWalk>::empty());
    while j < n
        invariant
            n == walks@.len(),
            j <= n,
            inside(staging@, top@),
            forall|k: int| 0 <= k < j ==> walk_ok(staging@, #[trigger] walks@[k]),
            ops_view(ops@) == head + walks_ops(staging@, name@, walks@.subrange(0, j as int), method, level),
            head == entries_ops(staging@, name@, top@, file_options_spec(method, level, None), false),
        decreases n - j,
    {
        let w = &walks[j];
        let ghost before = ops_view(ops@);
        match &w.entries {
            None => {
                if w.directive.mandatory {
                    return Err(PackagingError::MissingDirectory(w.directive.path.clone()));
                }
            },
            Some(es) => {
                let opts = file_options(method, level, w.directive.permissions);
                match push_entries_ops(staging, name, es, opts, true, &mut ops) {
                    Ok(()) => {},
                    Err(p) => {
                        return Err(PackagingError::OutsideStaging(p));
                    },
                }
            },
        }
        j = j + 1;
        assert(walks@.subrange(0, j as int).drop_last() =~= walks@.subrange(0, j - 1));
        assert(ops_view(ops@) =~= head + walks_ops(staging@, name@, walks@.subrange(0, j as int), method, level));
    }
    assert(walks@.subrange(0, n as int) =~= walks@);
    Ok(ops)
}

/// The `defaults` overlay lands at the archive root: a path `r` staged
/// under `defaults/` and the same path staged at the staging root give the
/// same archive entry, `r` below the archive's top directory, for any
/// non-empty staging root and any relative `r` whose first component is not
/// itself `defaults`.
pub proof fn lemma_defaults_overlay(staging: Seq<char>, r: Seq<char>, name: Seq<char>)
    requires
        staging.len() > 0,
        r.len() > 0,
        r[0] != '/',
        strip_dir_spec(r, "defaults"@) is None,
    ensures
        entry_name_spec(staging, join_spec(join_spec(staging, "defaults"@), r), name) == entry_name_spec(
            staging,
            join_spec(staging, r),
            name,
        ),
        entry_name_spec(staging, join_spec(staging, r), name) == Some(join_spec(name, r)),
{
    reveal_strlit("defaults");
    let d = "defaults"@;
    let lifted = join_spec(join_spec(staging, d), r);
    let plain = join_spec(staging, r);
    let rel = d.push('/') + r;
    if staging.last() == '/' {
        assert(join_spec(staging, d) == staging + d);
        assert(lifted =~= staging + rel);
        assert(plain =~= staging + r);
        assert(lifted.subrange(0, staging.len() as int) =~= staging);
        assert(plain.subrange(0, staging.len() as int) =~= staging);
        assert(lifted.len() != staging.len());
        assert(plain.len() != staging.len());
        assert(strip_dir_spec(lifted, staging) == Some(rel)) by {
            assert(lifted.skip(staging.len() as int) =~= rel);
        }
        assert(strip_dir_spec(plain, staging) == Some(r)) by {
            assert(plain.skip(staging.len() as int) =~= r);
        }
    } else {
        assert(join_spec(staging, d) == staging + seq!['/'] + d);
        assert(lifted =~= staging.push('/') + rel);
        assert(plain =~= staging.push('/') + r);
        assert(lifted.subrange(0, staging.len() + 1int) =~= staging.push('/'));
        assert(plain.subrange(0, staging.len() + 1int) =~= staging.push('/'));
        assert(lifted.len() != staging.len());
        assert(plain.len() != staging.len());
        assert(strip_dir_spec(lifted, staging) == Some(rel)) by {
            assert(lifted.skip(staging.len() + 1int) =~= rel);
        }
        assert(strip_dir_spec(plain, staging) == Some(r)) by {
            assert(plain.skip(staging.len() + 1int) =~= r);
        }
    }
    assert(rel.subrange(0, d.len() + 1int) =~= d.push('/'));
    assert(rel.len() != d.len());
    assert(rel.skip(d.len() + 1int) =~= r);
    assert(strip_overlay(rel) == r);
}

proof fn lemma_entries_ops_store(
    staging: Seq<char>,
    name: Seq<char>,
    es: Seq<StagedEntry>,
    opts: EntryOptions,
    with_dirs: bool,
    i: int,
)
    requires
        inside(staging, es),
        0 <= i < es.len(),
        es[i].is_file,
    ensures
        entries_ops(staging, name, es, opts, with_dirs).contains(
            OpModel::File {
                name: entry_name_spec(staging, es[i].path@, name)->0,
                source: es[i].path@,
                options: opts,
            },
        ),
    decreases es.len(),
{
    let x = OpModel::File {
        name: entry_name_spec(staging, es[i].path@, name)->0,
        source: es[i].path@,
        options: opts,
    };
    let pre = entries_ops(staging, name, es.drop_last(), opts, with_dirs);
    let last = entry_ops(staging, name, es.last(), opts, with_dirs);
    assert(entries_ops(staging, name, es, opts, with_dirs) == pre + last);
    if i == es.len() - 1 {
        assert(strip_dir_spec(es[i].path@, staging) is Some);
        assert(last =~= seq![x]);
        assert((pre + last)[pre.len() as int] == x);
    } else {
        assert(inside(staging, es.drop_last())) by {
            assert forall|k: int| 0 <= k < es.drop_last().len() implies (#[trigger] strip_dir_spec(
                es.drop_last()[k].path@,
                staging,
            )) is Some by {
                assert(es.drop_last()[k] == es[k]);
                assert(strip_dir_spec(es[k].path@, staging) is Some);
            }
        }
        assert(es.drop_last()[i] == es[i]);
        lemma_entries_ops_store(staging, name, es.drop_last(), opts, with_dirs, i);
        let k = choose|k: int| 0 <= k < pre.len() && pre[k] == x;
        assert((pre + last)[k] == x);
    }
}

proof fn lemma_walks_ops_store(
    staging: Seq<char>,
    name: Seq<char>,
    ws: Seq<DirWalk>,
    method: CompressMethod,
    level: Option<i32>,
    j: int,
    i: int,
)
    requires
        forall|k: int| 0 <= k < ws.len() ==> walk_ok(staging, #[trigger] ws[k]),
        0 <= j < ws.len(),
        ws[j].entries is Some,
        0 <= i < (ws[j].entries->0)@.len(),
        (ws[j].entries->0)@[i].is_file,
    ensures
        walks_ops(staging, name, ws, method, level).contains(
            OpModel::File {
                name: entry_name_spec(staging, (ws[j].entries->0)@[i].path@, name)->0,
                source: (ws[j].entries->0)@[i].path@,
                options: file_options_spec(method, level, ws[j].directive.permissions),
            },
        ),
    decreases ws.len(),
{
    let e = (ws[j].entries->0)@[i];
    let x = OpModel::File {
        name: entry_name_spec(staging, e.path@, name)->0,
        source: e.path@,
        options: file_options_spec(method, level, ws[j].directive.permissions),
    };
    let pre = walks_ops(staging, name, ws.drop_last(), method, level);
    let last = walk_ops(staging, name, ws.last(), method, level);
    assert(walks_ops(staging, name, ws, method, level) == pre + last);
    if j == ws.len() - 1 {
        assert(walk_ok(staging, ws[j]));
        lemma_entries_ops_store(
            staging,
            name,
            (ws[j].entries->0)@,
            file_options_spec(method, level, ws[j].directive.permissions),
            true,
            i,
        );
        let k = choose|k: int| 0 <= k < last.len() && last[k] == x;
        assert((pre + last)[pre.len() + k] == x);
    } else {
        assert forall|k: int| 0 <= k < ws.drop_last().len() implies walk_ok(
            staging,
            #[trigger] ws.drop_last()[k],
        ) by {
            assert(ws.drop_last()[k] == ws[k]);
            assert(walk_ok(staging, ws[k]));
        }
        assert(ws.drop_last()[j] == ws[j]);
        lemma_walks_ops_store(staging, name, ws.drop_last(), method, level, j, i);
        let k = choose|k: int| 0 <= k < pre.len() && pre[k] == x;
        assert((pre + last)[k] == x);
    }
}

/// Nothing staged is lost: every regular file that walking a directive's
/// directory found is stored, from its own path, under its archive entry
/// name, with that directory's options.
pub proof fn lemma_plan_stores_every_file(
    staging: Seq<char>,
    name: Seq<char>,
    top: Seq<StagedEntry>,
    walks: Seq<DirWalk>,
    method: CompressMethod,
    level: Option<i32>,
    j: int,
    i: int,
)
    requires
        plan_ok(staging, top, walks),
        0 <= j < walks.len(),
        walks[j].entries is Some,
        0 <= i < (walks[j].entries->0)@.len(),
        (walks[j].entries->0)@[i].is_file,
    ensures
        plan_spec(staging, name, top, walks, method, level).contains(
            OpModel::File {
                name: entry_name_spec(staging, (walks[j].entries->0)@[i].path@, name)->0,
                source: (walks[j].entries->0)@[i].path@,
                options: file_options_spec(method, level, walks[j].directive.permissions),
            },
        ),
{
    let e = (walks[j].entries->0)@[i];
    let x = OpModel::File {
        name: entry_name_spec(staging, e.path@, name)->0,
        source: e.path@,
        options: file_options_spec(method, level, walks[j].directive.permissions),
    };
    let pre = entries_ops(staging, name, top, file_options_spec(method, level, None), false);
    let rest = walks_ops(staging, name, walks, method, level);
    lemma_walks_ops_store(staging, name, walks, method, level, j, i);
    let k = choose|k: int| 0 <= k < rest.len() && rest[k] == x;
    assert((pre + rest)[pre.len() + k] == x);
}

/// Every top-level file that exists is stored, from its own path, under
/// its archive entry name.
pub proof fn lemma_plan_stores_top_files(
    staging: Seq<char>,
    name: Seq<char>,
    top: Seq<StagedEntry>,
    walks: Seq<DirWalk>,
    method: CompressMethod,
    level: Option<i32>,
    i: int,
)
    requires
        plan_ok(staging, top, walks),
        0 <= i < top.len(),
        top[i].is_file,
    ensures
        plan_spec(staging, name, top, walks, method, level).contains(
            OpModel::File {
                name: entry_name_spec(staging, top[i].path@, name)->0,
                source: top[i].path@,
                options: file_options_spec(method, level, None),
            },
        ),
{
    let x = OpModel::File {
        name: entry_name_spec(staging, top[i].path@, name)->0,
        source: top[i].path@,
        options: file_options_spec(method, level, None),
    };
    let pre = entries_ops(staging, name, top, file_options_spec(method, level, None), false);
    let rest = walks_ops(staging, name, walks, method, level);
    lemma_entries_ops_store(staging, name, top, file_options_spec(method, level, None), false, i);
    let k = choose|k: int| 0 <= k < pre.len() && pre[k] == x;
    assert((pre + rest)[k] == x);
}

/// The entry name of an archive step.
pub open spec fn op_name(o: OpModel) -> Seq<char> {
    match o {
        OpModel::File { name, .. } => name,
        OpModel::Directory { name, .. } => name,
    }
}

/// The archive step `o` comes from the staged path `p`: its name is the
/// entry name of `p`, and a stored file is read from `p` itself.
pub open spec fn comes_from(staging: Seq<char>, name: Seq<char>, o: OpModel, p: Seq<char>) -> bool {
    &&& entry_name_spec(staging, p, name) == Some(op_name(o))
    &&& (o matches OpModel::File { source, .. } ==> source == p)
}

/// `p` is a top-level entry or was found by walking a directory.
pub open spec fn listed(top: Seq<StagedEntry>, walks: Seq<DirWalk>, p: Seq<char>) -> bool {
    ||| exists|i: int| 0 <= i < top.len() && (#[trigger] top[i]).path@ == p
    ||| exists|j: int, i: int|
        0 <= j < walks.len() && walks[j].entries is Some && 0 <= i < (
        walks[j].entries->0)@.len() && (#[trigger] (walks[j].entries->0)@[i]).path@ == p
}

proof fn lemma_entries_ops_origin(
    staging: Seq<char>,
    name: Seq<char>,
    es: Seq<StagedEntry>,
    opts: EntryOptions,
    with_dirs: bool,
    k: int,
)
    requires
        0 <= k < entries_ops(staging, name, es, opts, with_dirs).len(),
    ensures
        exists|i: int|
            0 <= i < es.len() && comes_from(
                staging,
                name,
                entries_ops(staging, name, es, opts, with_dirs)[k],
                (#[trigger] es[i]).path@,
            ),
    decreases es.len(),
{
    let pre = entries_ops(staging, name, es.drop_last(), opts, with_dirs);
    let last = entry_ops(staging, name, es.last(), opts, with_dirs);
    let all = entries_ops(staging, name, es, opts, with_dirs);
    assert(all == pre + last);
    if k < pre.len() {
        lemma_entries_ops_origin(staging, name, es.drop_last(), opts, with_dirs, k);
        let i = choose|i: int|
            0 <= i < es.drop_last().len() && comes_from(
                staging,
                name,
                pre[k],
                (#[trigger] es.drop_last()[i]).path@,
            );
        assert(es.drop_last()[i] == es[i]);
        assert(all[k] == pre[k]);
    } else {
        let i = es.len() - 1;
        assert(all[k] == last[k - pre.len()]);
        assert(es[i] == es.last());
        assert(comes_from(staging, name, all[k], es[i].path@));
    }
}

proof fn lemma_walks_ops_origin(
    staging: Seq<char>,
    name: Seq<char>,
    ws: Seq<DirWalk>,
    method: CompressMethod,
    level: Option<i32>,
    k: int,
)
    requires
        0 <= k < walks_ops(staging, name, ws, method, level).len(),
    ensures
        exists|j: int, i: int|
            0 <= j < ws.len() && ws[j].entries is Some && 0 <= i < (ws[j].entries->0)@.len()
                && comes_from(
                staging,
                name,
                walks_ops(staging, name, ws, method, level)[k],
                (#[trigger] (ws[j].entries->0)@[i]).path@,
            ),
    decreases ws.len(),
{
    let pre = walks_ops(staging, name, ws.drop_last(), method, level);
    let last = walk_ops(staging, name, ws.last(), method, level);
    let all = walks_ops(staging, name, ws, method, level);
    assert(all == pre + last);
    if k < pre.len() {
        lemma_walks_ops_origin(staging, name, ws.drop_last(), method, level, k);
        let (j, i) = choose|j: int, i: int|
            0 <= j < ws.drop_last().len() && ws.drop_last()[j].entries is Some && 0 <= i < (
            ws.drop_last()[j].entries->0)@.len() && comes_from(
                staging,
                name,
                pre[k],
                (#[trigger] (ws.drop_last()[j].entries->0)@[i]).path@,
            );
        assert(ws.drop_last()[j] == ws[j]);
        assert(all[k] == pre[k]);
        assert(comes_from(staging, name, all[k], (ws[j].entries->0)@[i].path@));
    } else {
        let j = ws.len() - 1;
        assert(ws[j] == ws.last());
        assert(all[k] == last[k - pre.len()]);
        let es = (ws[j].entries->0)@;
        let opts = file_options_spec(method, level, ws[j].directive.permissions);
        assert(last == entries_ops(staging, name, es, opts, true));
        lemma_entries_ops_origin(staging, name, es, opts, true, k - pre.len());
        let i = choose|i: int|
            0 <= i < es.len() && comes_from(staging, name, last[k - pre.len()], (#[trigger] es[i]).path@);
        assert(comes_from(staging, name, all[k], (ws[j].entries->0)@[i].path@));
    }
}

/// Nothing is added that was not staged: every step of the archive comes
/// from a top-level file or a path found by walking a directory, is named
/// by that path's entry name, and a stored file is read from that very
/// path. A directory whose walk found nothing, such as an absent optional
/// one, contributes no step.
pub proof fn lemma_plan_ops_come_from_staged_paths(
    staging: Seq<char>,
    name: Seq<char>,
    top: Seq<StagedEntry>,
    walks: Seq<DirWalk>,
    method: CompressMethod,
    level: Option<i32>,
    k: int,
)
    requires
        0 <= k < plan_spec(staging, name, top, walks, method, level).len(),
    ensures
        exists|p: Seq<char>|
            listed(top, walks, p) && comes_from(
                staging,
                name,
                plan_spec(staging, name, top, walks, method, level)[k],
                p,
            ),
{
    let pre = entries_ops(staging, name, top, file_options_spec(method, level, None), false);
    let rest = walks_ops(staging, name, walks, method, level);
    let all = plan_spec(staging, name, top, walks, method, level);
    assert(all == pre + rest);
    if k < pre.len() {
        lemma_entries_ops_origin(staging, name, top, file_options_spec(method, level, None), false, k);
        let i = choose|i: int|
            0 <= i < top.len() && comes_from(staging, name, pre[k], (#[trigger] top[i]).path@);
        assert(all[k] == pre[k]);
        assert(listed(top, walks, top[i].path@));
    } else {
        lemma_walks_ops_origin(staging, name, walks, method, level, k - pre.len());
        let (j, i) = choose|j: int, i: int|
            0 <= j < walks.len() && walks[j].entries is Some && 0 <= i < (walks[j].entries->0)@.len()
                && comes_from(
                staging,
                name,
                rest[k - pre.len()],
                (#[trigger] (walks[j].entries->0)@[i]).path@,
            );
        assert(all[k] == rest[k - pre.len()]);
        assert(listed(top, walks, (walks[j].entries->0)@[i].path@));
    }
}

proof fn lemma_overlay_cases(rel: Seq<char>)
    ensures
        rel == "defaults"@ ==> strip_overlay(rel).len() == 0,
        has_prefix(rel, "defaults/"@) ==> rel =~= "defaults/"@ + strip_overlay(rel),
        rel != "defaults"@ && !has_prefix(rel, "defaults/"@) ==> strip_overlay(rel) == rel,
{
    reveal_strlit("defaults");
    reveal_strlit("defaults/");
    let d = "defaults"@;
    assert(d.push('/') =~= "defaults/"@);
    if has_prefix(rel, "defaults/"@) {
        assert(rel.len() != d.len());
        assert(rel.subrange(0, 9) =~= "defaults/"@);
        assert(rel =~= rel.subrange(0, 9) + rel.skip(9));
    }
}

/// An archive entry below a top-level `defaults/` comes only from a path
/// staged under `defaults/defaults/`: with the overlay lifted, a path
/// staged as `defaults/r` never keeps its `defaults` prefix.
pub proof fn lemma_nested_defaults_only_from_double(rel: Seq<char>, r: Seq<char>)
    requires
        strip_overlay(rel) == "defaults/"@ + r,
    ensures
        rel == "defaults/defaults/"@ + r,
{
    reveal_strlit("defaults");
    reveal_strlit("defaults/");
    reveal_strlit("defaults/defaults/");
    lemma_overlay_cases(rel);
    let x = "defaults/"@ + r;
    if rel == "defaults"@ {
        assert(x.len() > 0);
    } else if has_prefix(rel, "defaults/"@) {
        assert(rel =~= "defaults/defaults/"@ + r);
    } else {
        assert(rel == x);
        assert(x.subrange(0, 9) =~= "defaults/"@);
    }
}

/// An archive entry below a top-level `bin/` comes only from a path staged
/// under `bin/` or `defaults/bin/`: when neither exists in the staging
/// tree, as with an absent optional `bin` directory, the archive holds no
/// such entry.
pub proof fn lemma_bin_entries_only_from_bin(rel: Seq<char>, r: Seq<char>)
    requires
        strip_overlay(rel) == "bin/"@ + r,
    ensures
        rel == "bin/"@ + r || rel == "defaults/bin/"@ + r,
{
    reveal_strlit("defaults");
    reveal_strlit("defaults/");
    reveal_strlit("bin/");
    reveal_strlit("defaults/bin/");
    lemma_overlay_cases(rel);
    let x = "bin/"@ + r;
    if rel == "defaults"@ {
        assert(x.len() > 0);
    } else if has_prefix(rel, "defaults/"@) {
        assert(rel =~= "defaults/bin/"@ + r);
    }
}

} // verus!
