//! Container engine invocations: the command lines that build and run
//! images, and how an engine's answers are judged.

use vstd::prelude::*;
use crate::config::{engine_bin, ContainerEngine};
use crate::text::{decimal, owned, push_decimal, push_item, views};

verus! {

/// Why a container step failed.
#[derive(Clone, Debug, PartialEq, Eq)]
pub enum BuildError {
    /// The engine's program is not on the search path.
    NotInstalled(String),
    /// The engine's status command could not be started.
    ProbeFailed(String),
    /// The engine is installed but its status command failed, with this
    /// exit code.
    DaemonUnavailable(String, Option<i32>),
    /// A build or run exited with this code instead of success.
    CommandFailed(Option<i32>),
}

/// What probing an engine found.
#[derive(Clone, Copy, Debug, PartialEq, Eq, Structural)]
pub enum EngineProbe {
    /// The program is not on the search path.
    NotOnPath,
    /// The status command could not be started.
    StatusUnavailable,
    /// The status command exited with this code (none when killed by a
    /// signal).
    Exited(Option<i32>),
}

/// A directory of the host bound into the container.
#[derive(Clone, Debug)]
pub struct Bind {
    pub host: String,
    pub container: String,
}

/// One run of the engine's program: its arguments, and the host
/// directories to create beforehand so that they belong to the invoking
/// user.
#[derive(Clone, Debug)]
pub struct EngineCommand {
    pub program: String,
    pub args: Vec<String>,
    pub create_dirs: Vec<String>,
}

/// The environment assignment that tells the build its release type.
pub open spec fn release_env(dev_mode: bool) -> Seq<char> {
    if dev_mode {
        "RELEASE_TYPE=development"@
    } else {
        "RELEASE_TYPE=production"@
    }
}

/// The arguments that map the container's user to `user`, if any.
pub open spec fn user_args(user: Option<(u32, u32)>) -> Seq<Seq<char>> {
    match user {
        Some((uid, gid)) => seq!["--user"@, decimal(uid as nat) + ":"@ + decimal(gid as nat)],
        None => Seq::empty(),
    }
}

/// Binds as pairs of host and container paths.
pub open spec fn binds_view(binds: Seq<Bind>) -> Seq<(Seq<char>, Seq<char>)> {
    binds.map_values(|b: Bind| (b.host@, b.container@))
}

/// A `-v host:container` pair for each bind, in order.
pub open spec fn bind_args(binds: Seq<(Seq<char>, Seq<char>)>) -> Seq<Seq<char>>
    decreases binds.len(),
{
    if binds.len() == 0 {
        Seq::empty()
    } else {
        bind_args(binds.drop_last()) + seq!["-v"@, binds.last().0 + ":"@ + binds.last().1]
    }
}

pub open spec fn bind_hosts(binds: Seq<(Seq<char>, Seq<char>)>) -> Seq<Seq<char>> {
    binds.map_values(|b: (Seq<char>, Seq<char>)| b.0)
}

/// The arguments of a build of `dockerfile` tagged `tag` in `context`.
pub open spec fn build_args_spec(dockerfile: Seq<char>, tag: Seq<char>, context: Seq<char>) -> Seq<
    Seq<char>,
> {
    seq!["build"@, "-f"@, dockerfile, "-t"@, tag, context]
}

/// The arguments of a run of image `tag`.
pub open spec fn run_args_spec(
    tag: Seq<char>,
    binds: Seq<(Seq<char>, Seq<char>)>,
    user: Option<(u32, u32)>,
    dev_mode: bool,
) -> Seq<Seq<char>> {
    seq!["run"@, "--rm"@] + user_args(user) + seq!["-e"@, release_env(dev_mode)] + bind_args(binds)
        + seq![tag]
}

/// Relies on which::which: whether a program of this name is found on the
/// search path. The answer depends on the machine.
#[verifier::external_body]
fn on_search_path(bin: &str) -> bool {
    which::which(bin).is_ok()
}

/// Relies on users::get_effective_uid: the effective user id of this
/// process.
#[verifier::external_body]
fn effective_uid() -> u32 {
    users::get_effective_uid()
}

/// Relies on users::get_effective_gid: the effective group id of this
/// process.
#[verifier::external_body]
fn effective_gid() -> u32 {
    users::get_effective_gid()
}

impl ContainerEngine {
    /// Whether the engine's program is on the search path.
    pub fn is_installed(&self) -> bool {
        on_search_path(self.bin_name())
    }
}

/// The user and group that containers run as: none when running as root,
/// else those of the invoking user.
pub fn user_mapping(run_as_root: bool) -> (r: Option<(u32, u32)>)
    ensures
        r is None <==> run_as_root,
{
    if run_as_root {
        None
    } else {
        Some((effective_uid(), effective_gid()))
    }
}

/// Judges a probe of `engine`: it is usable only when its status command
/// exited with success.
pub fn ensure_availability(engine: ContainerEngine, probe: EngineProbe) -> (r: Result<(), BuildError>)
    ensures
        r is Ok <==> probe == EngineProbe::Exited(Some(0i32)),
        probe is NotOnPath ==> (r matches Err(BuildError::NotInstalled(b)) && b@ == engine_bin(
            engine,
        )),
        probe is StatusUnavailable ==> (r matches Err(BuildError::ProbeFailed(b)) && b@ == engine_bin(
            engine,
        )),
        probe matches EngineProbe::Exited(c) ==> (c != Some(0i32) ==> (r matches Err(
            BuildError::DaemonUnavailable(b, code),
        ) && b@ == engine_bin(engine) && code == c)),
{
    let bin = owned(engine.bin_name());
    match probe {
        EngineProbe::NotOnPath => Err(BuildError::NotInstalled(bin)),
        EngineProbe::StatusUnavailable => Err(BuildError::ProbeFailed(bin)),
        EngineProbe::Exited(code) => {
            if code == Some(0i32) {
                Ok(())
            } else {
                Err(BuildError::DaemonUnavailable(bin, code))
            }
        },
    }
}

/// Judges the exit of an engine run: success is exit code zero.
pub fn exit_verdict(code: Option<i32>) -> (r: Result<(), BuildError>)
    ensures
        r is Ok <==> code == Some(0i32),
        r is Err ==> r == Err::<(), BuildError>(BuildError::CommandFailed(code)),
{
    if code == Some(0i32) {
        Ok(())
    } else {
        Err(BuildError::CommandFailed(code))
    }
}

/// The engine run that builds `dockerfile` into an image tagged `tag`,
/// with `context` as build context.
pub fn build_image(engine: ContainerEngine, dockerfile: &str, tag: &str, context: &str) -> (r:
    EngineCommand)
    ensures
        r.program@ == engine_bin(engine),
        views(r.args@) == build_args_spec(dockerfile@, tag@, context@),
        r.create_dirs@.len() == 0,
{
    let mut args: Vec<String> = Vec::new();
    push_item(&mut args, owned("build"));
    push_item(&mut args, owned("-f"));
    push_item(&mut args, owned(dockerfile));
    push_item(&mut args, owned("-t"));
    push_item(&mut args, owned(tag));
    push_item(&mut args, owned(context));
    assert(views(args@) =~= build_args_spec(dockerfile@, tag@, context@));
    EngineCommand { program: owned(engine.bin_name()), args, create_dirs: Vec::new() }
}

/// The engine run of image `tag` with `binds`, mapped to `user` when one is
/// given, with the release type set from `dev_mode`. Every bound host
/// directory is to be created first.
pub fn run_image(
    engine: ContainerEngine,
    tag: &str,
    binds: &Vec<Bind>,
    user: Option<(u32, u32)>,
    dev_mode: bool,
) -> (r: EngineCommand)
    ensures
        r.program@ == engine_bin(engine),
        views(r.args@) == run_args_spec(tag@, binds_view(binds@), user, dev_mode),
        views(r.create_dirs@) == bind_hosts(binds_view(binds@)),
{
    let mut args: Vec<String> = Vec::new();
    push_item(&mut args, owned("run"));
    push_item(&mut args, owned("--rm"));
    match user {
        Some((uid, gid)) => {
            push_item(&mut args, owned("--user"));
            let mut ids = String::new();
            push_decimal(&mut ids, uid);
            ids.append(":");
            push_decimal(&mut ids, gid);
            push_item(&mut args, ids);
        },
        None => {},
    }
    push_item(&mut args, owned("-e"));
    if dev_mode {
        push_item(&mut args, owned("RELEASE_TYPE=development"));
    } else {
        push_item(&mut args, owned("RELEASE_TYPE=production"));
    }
    let ghost head = views(args@);
    assert(head =~= seq!["run"@, "--rm"@] + user_args(user) + seq!["-e"@, release_env(dev_mode)]);
    let mut dirs: Vec<String> = Vec::new();
    let n = binds.len();
    let mut i: usize = 0;
    while i < n
        invariant
            n == binds@.len(),
            i <= n,
            views(args@) == head + bind_args(binds_view(binds@.subrange(0, i as int))),
            views(dirs@) == bind_hosts(binds_view(binds@.subrange(0, i as int))),
        decreases n - i,
    {
        let b = &binds[i];
        push_item(&mut args, owned("-v"));
        let mut pair = b.host.clone();
        pair.append(":");
        pair.append(b.container.as_str());
        push_item(&mut args, pair);
        push_item(&mut dirs, b.host.clone());
        i = i + 1;
        assert(binds_view(binds@.subrange(0, i as int)).drop_last() =~= binds_view(
            binds@.subrange(0, i - 1),
        ));
        assert(views(args@) =~= head + bind_args(binds_view(binds@.subrange(0, i as int))));
        assert(views(dirs@) =~= bind_hosts(binds_view(binds@.subrange(0, i as int))));
    }
    assert(binds@.subrange(0, n as int) =~= binds@);
    push_item(&mut args, owned(tag));
    assert(views(args@) =~= run_args_spec(tag@, binds_view(binds@), user, dev_mode));
    EngineCommand { program: owned(engine.bin_name()), args, create_dirs: dirs }
}

} // verus!
