//! Deployment to a remote device: which target, the commands that set it
//! up and transfer the plugin, and the order they run in.

use vstd::prelude::*;
use crate::package::{base_name_spec, PackagingError};
use crate::paths::{is_absolute_spec, join, join_spec, lemma_join_keeps_absolute};
use crate::pipeline::{
    archive_path_spec,
    is_alphanumeric,
    random_suffix,
    validate_tmp_build_root,
    Builder,
    SetupError,
    STAGING_SUFFIX_LEN,
};
use crate::text::{contains, has_infix, owned, push_item, replace, replace_all, views};

verus! {

/// The remote target, as persisted in `deck.json`.
#[derive(Clone, Debug, PartialEq, Eq)]
pub struct DeckFile {
    pub deckip: String,
    pub deckport: String,
    pub deckpass: String,
    pub deckkey: String,
    pub deckdir: String,
}

/// A remote target over character sequences.
pub struct DeckModel {
    pub ip: Seq<char>,
    pub port: Seq<char>,
    pub pass: Seq<char>,
    pub key: Seq<char>,
    pub dir: Seq<char>,
}

impl View for DeckFile {
    type V = DeckModel;

    open spec fn view(&self) -> DeckModel {
        DeckModel {
            ip: self.deckip@,
            port: self.deckport@,
            pass: self.deckpass@,
            key: self.deckkey@,
            dir: self.deckdir@,
        }
    }
}

/// A program and its arguments.
#[derive(Clone, Debug, PartialEq, Eq)]
pub struct ProcessCommand {
    pub program: String,
    pub args: Vec<String>,
}

/// Why a deployment step could not be prepared.
#[derive(Clone, Debug, PartialEq, Eq)]
pub enum DeployError {
    /// The key specifier names an identity file but the invoking user has
    /// no home directory to expand in it.
    NoHomeDirectory,
    /// The archive's name could not be derived.
    Packaging(PackagingError),
    /// An ssh or rsync run exited with this code instead of success (none
    /// when it was killed by a signal).
    RemoteCommandFailed(Option<i32>),
}

/// A deployment: the build that produces the archive, the local directory
/// it is unpacked into, and the target fields given explicitly.
#[derive(Clone, Debug)]
pub struct Deployer {
    pub builder: Builder,
    pub plugin_root: String,
    /// Where the archive is unpacked: the given directory with a random
    /// suffix.
    pub tmp_build_root: String,
    pub deck_ip: Option<String>,
    pub deck_port: Option<String>,
    pub deck_pass: Option<String>,
    pub deck_key: Option<String>,
    pub deck_dir: Option<String>,
}

/// The target written when no usable `deck.json` exists.
pub open spec fn default_deck() -> DeckModel {
    DeckModel {
        ip: "0.0.0.0"@,
        port: "22"@,
        pass: "ssap"@,
        key: "-i $HOME/.ssh/id_rsa"@,
        dir: "/home/deck"@,
    }
}

pub open spec fn pick(given: Option<String>, base: Seq<char>) -> Seq<char> {
    match given {
        Some(v) => v@,
        None => base,
    }
}

/// Every target field is given explicitly.
pub open spec fn all_given(d: Deployer) -> bool {
    d.deck_ip is Some && d.deck_port is Some && d.deck_pass is Some && d.deck_key is Some
        && d.deck_dir is Some
}

/// The target of a deployment: each field given explicitly wins; the
/// others come from the loaded file, or from the default target when none
/// could be loaded.
pub open spec fn resolve_spec(d: Deployer, loaded: Option<DeckModel>) -> DeckModel {
    let base = match loaded {
        Some(f) => f,
        None => default_deck(),
    };
    DeckModel {
        ip: pick(d.deck_ip, base.ip),
        port: pick(d.deck_port, base.port),
        pass: pick(d.deck_pass, base.pass),
        key: pick(d.deck_key, base.key),
        dir: pick(d.deck_dir, base.dir),
    }
}

/// The identity file named by a key specifier, with the home directory
/// filled in.
pub open spec fn expand_key(key: Seq<char>, home: Seq<char>) -> Seq<char> {
    replace_all(replace_all(replace_all(key, "-i "@, ""@), "$HOME"@, home), "${env:HOME}"@, home)
}

/// The home directory, or nothing when there is none.
pub open spec fn home_seq(home: Option<String>) -> Seq<char> {
    match home {
        Some(h) => h@,
        None => Seq::empty(),
    }
}

/// The identity arguments of ssh: `-i` and the expanded file when the key
/// specifier holds `-i `, none otherwise.
pub open spec fn identity_args_spec(key: Seq<char>, home: Seq<char>) -> Seq<Seq<char>> {
    if has_infix(key, "-i "@) {
        seq!["-i"@, expand_key(key, home)]
    } else {
        Seq::empty()
    }
}

/// The arguments of ssh that run `command` on the target.
pub open spec fn ssh_args_spec(deck: DeckModel, home: Seq<char>, command: Seq<char>) -> Seq<
    Seq<char>,
> {
    seq!["deck@"@ + deck.ip, "-p"@, deck.port] + identity_args_spec(deck.key, home) + seq![command]
}

pub open spec fn create_folders_spec(dir: Seq<char>) -> Seq<char> {
    "mkdir -p "@ + dir + "/homebrew/pluginloader && mkdir -p "@ + dir + "/homebrew/plugins"@
}

pub open spec fn chmod_folders_spec(pass: Seq<char>, dir: Seq<char>) -> Seq<char> {
    "echo '"@ + pass + "' | sudo -S chmod -R ug+rw "@ + dir + "/homebrew/"@
}

pub open spec fn restart_spec(pass: Seq<char>) -> Seq<char> {
    "echo '"@ + pass + "' | sudo -S systemctl restart plugin_loader.service"@
}

/// The arguments of rsync that mirror `source` into the target's plugin
/// directory.
pub open spec fn rsync_args_spec(source: Seq<char>, deck: DeckModel) -> Seq<Seq<char>> {
    seq![
        "-azp"@,
        "--delete"@,
        "--chmod=D0755,F0755"@,
        source,
        "deck@"@ + deck.ip + ":"@ + deck.dir + "/homebrew/plugins"@,
    ]
}

/// Relies on dirs::home_dir: the invoking user's home directory, if the
/// system has one for them.
#[verifier::external_body]
fn home_dir() -> Option<String> {
    dirs::home_dir().map(|p| p.to_string_lossy().to_string())
}

/// The invoking user's home directory, if any.
pub fn invoking_user_home() -> Option<String> {
    home_dir()
}

impl DeckFile {
    /// The target written when no usable `deck.json` exists.
    pub fn default_target() -> (r: DeckFile)
        ensures
            r@ == default_deck(),
    {
        DeckFile {
            deckip: owned("0.0.0.0"),
            deckport: owned("22"),
            deckpass: owned("ssap"),
            deckkey: owned("-i $HOME/.ssh/id_rsa"),
            deckdir: owned("/home/deck"),
        }
    }
}

fn pick_field(given: &Option<String>, base: String) -> (r: String)
    ensures
        r@ == pick(*given, base@),
{
    match given {
        Some(v) => v.clone(),
        None => base,
    }
}

/// The identity arguments of ssh for the key specifier `key`.
pub fn identity_args(key: &str, home: &Option<String>) -> (r: Result<Vec<String>, DeployError>)
    ensures
        r is Err <==> has_infix(key@, "-i "@) && home is None,
        r is Err ==> r == Err::<Vec<String>, DeployError>(DeployError::NoHomeDirectory),
        r matches Ok(a) ==> views(a@) == identity_args_spec(key@, home_seq(*home)),
{
    let mut args: Vec<String> = Vec::new();
    if contains(key, "-i ") {
        match home {
            None => {
                return Err(DeployError::NoHomeDirectory);
            },
            Some(h) => {
                proof {
                    reveal_strlit("-i ");
                    reveal_strlit("$HOME");
                    reveal_strlit("${env:HOME}");
                }
                let stripped = replace(key, "-i ", "");
                let homed = replace(stripped.as_str(), "$HOME", h.as_str());
                let file = replace(homed.as_str(), "${env:HOME}", h.as_str());
                push_item(&mut args, owned("-i"));
                push_item(&mut args, file);
                assert(views(args@) =~= identity_args_spec(key@, h@));
            },
        }
    } else {
        assert(views(args@) =~= identity_args_spec(key@, home_seq(*home)));
    }
    Ok(args)
}

/// The ssh run of `command` on the target `deck`.
pub fn ssh_command(deck: &DeckFile, home: &Option<String>, command: String) -> (r: Result<
    ProcessCommand,
    DeployError,
>)
    ensures
        r is Err <==> has_infix(deck.deckkey@, "-i "@) && home is None,
        r matches Ok(c) ==> c.program@ == "ssh"@,
        r matches Ok(c) ==> views(c.args@) == ssh_args_spec(deck@, home_seq(*home), command@),
{
    let ids = identity_args(deck.deckkey.as_str(), home)?;
    let mut args: Vec<String> = Vec::new();
    let mut dest = owned("deck@");
    dest.append(deck.deckip.as_str());
    push_item(&mut args, dest);
    push_item(&mut args, owned("-p"));
    push_item(&mut args, deck.deckport.clone());
    let ghost head = views(args@);
    let n = ids.len();
    let mut i: usize = 0;
    while i < n
        invariant
            n == ids@.len(),
            i <= n,
            views(args@) == head + views(ids@.subrange(0, i as int)),
        decreases n - i,
    {
        push_item(&mut args, ids[i].clone());
        i = i + 1;
        assert(views(args@) =~= head + views(ids@.subrange(0, i as int)));
    }
    assert(ids@.subrange(0, n as int) =~= ids@);
    push_item(&mut args, command);
    assert(views(args@) =~= ssh_args_spec(deck@, home_seq(*home), command@));
    Ok(ProcessCommand { program: owned("ssh"), args })
}

/// The steps of a deployment, in the order they run.
#[derive(Clone, Copy, Debug, PartialEq, Eq, Structural)]
pub enum DeployStep {
    Build,
    ResetUnpackDir,
    Unpack,
    CreateFolders,
    ChmodBefore,
    Transfer,
    ChmodAfter,
    Restart,
    Done,
    Failed,
}

/// What to do for one step.
#[derive(Clone, Debug, PartialEq, Eq)]
pub enum DeployAction {
    /// Run the whole build pipeline.
    RunBuild,
    /// Delete the directory if present, then create it empty.
    ResetDir(String),
    /// Unpack the archive into the directory.
    Unpack { archive: String, into: String },
    /// Run the command; a failure to start it or a non-zero exit fails the
    /// step.
    Run(ProcessCommand),
    /// Nothing is left to do.
    Finish,
}

/// Judges the exit of an ssh or rsync run: success is exit code zero,
/// anything else fails the deployment.
pub fn remote_verdict(code: Option<i32>) -> (r: Result<(), DeployError>)
    ensures
        r is Ok <==> code == Some(0i32),
        r is Err ==> r == Err::<(), DeployError>(DeployError::RemoteCommandFailed(code)),
{
    if code == Some(0i32) {
        Ok(())
    } else {
        Err(DeployError::RemoteCommandFailed(code))
    }
}

/// The step after `step`: the next one in order when it succeeded, the
/// failed state otherwise. The end states stay.
pub open spec fn next_step_spec(step: DeployStep, succeeded: bool) -> DeployStep {
    match step {
        DeployStep::Done => DeployStep::Done,
        DeployStep::Failed => DeployStep::Failed,
        _ => if !succeeded {
            DeployStep::Failed
        } else {
            match step {
                DeployStep::Build => DeployStep::ResetUnpackDir,
                DeployStep::ResetUnpackDir => DeployStep::Unpack,
                DeployStep::Unpack => DeployStep::CreateFolders,
                DeployStep::CreateFolders => DeployStep::ChmodBefore,
                DeployStep::ChmodBefore => DeployStep::Transfer,
                DeployStep::Transfer => DeployStep::ChmodAfter,
                DeployStep::ChmodAfter => DeployStep::Restart,
                _ => DeployStep::Done,
            }
        },
    }
}

/// The step that follows `step` after it succeeded or failed.
pub fn next_step(step: DeployStep, succeeded: bool) -> (r: DeployStep)
    ensures
        r == next_step_spec(step, succeeded),
{
    match step {
        DeployStep::Done => DeployStep::Done,
        DeployStep::Failed => DeployStep::Failed,
        _ => {
            if !succeeded {
                DeployStep::Failed
            } else {
                match step {
                    DeployStep::Build => DeployStep::ResetUnpackDir,
                    DeployStep::ResetUnpackDir => DeployStep::Unpack,
                    DeployStep::Unpack => DeployStep::CreateFolders,
                    DeployStep::CreateFolders => DeployStep::ChmodBefore,
                    DeployStep::ChmodBefore => DeployStep::Transfer,
                    DeployStep::Transfer => DeployStep::ChmodAfter,
                    DeployStep::ChmodAfter => DeployStep::Restart,
                    _ => DeployStep::Done,
                }
            }
        },
    }
}

impl Deployer {
    /// A deployment of what `builder` builds, unpacked below
    /// `tmp_build_root` in a directory called `suffix`. The unpack
    /// directory is deleted recursively on every run, so a relative
    /// `tmp_build_root` is refused.
    pub fn new(
        builder: Builder,
        plugin_root: String,
        tmp_build_root: &str,
        suffix: &str,
        deck_ip: Option<String>,
        deck_port: Option<String>,
        deck_pass: Option<String>,
        deck_key: Option<String>,
        deck_dir: Option<String>,
    ) -> (r: Result<Deployer, SetupError>)
        ensures
            r is Ok <==> is_absolute_spec(tmp_build_root@),
            r matches Err(SetupError::RelativeStagingRoot(p)) ==> p@ == tmp_build_root@,
            r matches Ok(d) ==> {
                &&& d.builder == builder
                &&& d.plugin_root == plugin_root
                &&& d.tmp_build_root@ == join_spec(tmp_build_root@, suffix@)
                &&& is_absolute_spec(d.tmp_build_root@)
                &&& d.deck_ip == deck_ip
                &&& d.deck_port == deck_port
                &&& d.deck_pass == deck_pass
                &&& d.deck_key == deck_key
                &&& d.deck_dir == deck_dir
            },
    {
        match validate_tmp_build_root(tmp_build_root) {
            Ok(()) => {},
            Err(e) => {
                return Err(e);
            },
        }
        let root = join(tmp_build_root, suffix);
        proof {
            lemma_join_keeps_absolute(tmp_build_root@, suffix@);
        }
        Ok(Deployer {
            builder,
            plugin_root,
            tmp_build_root: root,
            deck_ip,
            deck_port,
            deck_pass,
            deck_key,
            deck_dir,
        })
    }

    /// A deployment unpacked into a fresh directory with a random name
    /// below `tmp_build_root`, which must be absolute.
    pub fn create(
        builder: Builder,
        plugin_root: String,
        tmp_build_root: &str,
        deck_ip: Option<String>,
        deck_port: Option<String>,
        deck_pass: Option<String>,
        deck_key: Option<String>,
        deck_dir: Option<String>,
    ) -> (r: Result<Deployer, SetupError>)
        ensures
            r is Ok <==> is_absolute_spec(tmp_build_root@),
            r matches Err(SetupError::RelativeStagingRoot(p)) ==> p@ == tmp_build_root@,
            r matches Ok(d) ==> {
                &&& d.builder == builder
                &&& d.plugin_root == plugin_root
                &&& exists|s: Seq<char>|
                    s.len() == STAGING_SUFFIX_LEN && (forall|i: int|
                        0 <= i < s.len() ==> is_alphanumeric(#[trigger] s[i]))
                        && d.tmp_build_root@ == join_spec(tmp_build_root@, s)
                &&& is_absolute_spec(d.tmp_build_root@)
                &&& d.deck_ip == deck_ip
                &&& d.deck_port == deck_port
                &&& d.deck_pass == deck_pass
                &&& d.deck_key == deck_key
                &&& d.deck_dir == deck_dir
            },
    {
        let suffix = random_suffix();
        let r = Deployer::new(
            builder,
            plugin_root,
            tmp_build_root,
            suffix.as_str(),
            deck_ip,
            deck_port,
            deck_pass,
            deck_key,
            deck_dir,
        );
        proof {
            if r is Ok {
                assert(r->Ok_0.tmp_build_root@ == join_spec(tmp_build_root@, suffix@));
            }
        }
        r
    }

    /// Whether `deck.json` has to be read: some target field is not given.
    pub fn needs_deckfile(&self) -> (r: bool)
        ensures
            r == !all_given(*self),
    {
        !(self.deck_ip.is_some() && self.deck_port.is_some() && self.deck_pass.is_some()
            && self.deck_key.is_some() && self.deck_dir.is_some())
    }

    /// The target: the fields given explicitly, the rest from `loaded`, the
    /// contents of `deck.json`, or from the default target when it could
    /// not be loaded.
    pub fn resolve_target(&self, loaded: Option<DeckFile>) -> (r: DeckFile)
        ensures
            r@ == resolve_spec(
                *self,
                match loaded {
                    Some(f) => Some(f@),
                    None => None,
                },
            ),
    {
        let base = match loaded {
            Some(f) => f,
            None => DeckFile::default_target(),
        };
        DeckFile {
            deckip: pick_field(&self.deck_ip, base.deckip),
            deckport: pick_field(&self.deck_port, base.deckport),
            deckpass: pick_field(&self.deck_pass, base.deckpass),
            deckkey: pick_field(&self.deck_key, base.deckkey),
            deckdir: pick_field(&self.deck_dir, base.deckdir),
        }
    }

    /// The ssh run that creates the plugin loader's directories on the
    /// target.
    pub fn create_folders(&self, deck: &DeckFile, home: &Option<String>) -> (r: Result<
        ProcessCommand,
        DeployError,
    >)
        ensures
            r is Err <==> has_infix(deck.deckkey@, "-i "@) && home is None,
            r matches Ok(c) ==> c.program@ == "ssh"@,
            r matches Ok(c) ==> views(c.args@) == ssh_args_spec(
                deck@,
                home_seq(*home),
                create_folders_spec(deck.deckdir@),
            ),
    {
        let mut cmd = owned("mkdir -p ");
        cmd.append(deck.deckdir.as_str());
        cmd.append("/homebrew/pluginloader && mkdir -p ");
        cmd.append(deck.deckdir.as_str());
        cmd.append("/homebrew/plugins");
        ssh_command(deck, home, cmd)
    }

    /// The ssh run that makes the homebrew directory readable and writable
    /// by its user and group, authorised with the target's password.
    pub fn chmod_folders(&self, deck: &DeckFile, home: &Option<String>) -> (r: Result<
        ProcessCommand,
        DeployError,
    >)
        ensures
            r is Err <==> has_infix(deck.deckkey@, "-i "@) && home is None,
            r matches Ok(c) ==> c.program@ == "ssh"@,
            r matches Ok(c) ==> views(c.args@) == ssh_args_spec(
                deck@,
                home_seq(*home),
                chmod_folders_spec(deck.deckpass@, deck.deckdir@),
            ),
    {
        let mut cmd = owned("echo '");
        cmd.append(deck.deckpass.as_str());
        cmd.append("' | sudo -S chmod -R ug+rw ");
        cmd.append(deck.deckdir.as_str());
        cmd.append("/homebrew/");
        ssh_command(deck, home, cmd)
    }

    /// The ssh run that restarts the plugin loader on the target.
    pub fn restart_decky(&self, deck: &DeckFile, home: &Option<String>) -> (r: Result<
        ProcessCommand,
        DeployError,
    >)
        ensures
            r is Err <==> has_infix(deck.deckkey@, "-i "@) && home is None,
            r matches Ok(c) ==> c.program@ == "ssh"@,
            r matches Ok(c) ==> views(c.args@) == ssh_args_spec(
                deck@,
                home_seq(*home),
                restart_spec(deck.deckpass@),
            ),
    {
        let mut cmd = owned("echo '");
        cmd.append(deck.deckpass.as_str());
        cmd.append("' | sudo -S systemctl restart plugin_loader.service");
        ssh_command(deck, home, cmd)
    }

    /// The rsync run that mirrors the unpacked plugin directory `filename`
    /// into the target's plugin directory.
    pub fn deploy_plugin(&self, deck: &DeckFile, filename: &str) -> (r: ProcessCommand)
        ensures
            r.program@ == "rsync"@,
            views(r.args@) == rsync_args_spec(join_spec(self.tmp_build_root@, filename@), deck@),
    {
        let mut args: Vec<String> = Vec::new();
        push_item(&mut args, owned("-azp"));
        push_item(&mut args, owned("--delete"));
        push_item(&mut args, owned("--chmod=D0755,F0755"));
        push_item(&mut args, join(self.tmp_build_root.as_str(), filename));
        let mut dest = owned("deck@");
        dest.append(deck.deckip.as_str());
        dest.append(":");
        dest.append(deck.deckdir.as_str());
        dest.append("/homebrew/plugins");
        push_item(&mut args, dest);
        assert(views(args@) =~= rsync_args_spec(join_spec(self.tmp_build_root@, filename@), deck@));
        ProcessCommand { program: owned("rsync"), args }
    }
}

/// A `Run` action whose command runs `command` over ssh on `deck`.
pub open spec fn runs_ssh(
    r: Result<DeployAction, DeployError>,
    deck: DeckModel,
    home: Option<String>,
    command: Seq<char>,
) -> bool {
    &&& (r is Err <==> has_infix(deck.key, "-i "@) && home is None)
    &&& r is Ok ==> r->Ok_0 is Run
    &&& r matches Ok(DeployAction::Run(c)) ==> (c.program@ == "ssh"@ && views(c.args@)
        == ssh_args_spec(deck, home_seq(home), command))
}

impl Deployer {
    /// What to do for `step`, against the target `deck`, with `home` the
    /// invoking user's home directory.
    pub fn action(&self, step: DeployStep, deck: &DeckFile, home: &Option<String>) -> (r: Result<
        DeployAction,
        DeployError,
    >)
        ensures
            step is Build ==> r == Ok::<DeployAction, DeployError>(DeployAction::RunBuild),
            step is ResetUnpackDir ==> (r matches Ok(DeployAction::ResetDir(d))
                && d@ == self.tmp_build_root@),
            step is Unpack ==> (r is Ok <==> archive_path_spec(self.builder) is Some),
            step is Unpack ==> (r matches Ok(a) ==> (a matches DeployAction::Unpack { archive, into }
                && archive_path_spec(self.builder) == Some(archive@) && into@
                == self.tmp_build_root@)),
            step is CreateFolders ==> runs_ssh(r, deck@, *home, create_folders_spec(deck.deckdir@)),
            step is ChmodBefore || step is ChmodAfter ==> runs_ssh(
                r,
                deck@,
                *home,
                chmod_folders_spec(deck.deckpass@, deck.deckdir@),
            ),
            step is Restart ==> runs_ssh(r, deck@, *home, restart_spec(deck.deckpass@)),
            step is Transfer ==> (r is Ok <==> base_name_spec(
                self.builder.output_filename_source,
                self.builder.plugin.meta.name@,
                self.builder.plugin_root@,
            ) is Some),
            step is Transfer ==> (r matches Ok(a) ==> (a matches DeployAction::Run(c) && exists|
                n: Seq<char>,
            |
                base_name_spec(
                    self.builder.output_filename_source,
                    self.builder.plugin.meta.name@,
                    self.builder.plugin_root@,
                ) == Some(n) && c.program@ == "rsync"@ && views(c.args@) == rsync_args_spec(
                    join_spec(self.tmp_build_root@, n),
                    deck@,
                ))),
            step is Done || step is Failed ==> r == Ok::<DeployAction, DeployError>(
                DeployAction::Finish,
            ),
    {
        match step {
            DeployStep::Build => Ok(DeployAction::RunBuild),
            DeployStep::ResetUnpackDir => Ok(DeployAction::ResetDir(self.tmp_build_root.clone())),
            DeployStep::Unpack => match self.builder.archive_path() {
                Ok(archive) => Ok(DeployAction::Unpack { archive, into: self.tmp_build_root.clone() }),
                Err(e) => Err(DeployError::Packaging(e)),
            },
            DeployStep::CreateFolders => match self.create_folders(deck, home) {
                Ok(c) => Ok(DeployAction::Run(c)),
                Err(e) => Err(e),
            },
            DeployStep::ChmodBefore | DeployStep::ChmodAfter => match self.chmod_folders(deck, home) {
                Ok(c) => Ok(DeployAction::Run(c)),
                Err(e) => Err(e),
            },
            DeployStep::Transfer => match self.builder.archive_name() {
                Ok(name) => Ok(DeployAction::Run(self.deploy_plugin(deck, name.as_str()))),
                Err(e) => Err(DeployError::Packaging(e)),
            },
            DeployStep::Restart => match self.restart_decky(deck, home) {
                Ok(c) => Ok(DeployAction::Run(c)),
                Err(e) => Err(e),
            },
            DeployStep::Done | DeployStep::Failed => Ok(DeployAction::Finish),
        }
    }
}

/// Explicit target fields override a persisted target field by field: with
/// only the host given, the host is the given one and every other field is
/// the persisted one.
pub proof fn lemma_partial_override(d: Deployer, persisted: DeckModel)
    requires
        d.deck_ip is Some,
        d.deck_port is None,
        d.deck_pass is None,
        d.deck_key is None,
        d.deck_dir is None,
    ensures
        resolve_spec(d, Some(persisted)) == (DeckModel {
            ip: (d.deck_ip->0)@,
            port: persisted.port,
            pass: persisted.pass,
            key: persisted.key,
            dir: persisted.dir,
        }),
{
}

/// With every target field given explicitly, whatever was persisted is
/// ignored.
pub proof fn lemma_full_override(d: Deployer, a: Option<DeckModel>, b: Option<DeckModel>)
    requires
        all_given(d),
    ensures
        resolve_spec(d, a) == resolve_spec(d, b),
{
}

} // verus!
