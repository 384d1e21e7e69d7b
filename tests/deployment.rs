use decky::config::{BuildOptions, CompressMethod, ContainerEngine, FilenameSource};
use decky::deploy::{identity_args, next_step, remote_verdict, DeckFile, DeployAction, DeployError, DeployStep, Deployer};
use decky::pipeline::{Builder, SetupError};
use decky::plugin::{Plugin, PluginFile, PluginFileProbe, PluginProbe};

fn strings(v: &[&str]) -> Vec<String> {
    v.iter().map(|s| s.to_string()).collect()
}

fn builder() -> Builder {
    let meta = PluginFile { name: "Example".to_string(), author: "me".to_string(), flags: vec![] };
    let probe = PluginProbe { has_package_json: true, plugin_file: PluginFileProbe::Parsed(meta), has_backend_directory: false, has_dockerfile: false };
    let plugin = Plugin::new("/work/example".to_string(), probe).unwrap();
    let options = BuildOptions {
        plugin_root: "/work/example".to_string(),
        output_root: "/work/out".to_string(),
        tmp_build_root: "/tmp/decky".to_string(),
        build_as_root: true,
        build_with_dev: false,
        follow_symlinks: true,
        output_filename_source: FilenameSource::PluginName,
        container_engine: ContainerEngine::Docker,
        compression_method: CompressMethod::Deflate,
        compression_level: None,
    };
    Builder::new(options, plugin, "b", None).unwrap()
}

fn deployer(ip: Option<&str>, port: Option<&str>, pass: Option<&str>, key: Option<&str>, dir: Option<&str>) -> Deployer {
    let s = |o: Option<&str>| o.map(|v| v.to_string());
    Deployer::new(builder(), "/work/example".to_string(), "/tmp/decky", "u", s(ip), s(port), s(pass), s(key), s(dir)).unwrap()
}

fn deck(ip: &str, key: &str) -> DeckFile {
    DeckFile {
        deckip: ip.to_string(),
        deckport: "22".to_string(),
        deckpass: "P".to_string(),
        deckkey: key.to_string(),
        deckdir: "/home/deck".to_string(),
    }
}

#[test]
fn partial_override_keeps_persisted_fields() {
    let d = deployer(Some("B"), None, None, None, None);
    assert!(d.needs_deckfile());
    let persisted = DeckFile {
        deckip: "A".to_string(),
        deckport: "22".to_string(),
        deckpass: "P".to_string(),
        deckkey: "K".to_string(),
        deckdir: "D".to_string(),
    };
    let r = d.resolve_target(Some(persisted));
    assert_eq!(
        r,
        DeckFile { deckip: "B".to_string(), deckport: "22".to_string(), deckpass: "P".to_string(), deckkey: "K".to_string(), deckdir: "D".to_string() }
    );
}

#[test]
fn full_override_needs_no_file() {
    let d = deployer(Some("h"), Some("2222"), Some("pw"), Some(""), Some("/d"));
    assert!(!d.needs_deckfile());
    let r = d.resolve_target(None);
    assert_eq!(r.deckip, "h");
    assert_eq!(r.deckport, "2222");
    assert_eq!(r.deckdir, "/d");
}

#[test]
fn missing_file_gives_default_target() {
    let d = deployer(None, None, None, None, None);
    let r = d.resolve_target(None);
    assert_eq!(r, DeckFile::default_target());
    assert_eq!(r.deckip, "0.0.0.0");
    assert_eq!(r.deckport, "22");
    assert_eq!(r.deckpass, "ssap");
    assert_eq!(r.deckkey, "-i $HOME/.ssh/id_rsa");
    assert_eq!(r.deckdir, "/home/deck");
}

#[test]
fn identity_file_expanded() {
    let home = Some("/home/me".to_string());
    assert_eq!(identity_args("-i $HOME/.ssh/id_rsa", &home).unwrap(), strings(&["-i", "/home/me/.ssh/id_rsa"]));
    assert_eq!(identity_args("-i ${env:HOME}/k", &home).unwrap(), strings(&["-i", "/home/me/k"]));
    assert!(identity_args("", &home).unwrap().is_empty());
    assert_eq!(identity_args("-i $HOME/k", &None), Err(DeployError::NoHomeDirectory));
    assert!(identity_args("agent", &None).unwrap().is_empty());
}

#[test]
fn remote_commands() {
    let d = deployer(None, None, None, None, None);
    let home = Some("/home/me".to_string());
    let c = d.create_folders(&deck("10.0.0.2", "-i $HOME/k"), &home).unwrap();
    assert_eq!(c.program, "ssh");
    assert_eq!(
        c.args,
        strings(&[
            "deck@10.0.0.2", "-p", "22", "-i", "/home/me/k",
            "mkdir -p /home/deck/homebrew/pluginloader && mkdir -p /home/deck/homebrew/plugins"
        ])
    );
    let c = d.chmod_folders(&deck("10.0.0.2", ""), &home).unwrap();
    assert_eq!(c.args, strings(&["deck@10.0.0.2", "-p", "22", "echo 'P' | sudo -S chmod -R ug+rw /home/deck/homebrew/"]));
    let c = d.restart_decky(&deck("10.0.0.2", ""), &None).unwrap();
    assert_eq!(c.args, strings(&["deck@10.0.0.2", "-p", "22", "echo 'P' | sudo -S systemctl restart plugin_loader.service"]));
    let c = d.deploy_plugin(&deck("10.0.0.2", ""), "Example");
    assert_eq!(c.program, "rsync");
    assert_eq!(
        c.args,
        strings(&["-azp", "--delete", "--chmod=D0755,F0755", "/tmp/decky/u/Example", "deck@10.0.0.2:/home/deck/homebrew/plugins"])
    );
}

#[test]
fn deployment_sequence() {
    let order = [
        DeployStep::Build, DeployStep::ResetUnpackDir, DeployStep::Unpack, DeployStep::CreateFolders, DeployStep::ChmodBefore,
        DeployStep::Transfer, DeployStep::ChmodAfter, DeployStep::Restart, DeployStep::Done,
    ];
    for w in order.windows(2) {
        assert_eq!(next_step(w[0], true), w[1]);
        if w[0] != DeployStep::Done {
            assert_eq!(next_step(w[0], false), DeployStep::Failed);
        }
    }
    assert_eq!(next_step(DeployStep::Done, false), DeployStep::Done);
    assert_eq!(next_step(DeployStep::Failed, true), DeployStep::Failed);
}

#[test]
fn deployment_actions() {
    let d = deployer(None, None, None, None, None);
    let t = deck("h", "");
    assert_eq!(d.action(DeployStep::Build, &t, &None), Ok(DeployAction::RunBuild));
    assert_eq!(d.action(DeployStep::ResetUnpackDir, &t, &None), Ok(DeployAction::ResetDir("/tmp/decky/u".to_string())));
    assert_eq!(
        d.action(DeployStep::Unpack, &t, &None),
        Ok(DeployAction::Unpack { archive: "/work/out/Example.zip".to_string(), into: "/tmp/decky/u".to_string() })
    );
    match d.action(DeployStep::Transfer, &t, &None) {
        Ok(DeployAction::Run(c)) => assert_eq!(c.args[3], "/tmp/decky/u/Example"),
        other => panic!("unexpected action {:?}", other),
    }
    assert_eq!(d.action(DeployStep::Restart, &deck("h", "-i k"), &None), Err(DeployError::NoHomeDirectory));
    assert_eq!(d.action(DeployStep::Done, &t, &None), Ok(DeployAction::Finish));
}

#[test]
fn relative_unpack_root_refused() {
    let r = Deployer::new(builder(), "/work/example".to_string(), "tmp/decky", "u", None, None, None, None, None);
    assert_eq!(r.err(), Some(SetupError::RelativeStagingRoot("tmp/decky".to_string())));
    let r = Deployer::create(builder(), "/work/example".to_string(), "decky", None, None, None, None, None);
    assert!(r.is_err());
    let d = Deployer::create(builder(), "/work/example".to_string(), "/tmp/decky", None, None, None, None, None).unwrap();
    assert!(d.tmp_build_root.starts_with("/tmp/decky/"));
    assert_eq!(d.tmp_build_root.len(), "/tmp/decky/".len() + 16);
}

#[test]
fn remote_exit_codes() {
    assert_eq!(remote_verdict(Some(0)), Ok(()));
    assert_eq!(remote_verdict(Some(255)), Err(DeployError::RemoteCommandFailed(Some(255))));
    assert_eq!(remote_verdict(None), Err(DeployError::RemoteCommandFailed(None)));
}
