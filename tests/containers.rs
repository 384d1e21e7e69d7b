use decky::config::ContainerEngine;
use decky::engine::{build_image, ensure_availability, exit_verdict, run_image, user_mapping, Bind, BuildError, EngineProbe};
use decky::pipeline::backend_image_tag;

fn strings(v: &[&str]) -> Vec<String> {
    v.iter().map(|s| s.to_string()).collect()
}

#[test]
fn engine_programs() {
    assert_eq!(ContainerEngine::Docker.bin_name(), "docker");
    assert_eq!(ContainerEngine::Podman.bin_name(), "podman");
}

#[test]
fn availability_verdicts() {
    assert_eq!(ensure_availability(ContainerEngine::Docker, EngineProbe::Exited(Some(0))), Ok(()));
    assert_eq!(
        ensure_availability(ContainerEngine::Docker, EngineProbe::NotOnPath),
        Err(BuildError::NotInstalled("docker".to_string()))
    );
    assert_eq!(
        ensure_availability(ContainerEngine::Podman, EngineProbe::StatusUnavailable),
        Err(BuildError::ProbeFailed("podman".to_string()))
    );
    assert_eq!(
        ensure_availability(ContainerEngine::Podman, EngineProbe::Exited(Some(1))),
        Err(BuildError::DaemonUnavailable("podman".to_string(), Some(1)))
    );
    assert_eq!(
        ensure_availability(ContainerEngine::Docker, EngineProbe::Exited(None)),
        Err(BuildError::DaemonUnavailable("docker".to_string(), None))
    );
}

#[test]
fn exit_codes() {
    assert_eq!(exit_verdict(Some(0)), Ok(()));
    assert_eq!(exit_verdict(Some(2)), Err(BuildError::CommandFailed(Some(2))));
    assert_eq!(exit_verdict(None), Err(BuildError::CommandFailed(None)));
}

#[test]
fn build_command_line() {
    let c = build_image(ContainerEngine::Podman, "/p/backend/Dockerfile", "my-plugin", "/p/backend");
    assert_eq!(c.program, "podman");
    assert_eq!(c.args, strings(&["build", "-f", "/p/backend/Dockerfile", "-t", "my-plugin", "/p/backend"]));
    assert!(c.create_dirs.is_empty());
}

#[test]
fn run_command_line_as_user_in_development() {
    let binds = vec![
        Bind { host: "/p".to_string(), container: "/plugin".to_string() },
        Bind { host: "/tmp/decky/x".to_string(), container: "/out".to_string() },
    ];
    let c = run_image(ContainerEngine::Docker, "img:latest", &binds, Some((1000, 100)), true);
    assert_eq!(c.program, "docker");
    assert_eq!(
        c.args,
        strings(&[
            "run", "--rm", "--user", "1000:100", "-e", "RELEASE_TYPE=development", "-v", "/p:/plugin", "-v",
            "/tmp/decky/x:/out", "img:latest"
        ])
    );
    assert_eq!(c.create_dirs, strings(&["/p", "/tmp/decky/x"]));
}

#[test]
fn run_command_line_as_root_in_production() {
    let c = run_image(ContainerEngine::Docker, "img", &vec![], None, false);
    assert_eq!(c.args, strings(&["run", "--rm", "-e", "RELEASE_TYPE=production", "img"]));
}

#[test]
fn root_runs_unmapped() {
    assert_eq!(user_mapping(true), None);
    assert!(user_mapping(false).is_some());
}

#[test]
fn image_tags() {
    assert_eq!(backend_image_tag("My Cool Plugin"), "my-cool-plugin");
    assert_eq!(backend_image_tag("plain"), "plain");
}
