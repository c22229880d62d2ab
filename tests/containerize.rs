use flox::command_line::{
    join_spaced, nix_response, nix_response_from, optional_args, render_flag, Flag, FlagType,
    NixCommandLine, NixCommandLineDefaults, NixError, ToArgs,
};
use flox::containerize::{
    first_runtime_in_path, Containerize, FileOrStdout, OutputTarget, Runtime,
};
use flox::output::ExitStatus;
use flox::sink::{SinkError, SinkKind, SinkState};

#[test]
fn runtime_parse() {
    "docker".parse::<Runtime>().unwrap();
    "podman".parse::<Runtime>().unwrap();
    assert!("invalid".parse::<Runtime>().is_err());
}

#[test]
fn runtime_parse_gives_the_named_runtime() {
    assert_eq!(Runtime::parse("docker"), Ok(Runtime::Docker));
    assert_eq!(Runtime::parse("podman"), Ok(Runtime::Podman));
    let err = Runtime::parse("Docker").unwrap_err();
    assert_eq!(err.given, "Docker");
    assert_eq!(err.message(), "Registry must be 'docker' or 'podman'");
}

#[test]
fn runtime_names_and_load_command() {
    assert_eq!(Runtime::Docker.describe(), "Docker runtime");
    assert_eq!(Runtime::Podman.describe(), "Podman runtime");
    let cmd = Runtime::Podman.load_command();
    assert_eq!(cmd.program, "podman");
    assert_eq!(cmd.args, vec!["load".to_string()]);
    assert!(cmd.envs.is_empty());
}

#[test]
fn detect_runtime_from_path_entries() {
    // docker-bin, podman-bin, combined-bin
    let docker_first = vec![(true, false), (false, true), (true, true)];
    assert_eq!(first_runtime_in_path(&docker_first), Some(Runtime::Docker));
    // podman-bin, docker-bin, combined-bin
    let podman_first = vec![(false, true), (true, false), (true, true)];
    assert_eq!(first_runtime_in_path(&podman_first), Some(Runtime::Podman));
    // combined-bin, podman-bin, docker-bin
    let combined = vec![(true, true), (false, true), (true, false)];
    assert_eq!(first_runtime_in_path(&combined), Some(Runtime::Docker));
    // neither-bin
    let neither = vec![(false, false)];
    assert_eq!(first_runtime_in_path(&neither), None);
    assert_eq!(first_runtime_in_path(&Vec::new()), None);

    let default_target = OutputTarget::File(FileOrStdout::File("test-container.tar".to_string()));
    assert_eq!(
        OutputTarget::detect_or_default("test", first_runtime_in_path(&neither)),
        default_target
    );
    assert_eq!(
        OutputTarget::detect_or_default("test", first_runtime_in_path(&podman_first)),
        OutputTarget::Runtime(Runtime::Podman)
    );
}

#[test]
fn file_or_stdout_parse() {
    assert_eq!(FileOrStdout::parse("-"), FileOrStdout::Stdout);
    assert_eq!(FileOrStdout::parse("out.tar"), FileOrStdout::File("out.tar".to_string()));
}

#[test]
fn output_target_descriptions() {
    let file = OutputTarget::File(FileOrStdout::File("a.tar".to_string()));
    assert_eq!(file.describe(), "file 'a.tar'");
    assert_eq!(OutputTarget::File(FileOrStdout::Stdout).describe(), "stdout");
    assert_eq!(OutputTarget::Runtime(Runtime::Docker).describe(), "Docker runtime");
}

#[test]
fn containerize_defaults() {
    let c = Containerize { output: None, tag: None };
    assert_eq!(c.output_tag(), "latest");
    assert_eq!(
        c.output_target("env", None),
        OutputTarget::File(FileOrStdout::File("env-container.tar".to_string()))
    );
    assert_eq!(c.output_target("env", Some(Runtime::Podman)), OutputTarget::Runtime(Runtime::Podman));
    let given = Containerize {
        output: Some(OutputTarget::File(FileOrStdout::Stdout)),
        tag: Some("v1".to_string()),
    };
    assert_eq!(given.output_tag(), "v1");
    assert_eq!(
        given.output_target("env", Some(Runtime::Docker)),
        OutputTarget::File(FileOrStdout::Stdout)
    );
}

#[test]
fn sink_finalize_propagates_loader_failure() {
    let target = OutputTarget::Runtime(Runtime::Docker);
    let mut sink = SinkState::new(target.sink_kind());
    assert!(sink.can_write());
    let r = sink.finalize(Some(ExitStatus { code: Some(1) }));
    assert_eq!(r, Err(SinkError::UnderlyingProcessFailed));
    assert!(!sink.can_write());
    assert_eq!(SinkError::UnderlyingProcessFailed.message(), "Writing to runtime was unsuccessful");
}

#[test]
fn sink_finalize_succeeds_for_file_and_good_loader() {
    let mut file = SinkState::new(OutputTarget::File(FileOrStdout::File("x".to_string())).sink_kind());
    assert_eq!(file.kind, SinkKind::File);
    assert_eq!(file.finalize(None), Ok(()));
    let mut out = SinkState::new(OutputTarget::File(FileOrStdout::Stdout).sink_kind());
    assert_eq!(out.kind, SinkKind::Stdout);
    assert_eq!(out.finalize(None), Ok(()));
    let mut rt = SinkState::new(SinkKind::Runtime);
    assert_eq!(rt.finalize(Some(ExitStatus { code: Some(0) })), Ok(()));
    let mut killed = SinkState::new(SinkKind::Runtime);
    assert_eq!(killed.finalize(Some(ExitStatus { code: None })), Err(SinkError::UnderlyingProcessFailed));
}

struct Substituters(Vec<String>);

impl Flag for Substituters {
    fn flag() -> &'static str {
        "--substituters"
    }
    fn flag_type() -> FlagType {
        FlagType::list()
    }
    fn values(&self) -> Vec<String> {
        self.0.clone()
    }
}

struct Impure;

impl Flag for Impure {
    fn flag() -> &'static str {
        "--impure"
    }
    fn flag_type() -> FlagType {
        FlagType::Bool
    }
    fn values(&self) -> Vec<String> {
        Vec::new()
    }
}

#[test]
fn flags_render_by_kind() {
    let vals = vec!["a".to_string(), "b".to_string(), "c".to_string()];
    assert_eq!(render_flag("--f", FlagType::Bool, vals.clone()), vec!["--f"]);
    assert_eq!(render_flag("--f", FlagType::List, vals.clone()), vec!["--f", "a b c"]);
    assert_eq!(render_flag("--f", FlagType::Args, vals.clone()), vec!["--f", "a", "b", "c"]);
    assert_eq!(render_flag("--f", FlagType::Custom, vals.clone()), vec!["a", "b", "c"]);
    assert_eq!(FlagType::list(), FlagType::List);
    assert_eq!(FlagType::infer(), FlagType::Args);
    assert_eq!(join_spaced(&Vec::new()), "");
    assert_eq!(join_spaced(&vec!["x".to_string()]), "x");
}

#[test]
fn flag_trait_renders_through_to_args() {
    let s = Substituters(vec!["https://a".to_string(), "https://b".to_string()]);
    assert_eq!(s.args(), vec!["--substituters", "https://a https://b"]);
    assert_eq!(Impure.args(), vec!["--impure"]);
    assert_eq!(optional_args::<Impure>(&None), Vec::<String>::new());
    assert_eq!(optional_args(&Some(Impure)), vec!["--impure"]);
}

fn nix() -> NixCommandLine {
    NixCommandLine {
        nix_bin: None,
        defaults: NixCommandLineDefaults {
            environment: vec![("NIX_CONFIG".to_string(), "x".to_string())],
            common_args: vec!["--common".to_string()],
            flake_args: vec![],
            eval_args: vec![],
            config_args: vec!["--option".to_string(), "k".to_string(), "v".to_string()],
        },
    }
}

#[test]
fn nix_commands_merge_defaults() {
    let n = nix();
    assert_eq!(n.program(), "nix");
    let cmd = n.run_command(&vec!["build".to_string()]);
    assert_eq!(cmd.program, "nix");
    assert_eq!(cmd.args, vec!["--option", "k", "v", "--common", "build"]);
    assert_eq!(cmd.envs, vec![("NIX_CONFIG".to_string(), "x".to_string())]);
    let raw = n.run_in_nix_command(&vec!["eval".to_string()]);
    assert_eq!(raw.args, vec!["eval"]);
    let custom = NixCommandLine { nix_bin: Some("/bin/nix".to_string()), ..nix() };
    assert_eq!(custom.program(), "/bin/nix");
}

#[test]
fn nix_response_checks_stderr_and_encoding() {
    assert_eq!(nix_response(b"out\n", b""), Ok("out\n".to_string()));
    assert_eq!(nix_response(b"out", b"bad"), Err(NixError::ErrorResponse("bad".to_string())));
    assert_eq!(nix_response(&[0xff, 0xfe], b""), Err(NixError::InvalidUtf8));
    assert_eq!(nix_response(b"ok", &[0xc3]), Err(NixError::InvalidUtf8));
    assert_eq!(nix_response_from(Some("a".to_string()), None), Err(NixError::InvalidUtf8));
}
