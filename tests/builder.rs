use flox::builder::{clean_outcome, clean_result, FloxBuildMk, ManifestBuilderError};
use flox::output::{collect, keep_reading, PullState, reader_step, ExitStatus, LineRead, Output, ReaderAction, Stream};

fn builder() -> FloxBuildMk {
    FloxBuildMk { gnumake_bin: "make".to_string(), build_mk: "flox-build.mk".to_string() }
}

#[test]
fn build_returns_failure_when_package_not_defined() {
    let package_name = String::from("foo");
    let cmd = builder().build_command("/env", "/env/.flox/run", &vec![package_name]);
    assert_eq!(cmd.args.last().unwrap(), "build/foo");
    // the driver reports the unknown package and exits unsuccessfully
    let drained = collect(vec![
        Output::Stderr("flox-build.mk: no build for package 'foo'".to_string()),
        Output::Exit(ExitStatus { code: Some(2) }),
    ]);
    let status = drained.exit_status().unwrap();
    assert!(!status.success());
}

#[test]
fn build_command_arguments() {
    let cmd = builder().build_command("/base", "/flox/env", &vec!["foo".to_string(), "bar".to_string()]);
    assert_eq!(cmd.program, "make");
    assert_eq!(
        cmd.args,
        vec!["-f", "flox-build.mk", "-C", "/base", "FLOX_ENV=/flox/env", "build/foo", "build/bar"]
    );
    let all = builder().build_command("/base", "/flox/env", &Vec::new());
    assert_eq!(all.args, vec!["-f", "flox-build.mk", "-C", "/base", "FLOX_ENV=/flox/env", "build"]);
}

#[test]
fn build_keeps_duplicate_targets() {
    let cmd = builder().build_command("/b", "/e", &vec!["foo".to_string(), "foo".to_string()]);
    assert_eq!(&cmd.args[5..], &["build/foo".to_string(), "build/foo".to_string()]);
}

#[test]
fn clean_targets_only_the_named_packages() {
    let cmd = builder().clean_command("/base", "/env", &vec!["foo".to_string()]);
    assert_eq!(cmd.args, vec!["-f", "flox-build.mk", "-C", "/base", "FLOX_ENV=/env", "clean/foo"]);
    assert!(!cmd.args.iter().any(|a| a.contains("bar")));
    let all = builder().clean_command("/base", "/env", &Vec::new());
    assert_eq!(all.args.last().unwrap(), "clean");
}

#[test]
fn clean_all_twice_is_the_same_invocation() {
    let first = builder().clean_command("/base", "/env", &Vec::new());
    let second = builder().clean_command("/base", "/env", &Vec::new());
    assert_eq!(first.args, second.args);
    assert!(clean_outcome(ExitStatus { code: Some(0) }, String::new(), String::new()).is_ok());
    assert!(clean_outcome(ExitStatus { code: Some(0) }, String::new(), String::new()).is_ok());
}

#[test]
fn clean_failure_carries_output() {
    let r = clean_result(ExitStatus { code: Some(2) }, b"some out", &[b'e', 0xff]);
    match r {
        Err(ManifestBuilderError::RunClean { stdout, stderr, status }) => {
            assert_eq!(stdout, "some out");
            assert_eq!(stderr, "e\u{FFFD}");
            assert_eq!(status, ExitStatus { code: Some(2) });
        },
        _ => panic!("expected a clean failure"),
    }
    assert!(clean_result(ExitStatus { code: Some(0) }, b"x", b"y").is_ok());
}

#[test]
fn build_failure_is_data_in_the_sequence() {
    let drained = collect(vec![
        Output::Stdout("building".to_string()),
        Output::Exit(ExitStatus { code: Some(1) }),
    ]);
    assert_eq!(drained.stdout, vec!["building"]);
    assert_eq!(drained.exits.len(), 1);
    assert!(!drained.exit_status().unwrap().success());
}

#[test]
fn drain_keeps_each_stream_in_order() {
    let drained = collect(vec![
        Output::Stdout("o1".to_string()),
        Output::Stderr("e1".to_string()),
        Output::Stdout("o2".to_string()),
        Output::Exit(ExitStatus { code: Some(0) }),
        Output::Stderr("e2".to_string()),
    ]);
    assert_eq!(drained.stdout, vec!["o1", "o2"]);
    assert_eq!(drained.stderr, vec!["e1", "e2"]);
    assert_eq!(drained.exits, vec![ExitStatus { code: Some(0) }]);
    assert!(drained.exit_status().unwrap().success());
    let empty = collect(Vec::new());
    assert!(empty.exit_status().is_none());
}

#[test]
fn reader_forwards_skips_and_stops() {
    match reader_step(Stream::Stderr, LineRead::Line("warn".to_string())) {
        ReaderAction::Send(o) => assert_eq!(o, Output::Stderr("warn".to_string())),
        _ => panic!("expected a send"),
    }
    assert!(matches!(reader_step(Stream::Stdout, LineRead::Undecodable), ReaderAction::Skip));
    assert!(matches!(reader_step(Stream::Stdout, LineRead::End), ReaderAction::Stop));
    // once the consumer dropped the sequence, a reader stops after its next send
    assert!(!keep_reading(false));
    assert!(keep_reading(true));
}

#[test]
fn exit_status_success_only_for_zero() {
    assert!(ExitStatus { code: Some(0) }.success());
    assert!(!ExitStatus { code: Some(3) }.success());
    assert!(!ExitStatus { code: None }.success());
}

#[test]
fn sequence_stays_ended_after_exhaustion() {
    let mut state = PullState::new();
    assert!(state.should_receive());
    assert_eq!(state.pull(Some(Output::Stdout("a".to_string()))), Some(Output::Stdout("a".to_string())));
    assert_eq!(state.pull(None), None);
    assert!(!state.should_receive());
    assert_eq!(state.pull(Some(Output::Exit(ExitStatus { code: Some(0) }))), None);
}
