use lorri::error::{BuildError, ExitStatus};
use lorri::nix::{single_build_output, CallOpts, ProcessOutcome};

fn success_status() -> ExitStatus {
    ExitStatus { success: true, code: Some(0) }
}

fn finished(status: ExitStatus, stdout: &[u8], stderr: &[u8]) -> ProcessOutcome {
    ProcessOutcome::Finished { status, stdout: stdout.to_vec(), stderr: stderr.to_vec() }
}

#[test]
fn cmd_arguments_expression() {
    let mut nix = CallOpts::expression("my-cool-expression");
    nix.attribute("hello");
    nix.argstr("foo", "bar");

    let exp: Vec<String> = [
        "-A",
        "hello",
        "--argstr",
        "foo",
        "bar",
        "--expr",
        "my-cool-expression",
    ]
    .into_iter()
    .map(String::from)
    .collect();
    assert_eq!(exp, nix.command_arguments());
}

#[test]
fn cmd_arguments_test() {
    let mut nix2 = CallOpts::file("/my-cool-file.nix");
    nix2.attribute("hello");
    nix2.argstr("foo", "bar");
    let exp2: Vec<String> = [
        "-A",
        "hello",
        "--argstr",
        "foo",
        "bar",
        "--",
        "/my-cool-file.nix",
    ]
    .into_iter()
    .map(String::from)
    .collect();
    assert_eq!(exp2, nix2.command_arguments());
}

#[test]
fn cmd_arguments_overwrite_keeps_insertion_order() {
    let mut nix = CallOpts::expression("e");
    nix.argstr("a", "1");
    nix.argstr("b", "2");
    nix.argstr("a", "3");
    let exp: Vec<String> = ["--argstr", "a", "3", "--argstr", "b", "2", "--expr", "e"]
        .into_iter()
        .map(String::from)
        .collect();
    assert_eq!(exp, nix.command_arguments());
}

#[test]
fn cmd_arguments_attribute_overwrites() {
    let mut nix = CallOpts::expression("e");
    nix.attribute("first");
    nix.attribute("second");
    let exp: Vec<String> = ["-A", "second", "--expr", "e"]
        .into_iter()
        .map(String::from)
        .collect();
    assert_eq!(exp, nix.command_arguments());
}

#[test]
fn instantiate_command_shape() {
    let mut nix = CallOpts::expression(r#"{ name }: "Hello, ${name}!""#);
    nix.argstr("name", "Jill");
    let cmd = nix.instantiate_command();
    assert_eq!(cmd.program, "nix-instantiate");
    let exp: Vec<String> = [
        "--eval",
        "--json",
        "--strict",
        "--argstr",
        "name",
        "Jill",
        "--expr",
        r#"{ name }: "Hello, ${name}!""#,
    ]
    .into_iter()
    .map(String::from)
    .collect();
    assert_eq!(exp, cmd.args);
}

#[test]
fn build_command_shape() {
    let nix = CallOpts::expression("import <nixpkgs> {}");
    let cmd = nix.build_command("/tmp/root/result");
    assert_eq!(cmd.program, "nix-build");
    let exp: Vec<String> = [
        "--out-link",
        "/tmp/root/result",
        "--expr",
        "import <nixpkgs> {}",
    ]
    .into_iter()
    .map(String::from)
    .collect();
    assert_eq!(exp, cmd.args);
}

#[test]
fn value_decodes_integer() {
    let nix = CallOpts::expression("let x = 5; in x");
    let outcome = finished(success_status(), b"5", b"");
    let r: Result<u8, BuildError> = nix.value_from_outcome(outcome);
    assert_eq!(r.unwrap(), 5);
}

#[test]
fn value_decodes_string_with_argstr() {
    let mut nix = CallOpts::expression(r#"{ name }: "Hello, ${name}!""#);
    nix.argstr("name", "Jill");
    let outcome = finished(success_status(), b"\"Hello, Jill!\"", b"");
    let r: Result<String, BuildError> = nix.value_from_outcome(outcome);
    assert_eq!(r.unwrap(), "Hello, Jill!");
}

#[test]
fn value_decode_failure_is_io_error() {
    let nix = CallOpts::expression("let x = 5; in x");
    let outcome = finished(success_status(), b"{ not json", b"");
    let r: Result<u8, BuildError> = nix.value_from_outcome(outcome);
    assert!(matches!(r, Err(BuildError::Io { .. })));
}

#[test]
fn value_spawn_not_found_names_command() {
    let nix = CallOpts::expression("let x = 5; in x");
    let outcome =
        ProcessOutcome::SpawnFailed { not_found: true, msg: "no such file".to_string() };
    let r: Result<u8, BuildError> = nix.value_from_outcome(outcome);
    match r {
        Err(BuildError::Spawn { cmd, msg }) => {
            assert_eq!(cmd.program, "nix-instantiate");
            assert_eq!(msg, "no such file");
        }
        other => panic!("expected a spawn failure, got {:?}", other),
    }
}

#[test]
fn value_spawn_other_failure_is_io_error() {
    let nix = CallOpts::expression("let x = 5; in x");
    let outcome =
        ProcessOutcome::SpawnFailed { not_found: false, msg: "pipe broke".to_string() };
    let r: Result<u8, BuildError> = nix.value_from_outcome(outcome);
    match r {
        Err(BuildError::Io { msg }) => assert_eq!(msg, "pipe broke"),
        other => panic!("expected an io failure, got {:?}", other),
    }
}

#[test]
fn failed_exit_keeps_stderr_lines_in_order() {
    let nix = CallOpts::expression("let x = 5; in x");
    let status = ExitStatus { success: false, code: Some(1) };
    let outcome = finished(
        status,
        b"lots of stdout that is discarded",
        b"error: first line\nerror: second line\n",
    );
    let r: Result<u8, BuildError> = nix.value_from_outcome(outcome);
    match r {
        Err(BuildError::Exit { cmd, status, logs }) => {
            assert_eq!(cmd.program, "nix-instantiate");
            assert_eq!(status.code, Some(1));
            assert!(!status.success);
            assert_eq!(
                logs,
                vec![b"error: first line".to_vec(), b"error: second line".to_vec()]
            );
        }
        other => panic!("expected an exit failure, got {:?}", other),
    }
}

#[test]
fn paths_returns_all_paths_in_emission_order() {
    let nix = CallOpts::expression("{ inherit (import <nixpkgs> {}) hello git; }");
    let outcome = finished(
        success_status(),
        b"/nix/store/aaaa-git-2.43\n/nix/store/bbbb-hello-2.12\n",
        b"building...\n",
    );
    let r = nix.paths_from_outcome("/tmp/root/result", outcome);
    let v1 = r.unwrap();
    let paths = v1.into_vec();
    assert_eq!(paths.len(), 2);
    assert_eq!(paths[0].as_path(), &b"/nix/store/aaaa-git-2.43".to_vec());
    assert_eq!(paths[1].as_path(), &b"/nix/store/bbbb-hello-2.12".to_vec());
}

#[test]
fn paths_on_zero_output_is_output_shape_failure() {
    let nix = CallOpts::expression("[]");
    let outcome = finished(success_status(), b"", b"");
    let r = nix.paths_from_outcome("/tmp/root/result", outcome);
    match r {
        Err(BuildError::Output { msg }) => {
            assert_eq!(msg, "expected exactly one Nix output, got zero");
        }
        other => panic!("expected an output-shape failure, got {:?}", other),
    }
}

#[test]
fn paths_zero_output_failure_differs_from_exit_failure() {
    let nix = CallOpts::expression("[]");
    let zero = nix.paths_from_outcome(
        "/tmp/root/result",
        finished(success_status(), b"", b""),
    );
    let exited = nix.paths_from_outcome(
        "/tmp/root/result",
        finished(ExitStatus { success: false, code: Some(100) }, b"", b"boom\n"),
    );
    assert!(matches!(zero, Err(BuildError::Output { .. })));
    assert!(matches!(exited, Err(BuildError::Exit { .. })));
}

#[test]
fn single_output_of_one_path_build() {
    let nix = CallOpts::expression("import <nixpkgs> {}");
    let outcome = finished(success_status(), b"/nix/store/cccc-hello-2.12\n", b"");
    let v1 = nix.paths_from_outcome("/tmp/root/result", outcome).unwrap();
    let single = single_build_output(v1).unwrap();
    assert_eq!(single.as_path(), &b"/nix/store/cccc-hello-2.12".to_vec());
}

#[test]
fn single_output_of_two_path_build_is_output_shape_failure() {
    let nix = CallOpts::expression("{ inherit (import <nixpkgs> {}) hello git; }");
    let outcome = finished(
        success_status(),
        b"/nix/store/aaaa-git-2.43\n/nix/store/bbbb-hello-2.12\n",
        b"",
    );
    let v1 = nix.paths_from_outcome("/tmp/root/result", outcome).unwrap();
    match single_build_output(v1) {
        Err(BuildError::Output { msg }) => {
            assert_eq!(msg, "expected exactly one build output, got more");
        }
        other => panic!("expected an output-shape failure, got {:?}", other),
    }
}

#[test]
fn decoded_value_maps_decode_results() {
    let ok: Result<u8, BuildError> = lorri::nix::decoded_value(Ok(7u8));
    assert_eq!(ok.unwrap(), 7);
    let err: Result<u8, BuildError> =
        lorri::nix::decoded_value(Err("expected value at line 1".to_string()));
    match err {
        Err(BuildError::Io { msg }) => assert_eq!(msg, "expected value at line 1"),
        other => panic!("expected an io failure, got {:?}", other),
    }
}

#[test]
fn store_path_keeps_bytes() {
    let p = lorri::nix::StorePath::from(b"/nix/store/dddd-pkg".to_vec());
    assert_eq!(p.as_path(), &b"/nix/store/dddd-pkg".to_vec());
    let q = p.clone();
    assert_eq!(p, q);
}
