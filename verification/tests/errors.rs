use lorri::error::{BuildError, ExitStatus, NixCommand};
use lorri::nix::{EvaluationError, OnePathError};

#[test]
fn build_error_constructors_build_their_variants() {
    let io = BuildError::io("broken pipe".to_string());
    assert!(matches!(io, BuildError::Io { .. }));

    let cmd = NixCommand { program: "nix-build".to_string(), args: vec!["--expr".to_string()] };
    let spawn = BuildError::spawn(cmd, "not found".to_string());
    assert!(matches!(spawn, BuildError::Spawn { .. }));

    let cmd = NixCommand { program: "nix-build".to_string(), args: Vec::new() };
    let status = ExitStatus { success: false, code: Some(2) };
    let exit = BuildError::exit(cmd, status, vec![b"line".to_vec()]);
    match exit {
        BuildError::Exit { status, logs, .. } => {
            assert_eq!(status.code, Some(2));
            assert_eq!(logs, vec![b"line".to_vec()]);
        }
        other => panic!("expected an exit failure, got {:?}", other),
    }

    let output = BuildError::output("wrong shape".to_string());
    assert!(matches!(output, BuildError::Output { .. }));
}

#[test]
fn evaluation_error_from_io_error() {
    let e = std::io::Error::new(std::io::ErrorKind::BrokenPipe, "pipe");
    let ev = EvaluationError::from(e);
    assert!(matches!(ev, EvaluationError::Io(_)));
}

#[test]
fn evaluation_error_from_decode_error() {
    let e = serde_json::from_slice::<u8>(b"not json").unwrap_err();
    let ev = EvaluationError::from(e);
    assert!(matches!(ev, EvaluationError::Decoding(_)));
}

#[test]
fn evaluation_error_from_failed_status() {
    let status = ExitStatus { success: false, code: Some(77) };
    let ev = EvaluationError::from_status(status);
    match ev {
        EvaluationError::ExecutionFailed(s) => assert_eq!(s.code, Some(77)),
        other => panic!("expected an execution failure, got {:?}", other),
    }
}

#[test]
fn one_path_error_from_build_error() {
    let e = OnePathError::from(BuildError::output("zero".to_string()));
    assert!(matches!(e, OnePathError::Build(BuildError::Output { .. })));
}
