use roc_host::roc_command::{
    bytes_to_str_lossy, exit_code_result, killed_by_signal, output_result, Command,
    CommandOutputResult, ProcessOutput, KILLED_BY_SIGNAL,
};
use roc_host::roc_io_error::IOErrTag;
use std::io::{Error, ErrorKind};

fn texts(items: &[&str]) -> Vec<String> {
    items.iter().map(|item| item.to_string()).collect()
}

fn command(envs: &[&str], clear_envs: u8) -> Command {
    Command {
        args: texts(&["-l", "--all", "dir"]),
        envs: texts(envs),
        program: String::from("ls"),
        clear_envs,
    }
}

fn output(status: Option<i32>, stdout: &[u8], stderr: &[u8]) -> Result<ProcessOutput, Error> {
    Ok(ProcessOutput { status, stdout: stdout.to_vec(), stderr: stderr.to_vec() })
}

#[test]
fn program_and_arguments_are_kept_in_order() {
    let std_command = command(&[], 0).to_std_command();
    assert_eq!(std_command.program, "ls");
    assert_eq!(std_command.args, texts(&["-l", "--all", "dir"]));
    assert!(!std_command.env_clear);
    assert!(std_command.envs.is_empty());
}

#[test]
fn environment_is_read_in_pairs() {
    let std_command = command(&["HOME", "/root", "LANG", "C"], 0).to_std_command();
    assert_eq!(
        std_command.envs,
        vec![
            (String::from("HOME"), String::from("/root")),
            (String::from("LANG"), String::from("C")),
        ]
    );
}

#[test]
fn a_name_without_a_value_is_left_out() {
    let std_command = command(&["HOME", "/root", "LANG"], 0).to_std_command();
    assert_eq!(std_command.envs, vec![(String::from("HOME"), String::from("/root"))]);
    assert!(command(&["LANG"], 0).to_std_command().envs.is_empty());
}

#[test]
fn any_byte_but_zero_clears_the_environment() {
    assert!(!command(&[], 0).to_std_command().env_clear);
    assert!(command(&[], 1).to_std_command().env_clear);
    assert!(command(&[], 255).to_std_command().env_clear);
}

#[test]
fn valid_text_is_kept() {
    assert_eq!(bytes_to_str_lossy(b"hello"), "hello");
    assert_eq!(bytes_to_str_lossy("gr\u{fc}\u{df}e \u{1F980}".as_bytes()), "gr\u{fc}\u{df}e \u{1F980}");
    assert_eq!(bytes_to_str_lossy(b""), "");
}

#[test]
fn valid_text_gives_its_bytes_back() {
    let inputs: [&[u8]; 4] = [b"", b"plain", "\u{e9}t\u{e9}".as_bytes(), "\u{65e5}\u{672c}\n".as_bytes()];
    for bytes in inputs {
        assert_eq!(bytes_to_str_lossy(bytes).as_bytes(), bytes);
    }
}

#[test]
fn invalid_bytes_are_replaced() {
    assert_eq!(bytes_to_str_lossy(&[0x66, 0xff, 0x6f]), "f\u{FFFD}o");
    assert_eq!(bytes_to_str_lossy(&[0xff]), "\u{FFFD}");
    assert_eq!(bytes_to_str_lossy(&[0x61, 0xe2, 0x82]), "a\u{FFFD}");
    assert_eq!(bytes_to_str_lossy(&[0xc0, 0x80, 0x62]), "\u{FFFD}\u{FFFD}b");
}

#[test]
fn killed_by_signal_is_an_other_error() {
    assert_eq!(KILLED_BY_SIGNAL, "Process was killed by signal");
    let e = killed_by_signal();
    assert!(e.tag() == IOErrTag::Other);
    assert_eq!(e.message(), Some("Process was killed by signal"));
}

#[test]
fn exit_code_is_handed_on() {
    assert_eq!(exit_code_result(Ok(Some(0))).ok(), Some(0));
    assert_eq!(exit_code_result(Ok(Some(3))).ok(), Some(3));
    assert_eq!(exit_code_result(Ok(Some(-1))).ok(), Some(-1));
}

#[test]
fn process_without_an_exit_code() {
    let e = exit_code_result(Ok(None)).err().unwrap();
    assert!(e.tag() == IOErrTag::Other);
    assert_eq!(e.message(), Some("Process was killed by signal"));
}

#[test]
fn command_that_could_not_be_run() {
    let e = exit_code_result(Err(Error::from(ErrorKind::NotFound))).err().unwrap();
    assert!(e.tag() == IOErrTag::NotFound);
    let e = exit_code_result(Err(Error::new(ErrorKind::InvalidInput, "nul byte"))).err().unwrap();
    assert!(e.tag() == IOErrTag::Other);
    assert_eq!(e.message(), Some("nul byte"));
}

#[test]
fn output_of_a_successful_command() {
    match output_result(output(Some(0), b"out", b"err")) {
        CommandOutputResult::Success(success) => {
            assert_eq!(success.stdout_utf8, "out");
            assert_eq!(success.stderr_utf8_lossy, "err");
        }
        _ => panic!("exit code 0 is a success"),
    }
}

#[test]
fn output_of_a_failed_command() {
    match output_result(output(Some(2), b"partial", b"broken")) {
        CommandOutputResult::NonZeroExit(failure) => {
            assert_eq!(failure.exit_code, 2);
            assert_eq!(failure.stdout_utf8_lossy, "partial");
            assert_eq!(failure.stderr_utf8_lossy, "broken");
        }
        _ => panic!("exit code 2 is a failure with output"),
    }
}

#[test]
fn output_that_is_not_text() {
    match output_result(output(Some(0), &[0x6f, 0xfe, 0x6b], &[0x80])) {
        CommandOutputResult::Success(success) => {
            assert_eq!(success.stdout_utf8, "o\u{FFFD}k");
            assert_eq!(success.stderr_utf8_lossy, "\u{FFFD}");
        }
        _ => panic!("exit code 0 is a success"),
    }
}

#[test]
fn output_of_a_killed_process() {
    match output_result(output(None, b"out", b"err")) {
        CommandOutputResult::Error(e) => {
            assert!(e.tag() == IOErrTag::Other);
            assert_eq!(e.message(), Some("Process was killed by signal"));
        }
        _ => panic!("a process without an exit code is an error"),
    }
}

#[test]
fn output_of_a_command_that_could_not_be_run() {
    match output_result(Err(Error::from(ErrorKind::PermissionDenied))) {
        CommandOutputResult::Error(e) => {
            assert!(e.tag() == IOErrTag::PermissionDenied);
            assert_eq!(e.message(), None);
        }
        _ => panic!("a platform error is an error"),
    }
}
