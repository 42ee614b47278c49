use nh_system::error::{Error, NixError};
use nh_system::installable::{Installable, Source};
use nh_system::nix::{
    ask_attr_exists, ask_current_system, attr_exists, capture_nix_stdout, command_failed,
    get_current_system, CommandKind, NixOutput, NixRun,
};
use nh_system::os_text::OsText;

fn texts(list: &[&str]) -> Vec<OsText> {
    list.iter().map(|text| OsText::from_text(text)).collect()
}

fn printed(stdout: &[u8]) -> NixRun {
    NixRun::Ran(NixOutput {
        success: true,
        status: String::from("ExitStatus(unix_wait_status(0))"),
        stdout: stdout.to_vec(),
        stderr: Vec::new(),
    })
}

fn failed(stderr: &[u8]) -> NixRun {
    NixRun::Ran(NixOutput {
        success: false,
        status: String::from("ExitStatus(unix_wait_status(256))"),
        stdout: b"true".to_vec(),
        stderr: stderr.to_vec(),
    })
}

#[test]
fn a_flake_is_asked_through_an_installable() {
    let call = ask_attr_exists(
        &Source::Flake { reference: String::from(".") },
        &[String::from("x86_64-linux"), String::from("default")],
        &texts(&["--impure"]),
    );
    assert_eq!(call.kind, CommandKind::Eval);
    assert_eq!(
        call.args,
        texts(&["--impure", "--apply", "x: x ? \"x86_64-linux\".\"default\""])
    );
    assert_eq!(
        call.installable,
        Some(Installable::Flake {
            reference: String::from("."),
            attribute: vec![String::from("systemConfigs")],
        })
    );
}

#[test]
fn a_file_is_asked_by_its_path() {
    let call = ask_attr_exists(
        &Source::File { path: OsText::from_bytes(vec![b'/', 0xff]) },
        &[String::from("host")],
        &Vec::new(),
    );
    let mut expected = texts(&["--apply", "x: x ? \"host\"", "--file"]);
    expected.push(OsText::from_bytes(vec![b'/', 0xff]));
    expected.push(OsText::from_text("systemConfigs"));
    assert_eq!(call.args, expected);
    assert_eq!(call.installable, None);
}

#[test]
fn an_expression_is_asked_as_it_stands() {
    let call = ask_attr_exists(
        &Source::Expression { expression: String::from("import ./.") },
        &[String::from("host")],
        &texts(&["-L"]),
    );
    assert_eq!(
        call.args,
        texts(&["-L", "--apply", "x: x ? \"host\"", "--expr", "import ./.", "systemConfigs"])
    );
    assert_eq!(call.installable, None);
}

#[test]
fn only_the_word_true_means_that_it_is_there() {
    let host = vec![String::from("host")];
    assert_eq!(attr_exists(printed(b"true\n"), &host), Ok(true));
    assert_eq!(attr_exists(printed(b"  true"), &host), Ok(true));
    assert_eq!(attr_exists(printed(b"false\n"), &host), Ok(false));
    assert_eq!(attr_exists(printed(b"\"true\""), &host), Ok(false));
    assert_eq!(attr_exists(printed(b""), &host), Ok(false));
}

#[test]
fn a_lookup_that_fails_says_which_candidate() {
    let path = vec![String::from("x86_64-linux"), String::from("host")];
    let error = attr_exists(failed(b"\nerror: no such flake\n"), &path).unwrap_err();
    assert_eq!(
        error.chain(),
        vec![
            "Failed running nix eval to check for system-manager configuration systemConfigs.x86_64-linux.host",
            "nix command failed (exit status ExitStatus(unix_wait_status(256)))\nstderr:\nerror: no such flake",
        ]
    );
    assert!(matches!(error, Error::LookupFailed { .. }));
}

#[test]
fn a_silent_failure_shows_only_the_status() {
    let error = capture_nix_stdout(failed(b" \n")).unwrap_err();
    assert_eq!(
        error.message(),
        "nix command failed (exit status ExitStatus(unix_wait_status(256)))"
    );
    assert_eq!(
        command_failed(String::from("s"), " \u{fffd} "),
        NixError::Failed { status: String::from("s"), stderr: String::from("\u{fffd}") }
    );
}

#[test]
fn standard_error_need_not_be_text() {
    let error = capture_nix_stdout(failed(&[b' ', 0xff, b'\n'])).unwrap_err();
    assert_eq!(
        error,
        NixError::Failed {
            status: String::from("ExitStatus(unix_wait_status(256))"),
            stderr: String::from("\u{fffd}"),
        }
    );
}

#[test]
fn standard_output_must_be_text() {
    let error = capture_nix_stdout(printed(&[b'a', 0xff])).unwrap_err();
    let reason = String::from_utf8(vec![b'a', 0xff]).unwrap_err().to_string();
    assert_eq!(error, NixError::NotUtf8(reason.clone()));
    assert_eq!(error.message(), "nix command emitted non-UTF-8 stdout");
    assert_eq!(error.chain(), vec![error.message(), reason]);
    assert_eq!(capture_nix_stdout(printed("é\n".as_bytes())), Ok(String::from("é\n")));
}

#[test]
fn a_command_that_does_not_start_says_why() {
    let error = capture_nix_stdout(NixRun::NotStarted(String::from("not found"))).unwrap_err();
    assert_eq!(error.chain(), vec!["Failed to run nix command", "not found"]);
}

#[test]
fn the_system_is_what_nix_prints() {
    let call = ask_current_system();
    assert_eq!(call.kind, CommandKind::Config);
    assert_eq!(call.args, texts(&["show", "system"]));
    assert_eq!(call.installable, None);
    assert_eq!(get_current_system(printed(b"x86_64-linux\n")), Some(String::from("x86_64-linux")));
    assert_eq!(get_current_system(printed(b" \n")), None);
    assert_eq!(get_current_system(failed(b"")), None);
    assert_eq!(get_current_system(NixRun::NotStarted(String::new())), None);
}
