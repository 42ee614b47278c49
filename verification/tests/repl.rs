use nh_system::args::SystemReplArgs;
use nh_system::error::Error;
use nh_system::installable::Installable;
use nh_system::nix::{CommandKind, NixCall, NixOutput, NixRun};
use nh_system::os_text::OsText;
use nh_system::protocol::{Reply, Request};
use nh_system::repl::Repl;
use nh_system::toplevel::{Answer, Query};

fn args(configuration: Option<&str>) -> SystemReplArgs {
    SystemReplArgs {
        installable: None,
        configuration: configuration.map(String::from),
        extra_args: vec![String::from("--impure")],
    }
}

fn flake(attribute: &[&str]) -> Installable {
    Installable::Flake {
        reference: String::from("."),
        attribute: attribute.iter().map(|segment| segment.to_string()).collect(),
    }
}

fn printed(stdout: &str) -> Reply {
    Reply::Search(Answer::Nix(NixRun::Ran(NixOutput {
        success: true,
        status: String::from("0"),
        stdout: stdout.as_bytes().to_vec(),
        stderr: Vec::new(),
    })))
}

/// Takes the replies in order and hands out what was asked for.
fn drive(mut session: Repl, replies: Vec<Reply>) -> (Vec<Request>, Option<Result<(), Error>>) {
    let mut asked = Vec::new();
    for reply in replies {
        asked.push(session.request().expect("the session should ask"));
        assert!(session.accepts(&reply), "{reply:?}");
        session = session.resume(reply);
    }
    (asked, session.outcome())
}

fn exit(success: bool) -> Reply {
    Reply::Exit { success, status: String::from("ExitStatus(unix_wait_status(256))") }
}

#[test]
fn a_session_loads_the_configuration_of_the_host() {
    let (asked, outcome) = drive(
        args(None).run(),
        vec![
            Reply::Installable(flake(&[])),
            Reply::Text(String::from("here")),
            printed("x86_64-linux\n"),
            printed("false\n"),
            printed("true\n"),
            exit(true),
        ],
    );
    assert_eq!(asked[0], Request::ResolveInstallable);
    assert_eq!(asked[1], Request::Hostname { host: None });
    assert!(matches!(&asked[2], Request::Search(Query::Nix(call)) if call.kind == CommandKind::Config));
    match &asked[3] {
        Request::Search(Query::Nix(call)) => {
            assert_eq!(call.args[0], OsText::from_text("--impure"));
        }
        other => panic!("{other:?}"),
    }
    assert_eq!(
        asked[5],
        Request::Repl(NixCall {
            kind: CommandKind::Repl,
            args: Vec::new(),
            installable: Some(flake(&["systemConfigs", "here"])),
        })
    );
    assert_eq!(outcome, Some(Ok(())));
}

#[test]
fn a_session_with_a_named_configuration_needs_no_hostname() {
    let (asked, outcome) = drive(
        args(Some("web")).run(),
        vec![
            Reply::Installable(Installable::File {
                path: OsText::from_text("system.nix"),
                attribute: Vec::new(),
            }),
            Reply::Search(Answer::Parsed(Ok(vec![String::from("web")]))),
            printed("true"),
            exit(true),
        ],
    );
    assert_eq!(asked[1], Request::Search(Query::ParseAttribute(String::from("web"))));
    assert_eq!(outcome, Some(Ok(())));
}

#[test]
fn a_store_path_cannot_be_loaded() {
    let store = Installable::Store { path: OsText::from_text("/nix/store/x") };
    let (_, outcome) = drive(args(Some("web")).run(), vec![Reply::Installable(store)]);
    let error = outcome.unwrap().unwrap_err();
    assert_eq!(error, Error::StoreInRepl);
    assert_eq!(
        error.message(),
        "Nix doesn't support nix store installables in repl mode."
    );
}

#[test]
fn a_session_that_ends_badly_is_reported() {
    let (_, outcome) = drive(
        args(None).run(),
        vec![
            Reply::Installable(flake(&["default"])),
            Reply::Text(String::from("here")),
            exit(false),
        ],
    );
    assert_eq!(
        outcome.unwrap().unwrap_err().chain(),
        vec!["nix repl failed (exit status ExitStatus(unix_wait_status(256)))"]
    );
}

#[test]
fn what_fails_outside_ends_a_session() {
    let broken = || Reply::Failed(String::from("broken"));
    let (_, outcome) = drive(args(None).run(), vec![broken()]);
    assert_eq!(outcome.unwrap().unwrap_err().chain(), vec!["broken"]);
    let (_, outcome) = drive(args(None).run(), vec![Reply::Installable(flake(&[])), broken()]);
    assert_eq!(outcome.unwrap().unwrap_err().chain(), vec!["broken"]);
    let (_, outcome) = drive(
        args(None).run(),
        vec![
            Reply::Installable(flake(&["default"])),
            Reply::Text(String::from("here")),
            broken(),
        ],
    );
    assert_eq!(outcome.unwrap().unwrap_err().chain(), vec!["broken"]);
}

#[test]
fn a_search_that_fails_ends_a_session() {
    let (_, outcome) = drive(
        args(Some("web")).run(),
        vec![
            Reply::Installable(flake(&["default"])),
            Reply::Search(Answer::Parsed(Ok(vec![String::from("web")]))),
        ],
    );
    assert_eq!(outcome, Some(Err(Error::ConfigurationWithAttribute)));
}

#[test]
fn a_session_takes_only_what_it_asked_for() {
    let session = args(None).run();
    assert!(!session.accepts(&Reply::Done));
    assert!(!session.accepts(&exit(true)));
    let session = session.resume(Reply::Installable(flake(&[])));
    assert!(!session.accepts(&Reply::Installable(flake(&[]))));
    let session = session.resume(Reply::Text(String::from("here")));
    assert!(!session.accepts(&Reply::Failed(String::new())));
    assert!(!session.accepts(&Reply::Search(Answer::Parsed(Ok(Vec::new())))));
    assert_eq!(session.outcome(), None);
}
