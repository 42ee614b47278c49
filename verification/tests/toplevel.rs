use nh_system::error::Error;
use nh_system::installable::Installable;
use nh_system::nix::{CommandKind, NixOutput, NixRun};
use nh_system::os_text::OsText;
use nh_system::toplevel::{begin_if_ready, toplevel_for, Answer, Query, Toplevel};

/// A Nix whose place has the given paths, and that runs on the given system.
struct Nix {
    system: Option<&'static str>,
    there: Vec<&'static str>,
}

fn printed(stdout: &str) -> NixRun {
    NixRun::Ran(NixOutput {
        success: true,
        status: String::from("0"),
        stdout: stdout.as_bytes().to_vec(),
        stderr: Vec::new(),
    })
}

fn failed() -> NixRun {
    NixRun::Ran(NixOutput {
        success: false,
        status: String::from("1"),
        stdout: Vec::new(),
        stderr: b"error: broken".to_vec(),
    })
}

/// Answers every question; hands out what was asked and what it came to.
fn drive(mut search: Toplevel, nix: &Nix) -> (Vec<String>, Result<Installable, Error>) {
    let mut asked = Vec::new();
    while let Some(query) = search.question() {
        let answer = match query {
            Query::ParseAttribute(name) => {
                asked.push(format!("parse {name}"));
                if name.contains('"') {
                    Answer::Parsed(Err(String::from("is not closed")))
                } else if name.is_empty() {
                    Answer::Parsed(Ok(Vec::new()))
                } else {
                    Answer::Parsed(Ok(name.split('.').map(String::from).collect()))
                }
            }
            Query::Nix(call) => {
                if call.kind == CommandKind::Config {
                    asked.push(String::from("system"));
                    Answer::Nix(match nix.system {
                        Some(name) => printed(&format!("{name}\n")),
                        None => failed(),
                    })
                } else {
                    let apply = OsText::from_text("--apply");
                    let position = call.args.iter().position(|arg| *arg == apply).unwrap();
                    let function = call.args[position + 1].to_text();
                    let path = function.strip_prefix("x: x ? ").unwrap().to_string();
                    asked.push(path.clone());
                    let there = nix.there.iter().any(|known| *known == path);
                    Answer::Nix(printed(if there { "true\n" } else { "false\n" }))
                }
            }
        };
        assert!(search.accepts(&answer));
        search = search.resume(answer);
    }
    (asked, search.outcome().expect("the search should be over"))
}

/// The arguments that stand for an installable whose segments need no quotes.
fn to_args(installable: &Installable) -> Vec<String> {
    match installable {
        Installable::Flake { reference, attribute } => {
            vec![format!("{reference}#{}", attribute.join("."))]
        }
        Installable::File { path, attribute } => {
            vec![String::from("--file"), path.to_text(), attribute.join(".")]
        }
        Installable::Expression { expression, attribute } => {
            vec![String::from("--expr"), expression.clone(), attribute.join(".")]
        }
        Installable::Store { path } => vec![path.to_text()],
    }
}

fn flake(attribute: &[&str]) -> Installable {
    Installable::Flake {
        reference: String::from("."),
        attribute: attribute.iter().map(|s| s.to_string()).collect(),
    }
}

const SYSTEM_NIX: &str = "crates/nh-system/../../test/system.nix";

fn system_nix() -> Nix {
    Nix { system: Some("x86_64-linux"), there: vec!["\"default\""] }
}

#[test]
fn test_toplevel_for_file_with_explicit_configuration() {
    let installable = Installable::File {
        path: OsText::from_text(SYSTEM_NIX),
        attribute: vec![],
    };

    let (asked, result) = drive(
        toplevel_for(installable, Vec::new(), Some(String::from("default")), None),
        &system_nix(),
    );
    let result = result.expect("toplevel_for should succeed");

    assert_eq!(
        to_args(&result),
        vec![
            String::from("--file"),
            SYSTEM_NIX.to_string(),
            String::from("systemConfigs.default"),
        ]
    );
    assert_eq!(asked, vec!["parse default", "\"default\""]);
}

#[test]
fn test_toplevel_for_flake_short_configuration_name() {
    let installable = Installable::Flake {
        reference: String::from("."),
        attribute: vec![String::from("default")],
    };

    let result = toplevel_for(installable, Vec::new(), None, Some(String::from("unused")))
        .outcome()
        .expect("nothing should be asked")
        .expect("toplevel_for should succeed");

    assert_eq!(to_args(&result), vec![String::from(".#systemConfigs.default")]);
}

#[test]
fn test_toplevel_for_flake_prepends_system_configs() {
    let installable = Installable::Flake {
        reference: String::from("."),
        attribute: vec![String::from("x86_64-linux"), String::from("default")],
    };

    let result = toplevel_for(installable, Vec::new(), None, Some(String::from("unused")))
        .outcome()
        .expect("nothing should be asked")
        .expect("toplevel_for should succeed");

    assert_eq!(
        to_args(&result),
        vec![String::from(".#systemConfigs.x86_64-linux.default")]
    );
}

#[test]
fn test_toplevel_for_file_defaults_to_default_configuration() {
    let installable = Installable::File {
        path: OsText::from_text(SYSTEM_NIX),
        attribute: vec![],
    };

    let (asked, result) = drive(
        toplevel_for(installable, Vec::new(), None, Some(String::from("missing-host"))),
        &system_nix(),
    );
    let result = result.expect("toplevel_for should succeed");

    assert_eq!(
        to_args(&result),
        vec![
            String::from("--file"),
            SYSTEM_NIX.to_string(),
            String::from("systemConfigs.default"),
        ]
    );
    assert_eq!(asked, vec!["\"missing-host\"", "\"default\""]);
}

#[test]
fn test_toplevel_for_rejects_configuration_with_explicit_attribute_path() {
    let installable = Installable::Flake {
        reference: String::from("."),
        attribute: vec![String::from("systemConfigs"), String::from("default")],
    };

    let (asked, result) = drive(
        toplevel_for(installable, Vec::new(), Some(String::from("other")), None),
        &system_nix(),
    );

    assert!(result.is_err());
    let error = result.unwrap_err();
    assert_eq!(error, Error::ConfigurationWithAttribute);
    assert_eq!(
        error.message(),
        "Cannot use --configuration together with an installable attribute path"
    );
    assert_eq!(asked, vec!["parse other"]);
}

#[test]
fn a_flake_is_searched_under_the_system_first() {
    let nix = Nix {
        system: Some("x86_64-linux"),
        there: vec!["\"x86_64-linux\".\"default\"", "\"default\""],
    };
    let (asked, result) = drive(
        toplevel_for(flake(&[]), Vec::new(), None, Some(String::from("host.lan"))),
        &nix,
    );
    assert_eq!(
        asked,
        vec![
            "system",
            "\"x86_64-linux\".\"host.lan\"",
            "\"host.lan\"",
            "system",
            "\"x86_64-linux\".\"default\"",
        ]
    );
    assert_eq!(result, Ok(flake(&["systemConfigs", "x86_64-linux", "default"])));
}

#[test]
fn the_host_comes_before_the_default() {
    let nix = Nix {
        system: Some("x86_64-linux"),
        there: vec!["\"host\"", "\"x86_64-linux\".\"default\""],
    };
    let (_, result) = drive(
        toplevel_for(flake(&["systemConfigs"]), Vec::new(), None, Some(String::from("host"))),
        &nix,
    );
    assert_eq!(result, Ok(flake(&["systemConfigs", "host"])));
}

#[test]
fn an_unknown_system_leaves_the_bare_names() {
    let nix = Nix { system: None, there: vec![] };
    let (asked, result) =
        drive(toplevel_for(flake(&[]), Vec::new(), None, Some(String::from("host"))), &nix);
    assert_eq!(asked, vec!["system", "\"host\"", "system", "\"default\""]);
    assert_eq!(result, Err(Error::NoneInFlake));
    assert_eq!(
        Error::NoneInFlake.message(),
        "No suitable system-manager configuration found automatically. Use --configuration or pass an explicit flake attribute (e.g. '.#default')."
    );
}

#[test]
fn a_named_configuration_is_not_replaced() {
    let nix = Nix { system: Some("x86_64-linux"), there: vec!["\"default\""] };
    let (asked, result) = drive(
        toplevel_for(flake(&[]), Vec::new(), Some(String::from("a.b")), Some(String::from("host"))),
        &nix,
    );
    assert_eq!(
        asked,
        vec!["parse a.b", "system", "\"x86_64-linux\".\"a\".\"b\"", "\"a\".\"b\""]
    );
    let error = result.unwrap_err();
    assert_eq!(error, Error::ConfigurationNotFound(vec![String::from("a"), String::from("b")]));
    assert_eq!(
        error.message(),
        "Explicitly provided system-manager configuration not found: systemConfigs.a.b"
    );
}

#[test]
fn nothing_in_a_file_is_an_error() {
    let installable = Installable::Expression {
        expression: String::from("{}"),
        attribute: vec![],
    };
    let nix = Nix { system: None, there: vec![] };
    let (asked, result) =
        drive(toplevel_for(installable, Vec::new(), None, Some(String::from("host"))), &nix);
    assert_eq!(asked, vec!["\"host\"", "\"default\""]);
    assert_eq!(result, Err(Error::NoneInFile));
    assert_eq!(
        Error::NoneInFile.message(),
        "No suitable system-manager configuration found automatically. Use --configuration or pass an explicit attribute path."
    );
}

#[test]
fn a_path_below_a_configuration_is_too_specific() {
    let outcome = toplevel_for(flake(&["a", "b", "c"]), Vec::new(), None, None).outcome();
    let error = outcome.unwrap().unwrap_err();
    assert_eq!(
        error.message(),
        "Attribute path is too specific: systemConfigs.a.b.c. Please specify only the configuration name (e.g., '.#default')"
    );
    let full = flake(&["systemConfigs", "a", "b"]);
    assert_eq!(
        toplevel_for(full.clone(), Vec::new(), None, None).outcome(),
        Some(Ok(full))
    );
}

#[test]
fn a_search_needs_a_hostname() {
    let outcome = toplevel_for(flake(&[]), Vec::new(), None, None).outcome();
    let error = outcome.unwrap().unwrap_err();
    assert_eq!(error, Error::MissingHostname);
    assert_eq!(
        error.message(),
        "Missing hostname for system-manager configuration discovery"
    );
}

#[test]
fn the_name_of_a_configuration_must_be_a_path() {
    let nix = Nix { system: None, there: vec![] };
    let (_, result) =
        drive(toplevel_for(flake(&[]), Vec::new(), Some(String::from("\"a")), None), &nix);
    assert_eq!(result.unwrap_err().message(), "--configuration is not closed");
    let (_, result) = drive(toplevel_for(flake(&[]), Vec::new(), Some(String::new()), None), &nix);
    let error = result.unwrap_err();
    assert_eq!(error, Error::EmptyConfiguration);
    assert_eq!(error.message(), "--configuration cannot be empty");
}

#[test]
fn a_store_path_stands_for_itself() {
    let store = Installable::Store { path: OsText::from_text("/nix/store/x") };
    assert_eq!(
        toplevel_for(store.clone(), Vec::new(), None, None).outcome(),
        Some(Ok(store.clone()))
    );
    let nix = Nix { system: None, there: vec![] };
    let (asked, result) =
        drive(toplevel_for(store.clone(), Vec::new(), Some(String::from("x")), None), &nix);
    assert_eq!(asked, vec!["parse x"]);
    assert_eq!(result, Ok(store));
}

#[test]
fn a_lookup_that_fails_ends_the_search() {
    let search = toplevel_for(
        Installable::File { path: OsText::from_text("f"), attribute: vec![] },
        Vec::new(),
        None,
        Some(String::from("host")),
    );
    let error = search.resume(Answer::Nix(failed())).outcome().unwrap().unwrap_err();
    assert_eq!(
        error.chain(),
        vec![
            "Failed running nix eval to check for system-manager configuration systemConfigs.host",
            "nix command failed (exit status 1)\nstderr:\nerror: broken",
        ]
    );
}

#[test]
fn an_answer_to_another_question_is_not_accepted() {
    let search = toplevel_for(flake(&[]), Vec::new(), Some(String::from("a")), None);
    assert!(!search.accepts(&Answer::Nix(failed())));
    assert!(search.accepts(&Answer::Parsed(Ok(vec![]))));
    assert!(search.outcome().is_none());
}

#[test]
fn a_search_needs_no_more_than_six_answers() {
    let nix = Nix { system: Some("x86_64-linux"), there: vec![] };
    let (asked, result) =
        drive(toplevel_for(flake(&[]), Vec::new(), None, Some(String::from("host"))), &nix);
    assert_eq!(asked.len(), 6);
    assert_eq!(result, Err(Error::NoneInFlake));
}

#[test]
fn what_a_search_found_stands_for_itself() {
    let nix = Nix { system: Some("x86_64-linux"), there: vec!["\"x86_64-linux\".\"host\""] };
    let (_, result) =
        drive(toplevel_for(flake(&[]), Vec::new(), None, Some(String::from("host"))), &nix);
    let resolved = result.unwrap();
    assert_eq!(
        toplevel_for(resolved.clone(), Vec::new(), None, None).outcome(),
        Some(Ok(resolved))
    );
}

#[test]
fn a_deep_configuration_that_was_found_is_too_specific_to_be_given() {
    let nix = Nix {
        system: Some("x86_64-linux"),
        there: vec!["\"x86_64-linux\".\"a\".\"b\""],
    };
    let (_, result) =
        drive(toplevel_for(flake(&[]), Vec::new(), Some(String::from("a.b")), None), &nix);
    let resolved = result.unwrap();
    assert_eq!(resolved, flake(&["systemConfigs", "x86_64-linux", "a", "b"]));
    assert!(matches!(
        toplevel_for(resolved, Vec::new(), None, None).outcome(),
        Some(Err(Error::TooSpecific(_)))
    ));
}

#[test]
fn a_lookup_that_fails_decides_before_a_later_one_can() {
    let search = toplevel_for(
        Installable::File { path: OsText::from_text("f"), attribute: vec![] },
        Vec::new(),
        None,
        Some(String::from("host")),
    );
    let search = search.resume(Answer::Nix(printed("false")));
    let search = search.resume(Answer::Nix(NixRun::NotStarted(String::from("not found"))));
    assert!(search.is_finished());
    assert!(search.resolved().is_none());
    assert_eq!(
        search.outcome().unwrap().unwrap_err().chain(),
        vec![
            "Failed running nix eval to check for system-manager configuration systemConfigs.default",
            "Failed to run nix command",
            "not found",
        ]
    );
}

#[test]
fn a_lookup_that_would_fail_later_does_not_matter() {
    let search = toplevel_for(
        Installable::File { path: OsText::from_text("f"), attribute: vec![] },
        Vec::new(),
        None,
        Some(String::from("host")),
    );
    let search = search.resume(Answer::Nix(printed("true")));
    assert_eq!(
        search.outcome().unwrap().unwrap(),
        Installable::File {
            path: OsText::from_text("f"),
            attribute: vec![String::from("systemConfigs"), String::from("host")],
        }
    );
}

#[test]
fn a_search_begins_when_it_has_a_place_and_a_name() {
    let place = || Some(flake(&[]));
    let name = || Some(String::from("web"));
    let host = || Some(String::from("host"));
    let none: Vec<String> = Vec::new();
    assert_eq!(begin_if_ready(&None, &none, &name(), &host()), None);
    assert_eq!(begin_if_ready(&place(), &none, &None, &None), None);
    let store = Some(Installable::Store { path: OsText::from_text("/nix/store/x") });
    assert_eq!(begin_if_ready(&store, &none, &name(), &host()), None);
    assert_eq!(
        begin_if_ready(&place(), &none, &name(), &host()),
        Some(toplevel_for(flake(&[]), Vec::new(), name(), None))
    );
    assert_eq!(
        begin_if_ready(&place(), &vec![String::from("-L")], &None, &host()),
        Some(toplevel_for(flake(&[]), vec![OsText::from_text("-L")], None, host()))
    );
}
