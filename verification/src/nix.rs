//! The Nix commands that look up configurations, and what their output means.

use crate::attribute::{render_attr_path, rendered, SYSTEM_CONFIGS};
use crate::error::{Error, ErrorModel, NixError, NixErrorModel};
use crate::installable::{Installable, InstallableModel, Source, SourceModel};
use crate::os_text::{
    copy_args, decode_lossy, decode_strict, displayed, utf8_complaint, OsText,
};
use crate::text::{copy_texts, same_text, trim, trimmed};
use vstd::prelude::*;
use vstd::utf8::{decode_utf8, encode_utf8, valid_utf8};

verus! {

/// The subcommands of Nix that are used here.
#[derive(Debug, Clone, Copy, PartialEq, Eq, Structural)]
pub enum CommandKind {
    Eval,
    Config,
    Repl,
}

/// A Nix command: its subcommand, its arguments, and the installable whose own
/// arguments follow them.
#[derive(Debug, PartialEq, Eq)]
pub struct NixCall {
    pub kind: CommandKind,
    pub args: Vec<OsText>,
    pub installable: Option<Installable>,
}

/// The mathematical value of a [`NixCall`].
#[verifier::ext_equal]
pub struct NixCallModel {
    pub kind: CommandKind,
    pub args: Seq<Seq<u8>>,
    pub installable: Option<InstallableModel>,
}

impl View for NixCall {
    type V = NixCallModel;

    open spec fn view(&self) -> NixCallModel {
        NixCallModel {
            kind: self.kind,
            args: self.args.deep_view(),
            installable: self.installable.deep_view(),
        }
    }
}

/// What a command left behind when it ended.
#[derive(Debug, PartialEq, Eq)]
pub struct NixOutput {
    /// Whether the exit status means success.
    pub success: bool,
    /// The exit status as shown to the user.
    pub status: String,
    pub stdout: Vec<u8>,
    pub stderr: Vec<u8>,
}

/// How a run of a command went.
#[derive(Debug, PartialEq, Eq)]
pub enum NixRun {
    /// It could not be started, for the given reason.
    NotStarted(String),
    /// It ran to its end.
    Ran(NixOutput),
}

/// The text that a run of a command gave: what it wrote, if it succeeded and
/// wrote UTF-8.
pub open spec fn captured(run: NixRun) -> Result<Seq<char>, NixErrorModel> {
    match run {
        NixRun::NotStarted(cause) => Err(NixErrorModel::NotStarted(cause@)),
        NixRun::Ran(output) => if !output.success {
            Err(
                NixErrorModel::Failed {
                    status: output.status@,
                    stderr: trimmed(displayed(output.stderr@)),
                },
            )
        } else if valid_utf8(output.stdout@) {
            Ok(decode_utf8(output.stdout@))
        } else {
            Err(NixErrorModel::NotUtf8(utf8_complaint(output.stdout@)))
        },
    }
}

/// Says that a command failed, with what it wrote to its standard error.
pub fn command_failed(status: String, stderr: &str) -> (result: NixError)
    ensures
        result@ == (NixErrorModel::Failed { status: status@, stderr: trimmed(stderr@) }),
{
    NixError::Failed { status, stderr: trim(stderr) }
}

/// Takes the text out of a run of a command, or says why there is none.
pub fn capture_nix_stdout(run: NixRun) -> (result: Result<String, NixError>)
    ensures
        match result {
            Ok(text) => captured(run) == Ok::<Seq<char>, NixErrorModel>(text@),
            Err(error) => captured(run) == Err::<Seq<char>, NixErrorModel>(error@),
        },
{
    match run {
        NixRun::NotStarted(cause) => Err(NixError::NotStarted(cause)),
        NixRun::Ran(output) => {
            if !output.success {
                let stderr = decode_lossy(output.stderr.as_slice());
                return Err(command_failed(output.status, stderr.as_str()));
            }
            match decode_strict(output.stdout) {
                Ok(text) => Ok(text),
                Err(complaint) => Err(NixError::NotUtf8(complaint)),
            }
        },
    }
}

/// The function that Nix applies to a set to see whether it has the candidate.
pub open spec fn has_attribute(candidate: Seq<Seq<char>>) -> Seq<char> {
    "x: x ? "@ + rendered(candidate)
}

/// The arguments that every lookup begins with: those that the user gave, then
/// the function to apply.
pub open spec fn lookup_args(
    extra_args: Seq<Seq<u8>>,
    candidate: Seq<Seq<char>>,
) -> Seq<Seq<u8>> {
    extra_args + seq![encode_utf8("--apply"@), encode_utf8(has_attribute(candidate))]
}

/// Builds the arguments that every lookup begins with.
fn begin_lookup(extra_args: &Vec<OsText>, candidate: &[String]) -> (result: Vec<OsText>)
    ensures
        result.deep_view() == lookup_args(extra_args.deep_view(), candidate.deep_view()),
{
    let mut args = copy_args(extra_args);
    let ghost given = args.deep_view();
    let function = "x: x ? ".to_owned().concat(render_attr_path(candidate).as_str());
    args.push(OsText::from_text("--apply"));
    args.push(OsText::from_text(function.as_str()));
    assert(args.deep_view() =~= lookup_args(given, candidate.deep_view()));
    args
}

/// The command that asks a place whether it has the candidate among its
/// configurations.
pub open spec fn lookup(
    source: SourceModel,
    candidate: Seq<Seq<char>>,
    extra_args: Seq<Seq<u8>>,
) -> NixCallModel {
    let begun = lookup_args(extra_args, candidate);
    let set = encode_utf8(SYSTEM_CONFIGS@);
    match source {
        SourceModel::Flake { reference } => NixCallModel {
            kind: CommandKind::Eval,
            args: begun,
            installable: Some(
                InstallableModel::Flake { reference, attribute: seq![SYSTEM_CONFIGS@] },
            ),
        },
        SourceModel::File { path } => NixCallModel {
            kind: CommandKind::Eval,
            args: begun + seq![encode_utf8("--file"@), path, set],
            installable: None,
        },
        SourceModel::Expression { expression } => NixCallModel {
            kind: CommandKind::Eval,
            args: begun + seq![encode_utf8("--expr"@), encode_utf8(expression), set],
            installable: None,
        },
    }
}

/// Builds the command that asks a flake whether it has the candidate.
fn ask_flake_attr_exists(
    flake_reference: &str,
    candidate: &[String],
    extra_args: &Vec<OsText>,
) -> (result: NixCall)
    ensures
        result@ == lookup(
            SourceModel::Flake { reference: flake_reference@ },
            candidate.deep_view(),
            extra_args.deep_view(),
        ),
{
    let attribute = vec![SYSTEM_CONFIGS.to_owned()];
    assert(attribute.deep_view() =~= seq![SYSTEM_CONFIGS@]);
    NixCall {
        kind: CommandKind::Eval,
        args: begin_lookup(extra_args, candidate),
        installable: Some(
            Installable::Flake { reference: flake_reference.to_owned(), attribute },
        ),
    }
}

/// Builds the command that asks a file or an expression whether it has the
/// candidate; `option` says which of the two `source` is.
fn ask_file_or_expression_attr_exists(
    option: &str,
    source: OsText,
    candidate: &[String],
    extra_args: &Vec<OsText>,
) -> (result: NixCall)
    ensures
        result@ == (NixCallModel {
            kind: CommandKind::Eval,
            args: lookup_args(extra_args.deep_view(), candidate.deep_view()) + seq![
                encode_utf8(option@),
                source@,
                encode_utf8(SYSTEM_CONFIGS@),
            ],
            installable: None,
        }),
{
    let mut args = begin_lookup(extra_args, candidate);
    let ghost begun = args.deep_view();
    args.push(OsText::from_text(option));
    args.push(source);
    args.push(OsText::from_text(SYSTEM_CONFIGS));
    assert(args.deep_view() =~= begun + seq![
        encode_utf8(option@),
        source@,
        encode_utf8(SYSTEM_CONFIGS@),
    ]);
    NixCall { kind: CommandKind::Eval, args, installable: None }
}

/// Builds the command that asks a place whether it has the candidate among its
/// configurations.
pub fn ask_attr_exists(
    source: &Source,
    candidate: &[String],
    extra_args: &Vec<OsText>,
) -> (result: NixCall)
    ensures
        result@ == lookup(source@, candidate.deep_view(), extra_args.deep_view()),
{
    match source {
        Source::Flake { reference } => ask_flake_attr_exists(
            reference.as_str(),
            candidate,
            extra_args,
        ),
        Source::File { path } => ask_file_or_expression_attr_exists(
            "--file",
            path.clone(),
            candidate,
            extra_args,
        ),
        Source::Expression { expression } => ask_file_or_expression_attr_exists(
            "--expr",
            OsText::from_text(expression.as_str()),
            candidate,
            extra_args,
        ),
    }
}

/// What a run of a lookup says: Nix prints `true` where the candidate is there.
pub open spec fn found(
    run: NixRun,
    candidate: Seq<Seq<char>>,
) -> Result<bool, ErrorModel> {
    match captured(run) {
        Ok(text) => Ok(trimmed(text) == "true"@),
        Err(nix) => Err(ErrorModel::LookupFailed { candidate, nix }),
    }
}

/// Reads off a run of a lookup whether the candidate is there.
pub fn attr_exists(run: NixRun, candidate: &Vec<String>) -> (result: Result<bool, Error>)
    ensures
        match result {
            Ok(there) => found(run, candidate.deep_view()) == Ok::<bool, ErrorModel>(there),
            Err(error) => found(run, candidate.deep_view()) == Err::<bool, ErrorModel>(error@),
        },
{
    match capture_nix_stdout(run) {
        Ok(text) => Ok(same_text(trim(text.as_str()).as_str(), "true")),
        Err(nix) => Err(Error::LookupFailed { candidate: copy_texts(candidate), nix }),
    }
}

/// The command that asks Nix for the system that it runs on.
pub open spec fn system_question() -> NixCallModel {
    NixCallModel {
        kind: CommandKind::Config,
        args: seq![encode_utf8("show"@), encode_utf8("system"@)],
        installable: None,
    }
}

/// Builds the command that asks Nix for the system that it runs on.
pub fn ask_current_system() -> (result: NixCall)
    ensures
        result@ == system_question(),
{
    let args = vec![OsText::from_text("show"), OsText::from_text("system")];
    assert(args.deep_view() =~= seq![encode_utf8("show"@), encode_utf8("system"@)]);
    NixCall { kind: CommandKind::Config, args, installable: None }
}

/// The system that a run names: what it wrote, without white space at the ends.
/// A run that failed or wrote nothing names none.
pub open spec fn named_system(run: NixRun) -> Option<Seq<char>> {
    match captured(run) {
        Ok(text) => if trimmed(text).len() == 0 {
            None
        } else {
            Some(trimmed(text))
        },
        Err(_) => None,
    }
}

/// Reads off a run the system that Nix runs on.
pub fn get_current_system(run: NixRun) -> (result: Option<String>)
    ensures
        result.deep_view() == named_system(run),
{
    match capture_nix_stdout(run) {
        Ok(text) => {
            let name = trim(text.as_str());
            if name.as_str().is_empty() {
                None
            } else {
                Some(name)
            }
        },
        Err(_) => None,
    }
}

} // verus!
