//! What holds of every Nix command that looks something up, and of what it says.

use crate::attribute::{law_rendering_is_injective, rendered};
use crate::error::{ErrorModel, NixErrorModel};
use crate::installable::{InstallableModel, SourceModel};
use crate::nix::{
    captured, found, has_attribute, lookup, named_system, system_question, NixRun,
};
use crate::os_text::{displayed, utf8_complaint};
use crate::text::trimmed;
use crate::text_laws::law_encoding_tells_texts_apart;
use vstd::prelude::*;
use vstd::utf8::{decode_utf8, encode_utf8, valid_utf8};

verus! {

/// Law: the function that Nix applies asks for the path as it is written in a Nix
/// expression.
pub proof fn law_function_asks_for_the_path(candidate: Seq<Seq<char>>)
    ensures
        has_attribute(candidate).len() == "x: x ? "@.len() + rendered(candidate).len(),
        has_attribute(candidate).take("x: x ? "@.len() as int) == "x: x ? "@,
        has_attribute(candidate).skip("x: x ? "@.len() as int) == rendered(candidate),
{
    assert(has_attribute(candidate).take("x: x ? "@.len() as int) =~= "x: x ? "@);
    assert(has_attribute(candidate).skip("x: x ? "@.len() as int) =~= rendered(candidate));
}

/// Law: every lookup is an evaluation that hands on what the user gave, in front, and
/// then says what to apply.
pub proof fn law_lookup_hands_on_what_the_user_gave(
    source: SourceModel,
    candidate: Seq<Seq<char>>,
    extra_args: Seq<Seq<u8>>,
)
    ensures
        lookup(source, candidate, extra_args).kind is Eval,
        extra_args.is_prefix_of(lookup(source, candidate, extra_args).args),
        lookup(source, candidate, extra_args).args.len() >= extra_args.len() + 2,
        lookup(source, candidate, extra_args).args[extra_args.len() as int] == encode_utf8(
            "--apply"@,
        ),
        decode_utf8(lookup(source, candidate, extra_args).args[extra_args.len() as int + 1])
            == has_attribute(candidate),
{
    broadcast use vstd::utf8::encode_utf8_decode_utf8;

}

/// Law: a flake is asked by the reference that names it, about its `systemConfigs`,
/// and nothing stands behind the function to apply.
pub proof fn law_flake_is_asked_by_its_own_reference(
    reference: Seq<char>,
    candidate: Seq<Seq<char>>,
    extra_args: Seq<Seq<u8>>,
)
    ensures
        lookup(SourceModel::Flake { reference }, candidate, extra_args).installable == Some(
            InstallableModel::Flake { reference, attribute: seq!["systemConfigs"@] },
        ),
        lookup(SourceModel::Flake { reference }, candidate, extra_args).args.len()
            == extra_args.len() + 2,
{
}

/// Law: a file is asked by its path, about its `systemConfigs`.
pub proof fn law_file_is_asked_by_its_own_path(
    path: Seq<u8>,
    candidate: Seq<Seq<char>>,
    extra_args: Seq<Seq<u8>>,
)
    ensures
        lookup(SourceModel::File { path }, candidate, extra_args).installable is None,
        lookup(SourceModel::File { path }, candidate, extra_args).args.skip(
            extra_args.len() as int + 2,
        ) == seq![encode_utf8("--file"@), path, encode_utf8("systemConfigs"@)],
{
    assert(lookup(SourceModel::File { path }, candidate, extra_args).args.skip(
        extra_args.len() as int + 2,
    ) =~= seq![encode_utf8("--file"@), path, encode_utf8("systemConfigs"@)]);
}

/// Law: an expression is asked as it stands, about its `systemConfigs`.
pub proof fn law_expression_is_asked_as_it_stands(
    expression: Seq<char>,
    candidate: Seq<Seq<char>>,
    extra_args: Seq<Seq<u8>>,
)
    ensures
        lookup(SourceModel::Expression { expression }, candidate, extra_args).installable is None,
        lookup(SourceModel::Expression { expression }, candidate, extra_args).args.skip(
            extra_args.len() as int + 2,
        ) == seq![
            encode_utf8("--expr"@),
            encode_utf8(expression),
            encode_utf8("systemConfigs"@),
        ],
{
    assert(lookup(SourceModel::Expression { expression }, candidate, extra_args).args.skip(
        extra_args.len() as int + 2,
    ) =~= seq![encode_utf8("--expr"@), encode_utf8(expression), encode_utf8("systemConfigs"@)]);
}

/// Law: two lookups are the same command only if they look for the same path in the
/// same place, with the same arguments from the user.
pub proof fn law_lookups_are_told_apart(
    source: SourceModel,
    candidate: Seq<Seq<char>>,
    extra_args: Seq<Seq<u8>>,
    other_source: SourceModel,
    other_candidate: Seq<Seq<char>>,
    other_args: Seq<Seq<u8>>,
)
    requires
        lookup(source, candidate, extra_args) == lookup(other_source, other_candidate, other_args),
    ensures
        source == other_source,
        candidate == other_candidate,
        extra_args == other_args,
{
    let call = lookup(source, candidate, extra_args);
    let other = lookup(other_source, other_candidate, other_args);
    assert(call.installable is Some <==> source is Flake);
    assert(other.installable is Some <==> other_source is Flake);
    assert(call == other);
    assert(call.args.len() == extra_args.len() + (if source is Flake {
        2int
    } else {
        5
    }));
    assert(other.args.len() == other_args.len() + (if other_source is Flake {
        2int
    } else {
        5
    }));
    let n = extra_args.len() as int;
    assert(extra_args =~= call.args.take(n));
    assert(other_args =~= other.args.take(n));
    assert(call.args[n + 1] == encode_utf8(has_attribute(candidate)));
    assert(other.args[n + 1] == encode_utf8(has_attribute(other_candidate)));
    law_encoding_tells_texts_apart(has_attribute(candidate), has_attribute(other_candidate));
    law_function_asks_for_the_path(candidate);
    law_function_asks_for_the_path(other_candidate);
    law_rendering_is_injective(candidate, other_candidate);
    if !(source is Flake) {
        let option = call.args[n + 2];
        assert(option == other.args[n + 2]);
        reveal_strlit("--file");
        reveal_strlit("--expr");
        assert("--file"@[2] == 'f' && "--expr"@[2] == 'e');
        if source is File && other_source is Expression {
            law_encoding_tells_texts_apart("--file"@, "--expr"@);
        }
        if source is Expression && other_source is File {
            law_encoding_tells_texts_apart("--expr"@, "--file"@);
        }
        assert(call.args[n + 3] == other.args[n + 3]);
        if let SourceModel::Expression { expression } = source {
            law_encoding_tells_texts_apart(expression, other_source->expression);
        }
    }
}

/// Law: a run gives a text exactly when it ran, ended well and wrote UTF-8; and the
/// text is what it wrote, byte for byte.
pub proof fn law_text_is_what_was_written(run: NixRun)
    ensures
        captured(run) is Ok <==> (run matches NixRun::Ran(output) && output.success && valid_utf8(
            output.stdout@,
        )),
        captured(run) matches Ok(text) ==> encode_utf8(text) == run->Ran_0.stdout@,
{
    broadcast use vstd::utf8::decode_utf8_encode_utf8;

}

/// Law: a run that gives no text says why: it did not start, or it ended with a
/// failure, whatever it wrote, or it wrote something that is no text.
pub proof fn law_missing_text_has_its_reason(run: NixRun)
    ensures
        run matches NixRun::NotStarted(cause) ==> captured(run) == Err::<
            Seq<char>,
            NixErrorModel,
        >(NixErrorModel::NotStarted(cause@)),
        run matches NixRun::Ran(output) ==> {
            &&& !output.success ==> captured(run) == Err::<Seq<char>, NixErrorModel>(
                NixErrorModel::Failed {
                    status: output.status@,
                    stderr: trimmed(displayed(output.stderr@)),
                },
            )
            &&& output.success && !valid_utf8(output.stdout@) ==> captured(run) == Err::<
                Seq<char>,
                NixErrorModel,
            >(NixErrorModel::NotUtf8(utf8_complaint(output.stdout@)))
        },
{
}

/// Law: a path is there exactly when the lookup wrote `true`, with nothing but white
/// space around it; it is absent exactly when the lookup wrote anything else; and a
/// lookup that gave no text is reported with the path and the reason.
pub proof fn law_only_true_means_there(run: NixRun, candidate: Seq<Seq<char>>)
    ensures
        found(run, candidate) == Ok::<bool, ErrorModel>(true) <==> (captured(run) matches Ok(text)
            && trimmed(text) == "true"@),
        found(run, candidate) == Ok::<bool, ErrorModel>(false) <==> (captured(run) matches Ok(text)
            && trimmed(text) != "true"@),
        captured(run) matches Err(reason) ==> found(run, candidate) == Err::<bool, ErrorModel>(
            ErrorModel::LookupFailed { candidate, nix: reason },
        ),
{
}

/// Law: Nix is asked for its system by `nix config show system`.
pub proof fn law_system_is_asked_for_by_name()
    ensures
        system_question().kind is Config,
        system_question().installable is None,
        system_question().args == seq![encode_utf8("show"@), encode_utf8("system"@)],
{
}

/// Law: a system is known exactly when the command wrote something other than white
/// space, and it is that.
pub proof fn law_system_is_what_was_written(run: NixRun)
    ensures
        named_system(run) is Some <==> (captured(run) matches Ok(text) && trimmed(text).len() > 0),
        named_system(run) matches Some(name) ==> captured(run) matches Ok(text) && name == trimmed(
            text,
        ),
{
}

} // verus!
