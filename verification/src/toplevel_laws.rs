//! What holds of every search for a configuration.

use crate::attribute::{candidates, SYSTEM_CONFIGS};
use crate::error::ErrorModel;
use crate::installable::{InstallableModel, SourceModel};
use crate::nix::{found, lookup, named_system, system_question, NixCallModel, NixRun};
use crate::os_text::encoded;
use crate::toplevel::{
    begun, begun_if_ready, opened, placed, scoped, Answer, QueryModel, Search, ToplevelModel,
    MAX_SYSTEM_ATTR_DEPTH,
};
use vstd::prelude::*;

verus! {

impl ToplevelModel {
    /// Whether a search that is under way has something to ask.
    pub open spec fn well_formed(self) -> bool {
        self matches ToplevelModel::Searching(search) ==> search.well_formed()
    }

    /// How many answers the search can still need.
    pub open spec fn effort(self) -> nat {
        match self {
            ToplevelModel::Parsing { .. } => 4,
            ToplevelModel::Searching(search) => search.attempts.len() + search.later.len() * (
            if search.source is Flake {
                3nat
            } else {
                1nat
            }),
            ToplevelModel::Finished(_) => 0,
        }
    }
}

/// Law: a search that has begun always has something to ask until it is over,
/// and needs no more than six answers in all.
pub proof fn law_search_begins(
    installable: InstallableModel,
    extra_args: Seq<Seq<u8>>,
    name: Option<Seq<char>>,
    hostname: Option<Seq<char>>,
)
    ensures
        begun(installable, extra_args, name, hostname).well_formed(),
        begun(installable, extra_args, name, hostname).effort() <= 6,
{
}

/// Law: every answer brings a search nearer to its end, and leaves it with
/// something to ask until it is over.
pub proof fn law_search_ends(m: ToplevelModel, answer: Answer)
    requires
        m.well_formed(),
        m.takes(answer),
    ensures
        m.told(answer).well_formed(),
        m.told(answer).effort() < m.effort(),
        m.told(answer).effort() == 0 ==> m.told(answer) is Finished,
{
}

/// The first of the paths that decides a search: one that is there, or one of which
/// Nix cannot say whether it is.
pub open spec fn first_decisive(
    paths: Seq<Seq<Seq<char>>>,
    says: spec_fn(Seq<Seq<char>>) -> Result<bool, ErrorModel>,
) -> Option<Seq<Seq<char>>>
    decreases paths.len(),
{
    if paths.len() == 0 {
        None
    } else if says(paths[0]) != Ok::<bool, ErrorModel>(false) {
        Some(paths[0])
    } else {
        first_decisive(paths.drop_first(), says)
    }
}

/// The paths that stand for the candidates: in a flake each first under the
/// system, then by itself; elsewhere each by itself.
pub open spec fn search_order(
    in_flake: bool,
    system: Option<Seq<char>>,
    later: Seq<Seq<Seq<char>>>,
) -> Seq<Seq<Seq<char>>>
    decreases later.len(),
{
    if later.len() == 0 {
        seq![]
    } else {
        (if in_flake {
            scoped(system, later[0])
        } else {
            seq![later[0]]
        }) + search_order(in_flake, system, later.drop_first())
    }
}

/// What the search comes to when every command that it asks for runs as `run`
/// says.
pub open spec fn driven(
    m: ToplevelModel,
    run: spec_fn(NixCallModel) -> NixRun,
) -> Result<InstallableModel, ErrorModel>
    decreases m.effort(),
    when m.well_formed() && !(m is Parsing)
{
    match m {
        ToplevelModel::Finished(result) => result,
        ToplevelModel::Searching(_) => match m.question() {
            Some(QueryModel::Nix(call)) => driven(m.told(Answer::Nix(run(call))), run),
            _ => arbitrary(),
        },
        ToplevelModel::Parsing { .. } => arbitrary(),
    }
}

/// What a search among the paths `paths` should come to, in the given place and
/// under the given attribute path: the first path that is there, or why Nix cannot
/// say whether a path before it is; and `otherwise` where there is none of either.
pub open spec fn best(
    source: SourceModel,
    prefix: Seq<Seq<char>>,
    paths: Seq<Seq<Seq<char>>>,
    says: spec_fn(Seq<Seq<char>>) -> Result<bool, ErrorModel>,
    otherwise: ErrorModel,
) -> Result<InstallableModel, ErrorModel> {
    match first_decisive(paths, says) {
        Some(path) => match says(path) {
            Ok(_) => Ok(source.at(prefix + path)),
            Err(error) => Err(error),
        },
        None => Err(otherwise),
    }
}

/// Law: where Nix says the same of a path and of the system whenever it is
/// asked, the first path that is there, or of which Nix cannot say whether it is,
/// decides a search, in the order of the candidates, under the system before by
/// itself: the search finds the path, or fails for the reason that Nix gave. It
/// fails when there is no such path, too. What Nix would say of the paths after
/// that one does not matter.
pub proof fn law_search_finds_the_first(
    search: Search,
    run: spec_fn(NixCallModel) -> NixRun,
    system: Option<Seq<char>>,
    says: spec_fn(Seq<Seq<char>>) -> Result<bool, ErrorModel>,
)
    requires
        named_system(run(system_question())) == system,
        forall|path: Seq<Seq<char>>|
            found(run(#[trigger] lookup(search.source, path, search.extra_args)), path) == says(
                path,
            ),
    ensures
        driven(search.settled(), run) == best(
            search.source,
            search.prefix,
            search.attempts + search_order(search.source is Flake, system, search.later),
            says,
            search.exhausted(),
        ),
    decreases search.settled().effort(), search.attempts.len() + 2 * search.later.len(),
{
    let in_flake = search.source is Flake;
    let paths = search.attempts + search_order(in_flake, system, search.later);
    if search.attempts.len() > 0 {
        let path = search.attempts[0];
        let next = Search { attempts: search.attempts.drop_first(), ..search };
        let asked = lookup(search.source, path, search.extra_args);
        assert(found(run(asked), path) == says(path));
        assert(paths[0] == path);
        law_search_ends(search.settled(), Answer::Nix(run(search.question())));
        if says(path) == Ok::<bool, ErrorModel>(false) {
            assert(search.settled().told(Answer::Nix(run(search.question()))) == next.settled());
            assert(paths.drop_first() =~= next.attempts + search_order(
                in_flake,
                system,
                next.later,
            ));
            law_search_finds_the_first(next, run, system, says);
        }
    } else if search.later.len() == 0 {
        assert(paths =~= seq![]);
    } else if in_flake {
        let scope = scoped(system, search.later[0]);
        let next = Search { attempts: scope, later: search.later.drop_first(), ..search };
        assert(paths =~= next.attempts + search_order(in_flake, system, next.later));
        law_search_ends(search.settled(), Answer::Nix(run(search.question())));
        law_search_finds_the_first(next, run, system, says);
        assert(next.settled() == search.told_system(system));
    } else {
        let next = Search {
            attempts: seq![search.later[0]],
            later: search.later.drop_first(),
            ..search
        };
        assert(next.settled() == search.settled());
        assert(paths =~= next.attempts + search_order(in_flake, system, next.later));
        law_search_finds_the_first(next, run, system, says);
    }
}

/// Law: without a named configuration a flake is searched for the name of the
/// host and then for `default`, each first under the system that Nix names.
pub proof fn law_discovery_order_in_a_flake(host: Seq<char>, system: Option<Seq<char>>)
    ensures
        search_order(true, system, candidates(host)) == scoped(system, candidates(host)[0])
            + scoped(system, candidates(host)[1]),
{
    let all = candidates(host);
    assert(all.drop_first() =~= seq![all[1]]);
    assert(seq![all[1]].drop_first() =~= seq![]);
    reveal_with_fuel(search_order, 3);
    assert(search_order(true, system, all) =~= scoped(system, all[0]) + scoped(system, all[1]));
}

/// Law: without a named configuration a file or an expression is searched for
/// the name of the host and then for `default`.
pub proof fn law_discovery_order_elsewhere(host: Seq<char>, system: Option<Seq<char>>)
    ensures
        search_order(false, system, candidates(host)) == candidates(host),
{
    let all = candidates(host);
    assert(all.drop_first() =~= seq![all[1]]);
    assert(seq![all[1]].drop_first() =~= seq![]);
    reveal_with_fuel(search_order, 3);
    assert(search_order(false, system, all) =~= all);
}

/// Law: where no configuration is named and no attribute path is given, the
/// configuration of the host is found, under the system before by itself; where
/// there is none, `default` is; and where there is neither, the search fails. It
/// fails, too, at the first of these paths of which Nix cannot say whether it is
/// there.
pub proof fn law_discovery(
    source: SourceModel,
    extra_args: Seq<Seq<u8>>,
    host: Seq<char>,
    run: spec_fn(NixCallModel) -> NixRun,
    system: Option<Seq<char>>,
    says: spec_fn(Seq<Seq<char>>) -> Result<bool, ErrorModel>,
)
    requires
        named_system(run(system_question())) == system,
        forall|path: Seq<Seq<char>>|
            found(run(#[trigger] lookup(source, path, extra_args)), path) == says(path),
    ensures
        driven(begun(source.at(seq![]), extra_args, None, Some(host)), run) == best(
            source,
            seq![SYSTEM_CONFIGS@],
            search_order(source is Flake, system, candidates(host)),
            says,
            if source is Flake {
                ErrorModel::NoneInFlake
            } else {
                ErrorModel::NoneInFile
            },
        ),
{
    let search = Search {
        source,
        prefix: seq![SYSTEM_CONFIGS@],
        extra_args,
        named: None,
        attempts: seq![],
        later: candidates(host),
    };
    law_search_finds_the_first(search, run, system, says);
    let order = search_order(source is Flake, system, candidates(host));
    assert(search.attempts + order =~= order);
}

/// Law: a named configuration is found where it is, in a flake under the system
/// before by itself; it is never replaced by another one, and where it is
/// nowhere, or where Nix cannot say whether it is there before it is found, the
/// search fails.
pub proof fn law_named_configuration(
    source: SourceModel,
    extra_args: Seq<Seq<u8>>,
    named: Seq<Seq<char>>,
    hostname: Option<Seq<char>>,
    run: spec_fn(NixCallModel) -> NixRun,
    system: Option<Seq<char>>,
    says: spec_fn(Seq<Seq<char>>) -> Result<bool, ErrorModel>,
)
    requires
        named_system(run(system_question())) == system,
        forall|path: Seq<Seq<char>>|
            found(run(#[trigger] lookup(source, path, extra_args)), path) == says(path),
    ensures
        driven(opened(source.at(seq![]), extra_args, Some(named), hostname), run) == best(
            source,
            seq![SYSTEM_CONFIGS@],
            if source is Flake {
                scoped(system, named)
            } else {
                seq![named]
            },
            says,
            ErrorModel::ConfigurationNotFound(named),
        ),
{
    let search = Search {
        source,
        prefix: seq![SYSTEM_CONFIGS@],
        extra_args,
        named: Some(named),
        attempts: seq![],
        later: seq![named],
    };
    law_search_finds_the_first(search, run, system, says);
    let paths = if source is Flake {
        scoped(system, named)
    } else {
        seq![named]
    };
    assert(search.later.drop_first() =~= seq![]);
    reveal_with_fuel(search_order, 2);
    assert(search.attempts + search_order(source is Flake, system, search.later) =~= paths);
}

/// Law: a complete attribute path is taken as it stands, with `systemConfigs`
/// in front: nothing is asked, and the name of the host does not matter.
pub proof fn law_complete_path_needs_no_search(
    source: SourceModel,
    given: Seq<Seq<char>>,
    extra_args: Seq<Seq<u8>>,
    hostname: Option<Seq<char>>,
)
    requires
        given.len() > 0,
        given[0] == SYSTEM_CONFIGS@ ==> 2 <= given.len() <= MAX_SYSTEM_ATTR_DEPTH,
        given[0] != SYSTEM_CONFIGS@ ==> given.len() < MAX_SYSTEM_ATTR_DEPTH,
    ensures
        begun(source.at(given), extra_args, None, hostname) == ToplevelModel::Finished(
            Ok(
                source.at(
                    if given[0] == SYSTEM_CONFIGS@ {
                        given
                    } else {
                        seq![SYSTEM_CONFIGS@] + given
                    },
                ),
            ),
        ),
{
}

/// Law: a configuration that is named together with an attribute path is
/// refused, whatever its name, and nothing is looked up.
pub proof fn law_name_and_path_exclude_each_other(
    source: SourceModel,
    given: Seq<Seq<char>>,
    extra_args: Seq<Seq<u8>>,
    name: Seq<char>,
    hostname: Option<Seq<char>>,
    segments: Vec<String>,
)
    requires
        given.len() > 0,
        segments.len() > 0,
    ensures
        begun(source.at(given), extra_args, Some(name), hostname).told(
            Answer::Parsed(Ok(segments)),
        ) == ToplevelModel::Finished(Err(ErrorModel::ConfigurationWithAttribute)),
{
}

/// Law: a store path stands for itself, and nothing is looked up.
pub proof fn law_store_path_is_kept(
    path: Seq<u8>,
    extra_args: Seq<Seq<u8>>,
    named: Option<Seq<Seq<char>>>,
    hostname: Option<Seq<char>>,
)
    ensures
        opened(InstallableModel::Store { path }, extra_args, named, hostname)
            == ToplevelModel::Finished(Ok(InstallableModel::Store { path })),
{
}

/// Whether all the paths have a segment.
pub open spec fn none_empty(paths: Seq<Seq<Seq<char>>>) -> bool {
    forall|i: int| 0 <= i < paths.len() ==> (#[trigger] paths[i]).len() > 0
}

/// Whether the search stays in the place that `installable` names, and can only
/// end at a path that leads from `systemConfigs` to something in it.
pub open spec fn keeps(m: ToplevelModel, installable: InstallableModel) -> bool {
    match m {
        ToplevelModel::Parsing { installable: given, .. } => given == installable,
        ToplevelModel::Searching(search) => {
            &&& installable.parts() matches Some((source, _)) && search.source == source
            &&& search.prefix == seq![SYSTEM_CONFIGS@]
            &&& none_empty(search.attempts)
            &&& none_empty(search.later)
        },
        ToplevelModel::Finished(Ok(resolved)) => match installable.parts() {
            None => resolved == installable,
            Some((source, _)) => exists|path: Seq<Seq<char>>|
                resolved == #[trigger] source.at(path) && path.len() >= 2 && path[0]
                    == SYSTEM_CONFIGS@,
        },
        ToplevelModel::Finished(Err(_)) => true,
    }
}

/// Law: a search begins in the place that the installable names.
pub proof fn law_place_is_kept_at_first(
    installable: InstallableModel,
    extra_args: Seq<Seq<u8>>,
    name: Option<Seq<char>>,
    hostname: Option<Seq<char>>,
)
    ensures
        keeps(begun(installable, extra_args, name, hostname), installable),
{
    if name is None {
        lemma_opened_keeps(installable, extra_args, None, hostname);
    }
}

/// A search for a path that has segments stays in its place.
proof fn lemma_opened_keeps(
    installable: InstallableModel,
    extra_args: Seq<Seq<u8>>,
    named: Option<Seq<Seq<char>>>,
    hostname: Option<Seq<char>>,
)
    requires
        named matches Some(path) ==> path.len() > 0,
    ensures
        keeps(opened(installable, extra_args, named, hostname), installable),
{
    if let Some((source, given)) = installable.parts() {
        if let Ok(prefix) = placed(given, named) {
            assert(prefix[0] == SYSTEM_CONFIGS@);
            if prefix.len() == 1 {
                assert(prefix =~= seq![SYSTEM_CONFIGS@]);
            } else {
                assert(source.at(prefix) == source.at(prefix));
            }
        }
    }
}

/// Law: a search never leaves the place that the installable names: every
/// answer leaves it there, and where it ends with a configuration, that is
/// below `systemConfigs` in that place.
pub proof fn law_place_is_kept(
    m: ToplevelModel,
    installable: InstallableModel,
    answer: Answer,
)
    requires
        m.well_formed(),
        keeps(m, installable),
        m.takes(answer),
    ensures
        keeps(m.told(answer), installable),
{
    match m {
        ToplevelModel::Parsing { extra_args, hostname, .. } => {
            if let Answer::Parsed(Ok(path)) = answer {
                if path.len() > 0 {
                    lemma_opened_keeps(
                        installable,
                        extra_args,
                        Some(path.deep_view()),
                        hostname,
                    );
                }
            }
        },
        ToplevelModel::Searching(search) => {
            if search.attempts.len() > 0 {
                let path = search.prefix + search.attempts[0];
                assert(path[0] == SYSTEM_CONFIGS@);
                assert(search.source.at(path) == search.source.at(path));
                assert(search.attempts[0].len() > 0);
            } else {
                assert(search.later[0].len() > 0);
            }
        },
        _ => {},
    }
}

/// Law: what a search came to is what a search for it comes to, as long as it
/// is no deeper than a configuration can be.
pub proof fn law_search_is_stable(
    m: ToplevelModel,
    installable: InstallableModel,
    resolved: InstallableModel,
    extra_args: Seq<Seq<u8>>,
    hostname: Option<Seq<char>>,
)
    requires
        keeps(m, installable),
        m == ToplevelModel::Finished(Ok(resolved)),
        resolved.parts() matches Some((_, path)) ==> path.len() <= MAX_SYSTEM_ATTR_DEPTH,
    ensures
        begun(resolved, extra_args, None, hostname) == ToplevelModel::Finished(Ok(resolved)),
{
}

/// Law: under a system that Nix names, a flake is searched for the host's name there,
/// then for the bare name, then for `default` there, then for bare `default`; without
/// one, for the two bare names; and so is everything that is no flake.
pub proof fn law_search_order_is_spelled_out(host: Seq<char>, system: Seq<char>)
    ensures
        search_order(true, Some(system), candidates(host)) == seq![
            seq![system, host],
            seq![host],
            seq![system, "default"@],
            seq!["default"@],
        ],
        search_order(true, None, candidates(host)) == seq![seq![host], seq!["default"@]],
        search_order(false, Some(system), candidates(host)) == seq![seq![host], seq!["default"@]],
        search_order(false, None, candidates(host)) == seq![seq![host], seq!["default"@]],
{
    law_discovery_order_in_a_flake(host, Some(system));
    law_discovery_order_in_a_flake(host, None);
    law_discovery_order_elsewhere(host, Some(system));
    law_discovery_order_elsewhere(host, None);
    assert(seq![system] + seq![host] =~= seq![system, host]);
    assert(seq![system] + seq!["default"@] =~= seq![system, "default"@]);
    assert(search_order(true, Some(system), candidates(host)) =~= seq![
        seq![system, host],
        seq![host],
        seq![system, "default"@],
        seq!["default"@],
    ]);
    assert(search_order(true, None, candidates(host)) =~= seq![seq![host], seq!["default"@]]);
}

/// Law: a named configuration is looked for under the system that Nix names and then
/// by itself, and only by itself where Nix names none.
pub proof fn law_named_configuration_is_tried_under_the_system(
    system: Seq<char>,
    named: Seq<Seq<char>>,
)
    ensures
        scoped(Some(system), named).len() == 2,
        scoped(Some(system), named)[0].len() == named.len() + 1,
        scoped(Some(system), named)[0][0] == system,
        scoped(Some(system), named)[0].drop_first() == named,
        scoped(Some(system), named)[1] == named,
        scoped(None, named) == seq![named],
{
    assert(scoped(Some(system), named)[0].drop_first() =~= named);
}

/// Law: a name that the user gave is taken apart before anything else is asked, and
/// as it was given; nothing else is taken for an answer.
pub proof fn law_name_is_taken_apart_first(
    installable: InstallableModel,
    extra_args: Seq<Seq<u8>>,
    name: Seq<char>,
    hostname: Option<Seq<char>>,
    answer: Answer,
)
    ensures
        begun(installable, extra_args, Some(name), hostname).question() == Some(
            QueryModel::ParseAttribute(name),
        ),
        begun(installable, extra_args, Some(name), hostname).takes(answer) <==> answer is Parsed,
{
}

/// Law: a name that cannot be taken apart, or has nothing in it, ends the search, and
/// the user is told which of the two it was.
pub proof fn law_bad_name_ends_the_search(
    installable: InstallableModel,
    extra_args: Seq<Seq<u8>>,
    name: Seq<char>,
    hostname: Option<Seq<char>>,
    cause: String,
    nothing: Vec<String>,
)
    requires
        nothing.len() == 0,
    ensures
        begun(installable, extra_args, Some(name), hostname).told(Answer::Parsed(Err(cause)))
            == ToplevelModel::Finished(Err(ErrorModel::InvalidConfiguration(cause@))),
        begun(installable, extra_args, Some(name), hostname).told(Answer::Parsed(Ok(nothing)))
            == ToplevelModel::Finished(Err(ErrorModel::EmptyConfiguration)),
{
}

/// Law: the configuration that a user names is looked for by all the segments of its
/// name, with all that the user wants handed on, in the place that the user names;
/// the name of the host does not matter.
pub proof fn law_name_given_by_the_user_is_looked_for(
    source: SourceModel,
    extra_args: Seq<Seq<u8>>,
    name: Seq<char>,
    hostname: Option<Seq<char>>,
    segments: Vec<String>,
    run: spec_fn(NixCallModel) -> NixRun,
    system: Option<Seq<char>>,
    says: spec_fn(Seq<Seq<char>>) -> Result<bool, ErrorModel>,
)
    requires
        segments.len() > 0,
        named_system(run(system_question())) == system,
        forall|path: Seq<Seq<char>>|
            found(run(#[trigger] lookup(source, path, extra_args)), path) == says(path),
    ensures
        driven(
            begun(source.at(seq![]), extra_args, Some(name), hostname).told(
                Answer::Parsed(Ok(segments)),
            ),
            run,
        ) == best(
            source,
            seq!["systemConfigs"@],
            if source is Flake {
                scoped(system, segments.deep_view())
            } else {
                seq![segments.deep_view()]
            },
            says,
            ErrorModel::ConfigurationNotFound(segments.deep_view()),
        ),
{
    law_named_configuration(
        source,
        extra_args,
        segments.deep_view(),
        hostname,
        run,
        system,
        says,
    );
}

/// Law: `systemConfigs` alone is as good as no attribute path, unless a configuration
/// is named.
pub proof fn law_bare_set_is_as_good_as_nothing(
    source: SourceModel,
    extra_args: Seq<Seq<u8>>,
    hostname: Option<Seq<char>>,
)
    ensures
        begun(source.at(seq!["systemConfigs"@]), extra_args, None, hostname) == begun(
            source.at(seq![]),
            extra_args,
            None,
            hostname,
        ),
{
}

/// Law: an attribute path that reaches below a configuration is refused and named as
/// it would have been taken; such are the paths of more than two segments, and those of
/// more than three that begin with `systemConfigs`.
pub proof fn law_path_below_a_configuration_is_refused(
    source: SourceModel,
    given: Seq<Seq<char>>,
    extra_args: Seq<Seq<u8>>,
    hostname: Option<Seq<char>>,
)
    requires
        given.len() > 0,
    ensures
        given[0] == "systemConfigs"@ && given.len() > 3 ==> begun(
            source.at(given),
            extra_args,
            None,
            hostname,
        ) == ToplevelModel::Finished(Err(ErrorModel::TooSpecific(given))),
        given[0] != "systemConfigs"@ && given.len() > 2 ==> begun(
            source.at(given),
            extra_args,
            None,
            hostname,
        ) == ToplevelModel::Finished(
            Err(ErrorModel::TooSpecific(seq!["systemConfigs"@] + given)),
        ),
{
}

/// Law: an attribute path that names a configuration is taken as it stands, with
/// `systemConfigs` in front where it was left out: such are the paths of one or two
/// segments, and those of two or three that begin with `systemConfigs`.
pub proof fn law_path_to_a_configuration_is_taken(
    source: SourceModel,
    given: Seq<Seq<char>>,
    extra_args: Seq<Seq<u8>>,
    hostname: Option<Seq<char>>,
)
    ensures
        2 <= given.len() <= 3 && given[0] == "systemConfigs"@ ==> begun(
            source.at(given),
            extra_args,
            None,
            hostname,
        ) == ToplevelModel::Finished(Ok(source.at(given))),
        1 <= given.len() <= 2 && given[0] != "systemConfigs"@ ==> begun(
            source.at(given),
            extra_args,
            None,
            hostname,
        ) == ToplevelModel::Finished(Ok(source.at(seq!["systemConfigs"@] + given))),
{
}

/// Law: a search that has nothing to go by ends before anything is asked.
pub proof fn law_search_needs_a_name(source: SourceModel, extra_args: Seq<Seq<u8>>)
    ensures
        begun(source.at(seq![]), extra_args, None, None) == ToplevelModel::Finished(
            Err(ErrorModel::MissingHostname),
        ),
{
}

/// Law: a store path stands for itself with or without a name, once the name has been
/// taken apart.
pub proof fn law_store_path_is_never_searched(
    path: Seq<u8>,
    extra_args: Seq<Seq<u8>>,
    name: Seq<char>,
    hostname: Option<Seq<char>>,
    segments: Vec<String>,
)
    requires
        segments.len() > 0,
    ensures
        begun(InstallableModel::Store { path }, extra_args, None, hostname)
            == ToplevelModel::Finished(Ok(InstallableModel::Store { path })),
        begun(InstallableModel::Store { path }, extra_args, Some(name), hostname).told(
            Answer::Parsed(Ok(segments)),
        ) == ToplevelModel::Finished(Ok(InstallableModel::Store { path })),
{
}

/// Law: a search that is under way asks for a run of Nix and takes nothing else for an
/// answer; one that is over asks for nothing and takes nothing.
pub proof fn law_search_takes_what_it_asked_for(
    search: Search,
    result: Result<InstallableModel, ErrorModel>,
    answer: Answer,
)
    ensures
        ToplevelModel::Searching(search).question() matches Some(query) && query is Nix,
        ToplevelModel::Searching(search).takes(answer) <==> answer is Nix,
        ToplevelModel::Finished(result).question() is None,
        !ToplevelModel::Finished(result).takes(answer),
{
}

/// Law: a search begins as soon as there are a place to search and a name to go by,
/// and not before; what the user wants handed on is handed on, and a name that the user
/// gave makes that of the host irrelevant.
pub proof fn law_search_begins_with_a_place_and_a_name(
    installable: InstallableModel,
    extra_args: Seq<Seq<char>>,
    name: Seq<char>,
    host: Seq<char>,
    any_name: Option<Seq<char>>,
    any_host: Option<Seq<char>>,
)
    ensures
        begun_if_ready(None, extra_args, any_name, any_host) is None,
        installable is Store ==> begun_if_ready(
            Some(installable),
            extra_args,
            any_name,
            any_host,
        ) is None,
        begun_if_ready(Some(installable), extra_args, None, None) is None,
        !(installable is Store) ==> begun_if_ready(
            Some(installable),
            extra_args,
            Some(name),
            any_host,
        ) == Some(begun(installable, encoded(extra_args), Some(name), None)),
        !(installable is Store) ==> begun_if_ready(
            Some(installable),
            extra_args,
            None,
            Some(host),
        ) == Some(begun(installable, encoded(extra_args), None, Some(host))),
{
}

/// Law: one answer moves a search by one step. Where the system was asked for, the
/// next candidate is to be looked up under it and by itself. Where a path was looked up,
/// the search ends at it, goes on without it, or fails with it.
pub proof fn law_answer_moves_a_search_by_one_step(search: Search, run: NixRun)
    requires
        search.well_formed(),
    ensures
        search.attempts.len() == 0 ==> (ToplevelModel::Searching(search).told(Answer::Nix(run))
            matches ToplevelModel::Searching(next) && next == (Search {
            attempts: match named_system(run) {
                Some(system) => seq![seq![system] + search.later[0], search.later[0]],
                None => seq![search.later[0]],
            },
            later: search.later.drop_first(),
            ..search
        })),
        search.attempts.len() > 0 ==> match found(run, search.attempts[0]) {
            Ok(true) => ToplevelModel::Searching(search).told(Answer::Nix(run))
                == ToplevelModel::Finished(
                Ok(search.source.at(search.prefix + search.attempts[0])),
            ),
            Ok(false) => search.attempts.len() > 1 ==> ToplevelModel::Searching(search).told(
                Answer::Nix(run),
            ) == ToplevelModel::Searching(
                Search { attempts: search.attempts.drop_first(), ..search },
            ),
            Err(error) => ToplevelModel::Searching(search).told(Answer::Nix(run))
                == ToplevelModel::Finished(Err(error)),
        },
{
}

/// Law: a search that has looked up all the paths of a candidate goes on with the next
/// candidate, and fails when there is none.
pub proof fn law_search_goes_through_the_candidates(search: Search, run: NixRun)
    requires
        search.attempts.len() == 1,
        found(run, search.attempts[0]) == Ok::<bool, ErrorModel>(false),
    ensures
        search.later.len() > 0 ==> (ToplevelModel::Searching(search).told(Answer::Nix(run)) matches
            ToplevelModel::Searching(next) && next == (if search.source is Flake {
            Search { attempts: seq![], ..search }
        } else {
            Search { attempts: seq![search.later[0]], later: search.later.drop_first(), ..search }
        })),
        search.later.len() == 0 ==> ToplevelModel::Searching(search).told(Answer::Nix(run))
            == ToplevelModel::Finished(
            Err(
                match search.named {
                    Some(path) => ErrorModel::ConfigurationNotFound(path),
                    None => if search.source is Flake {
                        ErrorModel::NoneInFlake
                    } else {
                        ErrorModel::NoneInFile
                    },
                },
            ),
        ),
{
    assert(search.attempts.drop_first() =~= seq![]);
}

/// The search, once it has been told all the answers, one after the other.
pub open spec fn answered(m: ToplevelModel, answers: Seq<Answer>) -> ToplevelModel
    decreases answers.len(),
{
    if answers.len() == 0 {
        m
    } else {
        answered(m, answers.drop_last()).told(answers.last())
    }
}

/// Law: a search that is over stays as it is, whatever it is told.
pub proof fn law_search_stays_over(
    result: Result<InstallableModel, ErrorModel>,
    answers: Seq<Answer>,
)
    ensures
        answered(ToplevelModel::Finished(result), answers) == ToplevelModel::Finished(result),
    decreases answers.len(),
{
    if answers.len() > 0 {
        law_search_stays_over(result, answers.drop_last());
    }
}

} // verus!
