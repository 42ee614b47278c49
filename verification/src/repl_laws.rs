//! What holds of every session of `nh system repl`, in terms of what the user asked for
//! and what has been found out.

use crate::args::SystemReplArgs;
use crate::error::ErrorModel;
use crate::installable::{Installable, InstallableModel, SourceModel};
use crate::os_text::encoded;
use crate::protocol::{Reply, RequestModel};
use crate::repl::{repl_begun, ReplModel, ReplStage, ReplStanding};
use crate::toplevel::{begun, Answer, ToplevelModel};
use crate::toplevel_laws::{answered, law_path_to_a_configuration_is_taken, law_search_stays_over};
use vstd::prelude::*;

verus! {

/// Law: what the search found is loaded, place and path alike, and nothing is added to
/// it, however it was searched for.
pub proof fn law_what_was_found_is_loaded(session: ReplModel, resolved: InstallableModel)
    requires
        session.search == Some(ToplevelModel::Finished(Ok(resolved))),
    ensures
        session.needs(ReplStage::Run) matches RequestModel::Repl(call) && {
            &&& call.kind is Repl
            &&& call.args.len() == 0
            &&& call.installable == Some(resolved)
        },
{
}

/// Law: two sessions that found the same load the same, whatever they were asked for.
pub proof fn law_loading_depends_on_what_was_found(session: ReplModel, other: ReplModel)
    requires
        session.search == other.search,
    ensures
        session.needs(ReplStage::Run) == other.needs(ReplStage::Run),
{
}

/// Law: the configuration is looked for by the name of this host; the search is asked
/// through the session as it asks.
pub proof fn law_session_asks_for_this_host(session: ReplModel, search: ToplevelModel)
    ensures
        session.needs(ReplStage::ResolveInstallable) is ResolveInstallable,
        session.needs(ReplStage::FindHostname) == (RequestModel::Hostname { host: None }),
        session.search == Some(search) && search.question() is Some ==> (session.needs(
            ReplStage::Search,
        ) matches RequestModel::Search(query) && Some(query) == search.question()),
{
}

/// Law: a session first learns what to load; a store path it refuses. Without a named
/// configuration it then asks for the name of the host. Then it searches, and loads
/// what it found.
pub proof fn law_session_is_at_the_first_step_not_done(session: ReplModel)
    requires
        session.failure is None,
    ensures
        session.standing() == ReplStanding::Asking(ReplStage::ResolveInstallable)
            <==> session.installable is None,
        session.installable matches Some(installable) && installable is Store ==> session.standing()
            == ReplStanding::Failed(ErrorModel::StoreInRepl),
        session.installable matches Some(installable) && !(installable is Store) ==> {
            &&& session.standing() == ReplStanding::Asking(ReplStage::FindHostname) <==> {
                &&& session.args.configuration is None
                &&& session.hostname is None
            }
            &&& session.args.configuration is Some || session.hostname is Some ==> {
                &&& session.standing() == ReplStanding::Asking(ReplStage::Search) <==> !(
                session.search matches Some(ToplevelModel::Finished(_)))
                &&& session.search matches Some(ToplevelModel::Finished(Err(error)))
                    ==> session.standing() == ReplStanding::Failed(error)
                &&& session.search matches Some(ToplevelModel::Finished(Ok(_))) ==> {
                    &&& session.standing() == ReplStanding::Asking(ReplStage::Run)
                        <==> session.exit is None
                    &&& session.exit matches Some((success, status)) ==> {
                        &&& success ==> session.standing() is Finished
                        &&& !success ==> session.standing() == ReplStanding::Failed(
                            ErrorModel::ReplFailed(status),
                        )
                    }
                }
            }
        },
{
}

/// Law: a session that failed stays failed, for the reason that it failed.
pub proof fn law_session_fails_for_its_reason(session: ReplModel, error: ErrorModel)
    requires
        session.failure == Some(error),
    ensures
        session.standing() == ReplStanding::Failed(error),
{
}

/// Law: a session takes a reply exactly if it is one to the step that it is at; the
/// search cannot be said to have failed, for it says so itself.
pub proof fn law_session_takes_its_own_replies(
    session: ReplModel,
    stage: ReplStage,
    reply: Reply,
)
    ensures
        session.standing() == ReplStanding::Asking(stage) ==> (session.takes(reply)
            <==> match reply {
            Reply::Failed(_) => !(stage is Search),
            Reply::Installable(_) => stage is ResolveInstallable,
            Reply::Text(_) => stage is FindHostname,
            Reply::Search(answer) => stage is Search && session.search->0.takes(answer),
            Reply::Exit { .. } => stage is Run,
            _ => false,
        }),
        !(session.standing() is Asking) ==> !session.takes(reply),
{
}

/// Law: a session begins with what the user asked for and with nothing known.
pub proof fn law_session_begins_with_nothing_known(args: SystemReplArgs)
    ensures
        repl_begun(args).args == args,
        repl_begun(args).installable is None,
        repl_begun(args).hostname is None,
        repl_begun(args).search is None,
        repl_begun(args).exit is None,
        repl_begun(args).failure is None,
{
}

/// Law: every reply is remembered as what it is, and changes nothing else.
pub proof fn law_session_remembers_replies(
    session: ReplModel,
    search: ToplevelModel,
    answer: Answer,
    success: bool,
    status: String,
    cause: String,
)
    ensures
        session.search == Some(search) ==> session.told(Reply::Search(answer)) == (ReplModel {
            search: Some(search.told(answer)),
            ..session
        }),
        session.told(Reply::Exit { success, status }) == (ReplModel {
            exit: Some((success, status@)),
            ..session
        }),
        session.told(Reply::Failed(cause)) == (ReplModel {
            failure: Some(ErrorModel::Failed { context: None, cause: cause@ }),
            ..session
        }),
{
}

/// Law: what the user wants loaded is remembered, and begins the search where the user
/// gave a name; and the name of the host is remembered, and begins the search where it
/// is known what is loaded. A store path begins none.
pub proof fn law_session_begins_its_search(
    session: ReplModel,
    installable: Installable,
    host: String,
)
    requires
        session.search is None,
    ensures
        ({
            let next = session.told(Reply::Installable(installable));
            let name = session.args.configuration.deep_view();
            &&& next == (ReplModel {
                installable: Some(installable@),
                search: next.search,
                ..session
            })
            &&& installable is Store ==> next.search is None
            &&& !(installable is Store) && name is Some ==> next.search == Some(
                begun(installable@, encoded(session.args.extra_args.deep_view()), name, None),
            )
            &&& !(installable is Store) && name is None && session.hostname is Some
                ==> next.search == Some(
                begun(
                    installable@,
                    encoded(session.args.extra_args.deep_view()),
                    None,
                    session.hostname,
                ),
            )
            &&& name is None && session.hostname is None ==> next.search is None
        }),
        ({
            let next = session.told(Reply::Text(host));
            let name = session.args.configuration.deep_view();
            &&& next == (ReplModel { hostname: Some(host@), search: next.search, ..session })
            &&& session.installable is None ==> next.search is None
            &&& session.installable matches Some(place) ==> {
                &&& place is Store ==> next.search is None
                &&& !(place is Store) && name is None ==> next.search == Some(
                    begun(
                        place,
                        encoded(session.args.extra_args.deep_view()),
                        None,
                        Some(host@),
                    ),
                )
                &&& !(place is Store) && name is Some ==> next.search == Some(
                    begun(place, encoded(session.args.extra_args.deep_view()), name, None),
                )
            }
        }),
{
}

/// The search for what the user asked for, at its beginning.
pub open spec fn asked_search(session: ReplModel) -> ToplevelModel {
    begun(
        session.installable->0,
        encoded(session.args.extra_args.deep_view()),
        session.args.configuration.deep_view(),
        if session.args.configuration is Some {
            None
        } else {
            session.hostname
        },
    )
}

/// Whether the search of a session is the one for what the user asked for, as far as
/// it has been answered.
pub open spec fn searches_as_asked(session: ReplModel) -> bool {
    session.search matches Some(search) ==> exists|answers|
        search == #[trigger] answered(asked_search(session), answers)
}

/// Law: the search of a session is the one for what the user asked for, at every step.
pub proof fn law_session_searches_as_asked(session: ReplModel, reply: Reply)
    requires
        session.searches(),
        searches_as_asked(session),
        session.takes(reply),
    ensures
        searches_as_asked(session.told(reply)),
{
    let next = session.told(reply);
    match reply {
        Reply::Search(answer) => {
            let answers = choose|answers| session.search->0 == #[trigger] answered(
                asked_search(session),
                answers,
            );
            assert(answers.push(answer).drop_last() =~= answers);
            assert(next.search->0 == answered(asked_search(next), answers.push(answer)));
        },
        Reply::Installable(_) => {
            if next.search is Some {
                assert(next.search->0 == answered(asked_search(next), seq![]));
            }
        },
        Reply::Text(_) => {
            if next.search is Some {
                assert(next.search->0 == answered(asked_search(next), seq![]));
            }
        },
        _ => {
            assert(asked_search(next) == asked_search(session));
        },
    }
}

/// Law: where the user names a configuration by its attribute path, that is what is
/// loaded, with `systemConfigs` in front where the user left it out.
pub proof fn law_named_path_is_loaded(
    session: ReplModel,
    source: SourceModel,
    given: Seq<Seq<char>>,
)
    requires
        session.searches(),
        searches_as_asked(session),
        session.standing() == ReplStanding::Asking(ReplStage::Run),
        session.args.configuration is None,
        session.installable == Some(source.at(given)),
        given.len() > 0,
        given[0] == "systemConfigs"@ ==> 2 <= given.len() <= 3,
        given[0] != "systemConfigs"@ ==> given.len() <= 2,
    ensures
        session.needs(ReplStage::Run) matches RequestModel::Repl(call) && call.installable == Some(
            source.at(
                if given[0] == "systemConfigs"@ {
                    given
                } else {
                    seq!["systemConfigs"@] + given
                },
            ),
        ),
{
    let answers = choose|answers| session.search->0 == #[trigger] answered(
        asked_search(session),
        answers,
    );
    law_path_to_a_configuration_is_taken(
        source,
        given,
        encoded(session.args.extra_args.deep_view()),
        session.hostname,
    );
    let asked = source.at(
        if given[0] == "systemConfigs"@ {
            given
        } else {
            seq!["systemConfigs"@] + given
        },
    );
    assert(asked_search(session) == ToplevelModel::Finished(Ok(asked)));
    law_search_stays_over(Ok(asked), answers);
    law_what_was_found_is_loaded(session, asked);
}

} // verus!
