//! Which attribute of an installable is the configuration that is meant.
//!
//! The search puts questions to the outside one at a time and is told the
//! answers: [`toplevel_for`] begins it, [`Toplevel::question`] says what it wants
//! to know, [`Toplevel::resume`] takes the answer, and [`Toplevel::outcome`] is
//! what it came to.

use crate::attribute::{candidates, configuration_candidates, SYSTEM_CONFIGS};
use crate::error::{Error, ErrorModel};
use crate::installable::{Installable, InstallableModel, Source, SourceModel};
use crate::nix::{
    ask_attr_exists, ask_current_system, attr_exists, found, get_current_system, lookup,
    named_system, system_question, NixCall, NixCallModel, NixRun,
};
use crate::os_text::{encode_all, encoded, OsText};
use crate::text::{copy_option, copy_texts, same_text};
use vstd::prelude::*;

verus! {

/// The longest attribute path that can name a configuration: the set of the
/// configurations, a system, and a name.
pub const MAX_SYSTEM_ATTR_DEPTH: usize = 3;

/// Something that the search wants to know.
#[derive(Debug, PartialEq, Eq)]
pub enum Query {
    /// The segments of a name that the user gave.
    ParseAttribute(String),
    /// How a run of the command goes.
    Nix(NixCall),
}

/// The mathematical value of a [`Query`].
#[verifier::ext_equal]
pub enum QueryModel {
    ParseAttribute(Seq<char>),
    Nix(NixCallModel),
}

impl View for Query {
    type V = QueryModel;

    open spec fn view(&self) -> QueryModel {
        match *self {
            Query::ParseAttribute(name) => QueryModel::ParseAttribute(name@),
            Query::Nix(call) => QueryModel::Nix(call@),
        }
    }
}

impl DeepView for Query {
    type V = QueryModel;

    open spec fn deep_view(&self) -> QueryModel {
        self@
    }
}

/// What the search is told.
#[derive(Debug, PartialEq, Eq)]
pub enum Answer {
    /// The segments of the name, or why it has none.
    Parsed(Result<Vec<String>, String>),
    /// How the run went.
    Nix(NixRun),
}

/// A search for a configuration in a place that has more than one to offer.
#[verifier::ext_equal]
pub struct Search {
    /// The place.
    pub source: SourceModel,
    /// The attribute path under which the configurations are.
    pub prefix: Seq<Seq<char>>,
    /// What the user wants handed to every lookup.
    pub extra_args: Seq<Seq<u8>>,
    /// The configuration that the user named.
    pub named: Option<Seq<Seq<char>>>,
    /// The paths that are to be looked up now, in this order.
    pub attempts: Seq<Seq<Seq<char>>>,
    /// The candidates whose turn comes after them.
    pub later: Seq<Seq<Seq<char>>>,
}

/// Where the search stands.
#[verifier::ext_equal]
pub enum ToplevelModel {
    /// The name that the user gave is to be taken apart.
    Parsing {
        name: Seq<char>,
        installable: InstallableModel,
        extra_args: Seq<Seq<u8>>,
        hostname: Option<Seq<char>>,
    },
    /// Candidates are being looked up.
    Searching(Search),
    /// The search is over.
    Finished(Result<InstallableModel, ErrorModel>),
}

/// Where the configurations are, when the user gave the attribute path `given`:
/// under `systemConfigs`, which need not be spelled out. A named configuration
/// leaves no room for a path, and no path may reach below a configuration.
pub open spec fn placed(
    given: Seq<Seq<char>>,
    named: Option<Seq<Seq<char>>>,
) -> Result<Seq<Seq<char>>, ErrorModel> {
    if given.len() == 0 {
        Ok(seq![SYSTEM_CONFIGS@])
    } else if named is Some {
        Err(ErrorModel::ConfigurationWithAttribute)
    } else {
        let path = if given[0] == SYSTEM_CONFIGS@ {
            given
        } else {
            seq![SYSTEM_CONFIGS@] + given
        };
        if path.len() > MAX_SYSTEM_ATTR_DEPTH {
            Err(ErrorModel::TooSpecific(path))
        } else {
            Ok(path)
        }
    }
}

/// The paths under which a flake may keep a candidate: that of the system that
/// Nix runs on, when that is known, then the candidate itself.
pub open spec fn scoped(
    system: Option<Seq<char>>,
    candidate: Seq<Seq<char>>,
) -> Seq<Seq<Seq<char>>> {
    match system {
        Some(name) => seq![seq![name] + candidate, candidate],
        None => seq![candidate],
    }
}

impl Search {
    /// Why a search that found nothing failed.
    pub open spec fn exhausted(self) -> ErrorModel {
        match self.named {
            Some(path) => ErrorModel::ConfigurationNotFound(path),
            None => if self.source is Flake {
                ErrorModel::NoneInFlake
            } else {
                ErrorModel::NoneInFile
            },
        }
    }

    /// Goes on with the next candidate when the one before is used up. Only in a
    /// flake do the paths to look up depend on the system.
    pub open spec fn settled(self) -> ToplevelModel {
        if self.attempts.len() > 0 {
            ToplevelModel::Searching(self)
        } else if self.later.len() == 0 {
            ToplevelModel::Finished(Err(self.exhausted()))
        } else if self.source is Flake {
            ToplevelModel::Searching(self)
        } else {
            ToplevelModel::Searching(
                Search {
                    attempts: seq![self.later[0]],
                    later: self.later.drop_first(),
                    ..self
                },
            )
        }
    }

    /// The search, once it is known which system Nix runs on.
    pub open spec fn told_system(self, system: Option<Seq<char>>) -> ToplevelModel {
        ToplevelModel::Searching(
            Search {
                attempts: scoped(system, self.later[0]),
                later: self.later.drop_first(),
                ..self
            },
        )
    }

    /// The search, once it is known whether the path at its head is there.
    pub open spec fn told_there(self, there: bool) -> ToplevelModel {
        if there {
            ToplevelModel::Finished(Ok(self.source.at(self.prefix + self.attempts[0])))
        } else {
            (Search { attempts: self.attempts.drop_first(), ..self }).settled()
        }
    }

    /// Whether there is a path to look up, or a candidate in a flake whose paths
    /// are not known yet.
    pub open spec fn well_formed(self) -> bool {
        self.attempts.len() > 0 || (self.later.len() > 0 && self.source is Flake)
    }

    /// What the search wants to know next.
    pub open spec fn question(self) -> NixCallModel {
        if self.attempts.len() > 0 {
            lookup(self.source, self.attempts[0], self.extra_args)
        } else {
            system_question()
        }
    }
}

/// Where the search stands when the user's name, if there was one, has been
/// taken apart.
pub open spec fn opened(
    installable: InstallableModel,
    extra_args: Seq<Seq<u8>>,
    named: Option<Seq<Seq<char>>>,
    hostname: Option<Seq<char>>,
) -> ToplevelModel {
    match installable.parts() {
        None => ToplevelModel::Finished(Ok(installable)),
        Some((source, given)) => match placed(given, named) {
            Err(error) => ToplevelModel::Finished(Err(error)),
            Ok(prefix) => if prefix.len() != 1 {
                ToplevelModel::Finished(Ok(source.at(prefix)))
            } else {
                match (named, hostname) {
                    (Some(path), _) => (Search {
                        source,
                        prefix,
                        extra_args,
                        named,
                        attempts: seq![],
                        later: seq![path],
                    }).settled(),
                    (None, None) => ToplevelModel::Finished(Err(ErrorModel::MissingHostname)),
                    (None, Some(host)) => (Search {
                        source,
                        prefix,
                        extra_args,
                        named,
                        attempts: seq![],
                        later: candidates(host),
                    }).settled(),
                }
            },
        },
    }
}

/// Where the search stands at its beginning.
pub open spec fn begun(
    installable: InstallableModel,
    extra_args: Seq<Seq<u8>>,
    name: Option<Seq<char>>,
    hostname: Option<Seq<char>>,
) -> ToplevelModel {
    match name {
        Some(name) => ToplevelModel::Parsing { name, installable, extra_args, hostname },
        None => opened(installable, extra_args, None, hostname),
    }
}

impl ToplevelModel {
    /// What the search wants to know next; nothing when it is over.
    pub open spec fn question(self) -> Option<QueryModel> {
        match self {
            ToplevelModel::Parsing { name, .. } => Some(QueryModel::ParseAttribute(name)),
            ToplevelModel::Searching(search) => Some(QueryModel::Nix(search.question())),
            ToplevelModel::Finished(_) => None,
        }
    }

    /// Whether the answer is one to the question that the search has put.
    pub open spec fn takes(self, answer: Answer) -> bool {
        match self {
            ToplevelModel::Parsing { .. } => answer is Parsed,
            ToplevelModel::Searching(_) => answer is Nix,
            ToplevelModel::Finished(_) => false,
        }
    }

    /// Where the search stands when it has been told the answer.
    pub open spec fn told(self, answer: Answer) -> ToplevelModel {
        match (self, answer) {
            (
                ToplevelModel::Parsing { installable, extra_args, hostname, .. },
                Answer::Parsed(parsed),
            ) => match parsed {
                Err(cause) => ToplevelModel::Finished(
                    Err(ErrorModel::InvalidConfiguration(cause@)),
                ),
                Ok(path) => if path.len() == 0 {
                    ToplevelModel::Finished(Err(ErrorModel::EmptyConfiguration))
                } else {
                    opened(installable, extra_args, Some(path.deep_view()), hostname)
                },
            },
            (ToplevelModel::Searching(search), Answer::Nix(run)) => if search.attempts.len() > 0 {
                match found(run, search.attempts[0]) {
                    Ok(there) => search.told_there(there),
                    Err(error) => ToplevelModel::Finished(Err(error)),
                }
            } else {
                search.told_system(named_system(run))
            },
            _ => self,
        }
    }
}

/// How far the search has come.
#[derive(Debug, PartialEq, Eq)]
enum Progress {
    /// The name that the user gave is to be taken apart.
    Parsing {
        name: String,
        installable: Installable,
        extra_args: Vec<OsText>,
        hostname: Option<String>,
    },
    /// The system is asked for, to know the paths of the candidate.
    Scoping { hunt: Hunt, candidate: Vec<String>, later: Vec<Vec<String>> },
    /// The attempt is being looked up.
    Probing {
        hunt: Hunt,
        attempt: Vec<String>,
        attempts: Vec<Vec<String>>,
        later: Vec<Vec<String>>,
    },
    /// The search is over.
    Finished(Result<Installable, Error>),
}

/// What stays the same while candidates are looked up.
#[derive(Debug, PartialEq, Eq)]
struct Hunt {
    source: Source,
    prefix: Vec<String>,
    extra_args: Vec<OsText>,
    named: Option<Vec<String>>,
}

/// A search for the configuration that is meant.
#[derive(Debug, PartialEq, Eq)]
pub struct Toplevel {
    progress: Progress,
}

impl Hunt {
    /// The search with the given paths and candidates before it.
    spec fn searching(
        self,
        attempts: Seq<Seq<Seq<char>>>,
        later: Seq<Seq<Seq<char>>>,
    ) -> Search {
        Search {
            source: self.source@,
            prefix: self.prefix.deep_view(),
            extra_args: self.extra_args.deep_view(),
            named: self.named.deep_view(),
            attempts,
            later,
        }
    }
}

impl View for Toplevel {
    type V = ToplevelModel;

    closed spec fn view(&self) -> ToplevelModel {
        match self.progress {
            Progress::Parsing { name, installable, extra_args, hostname } =>
                ToplevelModel::Parsing {
                name: name@,
                installable: installable@,
                extra_args: extra_args.deep_view(),
                hostname: hostname.deep_view(),
            },
            Progress::Scoping { hunt, candidate, later } => ToplevelModel::Searching(
                hunt.searching(seq![], seq![candidate.deep_view()] + later.deep_view()),
            ),
            Progress::Probing { hunt, attempt, attempts, later } => ToplevelModel::Searching(
                hunt.searching(
                    seq![attempt.deep_view()] + attempts.deep_view(),
                    later.deep_view(),
                ),
            ),
            Progress::Finished(result) => ToplevelModel::Finished(
                match result {
                    Ok(installable) => Ok(installable@),
                    Err(error) => Err(error@),
                },
            ),
        }
    }
}

/// Finds where the configurations are, or says why the given path will not do.
fn place_attribute(given: Vec<String>, named: bool) -> (result: Result<Vec<String>, Error>)
    ensures
        forall|path: Option<Seq<Seq<char>>>|
            path is Some == named ==> match result {
                Ok(prefix) => #[trigger] placed(given.deep_view(), path) == Ok::<
                    Seq<Seq<char>>,
                    ErrorModel,
                >(prefix.deep_view()),
                Err(error) => placed(given.deep_view(), path) == Err::<
                    Seq<Seq<char>>,
                    ErrorModel,
                >(error@),
            },
{
    let ghost start = given.deep_view();
    let mut path = given;
    if path.len() == 0 {
        path.push(SYSTEM_CONFIGS.to_owned());
        assert(path.deep_view() =~= seq![SYSTEM_CONFIGS@]);
        return Ok(path);
    }
    if named {
        return Err(Error::ConfigurationWithAttribute);
    }
    if !same_text(path[0].as_str(), SYSTEM_CONFIGS) {
        path.insert(0, SYSTEM_CONFIGS.to_owned());
        assert(path.deep_view() =~= seq![SYSTEM_CONFIGS@] + start);
    }
    if path.len() > MAX_SYSTEM_ATTR_DEPTH {
        Err(Error::TooSpecific(path))
    } else {
        Ok(path)
    }
}

/// The list without its head.
proof fn lemma_deep_view_tail(before: Seq<Vec<String>>, after: Vec<Vec<String>>)
    requires
        before.len() > 0,
        after@ == before.remove(0),
    ensures
        after.deep_view() == Seq::new(before.len(), |i: int| before[i].deep_view()).drop_first(),
{
    assert(after.deep_view() =~= Seq::new(
        before.len(),
        |i: int| before[i].deep_view(),
    ).drop_first());
}

impl Hunt {
    /// Says why a search that found nothing failed.
    fn give_up(self) -> (result: Error)
        ensures
            forall|attempts: Seq<Seq<Seq<char>>>, later: Seq<Seq<Seq<char>>>|
                result@ == #[trigger] self.searching(attempts, later).exhausted(),
    {
        match self.named {
            Some(path) => Error::ConfigurationNotFound(path),
            None => match self.source {
                Source::Flake { .. } => Error::NoneInFlake,
                _ => Error::NoneInFile,
            },
        }
    }
}

/// Lists the paths under which a flake may keep a candidate.
fn scope_candidate(system: Option<String>, candidate: Vec<String>) -> (result: Vec<Vec<String>>)
    ensures
        result.deep_view() == scoped(system.deep_view(), candidate.deep_view()),
{
    let mut attempts: Vec<Vec<String>> = Vec::new();
    if let Some(name) = system {
        let mut path: Vec<String> = vec![name];
        let mut rest = copy_texts(&candidate);
        path.append(&mut rest);
        assert(path.deep_view() =~= seq![name@] + candidate.deep_view());
        attempts.push(path);
    }
    attempts.push(candidate);
    assert(attempts.deep_view() =~= scoped(system.deep_view(), candidate.deep_view()));
    attempts
}

impl Toplevel {
    /// A search that is over.
    fn finished(result: Result<Installable, Error>) -> (toplevel: Toplevel)
        ensures
            toplevel@ == ToplevelModel::Finished(
                match result {
                    Ok(installable) => Ok(installable@),
                    Err(error) => Err(error@),
                },
            ),
    {
        Toplevel { progress: Progress::Finished(result) }
    }

    /// Goes on with the paths that are left, then with the candidates that are
    /// left.
    fn settle(hunt: Hunt, attempts: Vec<Vec<String>>, later: Vec<Vec<String>>) -> (result: Toplevel)
        ensures
            result@ == hunt.searching(attempts.deep_view(), later.deep_view()).settled(),
    {
        let ghost all_attempts = attempts.deep_view();
        let ghost all_later = later.deep_view();
        let mut attempts = attempts;
        let mut later = later;
        if attempts.len() > 0 {
            let ghost before = attempts@;
            let attempt = attempts.remove(0);
            proof {
                lemma_deep_view_tail(before, attempts);
                assert(seq![attempt.deep_view()] + attempts.deep_view() =~= all_attempts);
            }
            return Toplevel { progress: Progress::Probing { hunt, attempt, attempts, later } };
        }
        if later.len() == 0 {
            return Toplevel::finished(Err(hunt.give_up()));
        }
        let ghost before = later@;
        let candidate = later.remove(0);
        proof {
            lemma_deep_view_tail(before, later);
            assert(seq![candidate.deep_view()] + later.deep_view() =~= all_later);
            assert(all_attempts =~= seq![]);
            assert(seq![candidate.deep_view()] + attempts.deep_view() =~= seq![all_later[0]]);
        }
        let progress = match hunt.source {
            Source::Flake { .. } => Progress::Scoping { hunt, candidate, later },
            _ => Progress::Probing { hunt, attempt: candidate, attempts, later },
        };
        Toplevel { progress }
    }

    /// Begins to look for a configuration, if the attribute path is not one.
    fn open(
        installable: Installable,
        extra_args: Vec<OsText>,
        named: Option<Vec<String>>,
        hostname: Option<String>,
    ) -> (result: Toplevel)
        ensures
            result@ == opened(
                installable@,
                extra_args.deep_view(),
                named.deep_view(),
                hostname.deep_view(),
            ),
    {
        let (source, given) = match installable {
            Installable::Flake { reference, attribute } => (Source::Flake { reference }, attribute),
            Installable::File { path, attribute } => (Source::File { path }, attribute),
            Installable::Expression { expression, attribute } => (
                Source::Expression { expression },
                attribute,
            ),
            Installable::Store { path } => {
                return Toplevel::finished(Ok(Installable::Store { path }));
            },
        };
        assert(installable@.parts() == Some((source@, given.deep_view())));
        let prefix = match place_attribute(given, named.is_some()) {
            Ok(prefix) => prefix,
            Err(error) => {
                assert(placed(given.deep_view(), named.deep_view()) == Err::<
                    Seq<Seq<char>>,
                    ErrorModel,
                >(error@));
                return Toplevel::finished(Err(error));
            },
        };
        assert(placed(given.deep_view(), named.deep_view()) == Ok::<Seq<Seq<char>>, ErrorModel>(
            prefix.deep_view(),
        ));
        if prefix.len() != 1 {
            return Toplevel::finished(Ok(source.at(prefix)));
        }
        let mut later: Vec<Vec<String>> = Vec::new();
        match &named {
            Some(path) => {
                later.push(copy_texts(path));
                assert(later.deep_view() =~= seq![path.deep_view()]);
            },
            None => {
                match &hostname {
                    None => {
                        return Toplevel::finished(Err(Error::MissingHostname));
                    },
                    Some(host) => {
                        let both = configuration_candidates(host.as_str());
                        later.push(copy_texts(&both[0]));
                        later.push(copy_texts(&both[1]));
                        assert(later.deep_view() =~= candidates(host@));
                    },
                }
            },
        }
        let attempts: Vec<Vec<String>> = Vec::new();
        assert(attempts.deep_view() =~= seq![]);
        Toplevel::settle(Hunt { source, prefix, extra_args, named }, attempts, later)
    }

    /// What the search wants to know next; nothing when it is over.
    pub fn question(&self) -> (result: Option<Query>)
        ensures
            result.deep_view() == self@.question(),
    {
        match &self.progress {
            Progress::Parsing { name, .. } => Some(Query::ParseAttribute(name.clone())),
            Progress::Scoping { .. } => Some(Query::Nix(ask_current_system())),
            Progress::Probing { hunt, attempt, .. } => Some(
                Query::Nix(ask_attr_exists(&hunt.source, attempt.as_slice(), &hunt.extra_args)),
            ),
            Progress::Finished(_) => None,
        }
    }

    /// Whether the answer is one to the question that the search has put.
    pub fn accepts(&self, answer: &Answer) -> (result: bool)
        ensures
            result == self@.takes(*answer),
    {
        match (&self.progress, answer) {
            (Progress::Parsing { .. }, Answer::Parsed(_)) => true,
            (Progress::Scoping { .. }, Answer::Nix(_)) => true,
            (Progress::Probing { .. }, Answer::Nix(_)) => true,
            _ => false,
        }
    }

    /// Takes the answer to the question that the search has put.
    pub fn resume(self, answer: Answer) -> (result: Toplevel)
        requires
            self@.takes(answer),
        ensures
            result@ == self@.told(answer),
    {
        match (self.progress, answer) {
            (
                Progress::Parsing { installable, extra_args, hostname, .. },
                Answer::Parsed(parsed),
            ) => {
                match parsed {
                    Err(cause) => Toplevel::finished(Err(Error::InvalidConfiguration(cause))),
                    Ok(path) => {
                        if path.len() == 0 {
                            Toplevel::finished(Err(Error::EmptyConfiguration))
                        } else {
                            Toplevel::open(installable, extra_args, Some(path), hostname)
                        }
                    },
                }
            },
            (Progress::Scoping { hunt, candidate, later }, Answer::Nix(run)) => {
                let system = get_current_system(run);
                let attempts = scope_candidate(system, candidate);
                proof {
                    let all = seq![candidate.deep_view()] + later.deep_view();
                    assert(all.drop_first() =~= later.deep_view());
                }
                Toplevel::settle(hunt, attempts, later)
            },
            (Progress::Probing { hunt, attempt, attempts, later }, Answer::Nix(run)) => {
                let ghost all = seq![attempt.deep_view()] + attempts.deep_view();
                assert(all.drop_first() =~= attempts.deep_view());
                match attr_exists(run, &attempt) {
                    Err(error) => Toplevel::finished(Err(error)),
                    Ok(true) => {
                        let mut path = hunt.prefix;
                        let mut found_at = attempt;
                        path.append(&mut found_at);
                        assert(path.deep_view() =~= hunt.prefix.deep_view() + attempt.deep_view());
                        Toplevel::finished(Ok(hunt.source.at(path)))
                    },
                    Ok(false) => Toplevel::settle(hunt, attempts, later),
                }
            },
            (progress, _) => Toplevel { progress },
        }
    }

    /// The configuration that was found.
    pub fn resolved(&self) -> (result: Option<&Installable>)
        ensures
            match result {
                Some(installable) => self@ == ToplevelModel::Finished(Ok(installable@)),
                None => !(self@ matches ToplevelModel::Finished(Ok(_))),
            },
    {
        match &self.progress {
            Progress::Finished(Ok(installable)) => Some(installable),
            _ => None,
        }
    }

    /// Whether the search is over.
    pub fn is_finished(&self) -> (result: bool)
        ensures
            result == (self@ is Finished),
    {
        matches!(&self.progress, Progress::Finished(_))
    }

    /// What the search came to; nothing while it is under way.
    pub fn outcome(self) -> (result: Option<Result<Installable, Error>>)
        ensures
            match result {
                Some(Ok(installable)) => self@ == ToplevelModel::Finished(Ok(installable@)),
                Some(Err(error)) => self@ == ToplevelModel::Finished(Err(error@)),
                None => !(self@ is Finished),
            },
    {
        match self.progress {
            Progress::Finished(result) => Some(result),
            _ => None,
        }
    }
}

/// Begins the search for the configuration that is meant by `installable`, by
/// the name that the user gave, or else by the name of the host.
pub fn toplevel_for(
    installable: Installable,
    extra_args: Vec<OsText>,
    configuration_name: Option<String>,
    discovery_hostname: Option<String>,
) -> (result: Toplevel)
    ensures
        result@ == begun(
            installable@,
            extra_args.deep_view(),
            configuration_name.deep_view(),
            discovery_hostname.deep_view(),
        ),
{
    match configuration_name {
        Some(name) => Toplevel {
            progress: Progress::Parsing {
                name,
                installable,
                extra_args,
                hostname: discovery_hostname,
            },
        },
        None => Toplevel::open(installable, extra_args, None, discovery_hostname),
    }
}

/// Whether a search has what it begins with: a place to search, which a store path
/// is not, and a name to go by, the user's own or that of the host.
pub open spec fn can_begin(
    installable: Option<InstallableModel>,
    name: Option<Seq<char>>,
    hostname: Option<Seq<char>>,
) -> bool {
    &&& installable is Some
    &&& !(installable->0 is Store)
    &&& name is Some || hostname is Some
}

/// The search, begun if it has what it begins with. A name that the user gave makes
/// that of the host irrelevant.
pub open spec fn begun_if_ready(
    installable: Option<InstallableModel>,
    extra_args: Seq<Seq<char>>,
    name: Option<Seq<char>>,
    hostname: Option<Seq<char>>,
) -> Option<ToplevelModel> {
    if can_begin(installable, name, hostname) {
        Some(
            begun(
                installable->0,
                encoded(extra_args),
                name,
                if name is Some {
                    None
                } else {
                    hostname
                },
            ),
        )
    } else {
        None
    }
}

/// Begins a search if it has what it begins with.
pub fn begin_if_ready(
    installable: &Option<Installable>,
    extra_args: &Vec<String>,
    name: &Option<String>,
    hostname: &Option<String>,
) -> (result: Option<Toplevel>)
    ensures
        (match result {
            Some(search) => Some(search@),
            None => None,
        }) == begun_if_ready(
            installable.deep_view(),
            extra_args.deep_view(),
            name.deep_view(),
            hostname.deep_view(),
        ),
{
    if name.is_none() && hostname.is_none() {
        return None;
    }
    match installable {
        None => None,
        Some(Installable::Store { .. }) => None,
        Some(place) => {
            let host = if name.is_some() {
                None
            } else {
                copy_option(hostname)
            };
            Some(
                toplevel_for(
                    place.clone(),
                    encode_all(extra_args.as_slice()),
                    copy_option(name),
                    host,
                ),
            )
        },
    }
}

} // verus!
