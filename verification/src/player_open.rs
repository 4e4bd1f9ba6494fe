//! Opening the player on a programme: which source it ends up playing, as a
//! machine that the shell drives. The shell fetches the detail, runs the
//! fallback searches, asks whether a source should be skipped and probes
//! playback; the machine decides what comes next after each answer.

use vstd::prelude::*;
use crate::douban::opt_text;

verus! {

/// Where the opening stands.
#[derive(Debug, Clone, Copy, PartialEq, Eq, Structural)]
pub enum OpenStage {
    /// Waiting for the detail of the requested programme.
    AwaitDetail,
    /// Waiting for the search that must find a source.
    AwaitRequiredSearch,
    /// Waiting for whether the current source should be skipped.
    AwaitSourceVerdict,
    /// Waiting for the search that may replace a skipped source.
    AwaitSkipSearch,
    /// Waiting for the playback probe of the current source.
    AwaitProbe,
    /// Waiting for the search that may replace a source whose probe failed.
    AwaitProbeSearch,
    /// Finished, or failed.
    Done,
}

/// The opening's stage, and the number of episodes of the current source.
#[derive(Debug, Clone, Copy, PartialEq, Eq, Structural)]
pub struct OpenState {
    pub stage: OpenStage,
    pub episodes: usize,
}

/// What the shell reports.
#[derive(Debug)]
pub enum OpenEvent {
    /// The detail of the requested programme: its number of episodes, or
    /// none when it could not be fetched.
    DetailFetched(Option<usize>),
    /// A fallback search's answer: the number of episodes of the source it
    /// chose, or its error.
    SearchAnswered(Result<usize, String>),
    /// Whether the current source should be skipped.
    SourceVerdict(bool),
    /// Whether the playback probe could not be run at all (an error, as
    /// opposed to a probe that ran and found the source poor).
    ProbeAnswered(bool),
}

/// What the shell does next.
#[derive(Debug)]
pub enum OpenAction {
    /// Search for the programme by `query`. When `required`, a failed search
    /// fails the opening; otherwise a found source replaces the current one
    /// and a failure keeps it.
    Search { query: String, required: bool },
    /// Ask whether the current source should be skipped.
    CheckSource,
    /// Probe playback of the current source.
    Probe,
    /// Build the player's state from the current source.
    Finish,
    /// The opening fails with this message.
    Fail(String),
    /// The event was not awaited; nothing changes.
    Ignore,
}

/// The kind of an action, with its query or message.
#[derive(Debug, Clone, Copy, PartialEq, Eq, Structural)]
pub enum OpenActionKind {
    Search(bool),
    CheckSource,
    Probe,
    Finish,
    Fail,
    Ignore,
}

pub open spec fn action_view(a: OpenAction) -> (OpenActionKind, Seq<char>) {
    match a {
        OpenAction::Search { query, required } => (OpenActionKind::Search(required), query@),
        OpenAction::CheckSource => (OpenActionKind::CheckSource, Seq::empty()),
        OpenAction::Probe => (OpenActionKind::Probe, Seq::empty()),
        OpenAction::Finish => (OpenActionKind::Finish, Seq::empty()),
        OpenAction::Fail(m) => (OpenActionKind::Fail, m@),
        OpenAction::Ignore => (OpenActionKind::Ignore, Seq::empty()),
    }
}

/// The message of an opening that has neither a playable detail nor a title
/// to search by.
pub const MISSING_TITLE_MESSAGE: &'static str = "Missing title for fallback search";

/// Once the source is settled: probe it when it has episodes, else finish.
pub open spec fn probe_or_finish(episodes: usize) -> (OpenState, (OpenActionKind, Seq<char>)) {
    if episodes > 0 {
        (OpenState { stage: OpenStage::AwaitProbe, episodes }, (OpenActionKind::Probe, Seq::empty()))
    } else {
        (OpenState { stage: OpenStage::Done, episodes }, (OpenActionKind::Finish, Seq::empty()))
    }
}

/// One step of the opening, `title` being the title a fallback search uses
/// (none when there is none):
/// - a detail with episodes goes on to the source check; without one, the
///   programme must be found by a search, and without a title the opening
///   fails;
/// - the required search's failure fails the opening; its success goes on
///   to the source check;
/// - a source to be skipped is searched away from when there is a title;
///   the search's success replaces it, its failure keeps it;
/// - the settled source is probed when it has episodes; a probe that could
///   not run is searched away from when there is a title;
/// - any other event changes nothing.
pub open spec fn open_step_spec(s: OpenState, e: OpenEvent, title: Option<Seq<char>>) -> (
    OpenState,
    (OpenActionKind, Seq<char>),
) {
    let ignore = (s, (OpenActionKind::Ignore, Seq::<char>::empty()));
    match s.stage {
        OpenStage::AwaitDetail => match e {
            OpenEvent::DetailFetched(d) => if d matches Some(n) && n > 0 {
                (
                    OpenState { stage: OpenStage::AwaitSourceVerdict, episodes: d->Some_0 },
                    (OpenActionKind::CheckSource, Seq::empty()),
                )
            } else {
                match title {
                    Some(t) => (
                        OpenState { stage: OpenStage::AwaitRequiredSearch, episodes: 0 },
                        (OpenActionKind::Search(true), t),
                    ),
                    None => (
                        OpenState { stage: OpenStage::Done, episodes: 0 },
                        (OpenActionKind::Fail, MISSING_TITLE_MESSAGE@),
                    ),
                }
            },
            _ => ignore,
        },
        OpenStage::AwaitRequiredSearch => match e {
            OpenEvent::SearchAnswered(Ok(n)) => (
                OpenState { stage: OpenStage::AwaitSourceVerdict, episodes: n },
                (OpenActionKind::CheckSource, Seq::empty()),
            ),
            OpenEvent::SearchAnswered(Err(m)) => (
                OpenState { stage: OpenStage::Done, episodes: s.episodes },
                (OpenActionKind::Fail, m@),
            ),
            _ => ignore,
        },
        OpenStage::AwaitSourceVerdict => match e {
            OpenEvent::SourceVerdict(skip) => if skip && title is Some {
                (
                    OpenState { stage: OpenStage::AwaitSkipSearch, episodes: s.episodes },
                    (OpenActionKind::Search(false), title->Some_0),
                )
            } else {
                probe_or_finish(s.episodes)
            },
            _ => ignore,
        },
        OpenStage::AwaitSkipSearch => match e {
            OpenEvent::SearchAnswered(r) => probe_or_finish(
                match r {
                    Ok(n) => n,
                    Err(_) => s.episodes,
                },
            ),
            _ => ignore,
        },
        OpenStage::AwaitProbe => match e {
            OpenEvent::ProbeAnswered(could_not_run) => if could_not_run && title is Some {
                (
                    OpenState { stage: OpenStage::AwaitProbeSearch, episodes: s.episodes },
                    (OpenActionKind::Search(false), title->Some_0),
                )
            } else {
                (
                    OpenState { stage: OpenStage::Done, episodes: s.episodes },
                    (OpenActionKind::Finish, Seq::empty()),
                )
            },
            _ => ignore,
        },
        OpenStage::AwaitProbeSearch => match e {
            OpenEvent::SearchAnswered(r) => (
                OpenState {
                    stage: OpenStage::Done,
                    episodes: match r {
                        Ok(n) => n,
                        Err(_) => s.episodes,
                    },
                },
                (OpenActionKind::Finish, Seq::empty()),
            ),
            _ => ignore,
        },
        OpenStage::Done => ignore,
    }
}

/// The order of the stages.
pub open spec fn stage_rank(stage: OpenStage) -> int {
    match stage {
        OpenStage::AwaitDetail => 0,
        OpenStage::AwaitRequiredSearch => 1,
        OpenStage::AwaitSourceVerdict => 2,
        OpenStage::AwaitSkipSearch => 3,
        OpenStage::AwaitProbe => 4,
        OpenStage::AwaitProbeSearch => 5,
        OpenStage::Done => 6,
    }
}

/// Every awaited event moves the opening to a later stage, and an ignored
/// one changes nothing; so an opening ends after at most six answers, and
/// it fails only for want of a title or when the required search fails.
pub proof fn lemma_open_progresses(s: OpenState, e: OpenEvent, title: Option<Seq<char>>)
    ensures
        open_step_spec(s, e, title).1.0 == OpenActionKind::Ignore ==> open_step_spec(s, e, title).0 == s,
        open_step_spec(s, e, title).1.0 != OpenActionKind::Ignore ==> stage_rank(
            open_step_spec(s, e, title).0.stage,
        ) > stage_rank(s.stage),
        open_step_spec(s, e, title).1.0 == OpenActionKind::Fail ==> (s.stage == OpenStage::AwaitDetail
            && title is None) || (s.stage == OpenStage::AwaitRequiredSearch && e matches OpenEvent::SearchAnswered(
            Err(_),
        )),
{
}

/// The state an opening starts in.
pub fn open_start() -> (r: OpenState)
    ensures
        r == (OpenState { stage: OpenStage::AwaitDetail, episodes: 0 }),
{
    OpenState { stage: OpenStage::AwaitDetail, episodes: 0 }
}

fn probe_or_finish_step(episodes: usize) -> (r: (OpenState, OpenAction))
    ensures
        (r.0, action_view(r.1)) == probe_or_finish(episodes),
{
    if episodes > 0 {
        (OpenState { stage: OpenStage::AwaitProbe, episodes }, OpenAction::Probe)
    } else {
        (OpenState { stage: OpenStage::Done, episodes }, OpenAction::Finish)
    }
}

fn search_step(stage: OpenStage, episodes: usize, title: &String, required: bool) -> (r: (OpenState, OpenAction))
    ensures
        r.0 == (OpenState { stage, episodes }),
        action_view(r.1) == (OpenActionKind::Search(required), title@),
{
    (OpenState { stage, episodes }, OpenAction::Search { query: title.clone(), required })
}

/// The next state and action of an opening after an event.
pub fn open_step(s: OpenState, e: OpenEvent, title: &Option<String>) -> (r: (OpenState, OpenAction))
    ensures
        (r.0, action_view(r.1)) == open_step_spec(s, e, opt_text(*title)),
{
    match s.stage {
        OpenStage::AwaitDetail => match e {
            OpenEvent::DetailFetched(Some(n)) if n > 0 => (
                OpenState { stage: OpenStage::AwaitSourceVerdict, episodes: n },
                OpenAction::CheckSource,
            ),
            OpenEvent::DetailFetched(_) => match title {
                Some(t) => search_step(OpenStage::AwaitRequiredSearch, 0, t, true),
                None => (
                    OpenState { stage: OpenStage::Done, episodes: 0 },
                    OpenAction::Fail(String::from_str(MISSING_TITLE_MESSAGE)),
                ),
            },
            _ => (s, OpenAction::Ignore),
        },
        OpenStage::AwaitRequiredSearch => match e {
            OpenEvent::SearchAnswered(Ok(n)) => (
                OpenState { stage: OpenStage::AwaitSourceVerdict, episodes: n },
                OpenAction::CheckSource,
            ),
            OpenEvent::SearchAnswered(Err(m)) => (
                OpenState { stage: OpenStage::Done, episodes: s.episodes },
                OpenAction::Fail(m),
            ),
            _ => (s, OpenAction::Ignore),
        },
        OpenStage::AwaitSourceVerdict => match e {
            OpenEvent::SourceVerdict(skip) => match title {
                Some(t) if skip => search_step(OpenStage::AwaitSkipSearch, s.episodes, t, false),
                _ => probe_or_finish_step(s.episodes),
            },
            _ => (s, OpenAction::Ignore),
        },
        OpenStage::AwaitSkipSearch => match e {
            OpenEvent::SearchAnswered(r) => probe_or_finish_step(
                match r {
                    Ok(n) => n,
                    Err(_) => s.episodes,
                },
            ),
            _ => (s, OpenAction::Ignore),
        },
        OpenStage::AwaitProbe => match e {
            OpenEvent::ProbeAnswered(could_not_run) => match title {
                Some(t) if could_not_run => search_step(OpenStage::AwaitProbeSearch, s.episodes, t, false),
                _ => (OpenState { stage: OpenStage::Done, episodes: s.episodes }, OpenAction::Finish),
            },
            _ => (s, OpenAction::Ignore),
        },
        OpenStage::AwaitProbeSearch => match e {
            OpenEvent::SearchAnswered(r) => (
                OpenState {
                    stage: OpenStage::Done,
                    episodes: match r {
                        Ok(n) => n,
                        Err(_) => s.episodes,
                    },
                },
                OpenAction::Finish,
            ),
            _ => (s, OpenAction::Ignore),
        },
        OpenStage::Done => (s, OpenAction::Ignore),
    }
}

} // verus!
