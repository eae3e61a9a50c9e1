//! Setting the default fallback shortcut, as steps between the data plane's lookups and
//! writes: look up the new default, check that it is a fallback, look up the current
//! default, then unset the current one and set the new one.
use vstd::prelude::*;

use crate::data_plane::client::{
    apply_flag_writes, at_most_one_default, check_default_fallback_candidate, default_fallback_to_unset,
    default_fallback_writes, fallback_writes, flag_writes_view, lemma_one_default_fallback,
};
use crate::data_plane::error::{error_view, DataPlaneResult, ErrorKind};
use crate::data_plane::model::CommittedDestination;

verus! {

/// Where setting the default fallback stands.
#[derive(Debug, Clone, Copy, PartialEq, Eq, Structural)]
pub enum SetDefaultStage {
    /// Nothing looked up yet.
    Start,
    /// Looking up the shortcut to make the default fallback.
    CheckingTarget,
    /// Looking up the current default fallback.
    FindingCurrent,
    /// Writing the default fallback flags.
    Writing,
    /// The answer is given.
    Done,
}

/// What the last data plane call gave.
#[derive(Debug)]
pub enum SetDefaultEvent {
    /// Nothing was called yet.
    Begin,
    /// The lookup of the shortcut to make the default fallback.
    Target(DataPlaneResult<CommittedDestination>),
    /// The lookup of the current default fallback.
    Current(DataPlaneResult<CommittedDestination>),
    /// The flags were written.
    Written,
}

/// What setting the default fallback does next.
#[derive(Debug)]
pub enum SetDefaultAction {
    /// Look up the destination with this UID.
    GetDestination(String),
    /// Look up the current default fallback destination.
    GetDefaultFallbackDestination,
    /// Write these default fallback flags, in order, in one transaction.
    Write(Vec<(String, bool)>),
    /// Answer with this result.
    Respond(DataPlaneResult<()>),
}

/// An event as plain values: a destination as its UID and fallback flag.
pub enum SetDefaultEventView {
    Begin,
    Target(Result<(Seq<char>, bool), (ErrorKind, Seq<char>)>),
    Current(Result<Seq<char>, (ErrorKind, Seq<char>)>),
    Written,
}

/// An action as plain values.
pub enum SetDefaultActionView {
    GetDestination(Seq<char>),
    GetDefaultFallbackDestination,
    Write(Seq<(Seq<char>, bool)>),
    Respond(Result<(), (ErrorKind, Seq<char>)>),
}

pub open spec fn set_default_event_view(event: SetDefaultEvent) -> SetDefaultEventView {
    match event {
        SetDefaultEvent::Begin => SetDefaultEventView::Begin,
        SetDefaultEvent::Target(Ok(d)) => SetDefaultEventView::Target(Ok((d.uid@, d.is_fallback))),
        SetDefaultEvent::Target(Err(e)) => SetDefaultEventView::Target(Err(error_view(e))),
        SetDefaultEvent::Current(Ok(d)) => SetDefaultEventView::Current(Ok(d.uid@)),
        SetDefaultEvent::Current(Err(e)) => SetDefaultEventView::Current(Err(error_view(e))),
        SetDefaultEvent::Written => SetDefaultEventView::Written,
    }
}

pub open spec fn set_default_action_view(action: SetDefaultAction) -> SetDefaultActionView {
    match action {
        SetDefaultAction::GetDestination(uid) => SetDefaultActionView::GetDestination(uid@),
        SetDefaultAction::GetDefaultFallbackDestination => SetDefaultActionView::GetDefaultFallbackDestination,
        SetDefaultAction::Write(writes) => SetDefaultActionView::Write(flag_writes_view(writes@)),
        SetDefaultAction::Respond(Ok(())) => SetDefaultActionView::Respond(Ok(())),
        SetDefaultAction::Respond(Err(e)) => SetDefaultActionView::Respond(Err(error_view(e))),
    }
}

/// Whether an event answers the call that a stage made.
pub open spec fn event_fits(stage: SetDefaultStage, event: SetDefaultEventView) -> bool {
    match stage {
        SetDefaultStage::Start => event is Begin,
        SetDefaultStage::CheckingTarget => event is Target,
        SetDefaultStage::FindingCurrent => event is Current,
        SetDefaultStage::Writing => event is Written,
        SetDefaultStage::Done => false,
    }
}

/// The next stage and action of setting `uid` as the default fallback, given what the
/// last call gave: a missing shortcut or a failed lookup is the answer; a shortcut that
/// is no fallback is refused; a missing current default fallback means there is nothing
/// to unset; once the flags are written the answer is success.
pub open spec fn set_default_next(uid: Seq<char>, stage: SetDefaultStage, event: SetDefaultEventView) -> (
    SetDefaultStage,
    SetDefaultActionView,
) {
    match event {
        SetDefaultEventView::Target(Err(e)) => (SetDefaultStage::Done, SetDefaultActionView::Respond(Err(e))),
        SetDefaultEventView::Target(Ok((_, is_fallback))) => if is_fallback {
            (SetDefaultStage::FindingCurrent, SetDefaultActionView::GetDefaultFallbackDestination)
        } else {
            (
                SetDefaultStage::Done,
                SetDefaultActionView::Respond(
                    Err(
                        (
                            ErrorKind::InvalidArgument,
                            "Shortcut must be a fallback to make it the default fallback"@,
                        ),
                    ),
                ),
            )
        },
        SetDefaultEventView::Current(Ok(current)) => (
            SetDefaultStage::Writing,
            SetDefaultActionView::Write(fallback_writes(Some(current), uid)),
        ),
        SetDefaultEventView::Current(Err(e)) => if e.0 == ErrorKind::NotFound {
            (SetDefaultStage::Writing, SetDefaultActionView::Write(fallback_writes(None, uid)))
        } else {
            (SetDefaultStage::Done, SetDefaultActionView::Respond(Err(e)))
        },
        SetDefaultEventView::Written => (SetDefaultStage::Done, SetDefaultActionView::Respond(Ok(()))),
        SetDefaultEventView::Begin => (SetDefaultStage::CheckingTarget, SetDefaultActionView::GetDestination(uid)),
    }
}

/// One step of setting the shortcut with UID `uid` as the default fallback. The caller
/// performs each action (the writes in one transaction) and hands back what it gave.
pub fn set_default_step(uid: &str, stage: SetDefaultStage, event: SetDefaultEvent) -> (next: (
    SetDefaultStage,
    SetDefaultAction,
))
    requires
        event_fits(stage, set_default_event_view(event)),
    ensures
        (next.0, set_default_action_view(next.1)) == set_default_next(
            uid@,
            stage,
            set_default_event_view(event),
        ),
{
    match event {
        SetDefaultEvent::Begin => (SetDefaultStage::CheckingTarget, SetDefaultAction::GetDestination(uid.to_owned())),
        SetDefaultEvent::Target(Err(e)) => (SetDefaultStage::Done, SetDefaultAction::Respond(Err(e))),
        SetDefaultEvent::Target(Ok(destination)) => match check_default_fallback_candidate(&destination) {
            Ok(()) => (SetDefaultStage::FindingCurrent, SetDefaultAction::GetDefaultFallbackDestination),
            Err(e) => (SetDefaultStage::Done, SetDefaultAction::Respond(Err(e))),
        },
        SetDefaultEvent::Current(current) => match default_fallback_to_unset(current) {
            Ok(unset) => (SetDefaultStage::Writing, SetDefaultAction::Write(default_fallback_writes(unset, uid))),
            Err(e) => (SetDefaultStage::Done, SetDefaultAction::Respond(Err(e))),
        },
        SetDefaultEvent::Written => (SetDefaultStage::Done, SetDefaultAction::Respond(Ok(()))),
    }
}

/// What a database of destinations answers to a lookup of the current default fallback:
/// the destination flagged as default, if one is.
pub open spec fn current_default(defaults: Map<Seq<char>, bool>) -> Result<Seq<char>, (ErrorKind, Seq<char>)> {
    if exists|u: Seq<char>| defaults.dom().contains(u) && #[trigger] defaults[u] {
        Ok(choose|u: Seq<char>| defaults.dom().contains(u) && #[trigger] defaults[u])
    } else {
        Err((ErrorKind::NotFound, Seq::empty()))
    }
}

/// What a database answers to a lookup of the destination `uid`.
pub open spec fn destination_lookup(fallbacks: Map<Seq<char>, bool>, uid: Seq<char>) -> Result<
    (Seq<char>, bool),
    (ErrorKind, Seq<char>),
> {
    if fallbacks.dom().contains(uid) {
        Ok((uid, fallbacks[uid]))
    } else {
        Err((ErrorKind::NotFound, uid))
    }
}

/// The answer and the default fallback flags after setting `uid` as the default fallback
/// for at most `steps` steps, on a database whose destinations have the fallback flags
/// `fallbacks` and the default fallback flags `defaults`; none if it takes longer.
pub open spec fn run_set_default(
    uid: Seq<char>,
    fallbacks: Map<Seq<char>, bool>,
    defaults: Map<Seq<char>, bool>,
    stage: SetDefaultStage,
    event: SetDefaultEventView,
    steps: nat,
) -> Option<(Result<(), (ErrorKind, Seq<char>)>, Map<Seq<char>, bool>)>
    decreases steps,
{
    if steps == 0 {
        None
    } else {
        let (next, action) = set_default_next(uid, stage, event);
        match action {
            SetDefaultActionView::Respond(result) => Some((result, defaults)),
            SetDefaultActionView::GetDestination(u) => run_set_default(
                uid,
                fallbacks,
                defaults,
                next,
                SetDefaultEventView::Target(destination_lookup(fallbacks, u)),
                (steps - 1) as nat,
            ),
            SetDefaultActionView::GetDefaultFallbackDestination => run_set_default(
                uid,
                fallbacks,
                defaults,
                next,
                SetDefaultEventView::Current(current_default(defaults)),
                (steps - 1) as nat,
            ),
            SetDefaultActionView::Write(writes) => run_set_default(
                uid,
                fallbacks,
                apply_flag_writes(defaults, writes),
                next,
                SetDefaultEventView::Written,
                (steps - 1) as nat,
            ),
        }
    }
}

/// There is always at most one default fallback shortcut: on a database with at most one,
/// setting a default fallback takes at most four steps; it succeeds exactly when the
/// shortcut exists and is a fallback; when it succeeds the shortcut set is the only
/// default fallback, and when it fails no flag changes.
pub proof fn lemma_set_default_keeps_one(
    uid: Seq<char>,
    fallbacks: Map<Seq<char>, bool>,
    defaults: Map<Seq<char>, bool>,
)
    requires
        fallbacks.dom() == defaults.dom(),
        at_most_one_default(defaults),
    ensures
        run_set_default(uid, fallbacks, defaults, SetDefaultStage::Start, SetDefaultEventView::Begin, 4) matches Some(
            (result, after),
        ) && at_most_one_default(after) && after.dom() == defaults.dom() && (result is Ok ==> forall|u: Seq<char>|
            after.dom().contains(u) ==> (#[trigger] after[u] <==> u == uid)) && (result is Err ==> after
            == defaults) && (result is Ok <==> fallbacks.dom().contains(uid) && fallbacks[uid]),
{
    reveal_with_fuel(run_set_default, 5);
    if fallbacks.dom().contains(uid) && fallbacks[uid] {
        let current = current_default(defaults);
        match current {
            Ok(c) => {
                assert(exists|u: Seq<char>| defaults.dom().contains(u) && #[trigger] defaults[u]);
                assert(defaults.dom().contains(c) && defaults[c]);
                lemma_one_default_fallback(defaults, Some(c), uid);
            },
            Err(_) => {
                assert forall|u: Seq<char>| defaults.dom().contains(u) implies !#[trigger] defaults[u] by {
                    if defaults[u] {
                        assert(exists|v: Seq<char>| defaults.dom().contains(v) && #[trigger] defaults[v]);
                    }
                }
                lemma_one_default_fallback(defaults, None, uid);
            },
        }
    }
}

} // verus!
