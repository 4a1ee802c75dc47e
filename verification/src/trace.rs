//! Whole runs: what holds of every state that a run can reach, whatever the
//! caller reports.
//!
//! A run is told by the events reported so far. The laws below are proved
//! for every request and every sequence of events.

use crate::engine::{execution_begin, execution_context_of, ENTRY_POINT};
use crate::flow::{advance, next, resolution_begin, run_language};
use crate::install::manager_command_of;
use crate::outcome::OutcomeView;
use crate::paths::{artifact_path_of, language_dir_of};
use crate::prompt::{INSTALL_PROMPT, URL_PROMPT};
use crate::protocol::{
    ActionView, EngineStep, Event, EventView, RegistryStepView, RunRequest, RunRequestView,
    StageView, Transition, TransitionView, UrlStepView,
};
use crate::registry::{package_of, supported};
use vstd::prelude::*;

verus! {

/// The events of a list, in order.
pub open spec fn events_of(events: Seq<Event>) -> Seq<EventView> {
    Seq::new(events.len(), |i: int| events[i]@)
}

/// Where a run stands once `events` have been reported, one for each action
/// in turn: the stage reached and the action that is pending there.
pub open spec fn state_after(request: RunRequestView, events: Seq<EventView>) -> TransitionView
    decreases events.len(),
{
    if events.len() == 0 {
        resolution_begin(request)
    } else {
        next(request, state_after(request, events.drop_last()).stage, events.last())
    }
}

/// Whether an action changes the filesystem.
pub open spec fn writes(action: ActionView) -> bool {
    action is CreateDirectory || action is RunPackageManager || action is CreateFile
        || action is WriteBody
}

/// Whether any action of the run so far changes the filesystem.
pub open spec fn wrote(request: RunRequestView, events: Seq<EventView>) -> bool
    decreases events.len(),
{
    if events.len() == 0 {
        writes(resolution_begin(request).action)
    } else {
        wrote(request, events.drop_last()) || writes(state_after(request, events).action)
    }
}

/// The bytes that an action appends to the artifact.
pub open spec fn bytes_written(action: ActionView) -> Seq<u8> {
    match action {
        ActionView::WriteBody(_, bytes) => bytes,
        _ => Seq::empty(),
    }
}

/// All bytes received from the fetch so far, in order.
pub open spec fn received(events: Seq<EventView>) -> Seq<u8>
    decreases events.len(),
{
    if events.len() == 0 {
        Seq::empty()
    } else {
        match events.last() {
            EventView::Chunk(bytes) => received(events.drop_last()) + bytes,
            _ => received(events.drop_last()),
        }
    }
}

/// All bytes that the run has appended to the artifact so far, in order.
pub open spec fn stored(request: RunRequestView, events: Seq<EventView>) -> Seq<u8>
    decreases events.len(),
{
    if events.len() == 0 {
        bytes_written(resolution_begin(request).action)
    } else {
        stored(request, events.drop_last()) + bytes_written(state_after(request, events).action)
    }
}

/// Whether the pending action is the one that the stage stands for, on the
/// request's own directory and artifact, and the stage one that the registry
/// allows for the request's language.
pub open spec fn coherent(request: RunRequestView, state: TransitionView) -> bool {
    let directory = language_dir_of(request.root, request.language);
    let artifact = artifact_path_of(request.root, request.language);
    match state.stage {
        StageView::CacheCheck => state.action == ActionView::CheckArtifact(artifact),
        StageView::PromptUser => {
            &&& supported(request.language)
            &&& state.action == ActionView::Ask(INSTALL_PROMPT@)
        },
        StageView::RequestUrl => {
            &&& !supported(request.language)
            &&& state.action == ActionView::Ask(URL_PROMPT@)
        },
        StageView::InstallViaRegistry(RegistryStepView::CreatingDirectory(package)) => {
            &&& package_of(request.language) == Some(package)
            &&& state.action == ActionView::CreateDirectory(directory)
        },
        StageView::InstallViaRegistry(RegistryStepView::RunningManager) => {
            &&& package_of(request.language) is Some
            &&& state.action == ActionView::RunPackageManager(
                manager_command_of(package_of(request.language)->0, directory),
            )
        },
        StageView::InstallViaUrl(UrlStepView::CreatingDirectory(_)) => {
            &&& !supported(request.language)
            &&& state.action == ActionView::CreateDirectory(directory)
        },
        StageView::InstallViaUrl(UrlStepView::Connecting) => {
            &&& !supported(request.language)
            &&& state.action is Fetch
        },
        StageView::InstallViaUrl(UrlStepView::AwaitingBody) => {
            &&& !supported(request.language)
            &&& state.action == ActionView::ReadBody
        },
        StageView::InstallViaUrl(UrlStepView::CreatingFile(_)) => {
            &&& !supported(request.language)
            &&& state.action == ActionView::CreateFile(artifact)
        },
        StageView::InstallViaUrl(UrlStepView::WritingBody) => {
            &&& !supported(request.language)
            &&& state.action is WriteBody
            &&& state.action->WriteBody_0 == artifact
        },
        StageView::InstallViaUrl(UrlStepView::ReadingBody) => {
            &&& !supported(request.language)
            &&& state.action == ActionView::ReadBody
        },
        StageView::Ready(EngineStep::ConfirmingArtifact) => state.action
            == ActionView::CheckArtifact(artifact),
        StageView::Ready(EngineStep::LoadingModule) => state.action == ActionView::LoadModule(
            artifact,
        ),
        StageView::Ready(EngineStep::Instantiating) => state.action == ActionView::Instantiate(
            execution_context_of(request.script),
        ),
        StageView::Ready(EngineStep::LocatingEntry) => state.action == ActionView::LocateEntry(
            ENTRY_POINT@,
        ),
        StageView::Ready(EngineStep::Invoking) => state.action == ActionView::Invoke(ENTRY_POINT@),
        StageView::Finished(outcome) => state.action == ActionView::Finish(outcome),
    }
}

/// One move keeps a coherent state coherent.
proof fn next_keeps_coherent(request: RunRequestView, state: TransitionView, event: EventView)
    requires
        coherent(request, state),
    ensures
        coherent(request, next(request, state.stage, event)),
{
}

/// In every state of a run the pending action is the one that its stage
/// stands for, and it addresses the directory and the artifact of the
/// request's own language. The user is asked to agree to a registry install
/// only for a supported language, and for a download location only for an
/// unsupported one; the package handed to the package manager is the one
/// that the registry names for the language.
pub proof fn every_state_is_coherent(request: RunRequestView, events: Seq<EventView>)
    ensures
        coherent(request, state_after(request, events)),
    decreases events.len(),
{
    if events.len() > 0 {
        every_state_is_coherent(request, events.drop_last());
        next_keeps_coherent(
            request,
            state_after(request, events.drop_last()),
            events.last(),
        );
    }
}

/// A finished run stays finished, with the same outcome, whatever is
/// reported afterwards.
pub proof fn finished_runs_stay_finished(
    request: RunRequestView,
    events: Seq<EventView>,
    later: Seq<EventView>,
)
    requires
        state_after(request, events).stage is Finished,
    ensures
        state_after(request, events + later) == state_after(request, events),
    decreases later.len(),
{
    every_state_is_coherent(request, events);
    if later.len() == 0 {
        assert(events + later =~= events);
    } else {
        finished_runs_stay_finished(request, events, later.drop_last());
        assert((events + later).drop_last() =~= events + later.drop_last());
        assert((events + later).last() == later.last());
    }
}

/// The module is loaded only from the request's artifact path, and only as
/// the answer to a report that an artifact exists there: the engine never
/// reads an artifact whose existence was not confirmed just before.
pub proof fn artifact_is_confirmed_before_it_is_loaded(
    request: RunRequestView,
    events: Seq<EventView>,
)
    requires
        state_after(request, events).action is LoadModule,
    ensures
        events.len() > 0,
        events.last() == EventView::Found(true),
        state_after(request, events.drop_last()).action == ActionView::CheckArtifact(
            artifact_path_of(request.root, request.language),
        ),
        state_after(request, events).action == ActionView::LoadModule(
            artifact_path_of(request.root, request.language),
        ),
{
    every_state_is_coherent(request, events);
    if events.len() > 0 {
        every_state_is_coherent(request, events.drop_last());
    }
}

/// Only an install changes the filesystem: an action that writes is pending
/// only in a stage of a registry or URL install.
pub proof fn only_installs_write(request: RunRequestView, events: Seq<EventView>)
    requires
        writes(state_after(request, events).action),
    ensures
        state_after(request, events).stage is InstallViaRegistry || state_after(
            request,
            events,
        ).stage is InstallViaUrl,
{
    every_state_is_coherent(request, events);
}

/// Once something was written the run is installing, executing, or finished
/// otherwise than by the user's refusal.
proof fn writing_excludes_abort(request: RunRequestView, events: Seq<EventView>)
    requires
        wrote(request, events),
    ensures
        ({
            let stage = state_after(request, events).stage;
            ||| stage is InstallViaRegistry
            ||| stage is InstallViaUrl
            ||| stage is Ready
            ||| (stage is Finished && stage->Finished_0 != OutcomeView::Aborted)
        }),
    decreases events.len(),
{
    if events.len() > 0 {
        if wrote(request, events.drop_last()) {
            writing_excludes_abort(request, events.drop_last());
        } else {
            only_installs_write(request, events);
        }
    }
}

/// A run that the user's refusal ended has changed nothing on disk: no
/// directory or file was created, nothing was written, and the package
/// manager was not run.
pub proof fn aborted_runs_write_nothing(request: RunRequestView, events: Seq<EventView>)
    requires
        state_after(request, events).stage == StageView::Finished(OutcomeView::Aborted),
    ensures
        !wrote(request, events),
{
    if wrote(request, events) {
        writing_excludes_abort(request, events);
    }
}

/// A run that found its artifact in the cache never changes the filesystem.
pub proof fn cache_hits_write_nothing(request: RunRequestView, events: Seq<EventView>)
    requires
        events.len() > 0,
        events[0] == EventView::Found(true),
    ensures
        !wrote(request, events),
        !(state_after(request, events).stage is InstallViaRegistry),
        !(state_after(request, events).stage is InstallViaUrl),
        !(state_after(request, events).stage is PromptUser),
        !(state_after(request, events).stage is RequestUrl),
        !(state_after(request, events).stage is CacheCheck),
    decreases events.len(),
{
    if events.len() == 1 {
        assert(events.drop_last().len() == 0);
        assert(!wrote(request, events.drop_last()));
        assert(state_after(request, events) == execution_begin(request));
    } else {
        assert(events.drop_last()[0] == events[0]);
        cache_hits_write_nothing(request, events.drop_last());
        every_state_is_coherent(request, events);
    }
}

/// The piece of the body that has been received and is still to be written:
/// the first piece, while the artifact file is being created for it.
pub open spec fn in_hand(stage: StageView) -> Seq<u8> {
    match stage {
        StageView::InstallViaUrl(UrlStepView::CreatingFile(Some(bytes))) => bytes,
        _ => Seq::empty(),
    }
}

/// While a run is in progress, the bytes appended to the artifact, with the
/// piece still in hand, are the bytes received from the fetch, byte for byte
/// and in order.
pub proof fn stored_bytes_are_the_received_bytes(request: RunRequestView, events: Seq<EventView>)
    requires
        !(state_after(request, events).stage is Finished),
    ensures
        stored(request, events) + in_hand(state_after(request, events).stage) == received(events),
    decreases events.len(),
{
    let state = state_after(request, events);
    if events.len() > 0 {
        let earlier = events.drop_last();
        let before = state_after(request, earlier);
        stored_bytes_are_the_received_bytes(request, earlier);
        assert(stored(request, earlier) + in_hand(before.stage) == received(earlier));
        assert(stored(request, events) == stored(request, earlier) + bytes_written(state.action));
        match events.last() {
            EventView::Chunk(bytes) => {
                assert(received(events) == received(earlier) + bytes);
                assert(in_hand(before.stage) =~= Seq::<u8>::empty());
                assert(stored(request, events) + in_hand(state.stage) =~= stored(request, earlier)
                    + bytes);
            },
            _ => {
                assert(received(events) == received(earlier));
                assert(stored(request, events) + in_hand(state.stage) =~= stored(request, earlier)
                    + in_hand(before.stage));
            },
        }
    } else {
        assert(stored(request, events) + in_hand(state.stage) =~= Seq::<u8>::empty());
    }
}

/// When a URL install succeeds, every byte received has been written, and
/// the engine's first action looks for the artifact at the very path that
/// the bytes were written to.
pub proof fn url_install_hands_its_artifact_to_the_engine(
    request: RunRequestView,
    events: Seq<EventView>,
)
    requires
        events.len() > 0,
        state_after(request, events.drop_last()).stage is InstallViaUrl,
        state_after(request, events).stage is Ready,
    ensures
        state_after(request, events).stage == StageView::Ready(EngineStep::ConfirmingArtifact),
        state_after(request, events).action == ActionView::CheckArtifact(
            artifact_path_of(request.root, request.language),
        ),
        stored(request, events) == received(events),
{
    stored_bytes_are_the_received_bytes(request, events);
    assert(stored(request, events) + Seq::<u8>::empty() =~= stored(request, events));
}

/// Whether an action creates or changes an artifact file.
pub open spec fn touches_artifact(action: ActionView) -> bool {
    action is CreateFile || action is WriteBody
}

/// Whether any action of the run so far creates or changes an artifact file.
pub open spec fn touched_artifact(request: RunRequestView, events: Seq<EventView>) -> bool
    decreases events.len(),
{
    if events.len() == 0 {
        touches_artifact(resolution_begin(request).action)
    } else {
        touched_artifact(request, events.drop_last()) || touches_artifact(
            state_after(request, events).action,
        )
    }
}

/// Whether any part of a response body has been reported: a piece, or the
/// end of the body.
pub open spec fn body_seen(events: Seq<EventView>) -> bool
    decreases events.len(),
{
    if events.len() == 0 {
        false
    } else {
        body_seen(events.drop_last()) || events.last() is Chunk || events.last() is EndOfBody
    }
}

/// Whether a run ended because a request or a read of the body failed.
pub open spec fn download_failed(stage: StageView) -> bool {
    stage matches StageView::Finished(OutcomeView::Failed(error)) && error is DownloadFailed
}

/// The artifact file is left as it is until the response body has begun to
/// arrive: as long as neither a piece nor the end of the body was reported,
/// no action creates or writes the file.
pub proof fn artifact_is_untouched_until_the_body_arrives(
    request: RunRequestView,
    events: Seq<EventView>,
)
    requires
        !body_seen(events),
    ensures
        !touched_artifact(request, events),
    decreases events.len(),
{
    if events.len() > 0 {
        artifact_is_untouched_until_the_body_arrives(request, events.drop_last());
        every_state_is_coherent(request, events.drop_last());
    }
}

/// Once the artifact was touched without a piece having arrived, the body
/// was empty: the file is being created, or the run has gone on and can no
/// longer end with a failed download.
proof fn touching_without_pieces_excludes_failed_download(
    request: RunRequestView,
    events: Seq<EventView>,
)
    requires
        pieces(events) == 0,
        touched_artifact(request, events),
    ensures
        ({
            let stage = state_after(request, events).stage;
            ||| stage == StageView::InstallViaUrl(UrlStepView::CreatingFile(None))
            ||| stage is Ready
            ||| (stage is Finished && !download_failed(stage))
        }),
    decreases events.len(),
{
    if events.len() > 0 {
        every_state_is_coherent(request, events.drop_last());
        if touched_artifact(request, events.drop_last()) {
            touching_without_pieces_excludes_failed_download(request, events.drop_last());
        }
    }
}

/// A download that fails before any piece of the body has arrived leaves the
/// artifact as it was: no action of such a run creates or writes the file, so
/// an earlier runtime is kept and a later cache check is not misled.
pub proof fn failed_download_leaves_the_artifact_alone(
    request: RunRequestView,
    events: Seq<EventView>,
)
    requires
        download_failed(state_after(request, events).stage),
        pieces(events) == 0,
    ensures
        !touched_artifact(request, events),
{
    if touched_artifact(request, events) {
        touching_without_pieces_excludes_failed_download(request, events);
    }
}

/// When a registry install succeeds, the engine's first action looks for the
/// artifact directly inside the directory that the package manager was told
/// to install into, under the fixed artifact name.
pub proof fn registry_install_hands_its_artifact_to_the_engine(
    request: RunRequestView,
    events: Seq<EventView>,
)
    requires
        events.len() > 0,
        state_after(request, events.drop_last()).stage is InstallViaRegistry,
        state_after(request, events).stage is Ready,
    ensures
        events.last() == EventView::Exited(true),
        state_after(request, events.drop_last()).action == ActionView::RunPackageManager(
            manager_command_of(
                package_of(request.language)->0,
                language_dir_of(request.root, request.language),
            ),
        ),
        state_after(request, events).action == ActionView::CheckArtifact(
            artifact_path_of(request.root, request.language),
        ),
        artifact_path_of(request.root, request.language).drop_last() == language_dir_of(
            request.root,
            request.language,
        ),
{
    every_state_is_coherent(request, events.drop_last());
    crate::paths::artifact_path_layout(request.root, request.language);
}

/// The number of pieces of the response body among `events`.
pub open spec fn pieces(events: Seq<EventView>) -> nat
    decreases events.len(),
{
    if events.len() == 0 {
        0
    } else if events.last() is Chunk {
        pieces(events.drop_last()) + 1
    } else {
        pieces(events.drop_last())
    }
}

/// The most events that a run at `stage` can still take before it is
/// finished, if no further piece of the body arrives.
pub open spec fn steps_left(stage: StageView) -> nat {
    match stage {
        StageView::CacheCheck => 11,
        StageView::RequestUrl => 10,
        StageView::InstallViaUrl(UrlStepView::CreatingDirectory(_)) => 9,
        StageView::InstallViaUrl(UrlStepView::Connecting) => 8,
        StageView::InstallViaUrl(UrlStepView::CreatingFile(Some(_))) => 8,
        StageView::PromptUser => 8,
        StageView::InstallViaUrl(UrlStepView::AwaitingBody) => 7,
        StageView::InstallViaUrl(UrlStepView::WritingBody) => 7,
        StageView::InstallViaRegistry(RegistryStepView::CreatingDirectory(_)) => 7,
        StageView::InstallViaUrl(UrlStepView::CreatingFile(None)) => 6,
        StageView::InstallViaUrl(UrlStepView::ReadingBody) => 6,
        StageView::InstallViaRegistry(RegistryStepView::RunningManager) => 6,
        StageView::Ready(EngineStep::ConfirmingArtifact) => 5,
        StageView::Ready(EngineStep::LoadingModule) => 4,
        StageView::Ready(EngineStep::Instantiating) => 3,
        StageView::Ready(EngineStep::LocatingEntry) => 2,
        StageView::Ready(EngineStep::Invoking) => 1,
        StageView::Finished(_) => 0,
    }
}

/// Each event brings a run one step nearer to its end, but for a piece of
/// the body, which costs one more step to write.
proof fn each_event_uses_a_step(request: RunRequestView, events: Seq<EventView>)
    ensures
        steps_left(state_after(request, events).stage) + events.len() <= 11 + 2 * pieces(events)
            || state_after(request, events).stage is Finished,
    decreases events.len(),
{
    if events.len() > 0 {
        each_event_uses_a_step(request, events.drop_last());
    }
}

/// Every run ends: once eleven events have been reported, and two more for
/// each piece of the response body, the run is finished.
pub proof fn every_run_finishes(request: RunRequestView, events: Seq<EventView>)
    requires
        events.len() >= 11 + 2 * pieces(events),
    ensures
        state_after(request, events).stage is Finished,
{
    each_event_uses_a_step(request, events);
}

/// Runs a request against events prepared in advance, one for each action in
/// turn, and returns where the run then stands.
pub fn replay(request: &RunRequest, events: Vec<Event>) -> (state: Transition)
    ensures
        state@ == state_after(request@, events_of(events@)),
{
    let ghost all = events_of(events@);
    let mut state = run_language(request);
    assert(all.subrange(0, 0) =~= Seq::<EventView>::empty());
    for event in it: events
        invariant
            all == events_of(it.seq()),
            state@ == state_after(request@, all.subrange(0, it.index() as int)),
    {
        proof {
            let upto = all.subrange(0, it.index() + 1);
            assert(upto.drop_last() =~= all.subrange(0, it.index() as int));
            assert(upto.last() == event@);
        }
        state = advance(request, state.stage, event);
    }
    assert(all.subrange(0, all.len() as int) =~= all);
    state
}

} // verus!
