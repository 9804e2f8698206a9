//! What holds of every run of the scheduler.

use crate::config::{store_request, ConfigView};
use crate::coordinator::LockAttemptView;
use crate::errors::ErrorsView;
use crate::run_gui::launch_result;
use crate::scheduler::{
    frame_after, next_phase, pause_seconds, requested, ActionView, EventView, PhaseView, ToolsView,
};
use crate::utils::{OutcomeView, Platform, Probe};
use crate::video_process::{frame_count_of, picture_result, ToolRunView};
use vstd::prelude::*;

verus! {

/// In a movie that has frames, the frame after any frame is a frame of the
/// movie: the frame numbers run in a cycle. A movie without frames has no
/// next frame, and asking for it is the failure made for that.
pub proof fn lemma_frame_after_in_range(index: u64, total: u64)
    ensures
        total > 0 ==> (frame_after(index, total) matches Ok(next) && next < total && next == (index
            + 1) % (total as int)),
        total == 0 ==> frame_after(index, total) == Err::<u64, ErrorsView>(
            ErrorsView::ZeroFrameCountError,
        ),
{
    if total > 0 {
        assert(0 <= (index + 1) % (total as int) < total) by (nonlinear_arith)
            requires
                total > 0,
        ;
    }
}

/// The frame that a phase is working towards, with the settings and the
/// frame count it was computed from.
pub open spec fn target(phase: PhaseView) -> Option<(ConfigView, u64, u64)> {
    match phase {
        PhaseView::Probing { settings, total, next } => Some((settings, total, next)),
        PhaseView::Clearing { settings, total, next } => Some((settings, total, next)),
        PhaseView::Extracting { settings, total, next } => Some((settings, total, next)),
        PhaseView::Checking { settings, total, next } => Some((settings, total, next)),
        PhaseView::Publishing { settings, total, next } => Some((settings, total, next)),
        _ => None,
    }
}

/// A phase is sound if the frame it works towards, where it has one, is
/// the frame after the one that its settings name, in a movie of the
/// counted length.
pub open spec fn sound(phase: PhaseView) -> bool {
    target(phase) matches Some((settings, total, next)) ==> frame_after(
        settings.frame_count,
        total,
    ) == Ok::<u64, ErrorsView>(next)
}

/// A process starts in a sound phase.
pub proof fn lemma_start_sound()
    ensures
        sound(PhaseView::Locking),
{
}

/// No event leads from a sound phase to an unsound one.
pub proof fn lemma_step_keeps_sound(tools: ToolsView, phase: PhaseView, event: EventView)
    requires
        sound(phase),
    ensures
        sound(next_phase(tools, phase, event)),
{
}

/// In a sound phase the frame worked towards lies within the movie, which
/// has frames: no phase ever works on a movie without frames.
pub proof fn lemma_sound_target_in_range(phase: PhaseView)
    requires
        sound(phase),
    ensures
        target(phase) matches Some((settings, total, next)) ==> (total > 0 && next < total && next
            == (settings.frame_count + 1) % (total as int)),
{
    if let Some((settings, total, next)) = target(phase) {
        lemma_frame_after_in_range(settings.frame_count, total);
    }
}

/// A frame count of zero ends the cycle with the failure made for it, at
/// once: neither the stale picture nor the extraction tool is touched.
pub proof fn lemma_zero_frames_fail(tools: ToolsView, settings: ConfigView, counted: ToolRunView)
    requires
        frame_count_of(counted) == Ok::<u64, ErrorsView>(0),
    ensures
        next_phase(tools, PhaseView::Counting { settings }, EventView::Tool(counted))
            == PhaseView::Failed(ErrorsView::ZeroFrameCountError),
{
}

/// The phase that a cycle begun at the top arrives at, given the answers
/// to its requests in order: the settings, the run of the counting tool, the
/// look at the stale picture, its removal (which counts only if the look
/// called for one), the run of the extraction tool, the look at the new
/// picture, and the setting of the wallpaper.
pub open spec fn cycle(
    tools: ToolsView,
    settings: ConfigView,
    counted: ToolRunView,
    stale: Probe,
    removal: OutcomeView,
    extracted: ToolRunView,
    fresh: Probe,
    published: OutcomeView,
) -> PhaseView {
    let loaded = next_phase(tools, PhaseView::Idle, EventView::Settings(settings));
    let counting = next_phase(tools, loaded, EventView::Tool(counted));
    let probing = next_phase(tools, counting, EventView::Probed(stale));
    let clearing = next_phase(tools, probing, EventView::Removed(removal));
    let extracting = next_phase(tools, clearing, EventView::Tool(extracted));
    let checking = next_phase(tools, extracting, EventView::Probed(fresh));
    next_phase(tools, checking, EventView::WallpaperSet(published))
}

/// Whether every request of a cycle is answered with success.
pub open spec fn all_goes_well(
    tools: ToolsView,
    settings: ConfigView,
    counted: ToolRunView,
    stale: Probe,
    removal: OutcomeView,
    extracted: ToolRunView,
    fresh: Probe,
    published: OutcomeView,
) -> bool {
    &&& tools.platform == Platform::Windows
    &&& !settings.exit_requested()
    &&& (frame_count_of(counted) matches Ok(total) && total > 0)
    &&& stale == Probe::Present ==> removal == OutcomeView::Done
    &&& picture_result(extracted) is Ok
    &&& fresh == Probe::Present
    &&& published == OutcomeView::Done
}

/// A cycle in which all goes well resumes where the persisted settings
/// stand: from frame `k` of a movie of `n` frames it asks for the settings
/// to be written with frame `(k + 1) mod n`, whatever `k` was, and with
/// nothing else changed.
pub proof fn lemma_cycle_resumes(
    tools: ToolsView,
    settings: ConfigView,
    counted: ToolRunView,
    stale: Probe,
    removal: OutcomeView,
    extracted: ToolRunView,
    fresh: Probe,
    published: OutcomeView,
)
    requires
        all_goes_well(tools, settings, counted, stale, removal, extracted, fresh, published),
    ensures
        ({
            let total = frame_count_of(counted)->Ok_0;
            let next = ((settings.frame_count + 1) % (total as int)) as u64;
            let end = cycle(tools, settings, counted, stale, removal, extracted, fresh, published);
            &&& next < total
            &&& end == PhaseView::Saving { record: settings.with_frame(next) }
            &&& requested(tools, end) == ActionView::Save(store_request(settings.with_frame(next)))
        }),
{
    let total = frame_count_of(counted)->Ok_0;
    lemma_frame_after_in_range(settings.frame_count, total);
}

/// The phase that a fresh process arrives at, given the answers to its
/// requests in order: the attempt on the lock, the settings, their
/// writing, and the run of the front-end.
pub open spec fn startup(
    tools: ToolsView,
    attempt: LockAttemptView,
    found: ConfigView,
    written: OutcomeView,
    launch: ToolRunView,
) -> PhaseView {
    let locked = next_phase(tools, PhaseView::Locking, EventView::Lock(attempt));
    let prepared = next_phase(tools, locked, EventView::Settings(found));
    let reset = next_phase(tools, prepared, EventView::Saved(written));
    next_phase(tools, reset, EventView::Tool(launch))
}

/// A fresh primary reaches the top of its first cycle with the persisted
/// frame number untouched: all it asks to be written on the way are the
/// settings it found, with the request to stop cleared.
pub proof fn lemma_fresh_start_keeps_frame(
    tools: ToolsView,
    found: ConfigView,
    launch: ToolRunView,
)
    requires
        tools.platform == Platform::Windows,
        launch_result(launch) is Ok,
    ensures
        ({
            let locked = next_phase(
                tools,
                PhaseView::Locking,
                EventView::Lock(LockAttemptView::Acquired),
            );
            let prepared = next_phase(tools, locked, EventView::Settings(found));
            &&& requested(tools, locked) == ActionView::Load
            &&& requested(tools, prepared) == ActionView::Save(
                store_request(found.with_exit(false)),
            )
            &&& found.with_exit(false).frame_count == found.frame_count
            &&& !found.with_exit(false).exit_requested()
            &&& startup(tools, LockAttemptView::Acquired, found, OutcomeView::Done, launch)
                == PhaseView::Idle
        }),
{
}

/// Settings are written in two phases only, and a phase that writes after
/// a publication is entered from nowhere but that publication, with the
/// frame that was published.
pub proof fn lemma_writes_follow_publication(tools: ToolsView, phase: PhaseView, event: EventView)
    ensures
        requested(tools, phase) is Save <==> phase is Resetting || phase is Saving,
        next_phase(tools, phase, event) is Saving && !(phase is Saving) ==> {
            &&& phase matches PhaseView::Publishing { settings, total, next }
            &&& event == EventView::WallpaperSet(OutcomeView::Done)
            &&& next_phase(tools, phase, event) == PhaseView::Saving {
                record: settings.with_frame(next),
            }
        },
        next_phase(tools, phase, event) is Resetting && !(phase is Resetting) ==> phase
            is Preparing,
{
}

/// A wallpaper that could not be set leaves the persisted frame number as
/// it was: the scheduler tells the user, sleeps the interval and loads the
/// settings anew, and asks for nothing to be written on the way.
pub proof fn lemma_failed_publication_writes_nothing(
    tools: ToolsView,
    settings: ConfigView,
    total: u64,
    next: u64,
    message: Seq<char>,
)
    ensures
        ({
            let reporting = next_phase(
                tools,
                PhaseView::Publishing { settings, total, next },
                EventView::WallpaperSet(OutcomeView::Failed(message)),
            );
            let sleeping = next_phase(tools, reporting, EventView::Alerted);
            let idle = next_phase(tools, sleeping, EventView::Woke);
            &&& requested(tools, reporting) == ActionView::Alert(
                ErrorsView::WallpaperSetError(message),
            )
            &&& requested(tools, sleeping) == ActionView::Sleep(pause_seconds(settings) as u64)
            &&& idle == PhaseView::Idle
            &&& requested(tools, idle) == ActionView::Load
        }),
{
}

/// Settings that ask to stop end the cycle at its top, with success, and
/// without a command having been asked for.
pub proof fn lemma_exit_request_ends_cycle(tools: ToolsView, settings: ConfigView)
    requires
        settings.exit_requested(),
    ensures
        requested(tools, PhaseView::Idle) == ActionView::Load,
        next_phase(tools, PhaseView::Idle, EventView::Settings(settings)) == PhaseView::Terminated,
        requested(tools, PhaseView::Terminated) == ActionView::Finish,
{
}

/// The settings are never kept over a sleep: when it is over, the cycle
/// starts again by loading them, and nothing but loaded settings takes it
/// past its top.
pub proof fn lemma_every_cycle_reloads(tools: ToolsView, seconds: u64, event: EventView)
    ensures
        next_phase(tools, PhaseView::Sleeping { seconds }, EventView::Woke) == PhaseView::Idle,
        requested(tools, PhaseView::Idle) == ActionView::Load,
        !(event is Settings) ==> next_phase(tools, PhaseView::Idle, event) == PhaseView::Idle,
{
}

/// Whether a phase belongs to a process that does not hold the lock.
pub open spec fn blocked(phase: PhaseView) -> bool {
    phase == (PhaseView::Configuring { primary: false })
}

/// A process that found the lock taken never schedules: it runs the
/// front-end and ends, well or with the failure of the front-end.
pub proof fn lemma_secondary_never_schedules(tools: ToolsView, phase: PhaseView, event: EventView)
    ensures
        ({
            let entered = next_phase(
                tools,
                PhaseView::Locking,
                EventView::Lock(LockAttemptView::WouldBlock),
            );
            blocked(entered) || entered is Failed
        }),
        blocked(phase) ==> {
            let after = next_phase(tools, phase, event);
            blocked(after) || after is Terminated || after is Failed
        },
        blocked(next_phase(tools, phase, event)) ==> blocked(phase) || (phase is Locking && event
            == EventView::Lock(LockAttemptView::WouldBlock)),
{
}

/// Whether a phase belongs to a process that holds the lock.
pub open spec fn primary(phase: PhaseView) -> bool {
    match phase {
        PhaseView::Locking => false,
        PhaseView::Configuring { primary } => primary,
        PhaseView::Terminated => false,
        PhaseView::Failed(_) => false,
        _ => true,
    }
}

/// Only the lock makes a primary: the phases of a process that holds the
/// lock, and so every phase of the frame cycle, are entered from such a
/// phase or by an attempt that the lock granted.
pub proof fn lemma_scheduling_needs_the_lock(tools: ToolsView, phase: PhaseView, event: EventView)
    requires
        primary(next_phase(tools, phase, event)),
    ensures
        primary(phase) || (phase is Locking && event == EventView::Lock(LockAttemptView::Acquired)),
{
}

/// Whether an event is an answer to what an action asks for.
pub open spec fn answers(event: EventView, action: ActionView) -> bool {
    match action {
        ActionView::Lock(_) => event is Lock,
        ActionView::Load => event is Settings,
        ActionView::Save(_) => event is Saved,
        ActionView::Launch(_) => event is Tool,
        ActionView::Run(_) => event is Tool,
        ActionView::Probe(_) => event is Probed,
        ActionView::Remove(_) => event is Removed,
        ActionView::SetWallpaper(_) => event is WallpaperSet,
        ActionView::Alert(_) => event is Alerted,
        ActionView::Sleep(_) => event is Woke,
        ActionView::Finish => false,
        ActionView::Abort(_) => false,
    }
}

/// An event that is no answer to the request of the phase changes nothing.
pub proof fn lemma_unasked_answers_are_ignored(tools: ToolsView, phase: PhaseView, event: EventView)
    requires
        !answers(event, requested(tools, phase)),
    ensures
        next_phase(tools, phase, event) == phase,
{
}

/// The phase of a process after a run of events, taken in order.
pub open spec fn after(tools: ToolsView, phase: PhaseView, events: Seq<EventView>) -> PhaseView
    decreases events.len(),
{
    if events.len() == 0 {
        phase
    } else {
        next_phase(tools, after(tools, phase, events.drop_last()), events.last())
    }
}

/// Whatever happens, a process is in a sound phase: the frame it works
/// towards is a frame of the movie, the one after the frame that the
/// settings name.
pub proof fn lemma_every_run_sound(tools: ToolsView, events: Seq<EventView>)
    ensures
        sound(after(tools, PhaseView::Locking, events)),
    decreases events.len(),
{
    if events.len() > 0 {
        lemma_every_run_sound(tools, events.drop_last());
        lemma_step_keeps_sound(
            tools,
            after(tools, PhaseView::Locking, events.drop_last()),
            events.last(),
        );
    }
}

/// Whatever happens after it, a process that found the lock taken on its
/// first attempt is never in a phase of a primary.
pub proof fn lemma_blocked_run_never_schedules(tools: ToolsView, events: Seq<EventView>)
    requires
        events.len() > 0,
        events[0] == EventView::Lock(LockAttemptView::WouldBlock),
    ensures
        !primary(after(tools, PhaseView::Locking, events)),
    decreases events.len(),
{
    let front = events.drop_last();
    if front.len() == 0 {
        assert(after(tools, PhaseView::Locking, front) == PhaseView::Locking);
    } else {
        assert(front[0] == events[0]);
        lemma_blocked_run_never_schedules(tools, front);
        let before = after(tools, PhaseView::Locking, front);
        if before is Locking {
            lemma_first_event_leaves_locking(tools, front);
        }
    }
}

/// A process whose first event is the answer to its attempt on the lock
/// has left the first phase for good.
proof fn lemma_first_event_leaves_locking(tools: ToolsView, events: Seq<EventView>)
    requires
        events.len() > 0,
        events[0] is Lock,
    ensures
        !(after(tools, PhaseView::Locking, events) is Locking),
    decreases events.len(),
{
    let front = events.drop_last();
    if front.len() == 0 {
        assert(after(tools, PhaseView::Locking, front) == PhaseView::Locking);
    } else {
        assert(front[0] == events[0]);
        lemma_first_event_leaves_locking(tools, front);
    }
}

/// The two final phases are final: no event leads out of them.
pub proof fn lemma_final_phases_stay(tools: ToolsView, phase: PhaseView, event: EventView)
    requires
        phase is Terminated || phase is Failed,
    ensures
        next_phase(tools, phase, event) == phase,
{
}

} // verus!
