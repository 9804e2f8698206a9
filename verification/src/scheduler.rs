//! The life of one process as a state machine: from the attempt on the
//! lock, through the configuration front-end, into the frame cycle.
//!
//! A [`Phase`] is a wait for the answer to one request. [`request`] says
//! what the program has to do in a phase; the program does it and hands the
//! answer, as an [`Event`], to [`step`], which gives the next phase.
//!
//! One cycle loads the settings, counts the frames of the movie, clears the
//! stale picture, extracts the frame after the one shown last, makes it the
//! wallpaper, persists the new frame number and sleeps. The settings are
//! never kept over a sleep: each cycle starts by loading them.

use crate::config::{
    clamp_interval, clamped, store_request, unit_of_code, unit_seconds, Config, ConfigView,
    StoreWrite, StoreWriteView, Timetype,
};
use crate::coordinator::{lock_name, LockAttempt, LockAttemptView, LOCK_NAME};
use crate::errors::{Errors, ErrorsView};
use crate::run_gui::{gui_command, gui_path, gui_path_in, launch_result, run};
use crate::utils::{
    delete_file, deletion, join, joined, must_delete, needs_removal, Outcome, OutcomeView,
    Platform, Probe,
};
use crate::video_process::{
    count_line, frame_count_command, frame_count_of, frame_picture_command, generate_frame_count,
    generate_frame_picture, picture_line, picture_result, shell, Invocation, InvocationView,
    ToolRun, ToolRunView,
};
use vstd::prelude::*;

verus! {

/// Where the things lie that the program works with.
#[derive(Clone, Debug, PartialEq, Eq)]
pub struct Tools {
    pub platform: Platform,
    /// The frame-count tool.
    pub ffprobe: String,
    /// The frame-extraction tool.
    pub ffmpeg: String,
    /// The picture that is extracted and made the wallpaper.
    pub picture: String,
    /// The configuration front-end.
    pub gui: String,
}

/// [`Tools`] as plain data.
pub struct ToolsView {
    pub platform: Platform,
    pub ffprobe: Seq<char>,
    pub ffmpeg: Seq<char>,
    pub picture: Seq<char>,
    pub gui: Seq<char>,
}

impl View for Tools {
    type V = ToolsView;

    open spec fn view(&self) -> ToolsView {
        ToolsView {
            platform: self.platform,
            ffprobe: self.ffprobe@,
            ffmpeg: self.ffmpeg@,
            picture: self.picture@,
            gui: self.gui@,
        }
    }
}

/// The tools lie in the directory `ffmpeg` below the working directory, the
/// picture directly below it, the front-end beside the running program.
pub open spec fn tools_in(work_dir: Seq<char>, exe_dir: Seq<char>, platform: Platform) -> ToolsView {
    ToolsView {
        platform,
        ffprobe: joined(joined(work_dir, "ffmpeg"@, platform), "ffprobe.exe"@, platform),
        ffmpeg: joined(joined(work_dir, "ffmpeg"@, platform), "ffmpeg.exe"@, platform),
        picture: joined(work_dir, "frame.png"@, platform),
        gui: gui_path_in(exe_dir, platform),
    }
}

impl Tools {
    /// The places for a program that works in `work_dir` and lies in
    /// `exe_dir`.
    pub fn locate(work_dir: &str, exe_dir: &str, platform: Platform) -> (out: Tools)
        ensures
            out@ == tools_in(work_dir@, exe_dir@, platform),
    {
        let tool_dir = join(work_dir, "ffmpeg", platform);
        Tools {
            platform,
            ffprobe: join(tool_dir.as_str(), "ffprobe.exe", platform),
            ffmpeg: join(tool_dir.as_str(), "ffmpeg.exe", platform),
            picture: join(work_dir, "frame.png", platform),
            gui: gui_path(exe_dir, platform),
        }
    }
}

/// The seconds to sleep between two frames: the interval in its unit. The
/// settings come from outside, so an interval below the floor is not taken
/// at its word: it counts as the floor.
pub open spec fn pause_seconds(settings: ConfigView) -> nat {
    clamped(settings.time_interval) as nat * unit_seconds(unit_of_code(settings.time_type))
}

/// The seconds to sleep between two frames.
pub fn sleep_seconds(settings: &Config) -> (out: u64)
    ensures
        out == pause_seconds(settings@),
{
    let interval: u64 = clamp_interval(settings.get_time_interval()) as u64;
    let unit: u64 = Timetype::from_code(settings.get_time_type()).seconds();
    assert(interval * unit <= 0xffff_ffff * 3600) by (nonlinear_arith)
        requires
            interval <= 0xffff_ffff,
            unit <= 3600,
    ;
    interval * unit
}

/// The frame after `index` in a movie of `total` frames, counting
/// cyclically. A movie without frames has none.
pub open spec fn frame_after(index: u64, total: u64) -> Result<u64, ErrorsView> {
    if total == 0 {
        Err(ErrorsView::ZeroFrameCountError)
    } else {
        Ok(((index + 1) % (total as int)) as u64)
    }
}

/// The frame after `index` in a movie of `total` frames.
pub fn next_frame(index: u64, total: u64) -> (out: Result<u64, Errors>)
    ensures
        match out {
            Ok(n) => frame_after(index, total) == Ok::<u64, ErrorsView>(n) && n < total,
            Err(e) => frame_after(index, total) == Err::<u64, ErrorsView>(e@),
        },
{
    if total == 0 {
        return Err(Errors::ZeroFrameCountError);
    }
    let within: u64 = index % total;
    let next: u64 = if within == total - 1 {
        0
    } else {
        within + 1
    };
    assert(next == (index + 1) % (total as int)) by (nonlinear_arith)
        requires
            total > 0,
            within == index % total,
            next == if within == total - 1 {
                0
            } else {
                within + 1
            },
    ;
    Ok(next)
}

/// What the process is waiting for.
#[derive(Clone, Debug, PartialEq, Eq)]
pub enum Phase {
    /// For the attempt on the lock.
    Locking,
    /// As primary, for the settings, to clear a request to stop that an
    /// earlier run left behind.
    Preparing,
    /// For the cleared settings to be persisted.
    Resetting { settings: Config },
    /// For the front-end to end.
    Configuring { primary: bool },
    /// At the top of a cycle, for the settings.
    Idle,
    /// For the frame count.
    Counting { settings: Config },
    /// For a look at the stale picture.
    Probing { settings: Config, total: u64, next: u64 },
    /// For the stale picture to be removed.
    Clearing { settings: Config, total: u64, next: u64 },
    /// For the frame to be extracted.
    Extracting { settings: Config, total: u64, next: u64 },
    /// For a look at the extracted picture.
    Checking { settings: Config, total: u64, next: u64 },
    /// For the picture to become the wallpaper.
    Publishing { settings: Config, total: u64, next: u64 },
    /// For the new frame number to be persisted.
    Saving { record: Config },
    /// For the user to take note that the wallpaper could not be set.
    Reporting { error: Errors, seconds: u64 },
    /// For the interval to pass.
    Sleeping { seconds: u64 },
    /// For nothing: the process ends well.
    Terminated,
    /// For nothing: the process ends with this failure.
    Failed(Errors),
}

/// A [`Phase`] as plain data.
pub enum PhaseView {
    Locking,
    Preparing,
    Resetting { settings: ConfigView },
    Configuring { primary: bool },
    Idle,
    Counting { settings: ConfigView },
    Probing { settings: ConfigView, total: u64, next: u64 },
    Clearing { settings: ConfigView, total: u64, next: u64 },
    Extracting { settings: ConfigView, total: u64, next: u64 },
    Checking { settings: ConfigView, total: u64, next: u64 },
    Publishing { settings: ConfigView, total: u64, next: u64 },
    Saving { record: ConfigView },
    Reporting { error: ErrorsView, seconds: u64 },
    Sleeping { seconds: u64 },
    Terminated,
    Failed(ErrorsView),
}

impl View for Phase {
    type V = PhaseView;

    open spec fn view(&self) -> PhaseView {
        match *self {
            Phase::Locking => PhaseView::Locking,
            Phase::Preparing => PhaseView::Preparing,
            Phase::Resetting { settings } => PhaseView::Resetting { settings: settings@ },
            Phase::Configuring { primary } => PhaseView::Configuring { primary },
            Phase::Idle => PhaseView::Idle,
            Phase::Counting { settings } => PhaseView::Counting { settings: settings@ },
            Phase::Probing { settings, total, next } => PhaseView::Probing {
                settings: settings@,
                total,
                next,
            },
            Phase::Clearing { settings, total, next } => PhaseView::Clearing {
                settings: settings@,
                total,
                next,
            },
            Phase::Extracting { settings, total, next } => PhaseView::Extracting {
                settings: settings@,
                total,
                next,
            },
            Phase::Checking { settings, total, next } => PhaseView::Checking {
                settings: settings@,
                total,
                next,
            },
            Phase::Publishing { settings, total, next } => PhaseView::Publishing {
                settings: settings@,
                total,
                next,
            },
            Phase::Saving { record } => PhaseView::Saving { record: record@ },
            Phase::Reporting { error, seconds } => PhaseView::Reporting { error: error@, seconds },
            Phase::Sleeping { seconds } => PhaseView::Sleeping { seconds },
            Phase::Terminated => PhaseView::Terminated,
            Phase::Failed(e) => PhaseView::Failed(e@),
        }
    }
}

/// The answer to a request.
#[derive(Clone, Debug, PartialEq, Eq)]
pub enum Event {
    /// The lock was tried.
    Lock(LockAttempt),
    /// The settings were loaded.
    Settings(Config),
    /// The settings were written, or not.
    Saved(Outcome),
    /// The front-end or a command ended.
    Tool(ToolRun),
    /// A path was looked at.
    Probed(Probe),
    /// A file was removed, or not.
    Removed(Outcome),
    /// The wallpaper was set, or not.
    WallpaperSet(Outcome),
    /// The user has seen the alert.
    Alerted,
    /// The sleep is over.
    Woke,
}

/// An [`Event`] as plain data.
pub enum EventView {
    Lock(LockAttemptView),
    Settings(ConfigView),
    Saved(OutcomeView),
    Tool(ToolRunView),
    Probed(Probe),
    Removed(OutcomeView),
    WallpaperSet(OutcomeView),
    Alerted,
    Woke,
}

impl View for Event {
    type V = EventView;

    open spec fn view(&self) -> EventView {
        match *self {
            Event::Lock(a) => EventView::Lock(a@),
            Event::Settings(c) => EventView::Settings(c@),
            Event::Saved(o) => EventView::Saved(o@),
            Event::Tool(r) => EventView::Tool(r@),
            Event::Probed(p) => EventView::Probed(p),
            Event::Removed(o) => EventView::Removed(o@),
            Event::WallpaperSet(o) => EventView::WallpaperSet(o@),
            Event::Alerted => EventView::Alerted,
            Event::Woke => EventView::Woke,
        }
    }
}

/// What the program has to do.
#[derive(Clone, Debug, PartialEq, Eq)]
pub enum Action {
    /// Try, without waiting, to take the lock of this name, and keep it.
    Lock(String),
    /// Load the settings.
    Load,
    /// Write the settings.
    Save(StoreWrite),
    /// Run the front-end to its end, and report its exit status in words.
    Launch(Invocation),
    /// Run the command to its end, and report what it printed.
    Run(Invocation),
    /// Look whether there is something at the path.
    Probe(String),
    /// Remove the file at the path.
    Remove(String),
    /// Make the picture at the path the wallpaper.
    SetWallpaper(String),
    /// Tell the user of a failure that does not end the process.
    Alert(Errors),
    /// Sleep for so many seconds.
    Sleep(u64),
    /// End with success.
    Finish,
    /// Tell the user of the failure, and end with it.
    Abort(Errors),
}

/// An [`Action`] as plain data.
pub enum ActionView {
    Lock(Seq<char>),
    Load,
    Save(StoreWriteView),
    Launch(InvocationView),
    Run(InvocationView),
    Probe(Seq<char>),
    Remove(Seq<char>),
    SetWallpaper(Seq<char>),
    Alert(ErrorsView),
    Sleep(u64),
    Finish,
    Abort(ErrorsView),
}

impl View for Action {
    type V = ActionView;

    open spec fn view(&self) -> ActionView {
        match *self {
            Action::Lock(n) => ActionView::Lock(n@),
            Action::Load => ActionView::Load,
            Action::Save(w) => ActionView::Save(w@),
            Action::Launch(i) => ActionView::Launch(i@),
            Action::Run(i) => ActionView::Run(i@),
            Action::Probe(p) => ActionView::Probe(p@),
            Action::Remove(p) => ActionView::Remove(p@),
            Action::SetWallpaper(p) => ActionView::SetWallpaper(p@),
            Action::Alert(e) => ActionView::Alert(e@),
            Action::Sleep(s) => ActionView::Sleep(s),
            Action::Finish => ActionView::Finish,
            Action::Abort(e) => ActionView::Abort(e@),
        }
    }
}

/// What the program has to do in a phase.
pub open spec fn requested(tools: ToolsView, phase: PhaseView) -> ActionView {
    match phase {
        PhaseView::Locking => ActionView::Lock(lock_name()),
        PhaseView::Preparing => ActionView::Load,
        PhaseView::Resetting { settings } => ActionView::Save(store_request(settings)),
        PhaseView::Configuring { .. } => ActionView::Launch(shell(tools.gui)),
        PhaseView::Idle => ActionView::Load,
        PhaseView::Counting { settings } => ActionView::Run(
            shell(count_line(tools.ffprobe, settings.movie_path)),
        ),
        PhaseView::Probing { .. } => ActionView::Probe(tools.picture),
        PhaseView::Clearing { .. } => ActionView::Remove(tools.picture),
        PhaseView::Extracting { settings, next, .. } => ActionView::Run(
            shell(picture_line(tools.ffmpeg, settings.movie_path, next, tools.picture)),
        ),
        PhaseView::Checking { .. } => ActionView::Probe(tools.picture),
        PhaseView::Publishing { .. } => ActionView::SetWallpaper(tools.picture),
        PhaseView::Saving { record } => ActionView::Save(store_request(record)),
        PhaseView::Reporting { error, .. } => ActionView::Alert(error),
        PhaseView::Sleeping { seconds } => ActionView::Sleep(seconds),
        PhaseView::Terminated => ActionView::Finish,
        PhaseView::Failed(e) => ActionView::Abort(e),
    }
}

/// The phase in which the front-end runs, or the failure to run it: it runs
/// on one platform only.
pub open spec fn configuring(tools: ToolsView, primary: bool) -> PhaseView {
    if tools.platform == Platform::Windows {
        PhaseView::Configuring { primary }
    } else {
        PhaseView::Failed(ErrorsView::OSTypeError)
    }
}

/// The phase in which the frame is extracted, or the failure to do so: the
/// tool runs on one platform only.
pub open spec fn extracting(
    tools: ToolsView,
    settings: ConfigView,
    total: u64,
    next: u64,
) -> PhaseView {
    if tools.platform == Platform::Windows {
        PhaseView::Extracting { settings, total, next }
    } else {
        PhaseView::Failed(ErrorsView::OSTypeError)
    }
}

/// The phase that follows `phase` on `event`.
///
/// An event that does not answer the request of the phase changes nothing.
/// The two final phases are left on no event.
pub open spec fn next_phase(tools: ToolsView, phase: PhaseView, event: EventView) -> PhaseView {
    match (phase, event) {
        (PhaseView::Locking, EventView::Lock(attempt)) => match attempt {
            LockAttemptView::Acquired => PhaseView::Preparing,
            LockAttemptView::WouldBlock => configuring(tools, false),
            LockAttemptView::Failed(m) => PhaseView::Failed(ErrorsView::DoubleOpenError(m)),
        },
        (PhaseView::Preparing, EventView::Settings(found)) => PhaseView::Resetting {
            settings: found.with_exit(false),
        },
        (PhaseView::Resetting { .. }, EventView::Saved(outcome)) => match outcome {
            OutcomeView::Done => configuring(tools, true),
            OutcomeView::Failed(m) => PhaseView::Failed(ErrorsView::InnerIOError(m)),
        },
        (PhaseView::Configuring { primary }, EventView::Tool(launch)) => match launch_result(
            launch,
        ) {
            Err(e) => PhaseView::Failed(e),
            Ok(_) => if primary {
                PhaseView::Idle
            } else {
                PhaseView::Terminated
            },
        },
        (PhaseView::Idle, EventView::Settings(settings)) => if settings.exit_requested() {
            PhaseView::Terminated
        } else if tools.platform != Platform::Windows {
            PhaseView::Failed(ErrorsView::FfprobeLost)
        } else {
            PhaseView::Counting { settings }
        },
        (PhaseView::Counting { settings }, EventView::Tool(counted)) => match frame_count_of(
            counted,
        ) {
            Err(e) => PhaseView::Failed(e),
            Ok(total) => match frame_after(settings.frame_count, total) {
                Err(e) => PhaseView::Failed(e),
                Ok(next) => PhaseView::Probing { settings, total, next },
            },
        },
        (PhaseView::Probing { settings, total, next }, EventView::Probed(probe)) => if needs_removal(
            probe,
        ) {
            PhaseView::Clearing { settings, total, next }
        } else {
            extracting(tools, settings, total, next)
        },
        (PhaseView::Clearing { settings, total, next }, EventView::Removed(outcome)) => match deletion(
            Probe::Present,
            outcome,
        ) {
            Err(e) => PhaseView::Failed(e),
            Ok(_) => extracting(tools, settings, total, next),
        },
        (PhaseView::Extracting { settings, total, next }, EventView::Tool(extracted)) => match picture_result(
            extracted,
        ) {
            Err(e) => PhaseView::Failed(e),
            Ok(_) => PhaseView::Checking { settings, total, next },
        },
        (PhaseView::Checking { settings, total, next }, EventView::Probed(probe)) => if probe
            == Probe::Present {
            PhaseView::Publishing { settings, total, next }
        } else {
            PhaseView::Failed(ErrorsView::FramePictureLost)
        },
        (PhaseView::Publishing { settings, total, next }, EventView::WallpaperSet(outcome)) => match outcome {
            OutcomeView::Done => PhaseView::Saving { record: settings.with_frame(next) },
            OutcomeView::Failed(m) => PhaseView::Reporting {
                error: ErrorsView::WallpaperSetError(m),
                seconds: pause_seconds(settings) as u64,
            },
        },
        (PhaseView::Saving { record }, EventView::Saved(outcome)) => match outcome {
            OutcomeView::Done => PhaseView::Sleeping { seconds: pause_seconds(record) as u64 },
            OutcomeView::Failed(m) => PhaseView::Failed(ErrorsView::InnerIOError(m)),
        },
        (PhaseView::Reporting { seconds, .. }, EventView::Alerted) => PhaseView::Sleeping {
            seconds,
        },
        (PhaseView::Sleeping { .. }, EventView::Woke) => PhaseView::Idle,
        _ => phase,
    }
}

/// The phase in which a process starts.
pub fn start() -> (out: Phase)
    ensures
        out@ == PhaseView::Locking,
{
    Phase::Locking
}

/// What the program has to do in `phase`.
pub fn request(tools: &Tools, phase: &Phase) -> (out: Action)
    ensures
        out@ == requested(tools@, phase@),
{
    match phase {
        Phase::Locking => Action::Lock(String::from_str(LOCK_NAME)),
        Phase::Preparing => Action::Load,
        Phase::Resetting { settings } => Action::Save(settings.save()),
        Phase::Configuring { .. } => Action::Launch(gui_command(&tools.gui)),
        Phase::Idle => Action::Load,
        Phase::Counting { settings } => {
            let movie = settings.get_movie_path();
            Action::Run(frame_count_command(&tools.ffprobe, &movie))
        },
        Phase::Probing { .. } => Action::Probe(tools.picture.clone()),
        Phase::Clearing { .. } => Action::Remove(tools.picture.clone()),
        Phase::Extracting { settings, next, .. } => {
            let movie = settings.get_movie_path();
            Action::Run(frame_picture_command(&tools.ffmpeg, &movie, *next, tools.picture.as_str()))
        },
        Phase::Checking { .. } => Action::Probe(tools.picture.clone()),
        Phase::Publishing { .. } => Action::SetWallpaper(tools.picture.clone()),
        Phase::Saving { record } => Action::Save(record.save()),
        Phase::Reporting { error, .. } => Action::Alert(error.duplicate()),
        Phase::Sleeping { seconds } => Action::Sleep(*seconds),
        Phase::Terminated => Action::Finish,
        Phase::Failed(e) => Action::Abort(e.duplicate()),
    }
}

fn enter_configuring(tools: &Tools, primary: bool) -> (out: Phase)
    ensures
        out@ == configuring(tools@, primary),
{
    match tools.platform {
        Platform::Windows => Phase::Configuring { primary },
        Platform::Other => Phase::Failed(Errors::OSTypeError),
    }
}

fn enter_extracting(tools: &Tools, settings: Config, total: u64, next: u64) -> (out: Phase)
    ensures
        out@ == extracting(tools@, settings@, total, next),
{
    match tools.platform {
        Platform::Windows => Phase::Extracting { settings, total, next },
        Platform::Other => Phase::Failed(Errors::OSTypeError),
    }
}

/// The phase that follows `phase` on `event`.
pub fn step(tools: &Tools, phase: Phase, event: Event) -> (out: Phase)
    ensures
        out@ == next_phase(tools@, phase@, event@),
{
    match phase {
        Phase::Locking => match event {
            Event::Lock(attempt) => match attempt {
                LockAttempt::Acquired => Phase::Preparing,
                LockAttempt::WouldBlock => enter_configuring(tools, false),
                LockAttempt::Failed(m) => Phase::Failed(Errors::DoubleOpenError(m)),
            },
            _ => Phase::Locking,
        },
        Phase::Preparing => match event {
            Event::Settings(found) => {
                let mut settings = found;
                settings.set_exit_flag(false);
                Phase::Resetting { settings }
            },
            _ => Phase::Preparing,
        },
        Phase::Resetting { settings } => match event {
            Event::Saved(outcome) => match outcome {
                Outcome::Done => enter_configuring(tools, true),
                Outcome::Failed(m) => Phase::Failed(Errors::InnerIOError(m)),
            },
            _ => Phase::Resetting { settings },
        },
        Phase::Configuring { primary } => match event {
            Event::Tool(launch) => match run(launch) {
                Err(e) => Phase::Failed(e),
                Ok(_) => if primary {
                    Phase::Idle
                } else {
                    Phase::Terminated
                },
            },
            _ => Phase::Configuring { primary },
        },
        Phase::Idle => match event {
            Event::Settings(settings) => {
                if settings.should_exit() {
                    Phase::Terminated
                } else {
                    match tools.platform {
                        Platform::Windows => Phase::Counting { settings },
                        Platform::Other => Phase::Failed(Errors::FfprobeLost),
                    }
                }
            },
            _ => Phase::Idle,
        },
        Phase::Counting { settings } => match event {
            Event::Tool(counted) => match generate_frame_count(counted) {
                Err(e) => Phase::Failed(e),
                Ok(total) => match next_frame(settings.get_frame_count(), total) {
                    Err(e) => Phase::Failed(e),
                    Ok(next) => Phase::Probing { settings, total, next },
                },
            },
            _ => Phase::Counting { settings },
        },
        Phase::Probing { settings, total, next } => match event {
            Event::Probed(probe) => {
                if must_delete(probe) {
                    Phase::Clearing { settings, total, next }
                } else {
                    enter_extracting(tools, settings, total, next)
                }
            },
            _ => Phase::Probing { settings, total, next },
        },
        Phase::Clearing { settings, total, next } => match event {
            Event::Removed(outcome) => match delete_file(Probe::Present, outcome) {
                Err(e) => Phase::Failed(e),
                Ok(_) => enter_extracting(tools, settings, total, next),
            },
            _ => Phase::Clearing { settings, total, next },
        },
        Phase::Extracting { settings, total, next } => match event {
            Event::Tool(extracted) => match generate_frame_picture(extracted) {
                Err(e) => Phase::Failed(e),
                Ok(_) => Phase::Checking { settings, total, next },
            },
            _ => Phase::Extracting { settings, total, next },
        },
        Phase::Checking { settings, total, next } => match event {
            Event::Probed(probe) => {
                if probe == Probe::Present {
                    Phase::Publishing { settings, total, next }
                } else {
                    Phase::Failed(Errors::FramePictureLost)
                }
            },
            _ => Phase::Checking { settings, total, next },
        },
        Phase::Publishing { settings, total, next } => match event {
            Event::WallpaperSet(outcome) => match outcome {
                Outcome::Done => {
                    let mut record = settings;
                    record.set_frame_count(next);
                    Phase::Saving { record }
                },
                Outcome::Failed(m) => Phase::Reporting {
                    error: Errors::WallpaperSetError(m),
                    seconds: sleep_seconds(&settings),
                },
            },
            _ => Phase::Publishing { settings, total, next },
        },
        Phase::Saving { record } => match event {
            Event::Saved(outcome) => match outcome {
                Outcome::Done => Phase::Sleeping { seconds: sleep_seconds(&record) },
                Outcome::Failed(m) => Phase::Failed(Errors::InnerIOError(m)),
            },
            _ => Phase::Saving { record },
        },
        Phase::Reporting { error, seconds } => match event {
            Event::Alerted => Phase::Sleeping { seconds },
            _ => Phase::Reporting { error, seconds },
        },
        Phase::Sleeping { seconds } => match event {
            Event::Woke => Phase::Idle,
            _ => Phase::Sleeping { seconds },
        },
        Phase::Terminated => Phase::Terminated,
        Phase::Failed(e) => Phase::Failed(e),
    }
}

} // verus!
