use utillib::config::{Config, StoreWrite, MIN_INTERVAL};
use utillib::coordinator::LockAttempt;
use utillib::errors::Errors;
use utillib::scheduler::{
    next_frame, request, sleep_seconds, start, step, Action, Event, Phase, Tools,
};
use utillib::utils::{Outcome, Platform, Probe};
use utillib::video_process::{Invocation, ToolRun};

fn tools() -> Tools {
    Tools::locate("C:\\movie", "C:\\slowmovie", Platform::Windows)
}

fn settings(frame: u64) -> Config {
    Config::from_fields(
        "C:\\movie\\config.json".to_string(),
        "C:\\movie\\eva.mp4".to_string(),
        10,
        2,
        frame,
        0,
    )
}

fn stopping(frame: u64) -> Config {
    let mut conf = settings(frame);
    conf.set_exit_flag(true);
    conf
}

fn printed(output: &str) -> ToolRun {
    ToolRun::Exited { success: true, output: output.to_string() }
}

fn shell(line: &str) -> Invocation {
    Invocation {
        program: "cmd".to_string(),
        switch: "/C".to_string(),
        line: line.to_string(),
        creation_flags: 0x08000000,
    }
}

fn write(record: Config) -> StoreWrite {
    StoreWrite { path: "C:\\movie\\config.json".to_string(), record }
}

fn run_through(tools: &Tools, from: Phase, events: Vec<Event>) -> (Phase, Vec<Action>) {
    let mut phase = from;
    let mut actions = vec![request(tools, &phase)];
    for event in events {
        phase = step(tools, phase, event);
        actions.push(request(tools, &phase));
    }
    (phase, actions)
}

#[test]
fn tools_lie_where_the_program_expects_them() {
    let t = tools();
    assert_eq!(t.platform, Platform::Windows);
    assert_eq!(t.ffprobe, "C:\\movie\\ffmpeg\\ffprobe.exe");
    assert_eq!(t.ffmpeg, "C:\\movie\\ffmpeg\\ffmpeg.exe");
    assert_eq!(t.picture, "C:\\movie\\frame.png");
    assert_eq!(t.gui, "C:\\slowmovie\\gui.exe");
}

#[test]
fn the_frame_after_the_last_is_the_first() {
    assert_eq!(next_frame(9, 10), Ok(0));
}

#[test]
fn the_next_frame_counts_cyclically() {
    assert_eq!(next_frame(0, 10), Ok(1));
    assert_eq!(next_frame(8, 10), Ok(9));
    assert_eq!(next_frame(0, 1), Ok(0));
    assert_eq!(next_frame(41, 1440), Ok(42));
    assert_eq!(next_frame(1439, 1440), Ok(0));
}

#[test]
fn the_next_frame_of_a_frame_beyond_the_movie_is_within_it() {
    assert_eq!(next_frame(10, 10), Ok(1));
    assert_eq!(next_frame(25, 10), Ok(6));
    assert_eq!(next_frame(u64::MAX, 10), Ok(6));
    assert_eq!(next_frame(u64::MAX, u64::MAX), Ok(1));
    assert_eq!(next_frame(u64::MAX - 1, u64::MAX), Ok(0));
    assert_eq!(next_frame(u64::MAX, 1), Ok(0));
}

#[test]
fn the_next_frame_is_always_within_the_movie() {
    for total in 1..40u64 {
        for index in 0..100u64 {
            let next = next_frame(index, total).unwrap();
            assert!(next < total);
            assert_eq!(next, (index + 1) % total);
        }
    }
}

#[test]
fn a_movie_without_frames_has_no_next_frame() {
    assert_eq!(next_frame(0, 0), Err(Errors::ZeroFrameCountError));
    assert_eq!(next_frame(9, 0), Err(Errors::ZeroFrameCountError));
    assert_eq!(next_frame(u64::MAX, 0), Err(Errors::ZeroFrameCountError));
}

#[test]
fn the_sleep_is_the_interval_in_its_unit() {
    assert_eq!(sleep_seconds(&settings(0)), 600);
    let second = Config::from_fields(String::new(), String::new(), 150, 1, 0, 0);
    assert_eq!(sleep_seconds(&second), 150);
    let hour = Config::from_fields(String::new(), String::new(), 5, 3, 0, 0);
    assert_eq!(sleep_seconds(&hour), 18000);
    let unknown = Config::from_fields(String::new(), String::new(), 5, 9, 0, 0);
    assert_eq!(sleep_seconds(&unknown), 5);
    let largest = Config::from_fields(String::new(), String::new(), u32::MAX, 3, 0, 0);
    assert_eq!(sleep_seconds(&largest), 4294967295 * 3600);
}

#[test]
fn the_sleep_is_never_shorter_than_the_floor() {
    assert_eq!(MIN_INTERVAL, 3);
    for interval in 0..3 {
        let second = Config::from_fields(String::new(), String::new(), interval, 1, 0, 0);
        assert_eq!(sleep_seconds(&second), 3);
        let minute = Config::from_fields(String::new(), String::new(), interval, 2, 0, 0);
        assert_eq!(sleep_seconds(&minute), 180);
    }
    let at_floor = Config::from_fields(String::new(), String::new(), 3, 1, 0, 0);
    assert_eq!(sleep_seconds(&at_floor), 3);
    let above = Config::from_fields(String::new(), String::new(), 4, 1, 0, 0);
    assert_eq!(sleep_seconds(&above), 4);
}

#[test]
fn a_process_starts_by_trying_the_lock() {
    assert_eq!(start(), Phase::Locking);
    assert_eq!(request(&tools(), &start()), Action::Lock("slowmovie".to_string()));
}

#[test]
fn a_primary_clears_the_exit_flag_configures_and_enters_the_cycle() {
    let t = tools();
    let (phase, actions) = run_through(
        &t,
        start(),
        vec![
            Event::Lock(LockAttempt::Acquired),
            Event::Settings(stopping(41)),
            Event::Saved(Outcome::Done),
            Event::Tool(ToolRun::Exited { success: true, output: "exit code: 0".to_string() }),
        ],
    );
    assert_eq!(phase, Phase::Idle);
    assert_eq!(
        actions,
        vec![
            Action::Lock("slowmovie".to_string()),
            Action::Load,
            Action::Save(write(settings(41))),
            Action::Launch(shell("C:\\slowmovie\\gui.exe")),
            Action::Load,
        ]
    );
}

#[test]
fn a_secondary_runs_the_front_end_and_ends() {
    let t = tools();
    let (phase, actions) = run_through(
        &t,
        start(),
        vec![
            Event::Lock(LockAttempt::WouldBlock),
            Event::Tool(ToolRun::Exited { success: true, output: "exit code: 0".to_string() }),
        ],
    );
    assert_eq!(phase, Phase::Terminated);
    assert_eq!(
        actions,
        vec![
            Action::Lock("slowmovie".to_string()),
            Action::Launch(shell("C:\\slowmovie\\gui.exe")),
            Action::Finish,
        ]
    );
}

#[test]
fn a_secondary_passes_on_the_failure_of_the_front_end() {
    let t = tools();
    let (phase, actions) = run_through(
        &t,
        start(),
        vec![
            Event::Lock(LockAttempt::WouldBlock),
            Event::Tool(ToolRun::Exited { success: false, output: "exit code: 101".to_string() }),
        ],
    );
    let failure =
        Errors::GuiRunError("Run gui.exe failed. Finished with:exit code: 101".to_string());
    assert_eq!(phase, Phase::Failed(failure.clone()));
    assert_eq!(actions[2], Action::Abort(failure));
}

#[test]
fn a_lock_that_cannot_be_tried_is_fatal() {
    let t = tools();
    let phase = step(&t, start(), Event::Lock(LockAttempt::Failed("no permission".to_string())));
    assert_eq!(phase, Phase::Failed(Errors::DoubleOpenError("no permission".to_string())));
    assert_eq!(
        request(&t, &phase),
        Action::Abort(Errors::DoubleOpenError("no permission".to_string()))
    );
}

#[test]
fn a_missing_front_end_is_fatal_for_the_primary() {
    let t = tools();
    let phase = step(&t, Phase::Configuring { primary: true }, Event::Tool(ToolRun::Missing));
    assert_eq!(phase, Phase::Failed(Errors::GuiLost));
}

#[test]
fn settings_that_cannot_be_reset_are_fatal() {
    let t = tools();
    let phase = step(
        &t,
        Phase::Resetting { settings: settings(1) },
        Event::Saved(Outcome::Failed("disk full".to_string())),
    );
    assert_eq!(phase, Phase::Failed(Errors::InnerIOError("disk full".to_string())));
}

#[test]
fn the_front_end_runs_on_windows_only() {
    let t = Tools::locate("/home/rei", "/opt/slowmovie", Platform::Other);
    assert_eq!(
        step(&t, start(), Event::Lock(LockAttempt::WouldBlock)),
        Phase::Failed(Errors::OSTypeError)
    );
    assert_eq!(
        step(&t, Phase::Resetting { settings: settings(1) }, Event::Saved(Outcome::Done)),
        Phase::Failed(Errors::OSTypeError)
    );
}

#[test]
fn the_counting_tool_is_lost_off_windows() {
    let t = Tools::locate("/home/rei", "/opt/slowmovie", Platform::Other);
    assert_eq!(step(&t, Phase::Idle, Event::Settings(settings(1))), Phase::Failed(Errors::FfprobeLost));
    assert_eq!(step(&t, Phase::Idle, Event::Settings(stopping(1))), Phase::Terminated);
}

#[test]
fn a_cycle_from_the_last_frame_of_ten_extracts_frame_zero() {
    let t = tools();
    let (phase, actions) = run_through(
        &t,
        Phase::Idle,
        vec![
            Event::Settings(settings(9)),
            Event::Tool(printed("10\r\n")),
            Event::Probed(Probe::Absent),
        ],
    );
    assert_eq!(phase, Phase::Extracting { settings: settings(9), total: 10, next: 0 });
    assert_eq!(
        actions[3],
        Action::Run(shell(
            "C:\\movie\\ffmpeg\\ffmpeg.exe -i C:\\movie\\eva.mp4 -vf select=eq(n\\,0) -vsync 0 -vframes 1 -f image2 C:\\movie\\frame.png"
        ))
    );
}

#[test]
fn a_request_to_exit_ends_the_cycle_before_any_command() {
    let t = tools();
    let (phase, actions) = run_through(&t, Phase::Idle, vec![Event::Settings(stopping(9))]);
    assert_eq!(phase, Phase::Terminated);
    assert_eq!(actions, vec![Action::Load, Action::Finish]);
}

#[test]
fn a_frame_count_of_abc_fails_the_cycle() {
    let t = tools();
    let (phase, actions) = run_through(
        &t,
        Phase::Idle,
        vec![Event::Settings(settings(9)), Event::Tool(printed("abc"))],
    );
    let failure = Errors::FrameCountError("invalid digit found in string".to_string());
    assert_eq!(phase, Phase::Failed(failure.clone()));
    assert_eq!(
        actions,
        vec![
            Action::Load,
            Action::Run(shell(
                "C:\\movie\\ffmpeg\\ffprobe.exe -v error -select_streams v:0 -count_packets -show_entries stream=nb_read_packets -of csv=p=0 C:\\movie\\eva.mp4"
            )),
            Action::Abort(failure),
        ]
    );
}

#[test]
fn a_frame_count_of_zero_fails_the_cycle_at_once() {
    let t = tools();
    let (phase, actions) = run_through(
        &t,
        Phase::Idle,
        vec![Event::Settings(settings(9)), Event::Tool(printed("0\n"))],
    );
    assert_eq!(phase, Phase::Failed(Errors::ZeroFrameCountError));
    assert_eq!(actions[2], Action::Abort(Errors::ZeroFrameCountError));
}

#[test]
fn a_whole_cycle_resumes_after_the_persisted_frame() {
    let t = tools();
    let (phase, actions) = run_through(
        &t,
        Phase::Idle,
        vec![
            Event::Settings(settings(41)),
            Event::Tool(printed("1440\n")),
            Event::Probed(Probe::Present),
            Event::Removed(Outcome::Done),
            Event::Tool(printed("")),
            Event::Probed(Probe::Present),
            Event::WallpaperSet(Outcome::Done),
            Event::Saved(Outcome::Done),
            Event::Woke,
        ],
    );
    assert_eq!(phase, Phase::Idle);
    assert_eq!(
        actions,
        vec![
            Action::Load,
            Action::Run(shell(
                "C:\\movie\\ffmpeg\\ffprobe.exe -v error -select_streams v:0 -count_packets -show_entries stream=nb_read_packets -of csv=p=0 C:\\movie\\eva.mp4"
            )),
            Action::Probe("C:\\movie\\frame.png".to_string()),
            Action::Remove("C:\\movie\\frame.png".to_string()),
            Action::Run(shell(
                "C:\\movie\\ffmpeg\\ffmpeg.exe -i C:\\movie\\eva.mp4 -vf select=eq(n\\,42) -vsync 0 -vframes 1 -f image2 C:\\movie\\frame.png"
            )),
            Action::Probe("C:\\movie\\frame.png".to_string()),
            Action::SetWallpaper("C:\\movie\\frame.png".to_string()),
            Action::Save(write(settings(42))),
            Action::Sleep(600),
            Action::Load,
        ]
    );
}

#[test]
fn a_restarted_process_goes_on_from_the_persisted_frame() {
    let t = tools();
    let (phase, actions) = run_through(
        &t,
        start(),
        vec![
            Event::Lock(LockAttempt::Acquired),
            Event::Settings(settings(7)),
            Event::Saved(Outcome::Done),
            Event::Tool(printed("exit code: 0")),
            Event::Settings(settings(7)),
            Event::Tool(printed("100")),
            Event::Probed(Probe::Absent),
            Event::Tool(printed("")),
            Event::Probed(Probe::Present),
            Event::WallpaperSet(Outcome::Done),
        ],
    );
    assert_eq!(phase, Phase::Saving { record: settings(8) });
    assert_eq!(actions[2], Action::Save(write(settings(7))));
    assert_eq!(actions[10], Action::Save(write(settings(8))));
}

#[test]
fn a_stale_picture_that_is_absent_is_not_removed() {
    let t = tools();
    for probe in [Probe::Absent, Probe::Unknown] {
        let phase = step(
            &t,
            Phase::Probing { settings: settings(1), total: 10, next: 2 },
            Event::Probed(probe),
        );
        assert_eq!(phase, Phase::Extracting { settings: settings(1), total: 10, next: 2 });
    }
}

#[test]
fn a_stale_picture_that_cannot_be_removed_fails_the_cycle() {
    let t = tools();
    let phase = step(
        &t,
        Phase::Clearing { settings: settings(1), total: 10, next: 2 },
        Event::Removed(Outcome::Failed("in use".to_string())),
    );
    assert_eq!(phase, Phase::Failed(Errors::DeleteFileError("in use".to_string())));
}

#[test]
fn a_failed_extraction_fails_the_cycle() {
    let t = tools();
    let phase = step(
        &t,
        Phase::Extracting { settings: settings(1), total: 10, next: 2 },
        Event::Tool(ToolRun::Exited { success: false, output: "moov atom not found".to_string() }),
    );
    assert_eq!(phase, Phase::Failed(Errors::FfmpegRunError("moov atom not found".to_string())));
}

#[test]
fn an_extraction_that_left_no_picture_fails_the_cycle() {
    let t = tools();
    for probe in [Probe::Absent, Probe::Unknown] {
        let phase = step(
            &t,
            Phase::Checking { settings: settings(1), total: 10, next: 2 },
            Event::Probed(probe),
        );
        assert_eq!(phase, Phase::Failed(Errors::FramePictureLost));
    }
}

#[test]
fn a_wallpaper_that_cannot_be_set_leaves_the_frame_as_it_was() {
    let t = tools();
    let (phase, actions) = run_through(
        &t,
        Phase::Publishing { settings: settings(41), total: 1440, next: 42 },
        vec![
            Event::WallpaperSet(Outcome::Failed("no desktop".to_string())),
            Event::Alerted,
            Event::Woke,
        ],
    );
    assert_eq!(phase, Phase::Idle);
    assert_eq!(
        actions,
        vec![
            Action::SetWallpaper("C:\\movie\\frame.png".to_string()),
            Action::Alert(Errors::WallpaperSetError("no desktop".to_string())),
            Action::Sleep(600),
            Action::Load,
        ]
    );
    for action in actions {
        assert!(!matches!(action, Action::Save(_)));
    }
}

#[test]
fn the_cycle_after_a_failed_wallpaper_tries_the_same_frame() {
    let t = tools();
    let (phase, _) = run_through(
        &t,
        Phase::Publishing { settings: settings(41), total: 1440, next: 42 },
        vec![
            Event::WallpaperSet(Outcome::Failed("no desktop".to_string())),
            Event::Alerted,
            Event::Woke,
            Event::Settings(settings(41)),
            Event::Tool(printed("1440")),
        ],
    );
    assert_eq!(phase, Phase::Probing { settings: settings(41), total: 1440, next: 42 });
}

#[test]
fn settings_that_cannot_be_saved_fail_the_cycle() {
    let t = tools();
    let phase = step(
        &t,
        Phase::Saving { record: settings(42) },
        Event::Saved(Outcome::Failed("disk full".to_string())),
    );
    assert_eq!(phase, Phase::Failed(Errors::InnerIOError("disk full".to_string())));
}

#[test]
fn an_answer_that_was_not_asked_for_changes_nothing() {
    let t = tools();
    let phases = vec![
        Phase::Locking,
        Phase::Preparing,
        Phase::Resetting { settings: settings(1) },
        Phase::Configuring { primary: true },
        Phase::Configuring { primary: false },
        Phase::Idle,
        Phase::Counting { settings: settings(1) },
        Phase::Probing { settings: settings(1), total: 10, next: 2 },
        Phase::Clearing { settings: settings(1), total: 10, next: 2 },
        Phase::Extracting { settings: settings(1), total: 10, next: 2 },
        Phase::Checking { settings: settings(1), total: 10, next: 2 },
        Phase::Publishing { settings: settings(1), total: 10, next: 2 },
        Phase::Saving { record: settings(2) },
        Phase::Sleeping { seconds: 3 },
        Phase::Terminated,
        Phase::Failed(Errors::GuiLost),
    ];
    for phase in phases {
        assert_eq!(step(&t, phase.clone(), Event::Alerted), phase);
    }
    assert_eq!(step(&t, Phase::Idle, Event::Woke), Phase::Idle);
    assert_eq!(step(&t, Phase::Sleeping { seconds: 3 }, Event::Settings(settings(1))),
        Phase::Sleeping { seconds: 3 });
}

#[test]
fn the_final_phases_are_left_on_no_event() {
    let t = tools();
    let events = vec![
        Event::Lock(LockAttempt::Acquired),
        Event::Settings(settings(1)),
        Event::Saved(Outcome::Done),
        Event::Tool(ToolRun::Missing),
        Event::Probed(Probe::Present),
        Event::Removed(Outcome::Done),
        Event::WallpaperSet(Outcome::Done),
        Event::Alerted,
        Event::Woke,
    ];
    for event in events {
        assert_eq!(step(&t, Phase::Terminated, event.clone()), Phase::Terminated);
        assert_eq!(
            step(&t, Phase::Failed(Errors::FfmpegLost), event),
            Phase::Failed(Errors::FfmpegLost)
        );
    }
}
