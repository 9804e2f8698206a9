//! The persisted settings: the record itself, its defaults, and what
//! loading and saving it come to.
//!
//! The record on disk is the single source of truth. The library never
//! reads or writes it: `load` decides what the settings are from what was
//! found on disk, and `save_config` says what has to be written where.

use crate::number::{decimal_string, decimal_text};
use crate::utils::{join, joined, Platform};
use vstd::prelude::*;

verus! {

/// The unit in which the interval between two frames is given.
#[derive(Clone, Copy, Debug, PartialEq, Eq, Structural)]
pub enum Timetype {
    Second,
    Minute,
    Hour,
    /// No unit was chosen.
    Unset,
}

/// The number under which a unit is persisted.
pub open spec fn time_code(unit: Timetype) -> i32 {
    match unit {
        Timetype::Unset => 0,
        Timetype::Second => 1,
        Timetype::Minute => 2,
        Timetype::Hour => 3,
    }
}

/// The unit that a persisted number stands for; a number that stands for
/// none counts as seconds.
pub open spec fn unit_of_code(code: i32) -> Timetype {
    if code == 2 {
        Timetype::Minute
    } else if code == 3 {
        Timetype::Hour
    } else {
        Timetype::Second
    }
}

/// The length of a unit in seconds; no unit counts as seconds.
pub open spec fn unit_seconds(unit: Timetype) -> nat {
    match unit {
        Timetype::Minute => 60,
        Timetype::Hour => 3600,
        _ => 1,
    }
}

/// The name of a unit.
pub open spec fn unit_name(unit: Timetype) -> Seq<char> {
    match unit {
        Timetype::Second => "Second"@,
        Timetype::Minute => "Minute"@,
        Timetype::Hour => "Hour"@,
        Timetype::Unset => "None"@,
    }
}

impl Timetype {
    /// The units a user can choose from, in the order they are offered.
    pub fn all() -> (out: [Timetype; 3])
        ensures
            out@ == seq![Timetype::Second, Timetype::Minute, Timetype::Hour],
    {
        [Timetype::Second, Timetype::Minute, Timetype::Hour]
    }

    /// The number under which the unit is persisted.
    pub fn code(self) -> (out: i32)
        ensures
            out == time_code(self),
    {
        match self {
            Timetype::Unset => 0,
            Timetype::Second => 1,
            Timetype::Minute => 2,
            Timetype::Hour => 3,
        }
    }

    /// The unit that a persisted number stands for.
    pub fn from_code(code: i32) -> (out: Timetype)
        ensures
            out == unit_of_code(code),
    {
        if code == 2 {
            Timetype::Minute
        } else if code == 3 {
            Timetype::Hour
        } else {
            Timetype::Second
        }
    }

    /// The length of the unit in seconds.
    pub fn seconds(self) -> (out: u64)
        ensures
            out == unit_seconds(self),
    {
        match self {
            Timetype::Minute => 60,
            Timetype::Hour => 3600,
            _ => 1,
        }
    }

    /// The name of the unit.
    pub fn name(&self) -> (out: String)
        ensures
            out@ == unit_name(*self),
    {
        match self {
            Timetype::Second => String::from_str("Second"),
            Timetype::Minute => String::from_str("Minute"),
            Timetype::Hour => String::from_str("Hour"),
            Timetype::Unset => String::from_str("None"),
        }
    }
}

impl Default for Timetype {
    fn default() -> (out: Timetype)
        ensures
            out == Timetype::Second,
    {
        Timetype::Second
    }
}

/// The persisted settings.
#[derive(Clone, Debug, PartialEq, Eq)]
pub struct Config {
    config_path: String,
    movie_path: String,
    time_interval: u32,
    time_type: i32,
    frame_count: u64,
    exit_flag: i32,
}

/// The settings as plain data, field for field as they are persisted.
pub struct ConfigView {
    /// Where the record is kept.
    pub config_path: Seq<char>,
    /// The movie whose frames are shown.
    pub movie_path: Seq<char>,
    /// The interval between two frames, in units of `time_type`.
    pub time_interval: u32,
    /// The unit of the interval: 1 for seconds, 2 for minutes, 3 for hours.
    pub time_type: i32,
    /// The frame that was shown last.
    pub frame_count: u64,
    /// 0 to go on, anything else to stop.
    pub exit_flag: i32,
}

impl ConfigView {
    /// Whether the settings ask the scheduler to stop.
    pub open spec fn exit_requested(self) -> bool {
        self.exit_flag != 0
    }

    /// The same settings with another frame shown last.
    pub open spec fn with_frame(self, frame: u64) -> ConfigView {
        ConfigView { frame_count: frame, ..self }
    }

    /// The same settings with the request to stop set or cleared.
    pub open spec fn with_exit(self, flag: bool) -> ConfigView {
        ConfigView { exit_flag: exit_code(flag), ..self }
    }
}

impl View for Config {
    type V = ConfigView;

    closed spec fn view(&self) -> ConfigView {
        ConfigView {
            config_path: self.config_path@,
            movie_path: self.movie_path@,
            time_interval: self.time_interval,
            time_type: self.time_type,
            frame_count: self.frame_count,
            exit_flag: self.exit_flag,
        }
    }
}

/// The number under which a request to stop is persisted.
pub open spec fn exit_code(flag: bool) -> i32 {
    if flag {
        1
    } else {
        0
    }
}

/// The name of the settings file.
pub open spec fn config_file_name() -> Seq<char> {
    "config.json"@
}

/// The name of the movie that is shown when none was chosen.
pub open spec fn default_movie_name() -> Seq<char> {
    "Ayanami_Rei.mp4"@
}

/// The shortest interval between two frames, in whatever unit it is given.
pub const MIN_INTERVAL: u32 = 3;

/// An interval as it counts: raised to the floor if it is below.
pub open spec fn clamped(interval: u32) -> u32 {
    if interval < MIN_INTERVAL {
        MIN_INTERVAL
    } else {
        interval
    }
}

/// The interval, raised to the floor if it is below.
pub fn clamp_interval(interval: u32) -> (out: u32)
    ensures
        out == clamped(interval),
        out >= MIN_INTERVAL,
{
    if interval < MIN_INTERVAL {
        MIN_INTERVAL
    } else {
        interval
    }
}

/// The interval with which a fresh record starts: an hour's seconds split
/// over twenty-four frames.
pub const DEFAULT_INTERVAL: u32 = 150;

/// The settings of a first run in the directory `dir`.
pub open spec fn default_settings(dir: Seq<char>, platform: Platform) -> ConfigView {
    ConfigView {
        config_path: joined(dir, config_file_name(), platform),
        movie_path: joined(dir, default_movie_name(), platform),
        time_interval: DEFAULT_INTERVAL,
        time_type: 1,
        frame_count: 1,
        exit_flag: 0,
    }
}

impl Config {
    /// The settings of a first run in the directory `work_dir`: the record
    /// is kept, and the movie looked for, directly below it.
    pub fn new(work_dir: &str, platform: Platform) -> (out: Config)
        ensures
            out@ == default_settings(work_dir@, platform),
    {
        Config {
            config_path: join(work_dir, "config.json", platform),
            movie_path: join(work_dir, "Ayanami_Rei.mp4", platform),
            time_interval: DEFAULT_INTERVAL,
            time_type: 1,
            frame_count: 1,
            exit_flag: 0,
        }
    }

    /// Settings with the given fields, as a record read from disk has them.
    pub fn from_fields(
        config_path: String,
        movie_path: String,
        time_interval: u32,
        time_type: i32,
        frame_count: u64,
        exit_flag: i32,
    ) -> (out: Config)
        ensures
            out@ == (ConfigView {
                config_path: config_path@,
                movie_path: movie_path@,
                time_interval,
                time_type,
                frame_count,
                exit_flag,
            }),
    {
        Config { config_path, movie_path, time_interval, time_type, frame_count, exit_flag }
    }

    /// A second value with the same fields.
    pub fn duplicate(&self) -> (out: Config)
        ensures
            out@ == self@,
    {
        Config {
            config_path: self.config_path.clone(),
            movie_path: self.movie_path.clone(),
            time_interval: self.time_interval,
            time_type: self.time_type,
            frame_count: self.frame_count,
            exit_flag: self.exit_flag,
        }
    }

    /// Sets the unit of the interval.
    pub fn set_time_type(&mut self, time_type: Timetype)
        ensures
            final(self)@ == (ConfigView { time_type: time_code(time_type), ..old(self)@ }),
    {
        self.time_type = time_type.code();
    }

    /// The unit of the interval, as the number it is persisted under.
    pub fn get_time_type(&self) -> (out: i32)
        ensures
            out == self@.time_type,
    {
        self.time_type
    }

    /// Sets the interval between two frames.
    pub fn set_time_interval(&mut self, time_interval: u32)
        ensures
            final(self)@ == (ConfigView { time_interval, ..old(self)@ }),
    {
        self.time_interval = time_interval;
    }

    /// The interval between two frames, in its unit.
    pub fn get_time_interval(&self) -> (out: u32)
        ensures
            out == self@.time_interval,
    {
        self.time_interval
    }

    /// Sets the movie whose frames are shown.
    pub fn set_movie_path(&mut self, path: String)
        ensures
            final(self)@ == (ConfigView { movie_path: path@, ..old(self)@ }),
    {
        self.movie_path = path;
    }

    /// The movie whose frames are shown.
    pub fn get_movie_path(&self) -> (out: String)
        ensures
            out@ == self@.movie_path,
    {
        self.movie_path.clone()
    }

    /// Where the record is kept.
    pub fn get_config_path(&self) -> (out: String)
        ensures
            out@ == self@.config_path,
    {
        self.config_path.clone()
    }

    /// Sets the frame that was shown last.
    pub fn set_frame_count(&mut self, count: u64)
        ensures
            final(self)@ == old(self)@.with_frame(count),
    {
        self.frame_count = count;
    }

    /// The frame that was shown last.
    pub fn get_frame_count(&self) -> (out: u64)
        ensures
            out == self@.frame_count,
    {
        self.frame_count
    }

    /// What has to be written, and where, to persist these settings.
    pub fn save(&self) -> (out: StoreWrite)
        ensures
            out@ == store_request(self@),
    {
        save_config(self)
    }

    /// Sets or clears the request to stop: 1 is persisted for a request, 0
    /// for none.
    pub fn set_exit_flag(&mut self, flag: bool)
        ensures
            final(self)@ == old(self)@.with_exit(flag),
    {
        self.exit_flag = if flag {
            1
        } else {
            0
        };
    }

    /// Whether the settings ask the scheduler to stop.
    pub fn get_exit_flag(&mut self) -> (out: bool)
        ensures
            out == old(self)@.exit_requested(),
            final(self)@ == old(self)@,
    {
        self.exit_flag != 0
    }

    /// Whether the settings ask the scheduler to stop.
    pub fn should_exit(&self) -> (out: bool)
        ensures
            out == self@.exit_requested(),
    {
        self.exit_flag != 0
    }

    /// The raw number under which the request to stop is persisted.
    pub fn exit_flag_code(&self) -> (out: i32)
        ensures
            out == self@.exit_flag,
    {
        self.exit_flag
    }
}

/// What was found where the record is kept.
#[derive(Clone, Debug, PartialEq, Eq)]
pub enum StoreRead {
    /// There is no file.
    Missing,
    /// There is a file that does not hold a record.
    Malformed,
    /// There is a file, and this is the record it holds.
    Record(Config),
}

/// A [`StoreRead`] as plain data.
pub enum StoreReadView {
    Missing,
    Malformed,
    Record(ConfigView),
}

impl View for StoreRead {
    type V = StoreReadView;

    open spec fn view(&self) -> StoreReadView {
        match *self {
            StoreRead::Missing => StoreReadView::Missing,
            StoreRead::Malformed => StoreReadView::Malformed,
            StoreRead::Record(c) => StoreReadView::Record(c@),
        }
    }
}

/// The settings that a load arrived at, and whether they have to be
/// written to disk because no file was there.
#[derive(Clone, Debug, PartialEq, Eq)]
pub struct Loaded {
    pub config: Config,
    pub write_back: bool,
}

/// A [`Loaded`] as plain data.
pub struct LoadedView {
    pub config: ConfigView,
    pub write_back: bool,
}

impl View for Loaded {
    type V = LoadedView;

    open spec fn view(&self) -> LoadedView {
        LoadedView { config: self.config@, write_back: self.write_back }
    }
}

/// The settings in force given what was found on disk: the record if there
/// is one; else the defaults, which are written out if no file was there and
/// left unwritten beside a file that cannot be read.
pub open spec fn loaded(defaults: ConfigView, read: StoreReadView) -> LoadedView {
    match read {
        StoreReadView::Record(c) => LoadedView { config: c, write_back: false },
        StoreReadView::Malformed => LoadedView { config: defaults, write_back: false },
        StoreReadView::Missing => LoadedView { config: defaults, write_back: true },
    }
}

/// Decides what the settings are. Never fails: whatever is wrong with the
/// file, the program starts with the defaults.
pub fn load(defaults: Config, read: StoreRead) -> (out: Loaded)
    ensures
        out@ == loaded(defaults@, read@),
{
    match read {
        StoreRead::Record(c) => Loaded { config: c, write_back: false },
        StoreRead::Malformed => Loaded { config: defaults, write_back: false },
        StoreRead::Missing => Loaded { config: defaults, write_back: true },
    }
}

/// A request to overwrite the file at `path` with `record`.
#[derive(Clone, Debug, PartialEq, Eq)]
pub struct StoreWrite {
    pub path: String,
    pub record: Config,
}

/// A [`StoreWrite`] as plain data.
pub struct StoreWriteView {
    pub path: Seq<char>,
    pub record: ConfigView,
}

impl View for StoreWrite {
    type V = StoreWriteView;

    open spec fn view(&self) -> StoreWriteView {
        StoreWriteView { path: self.path@, record: self.record@ }
    }
}

/// Persisting settings means writing all of them to the path they name.
pub open spec fn store_request(config: ConfigView) -> StoreWriteView {
    StoreWriteView { path: config.config_path, record: config }
}

/// What has to be written, and where, to persist `config`.
pub fn save_config(config: &Config) -> (out: StoreWrite)
    ensures
        out@ == store_request(config@),
{
    StoreWrite { path: config.config_path.clone(), record: config.duplicate() }
}

/// Settings that were saved and found again unchanged load as themselves,
/// field for field, whatever the defaults are.
pub proof fn lemma_save_then_load(settings: ConfigView, defaults: ConfigView)
    ensures
        loaded(defaults, StoreReadView::Record(store_request(settings).record)) == (LoadedView {
            config: settings,
            write_back: false,
        }),
{
}

/// The interval as the text of a form field.
pub open spec fn interval_text(config: ConfigView) -> Seq<char> {
    decimal_text(config.time_interval as nat)
}

impl Config {
    /// The interval as the text of a form field.
    pub fn time_interval_text(&self) -> (out: String)
        ensures
            out@ == interval_text(self@),
    {
        decimal_string(self.time_interval as u64)
    }
}

} // verus!
