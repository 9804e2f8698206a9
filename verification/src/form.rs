//! The configuration form: what its fields hold, and what confirming or
//! leaving it does to the settings.
//!
//! The form draws nothing and opens no dialog. It says what the front-end
//! has to do after each message, and what the settings become.

use crate::config::{
    clamp_interval, clamped, interval_text, time_code, unit_of_code, Config, ConfigView,
    Timetype, MIN_INTERVAL,
};
use crate::number::{parse_u32, parse_u64, parsed};
use vstd::prelude::*;

verus! {

/// The fields of the form.
#[derive(Clone, Debug, PartialEq, Eq)]
pub struct Form {
    /// The movie that was chosen.
    pub movie_path: String,
    /// The interval, as typed.
    pub time_str: String,
    /// The second of the movie to start from, as typed.
    pub frame_str: String,
    /// The unit of the interval.
    pub time_type: Timetype,
    /// Whether another movie was chosen since the form was opened.
    pub change_flag: bool,
}

/// A [`Form`] as plain data.
pub struct FormView {
    pub movie_path: Seq<char>,
    pub time_str: Seq<char>,
    pub frame_str: Seq<char>,
    pub time_type: Timetype,
    pub change_flag: bool,
}

impl View for Form {
    type V = FormView;

    open spec fn view(&self) -> FormView {
        FormView {
            movie_path: self.movie_path@,
            time_str: self.time_str@,
            frame_str: self.frame_str@,
            time_type: self.time_type,
            change_flag: self.change_flag,
        }
    }
}

/// What the user did.
#[derive(Clone, Debug, PartialEq, Eq)]
pub enum Message {
    /// Chose a unit.
    SetTime(Timetype),
    /// Typed into the interval field.
    TimeInputChanged(String),
    /// Typed into the start field.
    FrameInputChanged(String),
    /// Asked to choose a movie.
    ButtonSelect,
    /// Confirmed the form.
    Confirm,
    /// Left the form, asking the scheduler not to run.
    Exit,
}

/// A [`Message`] as plain data.
pub enum MessageView {
    SetTime(Timetype),
    TimeInputChanged(Seq<char>),
    FrameInputChanged(Seq<char>),
    ButtonSelect,
    Confirm,
    Exit,
}

impl View for Message {
    type V = MessageView;

    open spec fn view(&self) -> MessageView {
        match *self {
            Message::SetTime(t) => MessageView::SetTime(t),
            Message::TimeInputChanged(s) => MessageView::TimeInputChanged(s@),
            Message::FrameInputChanged(s) => MessageView::FrameInputChanged(s@),
            Message::ButtonSelect => MessageView::ButtonSelect,
            Message::Confirm => MessageView::Confirm,
            Message::Exit => MessageView::Exit,
        }
    }
}

/// What the front-end has to do after a message.
#[derive(Clone, Copy, Debug, PartialEq, Eq, Structural)]
pub enum Request {
    /// Nothing beyond showing the form as it now is.
    Nothing,
    /// Let the user choose a file, and hand the choice to
    /// [`Form::file_chosen`].
    ChooseFile,
    /// Load the settings, change them with [`Form::confirm`], save them and
    /// close; or show the alert and stay.
    Confirm,
    /// Load the settings, change them with [`Form::exit`], save them and
    /// close.
    Exit,
}

/// The form that is shown for the given settings.
pub open spec fn form_for(settings: ConfigView) -> FormView {
    FormView {
        movie_path: settings.movie_path,
        time_str: interval_text(settings),
        frame_str: Seq::<char>::empty(),
        time_type: unit_of_code(settings.time_type),
        change_flag: false,
    }
}

/// The form after a message.
pub open spec fn form_after(form: FormView, message: MessageView) -> FormView {
    match message {
        MessageView::SetTime(t) => FormView { time_type: t, ..form },
        MessageView::TimeInputChanged(s) => FormView { time_str: s, ..form },
        MessageView::FrameInputChanged(s) => FormView { frame_str: s, ..form },
        _ => form,
    }
}

/// What a message asks of the front-end.
pub open spec fn request_of(message: MessageView) -> Request {
    match message {
        MessageView::ButtonSelect => Request::ChooseFile,
        MessageView::Confirm => Request::Confirm,
        MessageView::Exit => Request::Exit,
        _ => Request::Nothing,
    }
}

/// The form after the user was asked for a file.
pub open spec fn form_with_choice(form: FormView, picked: Option<Seq<char>>) -> FormView {
    match picked {
        Some(path) => FormView { movie_path: path, change_flag: true, ..form },
        None => form,
    }
}

/// The number of frames that a second of start time stands for.
pub const FRAMES_PER_SECOND: u64 = 24;

/// Whether the form can be confirmed: the interval is a number, the start
/// is a number, and the frame that the start stands for can be counted.
pub open spec fn confirmable(form: FormView) -> bool {
    &&& parsed(form.time_str, u32::MAX as nat) is Ok
    &&& (parsed(form.frame_str, u64::MAX as nat) matches Ok(start) && start * FRAMES_PER_SECOND
        <= u64::MAX)
}

/// The settings after the form was confirmed: movie, interval and unit are
/// those of the form, the frame is the one the start stands for, and the
/// scheduler is not asked to stop.
pub open spec fn confirmed(form: FormView, settings: ConfigView) -> ConfigView {
    ConfigView {
        config_path: settings.config_path,
        movie_path: form.movie_path,
        time_interval: clamped(parsed(form.time_str, u32::MAX as nat)->Ok_0 as u32),
        time_type: time_code(form.time_type),
        frame_count: (parsed(form.frame_str, u64::MAX as nat)->Ok_0 * FRAMES_PER_SECOND) as u64,
        exit_flag: 0,
    }
}

/// The alert that is shown where the form cannot be confirmed.
pub open spec fn invalid_input_text(form: FormView) -> Seq<char> {
    "Input of time is invlid! Please input an number! Current input is \""@ + form.time_str
        + "\""@
}

impl Form {
    /// The form that is shown for the given settings.
    pub fn new(settings: &Config) -> (out: Form)
        ensures
            out@ == form_for(settings@),
    {
        Form {
            movie_path: settings.get_movie_path(),
            time_str: settings.time_interval_text(),
            frame_str: String::new(),
            time_type: Timetype::from_code(settings.get_time_type()),
            change_flag: false,
        }
    }

    /// Takes a message in, and says what the front-end has to do.
    pub fn update(&mut self, message: Message) -> (out: Request)
        ensures
            final(self)@ == form_after(old(self)@, message@),
            out == request_of(message@),
    {
        match message {
            Message::SetTime(timetype) => {
                self.time_type = timetype;
                Request::Nothing
            },
            Message::TimeInputChanged(value) => {
                self.time_str = value;
                Request::Nothing
            },
            Message::FrameInputChanged(value) => {
                self.frame_str = value;
                Request::Nothing
            },
            Message::ButtonSelect => Request::ChooseFile,
            Message::Confirm => Request::Confirm,
            Message::Exit => Request::Exit,
        }
    }

    /// Takes in what the user chose when asked for a file: nothing changes
    /// unless a file was chosen.
    pub fn file_chosen(&mut self, picked: Option<String>)
        ensures
            final(self)@ == form_with_choice(
                old(self)@,
                match picked {
                    Some(path) => Some(path@),
                    None => None,
                },
            ),
    {
        match picked {
            Some(path) => {
                self.movie_path = path;
                self.change_flag = true;
            },
            None => {},
        }
    }

    fn invalid_input(&self) -> (out: String)
        ensures
            out@ == invalid_input_text(self@),
    {
        let mut out = String::from_str(
            "Input of time is invlid! Please input an number! Current input is \"",
        );
        out.append(self.time_str.as_str());
        out.append("\"");
        out
    }

    /// The settings after the form was confirmed, or the alert to show if
    /// it cannot be.
    pub fn confirm(&self, settings: Config) -> (out: Result<Config, String>)
        ensures
            out is Ok <==> confirmable(self@),
            out matches Ok(changed) ==> changed@ == confirmed(self@, settings@),
            out matches Err(alert) ==> alert@ == invalid_input_text(self@),
    {
        let time: u32 = match parse_u32(self.time_str.as_str()) {
            Ok(t) => clamp_interval(t),
            Err(_) => {
                return Err(self.invalid_input());
            },
        };
        let start: u64 = match parse_u64(self.frame_str.as_str()) {
            Ok(t) => t,
            Err(_) => {
                return Err(self.invalid_input());
            },
        };
        let frame: u64 = match start.checked_mul(FRAMES_PER_SECOND) {
            Some(f) => f,
            None => {
                return Err(self.invalid_input());
            },
        };
        let mut conf = settings;
        conf.set_movie_path(self.movie_path.clone());
        conf.set_time_interval(time);
        conf.set_time_type(self.time_type);
        conf.set_exit_flag(false);
        conf.set_frame_count(frame);
        Ok(conf)
    }

    /// The settings after the form was left: the scheduler is asked to
    /// stop, and nothing else changes.
    pub fn exit(settings: Config) -> (out: Config)
        ensures
            out@ == settings@.with_exit(true),
            out@.exit_requested(),
    {
        let mut conf = settings;
        conf.set_exit_flag(true);
        conf
    }
}

/// Whatever was typed, a confirmed form persists an interval of at least
/// the floor, and does not ask the scheduler to stop.
pub proof fn lemma_confirmed_interval_floor(form: FormView, settings: ConfigView)
    ensures
        confirmed(form, settings).time_interval >= MIN_INTERVAL,
        !confirmed(form, settings).exit_requested(),
{
}

} // verus!
