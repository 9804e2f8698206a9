//! The two external tools: how each is invoked, and what its run amounts to.
//!
//! The library starts no process. It builds the command, and it reads what
//! the program reports of the run.

use crate::errors::{Errors, ErrorsView};
use crate::number::{decimal_string, decimal_text, number_error_text, parse_u64, parsed};
use crate::utils::{strip_trailing_newline, stripped};
use vstd::prelude::*;

verus! {

/// How the run of an external program ended.
#[derive(Clone, Debug, PartialEq, Eq)]
pub enum ToolRun {
    /// The program could not be found.
    Missing,
    /// The program could not be started or waited for; the message says why.
    Broken(String),
    /// The program ran to its end. `output` is what it printed (for the
    /// configuration front-end: its exit status in words).
    Exited { success: bool, output: String },
}

/// A [`ToolRun`] as plain data.
pub enum ToolRunView {
    Missing,
    Broken(Seq<char>),
    Exited { success: bool, output: Seq<char> },
}

impl View for ToolRun {
    type V = ToolRunView;

    open spec fn view(&self) -> ToolRunView {
        match *self {
            ToolRun::Missing => ToolRunView::Missing,
            ToolRun::Broken(m) => ToolRunView::Broken(m@),
            ToolRun::Exited { success, output } => ToolRunView::Exited { success, output: output@ },
        }
    }
}

/// A command for the platform's shell.
#[derive(Clone, Debug, PartialEq, Eq)]
pub struct Invocation {
    /// The shell.
    pub program: String,
    /// The switch that makes the shell run one line and end.
    pub switch: String,
    /// The line to run.
    pub line: String,
    /// Process creation flags for the shell.
    pub creation_flags: u32,
}

/// An [`Invocation`] as plain data.
pub struct InvocationView {
    pub program: Seq<char>,
    pub switch: Seq<char>,
    pub line: Seq<char>,
    pub creation_flags: u32,
}

impl View for Invocation {
    type V = InvocationView;

    open spec fn view(&self) -> InvocationView {
        InvocationView {
            program: self.program@,
            switch: self.switch@,
            line: self.line@,
            creation_flags: self.creation_flags,
        }
    }
}

/// The creation flag that keeps the shell from opening a console window.
pub const NO_WINDOW: u32 = 0x0800_0000;

/// The shell command that runs `line`, without a window.
pub open spec fn shell(line: Seq<char>) -> InvocationView {
    InvocationView { program: "cmd"@, switch: "/C"@, line, creation_flags: NO_WINDOW }
}

/// The line that asks the probing tool for the number of packets of the
/// first video stream, printed as one bare number.
pub open spec fn count_line(ffprobe: Seq<char>, movie: Seq<char>) -> Seq<char> {
    ffprobe
        + " -v error -select_streams v:0 -count_packets -show_entries stream=nb_read_packets -of csv=p=0 "@
        + movie
}

/// The line that asks the extraction tool to write frame number `frame` of
/// the movie, and only that frame, to `picture`.
pub open spec fn picture_line(
    ffmpeg: Seq<char>,
    movie: Seq<char>,
    frame: u64,
    picture: Seq<char>,
) -> Seq<char> {
    ffmpeg + " -i "@ + movie + " -vf select=eq(n\\,"@ + decimal_text(frame as nat)
        + ") -vsync 0 -vframes 1 -f image2 "@ + picture
}

/// The number of frames that a run of the probing tool reported: the tool
/// must have been there and ended well, and its output, less one line
/// ending, must be a number.
pub open spec fn frame_count_of(run: ToolRunView) -> Result<u64, ErrorsView> {
    match run {
        ToolRunView::Missing => Err(ErrorsView::FfprobeLost),
        ToolRunView::Broken(m) => Err(ErrorsView::FfprobeRunError(m)),
        ToolRunView::Exited { success, output } => if !success {
            Err(ErrorsView::FfprobeRunError(output))
        } else {
            match parsed(stripped(output), u64::MAX as nat) {
                Ok(n) => Ok(n as u64),
                Err(e) => Err(ErrorsView::FrameCountError(number_error_text(e))),
            }
        },
    }
}

/// Whether a run of the extraction tool wrote its frame: the tool must have
/// been there and ended well; else the failure carries what it printed.
pub open spec fn picture_result(run: ToolRunView) -> Result<(), ErrorsView> {
    match run {
        ToolRunView::Missing => Err(ErrorsView::FfmpegLost),
        ToolRunView::Broken(m) => Err(ErrorsView::FfmpegRunError(m)),
        ToolRunView::Exited { success, output } => if success {
            Ok(())
        } else {
            Err(ErrorsView::FfmpegRunError(output))
        },
    }
}

/// The shell command that runs `line`.
pub fn shell_command(line: String) -> (out: Invocation)
    ensures
        out@ == shell(line@),
{
    Invocation {
        program: String::from_str("cmd"),
        switch: String::from_str("/C"),
        line,
        creation_flags: NO_WINDOW,
    }
}

/// The command that counts the frames of the movie.
pub fn frame_count_command(ffprobe: &String, moviepath: &String) -> (out: Invocation)
    ensures
        out@ == shell(count_line(ffprobe@, moviepath@)),
{
    let mut line = ffprobe.clone();
    line.append(
        " -v error -select_streams v:0 -count_packets -show_entries stream=nb_read_packets -of csv=p=0 ",
    );
    line.append(moviepath.as_str());
    shell_command(line)
}

/// The number of frames that the run of the counting command reported.
pub fn generate_frame_count(run: ToolRun) -> (out: Result<u64, Errors>)
    ensures
        match out {
            Ok(n) => frame_count_of(run@) == Ok::<u64, ErrorsView>(n),
            Err(e) => frame_count_of(run@) == Err::<u64, ErrorsView>(e@),
        },
{
    match run {
        ToolRun::Missing => Err(Errors::FfprobeLost),
        ToolRun::Broken(m) => Err(Errors::FfprobeRunError(m)),
        ToolRun::Exited { success, output } => {
            if !success {
                return Err(Errors::FfprobeRunError(output));
            }
            let total_frame = strip_trailing_newline(output.as_str());
            match parse_u64(total_frame) {
                Ok(num) => Ok(num),
                Err(e) => Err(Errors::FrameCountError(e.describe())),
            }
        },
    }
}

/// The command that writes frame `cur_frame` of the movie to `picture_path`.
pub fn frame_picture_command(
    ffmpeg: &String,
    movie_path: &String,
    cur_frame: u64,
    picture_path: &str,
) -> (out: Invocation)
    ensures
        out@ == shell(picture_line(ffmpeg@, movie_path@, cur_frame, picture_path@)),
{
    let mut line = ffmpeg.clone();
    line.append(" -i ");
    line.append(movie_path.as_str());
    line.append(" -vf select=eq(n\\,");
    line.append(decimal_string(cur_frame).as_str());
    line.append(") -vsync 0 -vframes 1 -f image2 ");
    line.append(picture_path);
    shell_command(line)
}

/// Whether the run of the extraction command wrote its frame.
pub fn generate_frame_picture(run: ToolRun) -> (out: Result<(), Errors>)
    ensures
        match out {
            Ok(_) => picture_result(run@) == Ok::<(), ErrorsView>(()),
            Err(e) => picture_result(run@) == Err::<(), ErrorsView>(e@),
        },
{
    match run {
        ToolRun::Missing => Err(Errors::FfmpegLost),
        ToolRun::Broken(m) => Err(Errors::FfmpegRunError(m)),
        ToolRun::Exited { success, output } => {
            if success {
                Ok(())
            } else {
                Err(Errors::FfmpegRunError(output))
            }
        },
    }
}

} // verus!
