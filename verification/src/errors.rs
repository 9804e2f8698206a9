//! The failures of the program, each with the words it is reported in.

use vstd::prelude::*;

verus! {

/// A failure. Where the cause came from the machine (a lock, a file, the
/// logger, a tool), the variant carries its message as text.
#[derive(Clone, Debug, PartialEq, Eq)]
pub enum Errors {
    /// The configuration front-end could not be found.
    GuiLost,
    /// The configuration front-end ran and reported failure.
    GuiRunError(String),
    /// The frame-count tool could not be found.
    FfprobeLost,
    /// The frame-extraction tool could not be found.
    FfmpegLost,
    /// The extraction reported success but left no picture.
    FramePictureLost,
    /// The frame-count tool could not be run to a successful end.
    FfprobeRunError(String),
    /// The frame-extraction tool could not be run to a successful end.
    FfmpegRunError(String),
    /// The stale picture could not be deleted.
    DeleteFileError(String),
    /// The frame-count tool printed something that is no frame count.
    FrameCountError(String),
    /// The movie has no frames, so there is no next frame.
    ZeroFrameCountError,
    /// The picture could not be made the wallpaper.
    WallpaperSetError(String),
    /// The platform is not the one the tools run on.
    OSTypeError,
    /// The named lock could neither be taken nor found taken.
    DoubleOpenError(String),
    /// Reading the surroundings or writing the settings failed.
    InnerIOError(String),
    /// The logger could not be started.
    LogError(String),
}

/// A failure as plain data.
pub enum ErrorsView {
    GuiLost,
    GuiRunError(Seq<char>),
    FfprobeLost,
    FfmpegLost,
    FramePictureLost,
    FfprobeRunError(Seq<char>),
    FfmpegRunError(Seq<char>),
    DeleteFileError(Seq<char>),
    FrameCountError(Seq<char>),
    ZeroFrameCountError,
    WallpaperSetError(Seq<char>),
    OSTypeError,
    DoubleOpenError(Seq<char>),
    InnerIOError(Seq<char>),
    LogError(Seq<char>),
}

impl View for Errors {
    type V = ErrorsView;

    open spec fn view(&self) -> ErrorsView {
        match *self {
            Errors::GuiLost => ErrorsView::GuiLost,
            Errors::GuiRunError(m) => ErrorsView::GuiRunError(m@),
            Errors::FfprobeLost => ErrorsView::FfprobeLost,
            Errors::FfmpegLost => ErrorsView::FfmpegLost,
            Errors::FramePictureLost => ErrorsView::FramePictureLost,
            Errors::FfprobeRunError(m) => ErrorsView::FfprobeRunError(m@),
            Errors::FfmpegRunError(m) => ErrorsView::FfmpegRunError(m@),
            Errors::DeleteFileError(m) => ErrorsView::DeleteFileError(m@),
            Errors::FrameCountError(m) => ErrorsView::FrameCountError(m@),
            Errors::ZeroFrameCountError => ErrorsView::ZeroFrameCountError,
            Errors::WallpaperSetError(m) => ErrorsView::WallpaperSetError(m@),
            Errors::OSTypeError => ErrorsView::OSTypeError,
            Errors::DoubleOpenError(m) => ErrorsView::DoubleOpenError(m@),
            Errors::InnerIOError(m) => ErrorsView::InnerIOError(m@),
            Errors::LogError(m) => ErrorsView::LogError(m@),
        }
    }
}

/// The words in which a failure is reported.
pub open spec fn error_text(e: ErrorsView) -> Seq<char> {
    match e {
        ErrorsView::GuiLost => "Can not find gui.exe"@,
        ErrorsView::GuiRunError(m) => "Run gui.exe error. Message:"@ + m,
        ErrorsView::FfprobeLost => "Can not find ffprobe.exe"@,
        ErrorsView::FfmpegLost => "Can not find ffmpeg.exe"@,
        ErrorsView::FramePictureLost => "Can not find frame.png"@,
        ErrorsView::FfprobeRunError(m) => "Run ffprobe.exe error. Message:"@ + m,
        ErrorsView::FfmpegRunError(m) => "Run ffmpeg.exe error. Message:"@ + m,
        ErrorsView::DeleteFileError(m) => "Delete file failed. Message:"@ + m,
        ErrorsView::FrameCountError(m) =>
            "Convert frame count from command-line ffmprobe.exe error. Message:"@ + m,
        ErrorsView::ZeroFrameCountError => "The movie has no frames"@,
        ErrorsView::WallpaperSetError(m) => "Set wallpaper failed. Message:"@ + m,
        ErrorsView::OSTypeError => "This Program is only for windows"@,
        ErrorsView::DoubleOpenError(m) => m,
        ErrorsView::InnerIOError(m) => m,
        ErrorsView::LogError(m) => m,
    }
}

/// The words of the alert that tells the user of a failure: a short phrase
/// for what went wrong where there is one, else the failure in words.
pub open spec fn notice_text(e: ErrorsView) -> Seq<char> {
    match e {
        ErrorsView::GuiLost => "Get gui path failed! "@,
        ErrorsView::GuiRunError(_) => "Gui run error!"@,
        ErrorsView::FfprobeLost => "Get total frame number failed! "@,
        ErrorsView::FfprobeRunError(_) => "Get total frame number failed! "@,
        ErrorsView::FrameCountError(_) => "Get total frame number failed! "@,
        ErrorsView::ZeroFrameCountError => "Get total frame number failed! "@,
        ErrorsView::FfmpegLost => "Convert frame to picture failed! "@,
        ErrorsView::FfmpegRunError(_) => "Convert frame to picture failed! "@,
        ErrorsView::FramePictureLost => "Get frame picture failed! "@,
        ErrorsView::WallpaperSetError(_) => "Set frame as wallpaper failed! "@,
        _ => error_text(e),
    }
}

/// A fixed phrase followed by a message.
fn phrase(lead: &str, message: &String) -> (out: String)
    ensures
        out@ == lead@ + message@,
{
    let mut out = String::from_str(lead);
    out.append(message.as_str());
    out
}

impl Errors {
    /// The failure in words.
    pub fn message(&self) -> (out: String)
        ensures
            out@ == error_text(self@),
    {
        match self {
            Errors::GuiLost => String::from_str("Can not find gui.exe"),
            Errors::GuiRunError(m) => phrase("Run gui.exe error. Message:", m),
            Errors::FfprobeLost => String::from_str("Can not find ffprobe.exe"),
            Errors::FfmpegLost => String::from_str("Can not find ffmpeg.exe"),
            Errors::FramePictureLost => String::from_str("Can not find frame.png"),
            Errors::FfprobeRunError(m) => phrase("Run ffprobe.exe error. Message:", m),
            Errors::FfmpegRunError(m) => phrase("Run ffmpeg.exe error. Message:", m),
            Errors::DeleteFileError(m) => phrase("Delete file failed. Message:", m),
            Errors::FrameCountError(m) => phrase(
                "Convert frame count from command-line ffmprobe.exe error. Message:",
                m,
            ),
            Errors::ZeroFrameCountError => String::from_str("The movie has no frames"),
            Errors::WallpaperSetError(m) => phrase("Set wallpaper failed. Message:", m),
            Errors::OSTypeError => String::from_str("This Program is only for windows"),
            Errors::DoubleOpenError(m) => m.clone(),
            Errors::InnerIOError(m) => m.clone(),
            Errors::LogError(m) => m.clone(),
        }
    }

    /// The words of the alert that tells the user of the failure.
    pub fn notice(&self) -> (out: String)
        ensures
            out@ == notice_text(self@),
    {
        match self {
            Errors::GuiLost => String::from_str("Get gui path failed! "),
            Errors::GuiRunError(_) => String::from_str("Gui run error!"),
            Errors::FfprobeLost => String::from_str("Get total frame number failed! "),
            Errors::FfprobeRunError(_) => String::from_str("Get total frame number failed! "),
            Errors::FrameCountError(_) => String::from_str("Get total frame number failed! "),
            Errors::ZeroFrameCountError => String::from_str("Get total frame number failed! "),
            Errors::FfmpegLost => String::from_str("Convert frame to picture failed! "),
            Errors::FfmpegRunError(_) => String::from_str("Convert frame to picture failed! "),
            Errors::FramePictureLost => String::from_str("Get frame picture failed! "),
            Errors::WallpaperSetError(_) => String::from_str("Set frame as wallpaper failed! "),
            _ => self.message(),
        }
    }

    /// A second value that says the same.
    pub fn duplicate(&self) -> (out: Errors)
        ensures
            out@ == self@,
    {
        match self {
            Errors::GuiLost => Errors::GuiLost,
            Errors::GuiRunError(m) => Errors::GuiRunError(m.clone()),
            Errors::FfprobeLost => Errors::FfprobeLost,
            Errors::FfmpegLost => Errors::FfmpegLost,
            Errors::FramePictureLost => Errors::FramePictureLost,
            Errors::FfprobeRunError(m) => Errors::FfprobeRunError(m.clone()),
            Errors::FfmpegRunError(m) => Errors::FfmpegRunError(m.clone()),
            Errors::DeleteFileError(m) => Errors::DeleteFileError(m.clone()),
            Errors::FrameCountError(m) => Errors::FrameCountError(m.clone()),
            Errors::ZeroFrameCountError => Errors::ZeroFrameCountError,
            Errors::WallpaperSetError(m) => Errors::WallpaperSetError(m.clone()),
            Errors::OSTypeError => Errors::OSTypeError,
            Errors::DoubleOpenError(m) => Errors::DoubleOpenError(m.clone()),
            Errors::InnerIOError(m) => Errors::InnerIOError(m.clone()),
            Errors::LogError(m) => Errors::LogError(m.clone()),
        }
    }
}

} // verus!
