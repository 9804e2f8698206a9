use utillib::errors::Errors;

fn text(s: &str) -> String {
    s.to_string()
}

#[test]
fn failures_are_reported_in_their_words() {
    assert_eq!(Errors::GuiLost.message(), "Can not find gui.exe");
    assert_eq!(Errors::GuiRunError(text("x")).message(), "Run gui.exe error. Message:x");
    assert_eq!(Errors::FfprobeLost.message(), "Can not find ffprobe.exe");
    assert_eq!(Errors::FfmpegLost.message(), "Can not find ffmpeg.exe");
    assert_eq!(Errors::FramePictureLost.message(), "Can not find frame.png");
    assert_eq!(Errors::FfprobeRunError(text("x")).message(), "Run ffprobe.exe error. Message:x");
    assert_eq!(Errors::FfmpegRunError(text("x")).message(), "Run ffmpeg.exe error. Message:x");
    assert_eq!(Errors::DeleteFileError(text("x")).message(), "Delete file failed. Message:x");
    assert_eq!(
        Errors::FrameCountError(text("invalid digit found in string")).message(),
        "Convert frame count from command-line ffmprobe.exe error. Message:invalid digit found in string"
    );
    assert_eq!(Errors::ZeroFrameCountError.message(), "The movie has no frames");
    assert_eq!(Errors::WallpaperSetError(text("x")).message(), "Set wallpaper failed. Message:x");
    assert_eq!(Errors::OSTypeError.message(), "This Program is only for windows");
}

#[test]
fn failures_from_outside_are_reported_in_the_words_they_came_with() {
    assert_eq!(Errors::DoubleOpenError(text("Failed to lock named lock")).message(),
        "Failed to lock named lock");
    assert_eq!(Errors::InnerIOError(text("disk full")).message(), "disk full");
    assert_eq!(Errors::LogError(text("no logger")).message(), "no logger");
}

#[test]
fn alerts_say_what_went_wrong() {
    assert_eq!(Errors::GuiLost.notice(), "Get gui path failed! ");
    assert_eq!(Errors::GuiRunError(text("x")).notice(), "Gui run error!");
    assert_eq!(Errors::FfprobeLost.notice(), "Get total frame number failed! ");
    assert_eq!(Errors::FfprobeRunError(text("x")).notice(), "Get total frame number failed! ");
    assert_eq!(Errors::FrameCountError(text("x")).notice(), "Get total frame number failed! ");
    assert_eq!(Errors::ZeroFrameCountError.notice(), "Get total frame number failed! ");
    assert_eq!(Errors::FfmpegLost.notice(), "Convert frame to picture failed! ");
    assert_eq!(Errors::FfmpegRunError(text("x")).notice(), "Convert frame to picture failed! ");
    assert_eq!(Errors::FramePictureLost.notice(), "Get frame picture failed! ");
    assert_eq!(Errors::WallpaperSetError(text("x")).notice(), "Set frame as wallpaper failed! ");
}

#[test]
fn alerts_without_a_phrase_of_their_own_give_the_failure() {
    assert_eq!(Errors::DeleteFileError(text("x")).notice(), "Delete file failed. Message:x");
    assert_eq!(Errors::OSTypeError.notice(), "This Program is only for windows");
    assert_eq!(Errors::DoubleOpenError(text("x")).notice(), "x");
    assert_eq!(Errors::InnerIOError(text("x")).notice(), "x");
    assert_eq!(Errors::LogError(text("x")).notice(), "x");
}

#[test]
fn a_duplicated_failure_is_the_same_failure() {
    for e in [
        Errors::GuiLost,
        Errors::GuiRunError(text("a")),
        Errors::FfprobeLost,
        Errors::FfmpegLost,
        Errors::FramePictureLost,
        Errors::FfprobeRunError(text("b")),
        Errors::FfmpegRunError(text("c")),
        Errors::DeleteFileError(text("d")),
        Errors::FrameCountError(text("e")),
        Errors::ZeroFrameCountError,
        Errors::WallpaperSetError(text("f")),
        Errors::OSTypeError,
        Errors::DoubleOpenError(text("g")),
        Errors::InnerIOError(text("h")),
        Errors::LogError(text("i")),
    ] {
        assert_eq!(e.duplicate(), e);
    }
}
