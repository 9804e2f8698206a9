use utillib::errors::Errors;
use utillib::run_gui::{gui_command, gui_path, run};
use utillib::utils::Platform;
use utillib::video_process::ToolRun;

#[test]
fn the_front_end_lies_beside_the_program() {
    assert_eq!(gui_path("C:\\Program Files\\slowmovie", Platform::Windows),
        "C:\\Program Files\\slowmovie\\gui.exe");
    assert_eq!(gui_path("/opt/slowmovie", Platform::Other), "/opt/slowmovie/gui.exe");
}

#[test]
fn the_front_end_is_run_by_the_shell() {
    let command = gui_command(&"C:\\slowmovie\\gui.exe".to_string());
    assert_eq!(command.program, "cmd");
    assert_eq!(command.switch, "/C");
    assert_eq!(command.line, "C:\\slowmovie\\gui.exe");
    assert_eq!(command.creation_flags, 0x08000000);
}

#[test]
fn a_front_end_that_ended_well_is_no_failure() {
    assert_eq!(run(ToolRun::Exited { success: true, output: "exit code: 0".to_string() }), Ok(()));
}

#[test]
fn a_front_end_that_failed_is_reported_with_its_status() {
    assert_eq!(
        run(ToolRun::Exited { success: false, output: "exit code: 1".to_string() }),
        Err(Errors::GuiRunError("Run gui.exe failed. Finished with:exit code: 1".to_string()))
    );
}

#[test]
fn a_front_end_that_is_not_there_is_lost() {
    assert_eq!(run(ToolRun::Missing), Err(Errors::GuiLost));
    assert_eq!(
        run(ToolRun::Broken("Access is denied.".to_string())),
        Err(Errors::GuiRunError("Access is denied.".to_string()))
    );
}
