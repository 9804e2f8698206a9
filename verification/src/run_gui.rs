//! The configuration front-end: a separate program that is run to its end.

use crate::errors::{Errors, ErrorsView};
use crate::utils::{join, joined, Platform};
use crate::video_process::{shell, shell_command, Invocation, ToolRun, ToolRunView};
use vstd::prelude::*;

verus! {

/// The file name of the front-end.
pub open spec fn gui_file_name() -> Seq<char> {
    "gui.exe"@
}

/// The front-end lies beside the running program.
pub open spec fn gui_path_in(exe_dir: Seq<char>, platform: Platform) -> Seq<char> {
    joined(exe_dir, gui_file_name(), platform)
}

/// The path of the front-end, given the directory of the running program.
pub fn gui_path(exe_dir: &str, platform: Platform) -> (out: String)
    ensures
        out@ == gui_path_in(exe_dir@, platform),
{
    join(exe_dir, "gui.exe", platform)
}

/// The command that runs the front-end at `gui`.
pub fn gui_command(gui: &String) -> (out: Invocation)
    ensures
        out@ == shell(gui@),
{
    shell_command(gui.clone())
}

/// What a run of the front-end amounts to: it must have been there and
/// have ended well. A failed run is reported with its exit status.
pub open spec fn launch_result(run: ToolRunView) -> Result<(), ErrorsView> {
    match run {
        ToolRunView::Missing => Err(ErrorsView::GuiLost),
        ToolRunView::Broken(m) => Err(ErrorsView::GuiRunError(m)),
        ToolRunView::Exited { success, output } => if success {
            Ok(())
        } else {
            Err(ErrorsView::GuiRunError("Run gui.exe failed. Finished with:"@ + output))
        },
    }
}

/// Whether the front-end ran to a good end.
pub fn run(launch: ToolRun) -> (out: Result<(), Errors>)
    ensures
        match out {
            Ok(_) => launch_result(launch@) == Ok::<(), ErrorsView>(()),
            Err(e) => launch_result(launch@) == Err::<(), ErrorsView>(e@),
        },
{
    match launch {
        ToolRun::Missing => Err(Errors::GuiLost),
        ToolRun::Broken(m) => Err(Errors::GuiRunError(m)),
        ToolRun::Exited { success, output } => {
            if success {
                Ok(())
            } else {
                let mut message = String::from_str("Run gui.exe failed. Finished with:");
                message.append(output.as_str());
                Err(Errors::GuiRunError(message))
            }
        },
    }
}

} // verus!
