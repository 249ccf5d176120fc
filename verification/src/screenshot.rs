use vstd::prelude::*;

verus! {

/// How the save dialog is configured when a screenshot is requested.
#[derive(Clone, Copy, Debug, PartialEq, Eq)]
pub struct DialogPlan {
    pub filter_name: &'static str,
    pub extension: &'static str,
    pub default_file_name: &'static str,
}

/// The save dialog offers PNG images only and proposes a default file name.
pub fn screenshot_dialog_plan() -> (r: DialogPlan)
    ensures
        r.filter_name@ == "PNG Image"@,
        r.extension@ == "png"@,
        r.default_file_name@ == "screenshot.png"@,
{
    DialogPlan { filter_name: "PNG Image", extension: "png", default_file_name: "screenshot.png" }
}

/// One request to write the current frame to a file.
#[derive(Clone, Debug, PartialEq, Eq)]
pub struct WriteRequest {
    pub path: String,
}

/// What the screenshot action does once the save dialog has closed.
#[derive(Clone, Debug, PartialEq, Eq)]
pub struct ScreenshotPlan {
    pub writes: Vec<WriteRequest>,
    pub cancelled: bool,
}

/// Decides the screenshot action from the dialog's outcome: a chosen path
/// yields exactly one write request, to that path; a cancelled dialog
/// yields none and is only noted.
pub fn screenshot_plan(choice: Option<String>) -> (r: ScreenshotPlan)
    ensures
        r.cancelled <==> choice is None,
        choice is None ==> r.writes@.len() == 0,
        choice matches Some(p) ==> r.writes@.len() == 1 && r.writes@[0].path@ == p@,
{
    match choice {
        Some(path) => {
            let mut writes: Vec<WriteRequest> = Vec::new();
            writes.push(WriteRequest { path });
            ScreenshotPlan { writes, cancelled: false }
        },
        None => ScreenshotPlan { writes: Vec::new(), cancelled: true },
    }
}

} // verus!
