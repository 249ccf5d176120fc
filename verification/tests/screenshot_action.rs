use scenekit::screenshot::{screenshot_dialog_plan, screenshot_plan};

#[test]
fn cancelled_dialog_writes_nothing() {
    let plan = screenshot_plan(None);
    assert!(plan.cancelled);
    assert_eq!(plan.writes.len(), 0);
}

#[test]
fn chosen_path_writes_exactly_once_to_that_path() {
    let plan = screenshot_plan(Some(String::from("shots/frame.png")));
    assert!(!plan.cancelled);
    assert_eq!(plan.writes.len(), 1);
    assert_eq!(plan.writes[0].path, "shots/frame.png");
}

#[test]
fn dialog_offers_png_and_a_default_name() {
    let dialog = screenshot_dialog_plan();
    assert_eq!(dialog.filter_name, "PNG Image");
    assert_eq!(dialog.extension, "png");
    assert_eq!(dialog.default_file_name, "screenshot.png");
}
