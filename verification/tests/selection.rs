use ytdlp_bridge::{ErrorKind, FormatSelection};

fn some(text: &str) -> Option<String> {
    Some(text.to_string())
}

#[test]
fn explicit_selector_wins_over_everything() {
    let selection = FormatSelection::new(some("best"), some("137"), some("140"));
    assert_eq!(selection.resolve(), Ok("best".to_string()));
}

#[test]
fn explicit_selector_alone_is_taken_verbatim() {
    let selection = FormatSelection::new(some("bv*+ba/b"), None, None);
    assert_eq!(selection.resolve(), Ok("bv*+ba/b".to_string()));
}

#[test]
fn explicit_empty_selector_is_still_explicit() {
    let selection = FormatSelection::new(some(""), some("137"), None);
    assert_eq!(selection.resolve(), Ok(String::new()));
}

#[test]
fn video_and_audio_are_merged_with_plus() {
    let selection = FormatSelection::new(None, some("137"), some("140"));
    assert_eq!(selection.resolve(), Ok("137+140".to_string()));
}

#[test]
fn video_alone_stands_for_itself() {
    let selection = FormatSelection::new(None, some("137"), None);
    assert_eq!(selection.resolve(), Ok("137".to_string()));
}

#[test]
fn audio_alone_stands_for_itself() {
    let selection = FormatSelection::new(None, None, some("140"));
    assert_eq!(selection.resolve(), Ok("140".to_string()));
}

#[test]
fn empty_selection_is_a_validation_error() {
    let selection = FormatSelection::new(None, None, None);
    let error = selection.resolve().unwrap_err();
    assert_eq!(error.kind(), ErrorKind::Validation);
    assert_eq!(error.message(), "No format selected");
}

#[test]
fn selection_fields_are_those_given() {
    let selection = FormatSelection::new(some("a"), some("b"), some("c"));
    assert_eq!(selection.default_format, some("a"));
    assert_eq!(selection.video_format, some("b"));
    assert_eq!(selection.audio_format, some("c"));
}

#[test]
fn error_carries_its_kind_and_message() {
    let error = ytdlp_bridge::CommandError::new(ErrorKind::Tool, "it broke".to_string());
    assert_eq!(error.kind(), ErrorKind::Tool);
    assert_eq!(error.message(), "it broke");
    assert_eq!(error.kind, ErrorKind::Tool);
    assert_eq!(error.message, "it broke");
    assert_ne!(ErrorKind::Parse, ErrorKind::Configuration);
    assert_ne!(ErrorKind::Validation, ErrorKind::Execution);
}
