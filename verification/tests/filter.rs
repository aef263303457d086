use file_open::command::{initial, next_action, Action};
use file_open::error::FileOpenError;
use file_open::filter::text_file_filter;

#[test]
fn filter_admits_exactly_txt() {
    let filter = text_file_filter();
    assert_eq!(filter.label, "text files");
    assert_eq!(filter.extensions, vec!["txt".to_owned()]);
}

#[test]
fn filter_fixed_across_invocations() {
    let mut seen: Vec<Vec<String>> = Vec::new();
    let mut i: usize = 0;
    while i < 3 {
        let filter = text_file_filter();
        assert_eq!(filter.extensions, vec!["txt".to_owned()]);
        seen.push(filter.extensions);
        i += 1;
    }
    assert!(seen.iter().all(|extensions| extensions == &seen[0]));
}

#[test]
fn presented_dialog_uses_txt_filter() {
    match next_action(&initial()) {
        Action::PresentDialog(filter) => {
            assert_eq!(filter.extensions, vec!["txt".to_owned()]);
            assert_eq!(filter.label, "text files");
        }
        _ => panic!("a fresh command must first present the dialog"),
    }
}

#[test]
fn no_selection_message_names_the_failure() {
    assert_eq!(FileOpenError::NoSelection.message(), "no file was selected");
}

#[test]
fn path_failure_message_names_the_failure() {
    assert_eq!(
        FileOpenError::PathResolutionFailure.message(),
        "the selection could not be resolved to a path"
    );
}

#[test]
fn read_failure_message_is_the_description() {
    let error = FileOpenError::ReadFailure("disk fell over".to_owned());
    assert_eq!(error.message(), "disk fell over");
}
