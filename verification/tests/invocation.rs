use white_dragon::args::{missing_file_warning, validate, Args, Candidate, StartupError};

fn candidate(path: &str, exists: bool) -> Candidate {
    Candidate { path: path.to_string(), exists }
}

fn names(paths: &[&str]) -> Vec<String> {
    paths.iter().map(|p| p.to_string()).collect()
}

#[test]
fn args_hold_files_and_flags() {
    let args = Args { files: names(&["/tmp/a"]), and_exit: true, icon_only: false };
    assert_eq!(args.files, names(&["/tmp/a"]));
    assert!(args.and_exit);
    assert!(!args.icon_only);
}

#[test]
fn no_files_is_an_error() {
    let validation = validate(&Vec::new(), false, false);
    assert_eq!(validation.outcome.err(), Some(StartupError::NoFilesSpecified));
    assert!(validation.missing.is_empty());
}

#[test]
fn only_missing_files_is_an_error() {
    let validation =
        validate(&vec![candidate("/nope/a", false), candidate("/nope/b", false)], true, true);
    assert_eq!(validation.outcome.err(), Some(StartupError::NoValidFiles));
    assert_eq!(validation.missing, names(&["/nope/a", "/nope/b"]));
}

#[test]
fn one_existing_and_one_missing_goes_on_with_the_existing() {
    let validation =
        validate(&vec![candidate("/tmp/here", true), candidate("/tmp/gone", false)], false, false);
    assert_eq!(validation.missing, names(&["/tmp/gone"]));
    assert_eq!(
        missing_file_warning(&validation.missing[0]),
        "Warning: File does not exist: /tmp/gone"
    );
    let args = validation.outcome.ok().expect("one file exists");
    assert_eq!(args.files, names(&["/tmp/here"]));
    assert!(!args.and_exit);
    assert!(!args.icon_only);
}

#[test]
fn order_is_kept_on_both_sides() {
    let validation = validate(
        &vec![
            candidate("/1", false),
            candidate("/2", true),
            candidate("/3", true),
            candidate("/4", false),
            candidate("/5", true),
        ],
        true,
        false,
    );
    assert_eq!(validation.missing, names(&["/1", "/4"]));
    let args = validation.outcome.ok().expect("three files exist");
    assert_eq!(args.files, names(&["/2", "/3", "/5"]));
    assert!(args.and_exit);
    assert!(!args.icon_only);
}

#[test]
fn all_existing_has_nothing_missing() {
    let validation = validate(&vec![candidate("/a", true), candidate("/b", true)], false, true);
    assert!(validation.missing.is_empty());
    let args = validation.outcome.ok().expect("both files exist");
    assert_eq!(args.files, names(&["/a", "/b"]));
    assert!(!args.and_exit);
    assert!(args.icon_only);
}

#[test]
fn diagnostics_and_exit_code() {
    assert_eq!(StartupError::NoFilesSpecified.message(), "Error: No files specified");
    assert_eq!(StartupError::NoValidFiles.message(), "Error: No valid files to display");
    assert_eq!(StartupError::NoFilesSpecified.exit_code(), 1);
    assert_eq!(StartupError::NoValidFiles.exit_code(), 1);
}

#[test]
fn warning_names_the_path() {
    assert_eq!(missing_file_warning(""), "Warning: File does not exist: ");
    assert_eq!(
        missing_file_warning("/a path/with spaces"),
        "Warning: File does not exist: /a path/with spaces"
    );
}
