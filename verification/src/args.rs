//! What the tool is invoked with, and which of the files given it goes on
//! with.

use vstd::prelude::*;

verus! {

/// The invocation: the files to make draggable and the two flags.
pub struct Args {
    /// Files to make draggable.
    pub files: Vec<String>,
    /// End the process after the first drop that was taken.
    pub and_exit: bool,
    /// Show only the icon, no text.
    pub icon_only: bool,
}

/// One file of the invocation with the outcome of its existence check.
pub struct Candidate {
    pub path: String,
    pub exists: bool,
}

/// The mathematical content of a [`Candidate`].
pub struct CandidateView {
    pub path: Seq<char>,
    pub exists: bool,
}

impl DeepView for Candidate {
    type V = CandidateView;

    open spec fn deep_view(&self) -> CandidateView {
        CandidateView { path: self.path@, exists: self.exists }
    }
}

/// Why the tool does not start.
#[derive(Clone, Copy, Debug, PartialEq, Eq, Structural)]
pub enum StartupError {
    /// No file was given.
    NoFilesSpecified,
    /// Files were given, and none of them exists.
    NoValidFiles,
}

/// The mathematical content of an [`Args`].
pub struct ArgsView {
    pub files: Seq<Seq<char>>,
    pub and_exit: bool,
    pub icon_only: bool,
}

impl DeepView for Args {
    type V = ArgsView;

    open spec fn deep_view(&self) -> ArgsView {
        ArgsView {
            files: self.files.deep_view(),
            and_exit: self.and_exit,
            icon_only: self.icon_only,
        }
    }
}

/// What the existence check leaves of an invocation.
pub struct Validation {
    /// The files that do not exist, in the order given: each is warned
    /// about and dropped.
    pub missing: Vec<String>,
    /// The invocation to go on with, which holds the files that exist, in
    /// the order given; or why the tool does not start.
    pub outcome: Result<Args, StartupError>,
}

/// The paths among `candidates` whose existence is `exists`, in order.
pub open spec fn paths_where(candidates: Seq<CandidateView>, exists: bool) -> Seq<Seq<char>> {
    candidates.filter(|c: CandidateView| c.exists == exists).map_values(|c: CandidateView| c.path)
}

/// Why the tool does not start on `candidates`, if it does not: no file
/// was given, or none of the files given exists.
pub open spec fn startup_error(candidates: Seq<CandidateView>) -> Option<StartupError> {
    if candidates.len() == 0 {
        Some(StartupError::NoFilesSpecified)
    } else if forall|i: int| 0 <= i < candidates.len() ==> !(#[trigger] candidates[i]).exists {
        Some(StartupError::NoValidFiles)
    } else {
        None
    }
}

proof fn lemma_paths_where_step(candidates: Seq<CandidateView>, exists: bool, i: int)
    requires
        0 <= i < candidates.len(),
    ensures
        paths_where(candidates.take(i + 1), exists) == (if candidates[i].exists == exists {
            paths_where(candidates.take(i), exists).push(candidates[i].path)
        } else {
            paths_where(candidates.take(i), exists)
        }),
{
    reveal(Seq::filter);
    let prefix = candidates.take(i + 1);
    assert(prefix.drop_last() =~= candidates.take(i));
    assert(prefix.last() == candidates[i]);
    let pred = |c: CandidateView| c.exists == exists;
    let path = |c: CandidateView| c.path;
    if candidates[i].exists == exists {
        assert(prefix.filter(pred) == candidates.take(i).filter(pred).push(candidates[i]));
        assert(candidates.take(i).filter(pred).push(candidates[i]).map_values(path)
            =~= candidates.take(i).filter(pred).map_values(path).push(candidates[i].path));
    } else {
        assert(prefix.filter(pred) == candidates.take(i).filter(pred));
    }
}

/// Sorts the files of an invocation by whether they exist, and says
/// whether the tool starts: it does as soon as one file exists, with the
/// files that exist and the flags as given.
pub fn validate(candidates: &Vec<Candidate>, and_exit: bool, icon_only: bool) -> (validation:
    Validation)
    ensures
        validation.missing.deep_view() == paths_where(candidates.deep_view(), false),
        match validation.outcome {
            Ok(args) => startup_error(candidates.deep_view()) is None && args.deep_view() == (
            ArgsView { files: paths_where(candidates.deep_view(), true), and_exit, icon_only }),
            Err(error) => startup_error(candidates.deep_view()) == Some(error),
        },
        validation.outcome matches Ok(args) ==> args.files.len() > 0,
{
    let mut valid_files: Vec<String> = Vec::new();
    let mut missing: Vec<String> = Vec::new();
    let ghost all = candidates.deep_view();
    proof {
        reveal(Seq::filter);
        assert(all.take(0) =~= Seq::<CandidateView>::empty());
        assert(valid_files.deep_view() =~= paths_where(all.take(0), true));
        assert(missing.deep_view() =~= paths_where(all.take(0), false));
    }
    let mut i: usize = 0;
    while i < candidates.len()
        invariant
            i <= candidates.len(),
            all == candidates.deep_view(),
            valid_files.deep_view() == paths_where(all.take(i as int), true),
            missing.deep_view() == paths_where(all.take(i as int), false),
            valid_files.len() == 0 <==> forall|j: int| 0 <= j < i ==> !(#[trigger] all[j]).exists,
        decreases candidates.len() - i,
    {
        proof {
            lemma_paths_where_step(all, true, i as int);
            lemma_paths_where_step(all, false, i as int);
        }
        let ghost valid_before = valid_files.deep_view();
        let ghost missing_before = missing.deep_view();
        if candidates[i].exists {
            valid_files.push(candidates[i].path.clone());
            assert(valid_files.deep_view() =~= valid_before.push(all[i as int].path));
        } else {
            missing.push(candidates[i].path.clone());
            assert(missing.deep_view() =~= missing_before.push(all[i as int].path));
        }
        i += 1;
    }
    assert(all.take(i as int) =~= all);
    let outcome = if candidates.len() == 0 {
        Err(StartupError::NoFilesSpecified)
    } else if valid_files.len() == 0 {
        Err(StartupError::NoValidFiles)
    } else {
        Ok(Args { files: valid_files, and_exit, icon_only })
    };
    Validation { missing, outcome }
}

/// The diagnostic for `error`.
pub open spec fn error_message(error: StartupError) -> Seq<char> {
    match error {
        StartupError::NoFilesSpecified => "Error: No files specified"@,
        StartupError::NoValidFiles => "Error: No valid files to display"@,
    }
}

/// The start of the warning about a file that does not exist; the path
/// follows it.
pub open spec fn warning_prefix() -> Seq<char> {
    "Warning: File does not exist: "@
}

impl StartupError {
    /// The diagnostic to print before the process ends.
    pub fn message(&self) -> (text: String)
        ensures
            text@ == error_message(*self),
    {
        match self {
            StartupError::NoFilesSpecified => String::from_str("Error: No files specified"),
            StartupError::NoValidFiles => String::from_str("Error: No valid files to display"),
        }
    }

    /// The status with which the process ends.
    pub fn exit_code(&self) -> (code: i32)
        ensures
            code == 1,
    {
        1
    }
}

/// The warning about a file that does not exist.
pub fn missing_file_warning(path: &str) -> (text: String)
    ensures
        text@ == warning_prefix() + path@,
{
    let mut text = String::from_str("Warning: File does not exist: ");
    text.append(path);
    text
}

} // verus!
