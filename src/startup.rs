//! The startup file: the project file named on the command line, captured
//! once when the process starts and handed to the user interface by a
//! one-time push and by an on-demand pull.
use vstd::prelude::*;
use vstd::string::StrSliceExecFns;

verus! {

/// Name of the event that pushes the startup file to the user interface.
pub const STARTUP_FILE_EVENT: &'static str = "startup-file";

/// The suffix that marks a project file: `.wbs`.
pub open spec fn project_suffix() -> Seq<char> {
    seq!['.', 'w', 'b', 's']
}

/// A path names a project file when it ends with `.wbs`.
pub open spec fn is_project_path(path: Seq<char>) -> bool {
    &&& path.len() >= project_suffix().len()
    &&& path.subrange(path.len() - project_suffix().len(), path.len() as int) == project_suffix()
}

/// Whether `path` ends with the project file suffix `.wbs`.
pub fn has_project_suffix(path: &str) -> (r: bool)
    ensures
        r == is_project_path(path@),
{
    let n = path.unicode_len();
    if n < 4 {
        return false;
    }
    let r = path.get_char(n - 4) == '.' && path.get_char(n - 3) == 'w' && path.get_char(n - 2)
        == 'b' && path.get_char(n - 1) == 's';
    proof {
        let tail = path@.subrange(n - 4, n as int);
        if r {
            assert(tail =~= project_suffix());
        } else {
            if tail == project_suffix() {
                assert(tail[0] == path@[n - 4]);
                assert(tail[1] == path@[n - 3]);
                assert(tail[2] == path@[n - 2]);
                assert(tail[3] == path@[n - 1]);
            }
        }
    }
    r
}

/// The startup file chosen from the process's argument list (the program
/// name first): the first argument, when it names a project file.
pub open spec fn startup_path(args: Seq<Seq<char>>) -> Option<Seq<char>> {
    if args.len() > 1 && is_project_path(args[1]) {
        Some(args[1])
    } else {
        None
    }
}

/// Picks the startup file out of the process's argument list, whose first
/// entry is the program name.
pub fn initial_file_from_args(args: &Vec<String>) -> (r: Option<String>)
    ensures
        r.deep_view() == startup_path(args.deep_view()),
{
    if args.len() > 1 && has_project_suffix(args[1].as_str()) {
        Some(args[1].clone())
    } else {
        None
    }
}

/// What a [`StartupFile`] holds: the captured path, and whether it has
/// already been pushed to the user interface.
pub struct StartupFileView {
    pub path: Option<Seq<char>>,
    pub announced: bool,
}

/// One request to push the startup file: it is handed out if it was not
/// pushed before, and from then on counts as pushed. The path stays.
pub open spec fn announce_step(s: StartupFileView) -> (StartupFileView, Option<Seq<char>>) {
    (
        StartupFileView { path: s.path, announced: true },
        if s.announced {
            None
        } else {
            s.path
        },
    )
}

/// The state after `n` requests to push, starting from `s`.
pub open spec fn after_announcing(s: StartupFileView, n: nat) -> StartupFileView
    decreases n,
{
    if n == 0 {
        s
    } else {
        after_announcing(announce_step(s).0, (n - 1) as nat)
    }
}

/// How many of `n` successive requests to push, starting from `s`, hand out
/// a path.
pub open spec fn announcements(s: StartupFileView, n: nat) -> nat
    decreases n,
{
    if n == 0 {
        0
    } else {
        (if announce_step(s).1 is Some {
            1nat
        } else {
            0nat
        }) + announcements(announce_step(s).0, (n - 1) as nat)
    }
}

/// The process-wide startup file: set once from the launch arguments, never
/// changed afterwards, pushed to the user interface at most once.
pub struct StartupFile {
    path: Option<String>,
    announced: bool,
}

impl View for StartupFile {
    type V = StartupFileView;

    closed spec fn view(&self) -> StartupFileView {
        StartupFileView { path: self.path.deep_view(), announced: self.announced }
    }
}

impl StartupFile {
    /// Captures the startup file from the process's argument list; nothing
    /// has been pushed yet.
    pub fn from_args(args: &Vec<String>) -> (r: StartupFile)
        ensures
            r@ == (StartupFileView { path: startup_path(args.deep_view()), announced: false }),
    {
        StartupFile { path: initial_file_from_args(args), announced: false }
    }

    /// The captured startup file, on demand.
    pub fn get_initial_file(&self) -> (r: Option<String>)
        ensures
            r.deep_view() == self@.path,
    {
        match &self.path {
            Some(p) => Some(p.clone()),
            None => None,
        }
    }

    /// The path to push to the user interface now: the startup file on the
    /// first request, nothing on every later one.
    pub fn announce(&mut self) -> (r: Option<String>)
        ensures
            final(self)@ == announce_step(old(self)@).0,
            r.deep_view() == announce_step(old(self)@).1,
    {
        let was_announced = self.announced;
        self.announced = true;
        if was_announced {
            None
        } else {
            self.get_initial_file()
        }
    }
}

/// However many times the push is requested, the startup file is handed out
/// at most once, and never again once it has been.
pub proof fn announced_at_most_once(s: StartupFileView, n: nat)
    ensures
        announcements(s, n) <= 1,
        s.announced ==> announcements(s, n) == 0,
    decreases n,
{
    if n > 0 {
        announced_at_most_once(announce_step(s).0, (n - 1) as nat);
    }
}

/// Pushing never changes the startup file: a pull after any number of
/// pushes returns the path captured at startup.
pub proof fn startup_path_is_stable(s: StartupFileView, n: nat)
    ensures
        after_announcing(s, n).path == s.path,
    decreases n,
{
    if n > 0 {
        startup_path_is_stable(announce_step(s).0, (n - 1) as nat);
    }
}

} // verus!
