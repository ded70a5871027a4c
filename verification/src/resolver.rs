//! The resolver: from a command name to a builtin or to an executable file.
//!
//! A name is looked up in an ordered list of directories. The resolver never
//! touches a file itself: it names the path to look at, the caller reports what
//! is there, and the resolver decides what that means.

use crate::command::Command;
use crate::text::{fields, same_text, split_fields, text_of, texts};
use vstd::prelude::*;
use vstd::string::{StrSliceExecFns, StringExecFns};

verus! {

/// The commands that the shell runs itself.
#[derive(Clone, Copy, Debug, PartialEq, Eq, Structural)]
pub enum BuiltinKind {
    Echo,
    Exit,
    Type,
}

/// The builtin that `name` names, if any. Names are matched exactly.
pub open spec fn builtin_kind(name: Seq<char>) -> Option<BuiltinKind> {
    if name == "echo"@ {
        Some(BuiltinKind::Echo)
    } else if name == "exit"@ {
        Some(BuiltinKind::Exit)
    } else if name == "type"@ {
        Some(BuiltinKind::Type)
    } else {
        None
    }
}

/// Whether `name` is one of the builtin names.
pub open spec fn names_builtin(name: Seq<char>) -> bool {
    name == "echo"@ || name == "type"@ || name == "exit"@
}

impl Command {
    /// Tests whether the shell runs `name` itself.
    pub fn is_builtin(name: &str) -> (builtin: bool)
        ensures
            builtin == names_builtin(name@),
    {
        same_text(name, "echo") || same_text(name, "type") || same_text(name, "exit")
    }

    /// Finds the builtin that `name` names, if it names one.
    pub fn classify_builtin(name: &str) -> (kind: Option<BuiltinKind>)
        ensures
            kind == builtin_kind(name@),
    {
        if same_text(name, "echo") {
            Some(BuiltinKind::Echo)
        } else if same_text(name, "exit") {
            Some(BuiltinKind::Exit)
        } else if same_text(name, "type") {
            Some(BuiltinKind::Type)
        } else {
            None
        }
    }
}

/// The two tests for a builtin agree: a name has a kind exactly when it is a
/// builtin name.
pub proof fn lemma_builtin_names_agree(name: Seq<char>)
    ensures
        builtin_kind(name) is Some <==> names_builtin(name),
{
}

/// The permission bits of which one must be set for a file to be run: execute
/// for the owner, the group or anyone else.
pub const EXECUTE_BITS: u32 = 0o111;

/// What the caller found at a path: whether it is a regular file, and its
/// permission bits.
#[derive(Clone, Copy, Debug, PartialEq, Eq, Structural)]
pub struct FileStatus {
    pub regular: bool,
    pub mode: u32,
}

/// Whether what was found at a path can be run. A path whose status could not
/// be read (`None`) cannot.
pub open spec fn grants_execution(probe: Option<FileStatus>) -> bool {
    probe matches Some(status) && status.regular && status.mode & EXECUTE_BITS != 0
}

/// Tests whether what was found at a path can be run.
pub fn permits_execution(probe: Option<FileStatus>) -> (granted: bool)
    ensures
        granted == grants_execution(probe),
{
    match probe {
        Some(status) => status.regular && status.mode & EXECUTE_BITS != 0,
        None => false,
    }
}

/// The path of the entry `name` in the directory `dir`. An absolute `name`
/// stands for itself; otherwise one `/` separates the two unless `dir` is empty
/// or ends in one.
pub open spec fn entry_path(dir: Seq<char>, name: Seq<char>) -> Seq<char> {
    if name.len() > 0 && name[0] == '/' {
        name
    } else if dir.len() == 0 || dir.last() == '/' {
        dir + name
    } else {
        dir + seq!['/'] + name
    }
}

/// Builds the path of the entry `name` in the directory `dir`.
pub fn join_path(dir: &str, name: &str) -> (path: String)
    ensures
        path@ == entry_path(dir@, name@),
{
    if name.unicode_len() > 0 && name.get_char(0) == '/' {
        return String::from_str(name);
    }
    let dir_len: usize = dir.unicode_len();
    let mut path = String::from_str(dir);
    if dir_len > 0 && dir.get_char(dir_len - 1) != '/' {
        proof {
            reveal_strlit("/");
            assert("/"@ == seq!['/']);
        }
        path.append("/");
    }
    path.append(name);
    path
}

/// The directories in which commands are looked for, first to last.
#[derive(Debug, PartialEq, Eq)]
pub struct SearchPath {
    pub dirs: Vec<String>,
}

impl View for SearchPath {
    type V = Seq<Seq<char>>;

    open spec fn view(&self) -> Seq<Seq<char>> {
        texts(self.dirs@)
    }
}

/// The directories that a path list names. A list that is missing or empty
/// names none; any other names one directory for each field between its
/// separators, in the order written.
pub open spec fn listed_dirs(source: Option<Seq<char>>, separator: char) -> Seq<Seq<char>> {
    match source {
        Some(list) => if list.len() == 0 {
            Seq::empty()
        } else {
            fields(list, separator)
        },
        None => Seq::empty(),
    }
}

impl SearchPath {
    /// Reads the search path from a path list as the environment holds it.
    pub fn from_source(source: Option<&str>, separator: char) -> (path: SearchPath)
        ensures
            path@ == listed_dirs(text_of(source), separator),
    {
        match source {
            Some(list) => {
                if list.unicode_len() == 0 {
                    SearchPath { dirs: Vec::new() }
                } else {
                    SearchPath { dirs: split_fields(list, separator) }
                }
            },
            None => SearchPath { dirs: Vec::new() },
        }
    }
}

/// A file that can be run, found for a command name.
#[derive(Debug, PartialEq, Eq)]
pub struct Executable {
    /// The name as the user typed it.
    pub name: String,
    /// Where the file is.
    pub path: String,
}

/// What an [`Executable`] stands for.
pub struct ExecutableView {
    pub name: Seq<char>,
    pub path: Seq<char>,
}

impl View for Executable {
    type V = ExecutableView;

    open spec fn view(&self) -> ExecutableView {
        ExecutableView { name: self.name@, path: self.path@ }
    }
}

/// A search under way: paths are still to be looked at, and the one to look at
/// next is [`Search::candidate`].
#[derive(Debug, PartialEq, Eq)]
pub struct Search {
    name: String,
    candidates: Vec<String>,
    next: usize,
}

/// What a [`Search`] stands for: the name looked for, and the paths still to
/// be looked at, in order.
pub struct SearchView {
    pub name: Seq<char>,
    pub pending: Seq<Seq<char>>,
}

/// Where a search stands.
#[derive(Debug, PartialEq, Eq)]
pub enum Resolution {
    /// The caller is asked what is at the search's candidate.
    Pending(Search),
    /// The candidate last asked about can be run.
    Found(Executable),
    /// No directory holds a file of this name that can be run.
    NotFound(String),
}

/// What a [`Resolution`] stands for.
pub enum ResolutionView {
    Pending(SearchView),
    Found(ExecutableView),
    NotFound(Seq<char>),
}

impl View for Search {
    type V = SearchView;

    closed spec fn view(&self) -> SearchView {
        SearchView { name: self.name@, pending: texts(self.candidates@).skip(self.next as int) }
    }
}

impl View for Resolution {
    type V = ResolutionView;

    open spec fn view(&self) -> ResolutionView {
        match self {
            Resolution::Pending(search) => ResolutionView::Pending(search@),
            Resolution::Found(executable) => ResolutionView::Found(executable@),
            Resolution::NotFound(name) => ResolutionView::NotFound(name@),
        }
    }
}

/// The paths at which `name` may be found, one for each directory.
pub open spec fn candidates(name: Seq<char>, dirs: Seq<Seq<char>>) -> Seq<Seq<char>> {
    Seq::new(dirs.len(), |i: int| entry_path(dirs[i], name))
}

/// The start of the search for `name` in `dirs`.
pub open spec fn search_begin(name: Seq<char>, dirs: Seq<Seq<char>>) -> ResolutionView {
    if dirs.len() == 0 {
        ResolutionView::NotFound(name)
    } else {
        ResolutionView::Pending(SearchView { name, pending: candidates(name, dirs) })
    }
}

/// The search after the caller reported `probe` for its candidate: a file that
/// can be run ends it; anything else moves it to the next path, or ends it when
/// none is left.
pub open spec fn search_probed(search: SearchView, probe: Option<FileStatus>) -> ResolutionView {
    if search.pending.len() == 0 {
        ResolutionView::NotFound(search.name)
    } else if grants_execution(probe) {
        ResolutionView::Found(ExecutableView { name: search.name, path: search.pending[0] })
    } else if search.pending.len() == 1 {
        ResolutionView::NotFound(search.name)
    } else {
        ResolutionView::Pending(
            SearchView { name: search.name, pending: search.pending.drop_first() },
        )
    }
}

impl Search {
    /// A search under way has a candidate.
    #[verifier::type_invariant]
    spec fn has_candidate(self) -> bool {
        self.next < self.candidates.len()
    }

    /// The path that the caller is asked to look at.
    pub fn candidate(&self) -> (path: &str)
        ensures
            self@.pending.len() > 0,
            path@ == self@.pending[0],
    {
        proof {
            use_type_invariant(self);
        }
        self.candidates[self.next].as_str()
    }

    /// Takes the caller's report on the candidate and moves the search on.
    pub fn probed(self, probe: Option<FileStatus>) -> (resolution: Resolution)
        ensures
            resolution@ == search_probed(self@, probe),
    {
        proof {
            use_type_invariant(&self);
        }
        if permits_execution(probe) {
            let path = self.candidates[self.next].clone();
            Resolution::Found(Executable { name: self.name, path })
        } else if self.next + 1 < self.candidates.len() {
            let ghost before = self@;
            let search = Search {
                name: self.name,
                candidates: self.candidates,
                next: self.next + 1,
            };
            assert(search@.pending == before.pending.drop_first());
            Resolution::Pending(search)
        } else {
            Resolution::NotFound(self.name)
        }
    }
}

impl Command {
    /// Starts the search for the file that `name` runs, in the directories of
    /// `path`. With no directory to look in, the search is over at once.
    pub fn find_executable(name: &str, path: &SearchPath) -> (resolution: Resolution)
        ensures
            resolution@ == search_begin(name@, path@),
    {
        if path.dirs.len() == 0 {
            return Resolution::NotFound(String::from_str(name));
        }
        let mut candidates: Vec<String> = Vec::new();
        let mut i: usize = 0;
        while i < path.dirs.len()
            invariant
                i <= path.dirs.len(),
                texts(candidates@) == self::candidates(name@, path@).take(i as int),
            decreases path.dirs.len() - i,
        {
            let ghost before = candidates@;
            candidates.push(join_path(path.dirs[i].as_str(), name));
            assert(texts(candidates@) == texts(before).push(entry_path(path@[i as int], name@)));
            i += 1;
        }
        assert(texts(candidates@) == self::candidates(name@, path@));
        let search = Search { name: String::from_str(name), candidates, next: 0 };
        assert(search@.pending == texts(search.candidates@));
        Resolution::Pending(search)
    }
}

/// What a caller finds at `path` when the files are as `files` says: the
/// status recorded there, or nothing where none can be read.
pub open spec fn status_at(files: Map<Seq<char>, FileStatus>, path: Seq<char>) -> Option<
    FileStatus,
> {
    if files.dom().contains(path) {
        Some(files[path])
    } else {
        None
    }
}

/// The name that a search is or was for.
pub open spec fn searched_name(resolution: ResolutionView) -> Seq<char> {
    match resolution {
        ResolutionView::Pending(search) => search.name,
        ResolutionView::Found(executable) => executable.name,
        ResolutionView::NotFound(name) => name,
    }
}

/// How many paths a search has yet to look at.
pub open spec fn paths_left(resolution: ResolutionView) -> nat {
    match resolution {
        ResolutionView::Pending(search) => search.pending.len(),
        _ => 0,
    }
}

/// Where the search ends when each candidate is answered from `files`.
pub open spec fn search_outcome(
    resolution: ResolutionView,
    files: Map<Seq<char>, FileStatus>,
) -> Option<ExecutableView>
    decreases paths_left(resolution),
{
    match resolution {
        ResolutionView::Found(executable) => Some(executable),
        ResolutionView::NotFound(_) => None,
        ResolutionView::Pending(search) => if search.pending.len() == 0 {
            None
        } else {
            search_outcome(search_probed(search, status_at(files, search.pending[0])), files)
        },
    }
}

/// Whether `paths[i]` can be run and no path before it can.
pub open spec fn is_first_match(
    paths: Seq<Seq<char>>,
    files: Map<Seq<char>, FileStatus>,
    i: int,
) -> bool {
    &&& 0 <= i < paths.len()
    &&& grants_execution(status_at(files, paths[i]))
    &&& forall|j: int| 0 <= j < i ==> !grants_execution(status_at(files, #[trigger] paths[j]))
}

/// The first of `paths` that can be run, under the name `name`.
pub open spec fn first_match(
    name: Seq<char>,
    paths: Seq<Seq<char>>,
    files: Map<Seq<char>, FileStatus>,
) -> Option<ExecutableView> {
    if exists|i: int| is_first_match(paths, files, i) {
        Some(ExecutableView { name, path: paths[choose|i: int| is_first_match(paths, files, i)] })
    } else {
        None
    }
}

/// The executable that `name` resolves to in `dirs` when the files are as
/// `files` says: the entry of that name in the first directory that holds one
/// that can be run.
pub open spec fn resolved(
    name: Seq<char>,
    dirs: Seq<Seq<char>>,
    files: Map<Seq<char>, FileStatus>,
) -> Option<ExecutableView> {
    first_match(name, candidates(name, dirs), files)
}

proof fn lemma_first_match_is_unique(
    paths: Seq<Seq<char>>,
    files: Map<Seq<char>, FileStatus>,
    i: int,
    j: int,
)
    requires
        is_first_match(paths, files, i),
        is_first_match(paths, files, j),
    ensures
        i == j,
{
    if i < j {
        assert(!grants_execution(status_at(files, paths[i])));
    } else if j < i {
        assert(!grants_execution(status_at(files, paths[j])));
    }
}

proof fn lemma_outcome_after(
    name: Seq<char>,
    paths: Seq<Seq<char>>,
    files: Map<Seq<char>, FileStatus>,
    k: int,
)
    requires
        0 <= k < paths.len(),
        forall|j: int| 0 <= j < k ==> !grants_execution(status_at(files, #[trigger] paths[j])),
    ensures
        search_outcome(
            ResolutionView::Pending(SearchView { name, pending: paths.skip(k) }),
            files,
        ) == first_match(name, paths, files),
    decreases paths.len() - k,
{
    reveal_with_fuel(search_outcome, 2);
    let search = SearchView { name, pending: paths.skip(k) };
    let probe = status_at(files, paths[k]);
    assert(search.pending[0] == paths[k]);
    if grants_execution(probe) {
        assert(is_first_match(paths, files, k));
        lemma_first_match_is_unique(paths, files, k, choose|i: int| is_first_match(paths, files, i));
    } else if k + 1 < paths.len() {
        assert(search.pending.drop_first() == paths.skip(k + 1));
        lemma_outcome_after(name, paths, files, k + 1);
    } else {
        assert forall|i: int| !is_first_match(paths, files, i) by {
            if 0 <= i < paths.len() {
                assert(!grants_execution(status_at(files, paths[i])));
            }
        }
    }
}

/// A search that is answered from the files ends at the first directory, in
/// the order of the search path, whose entry of that name is a regular file
/// with an execute bit set. Entries that are no regular file, that nobody may
/// run or whose status cannot be read are passed over, and where no directory
/// holds a match the search ends with nothing found.
pub proof fn lemma_search_finds_first_match(
    name: Seq<char>,
    dirs: Seq<Seq<char>>,
    files: Map<Seq<char>, FileStatus>,
)
    ensures
        search_outcome(search_begin(name, dirs), files) == resolved(name, dirs, files),
{
    let paths = candidates(name, dirs);
    if dirs.len() == 0 {
        assert forall|i: int| !is_first_match(paths, files, i) by {}
    } else {
        assert(paths.skip(0) == paths);
        lemma_outcome_after(name, paths, files, 0);
    }
}

/// Searching twice gives the same answer as long as nothing changes at the
/// paths that the search looks at: the outcome depends on the name, the search
/// path and the status of the candidates, and on nothing else.
pub proof fn lemma_search_is_repeatable(
    name: Seq<char>,
    dirs: Seq<Seq<char>>,
    before: Map<Seq<char>, FileStatus>,
    after: Map<Seq<char>, FileStatus>,
)
    requires
        forall|i: int|
            0 <= i < dirs.len() ==> status_at(before, #[trigger] candidates(name, dirs)[i])
                == status_at(after, candidates(name, dirs)[i]),
    ensures
        search_outcome(search_begin(name, dirs), before) == search_outcome(
            search_begin(name, dirs),
            after,
        ),
{
    let paths = candidates(name, dirs);
    lemma_search_finds_first_match(name, dirs, before);
    lemma_search_finds_first_match(name, dirs, after);
    assert forall|i: int| is_first_match(paths, before, i) == is_first_match(paths, after, i) by {
        if 0 <= i < paths.len() {
            assert(status_at(before, paths[i]) == status_at(after, paths[i]));
            assert forall|j: int| 0 <= j < i implies status_at(before, #[trigger] paths[j])
                == status_at(after, paths[j]) by {}
        }
    }
    if exists|i: int| is_first_match(paths, before, i) {
        let i = choose|i: int| is_first_match(paths, before, i);
        let j = choose|j: int| is_first_match(paths, after, j);
        assert(is_first_match(paths, after, i));
        lemma_first_match_is_unique(paths, after, i, j);
    }
}

} // verus!
