use vstd::prelude::*;

use crate::filter::{Entry, FilterConfig, list, listed};

verus! {

/// The commands that keyboard input is mapped to.
#[derive(Clone, Copy, Debug, PartialEq, Eq, Structural)]
pub enum Command {
    MoveSelectionDown,
    MoveSelectionUp,
    Descend,
    Ascend,
    ToggleHidden,
    ToggleShowFiles,
    ActivateExternal,
    LaunchEditorInCurrentDir,
    Quit,
}

/// Why a directory could not be listed.
#[derive(Clone, Copy, Debug, PartialEq, Eq, Structural)]
pub enum ListingError {
    /// The path does not exist or could not be read.
    Unreadable,
    /// The path names something that is not a directory.
    NotADirectory,
    /// Reading the directory was not permitted.
    PermissionDenied,
    /// The status of one of the children could not be obtained.
    Metadata,
}

/// A listing that the controller asks for: the directory's path, from the
/// root down, and the filters to list it with.
#[derive(Debug)]
pub struct Refresh {
    pub path: Vec<String>,
    pub filters: FilterConfig,
}

/// What the surrounding loop is to do after a command.
#[derive(Debug)]
pub enum Action {
    /// Nothing: the command is done.
    Stay,
    /// List the directory and hand the outcome to `NavigationState::complete`.
    Refresh(Refresh),
    /// Open this path with the system's default handler.
    Open(Vec<String>),
    /// Start the editor with this directory as its working directory.
    Launch(Vec<String>),
    /// Leave the command loop.
    Quit,
}

/// What an action stands for, with paths as sequences of components.
pub enum Step {
    Stay,
    Refresh(Seq<String>, FilterConfig),
    Open(Seq<String>),
    Launch(Seq<String>),
    Quit,
}

impl View for Action {
    type V = Step;

    open spec fn view(&self) -> Step {
        match self {
            Action::Stay => Step::Stay,
            Action::Refresh(r) => Step::Refresh(r.path@, r.filters),
            Action::Open(p) => Step::Open(p@),
            Action::Launch(p) => Step::Launch(p@),
            Action::Quit => Step::Quit,
        }
    }
}

/// The browser's state as mathematical values: the directory's path from the
/// root down, its filtered children, the selection and the filters.
pub struct NavView {
    pub path: Seq<String>,
    pub entries: Seq<Entry>,
    pub selected: Option<usize>,
    pub filters: FilterConfig,
}

impl NavView {
    /// The selection is a valid index into the entries, and is absent exactly
    /// when there are none.
    pub open spec fn wf(self) -> bool {
        match self.selected {
            None => self.entries.len() == 0,
            Some(i) => i < self.entries.len(),
        }
    }
}

/// The selection that a fresh listing starts with: the first entry, if any.
pub open spec fn first_selection(entries: Seq<Entry>) -> Option<usize> {
    if entries.len() > 0 {
        Some(0usize)
    } else {
        None
    }
}

/// The state after `path` was listed with `children` under `filters`: the
/// entries are replaced wholesale and the selection goes back to the start.
pub open spec fn refreshed(path: Seq<String>, children: Seq<Entry>, filters: FilterConfig) -> NavView {
    NavView {
        path,
        entries: listed(children, filters),
        selected: first_selection(listed(children, filters)),
        filters,
    }
}

/// The path of the selected entry, when one is selected.
pub open spec fn selected_path(v: NavView) -> Option<Seq<String>> {
    match v.selected {
        Some(i) => Some(v.path.push(v.entries[i as int].name)),
        None => None,
    }
}

/// What the loop is asked to do for `cmd` in state `v`.
pub open spec fn decide(v: NavView, cmd: Command) -> Step {
    match cmd {
        Command::Descend => match v.selected {
            Some(i) => if v.entries[i as int].is_directory {
                Step::Refresh(v.path.push(v.entries[i as int].name), v.filters)
            } else {
                Step::Stay
            },
            None => Step::Stay,
        },
        Command::Ascend => if v.path.len() > 0 {
            Step::Refresh(v.path.drop_last(), v.filters)
        } else {
            Step::Stay
        },
        Command::ToggleHidden => Step::Refresh(v.path, v.filters.toggled_hidden_spec()),
        Command::ToggleShowFiles => Step::Refresh(v.path, v.filters.toggled_files_spec()),
        Command::ActivateExternal => match selected_path(v) {
            Some(p) => Step::Open(p),
            None => Step::Stay,
        },
        Command::LaunchEditorInCurrentDir => Step::Launch(v.path),
        Command::Quit => Step::Quit,
        _ => Step::Stay,
    }
}

/// The state right after `cmd`, before any listing it asks for: moving the
/// selection clamps it to the first and the last entry; every other command
/// leaves the state as it is.
pub open spec fn moved(v: NavView, cmd: Command) -> NavView {
    match cmd {
        Command::MoveSelectionDown => match v.selected {
            Some(i) => NavView {
                selected: Some(if i + 1 < v.entries.len() { (i + 1) as usize } else { i }),
                ..v
            },
            None => v,
        },
        Command::MoveSelectionUp => match v.selected {
            Some(i) => NavView { selected: Some(if i > 0 { (i - 1) as usize } else { i }), ..v },
            None => v,
        },
        _ => v,
    }
}

/// The state after `cmd` in state `v`, where `listing` is what reading the
/// requested directory gave, if the command asked for one: `None` when it
/// failed, which leaves the state as it was.
pub open spec fn after(v: NavView, cmd: Command, listing: Option<Seq<Entry>>) -> NavView {
    match decide(v, cmd) {
        Step::Refresh(p, f) => match listing {
            Some(children) => refreshed(p, children, f),
            None => v,
        },
        _ => moved(v, cmd),
    }
}

/// The state after each command of `cmds` in turn, the `k`-th handed the
/// `k`-th listing.
pub open spec fn after_all(
    v: NavView,
    cmds: Seq<Command>,
    listings: Seq<Option<Seq<Entry>>>,
) -> NavView
    decreases cmds.len(),
{
    if cmds.len() == 0 || listings.len() == 0 {
        v
    } else {
        after_all(after(v, cmds[0], listings[0]), cmds.drop_first(), listings.drop_first())
    }
}

/// A copy of a path, equal to it.
fn copy_path(p: &Vec<String>) -> (r: Vec<String>)
    ensures
        r@ == p@,
{
    let mut r: Vec<String> = Vec::new();
    let mut i: usize = 0;
    while i < p.len()
        invariant
            i <= p@.len(),
            r@ == p@.subrange(0, i as int),
        decreases p@.len() - i,
    {
        r.push(p[i].clone());
        i = i + 1;
    }
    assert(r@ == p@);
    r
}

/// The path with one more component at its end.
fn joined(p: &Vec<String>, name: &String) -> (r: Vec<String>)
    ensures
        r@ == p@.push(*name),
{
    let mut r = copy_path(p);
    r.push(name.clone());
    r
}

/// The browser's state: the directory being browsed, its filtered listing,
/// the selection and the filters.
pub struct NavigationState {
    path: Vec<String>,
    entries: Vec<Entry>,
    selected: Option<usize>,
    filters: FilterConfig,
}

impl View for NavigationState {
    type V = NavView;

    closed spec fn view(&self) -> NavView {
        NavView {
            path: self.path@,
            entries: self.entries@,
            selected: self.selected,
            filters: self.filters,
        }
    }
}

impl NavigationState {
    /// The state for browsing `path` whose children are `children`, with
    /// the initial filters.
    pub fn new(path: Vec<String>, children: &Vec<Entry>) -> (r: NavigationState)
        ensures
            r@ == refreshed(path@, children@, FilterConfig::initial_spec()),
            r@.wf(),
    {
        let filters = FilterConfig::initial();
        let entries = list(children, filters);
        let selected = if entries.len() > 0 {
            Some(0usize)
        } else {
            None
        };
        NavigationState { path, entries, selected, filters }
    }

    /// The directory being browsed, from the root down.
    pub fn path(&self) -> (r: &Vec<String>)
        ensures
            r@ == self@.path,
    {
        &self.path
    }

    /// The entries of the current listing.
    pub fn entries(&self) -> (r: &Vec<Entry>)
        ensures
            r@ == self@.entries,
    {
        &self.entries
    }

    /// The index of the selected entry, if any.
    pub fn selected(&self) -> (r: Option<usize>)
        ensures
            r == self@.selected,
    {
        self.selected
    }

    /// The filters of the current listing.
    pub fn filters(&self) -> (r: FilterConfig)
        ensures
            r == self@.filters,
    {
        self.filters
    }

    /// Applies `cmd`: moves the selection, or says what the loop is to do.
    /// A listing that the command needs is only asked for here; the state
    /// changes when its outcome is handed to `complete`.
    pub fn handle(&mut self, cmd: Command) -> (a: Action)
        requires
            old(self)@.wf(),
        ensures
            a@ == decide(old(self)@, cmd),
            final(self)@ == moved(old(self)@, cmd),
            final(self)@.wf(),
    {
        match cmd {
            Command::MoveSelectionDown => {
                if let Some(i) = self.selected {
                    if i < self.entries.len() - 1 {
                        self.selected = Some(i + 1);
                    }
                }
                Action::Stay
            },
            Command::MoveSelectionUp => {
                if let Some(i) = self.selected {
                    if i > 0 {
                        self.selected = Some(i - 1);
                    }
                }
                Action::Stay
            },
            Command::Descend => {
                match self.selected {
                    Some(i) => {
                        if self.entries[i].is_directory {
                            let path = joined(&self.path, &self.entries[i].name);
                            Action::Refresh(Refresh { path, filters: self.filters })
                        } else {
                            Action::Stay
                        }
                    },
                    None => Action::Stay,
                }
            },
            Command::Ascend => {
                if self.path.len() > 0 {
                    let mut path = copy_path(&self.path);
                    path.pop();
                    Action::Refresh(Refresh { path, filters: self.filters })
                } else {
                    Action::Stay
                }
            },
            Command::ToggleHidden => {
                let path = copy_path(&self.path);
                Action::Refresh(Refresh { path, filters: self.filters.toggled_hidden() })
            },
            Command::ToggleShowFiles => {
                let path = copy_path(&self.path);
                Action::Refresh(Refresh { path, filters: self.filters.toggled_files() })
            },
            Command::ActivateExternal => {
                match self.selected {
                    Some(i) => Action::Open(joined(&self.path, &self.entries[i].name)),
                    None => Action::Stay,
                }
            },
            Command::LaunchEditorInCurrentDir => Action::Launch(copy_path(&self.path)),
            Command::Quit => Action::Quit,
        }
    }

    /// Takes the outcome of the listing that `req` asked for. On success the
    /// state browses `req.path` under `req.filters`, with the new entries and
    /// the selection at the start; on failure the state is left as it was and
    /// the error is handed back.
    pub fn complete(&mut self, req: Refresh, listing: Result<Vec<Entry>, ListingError>) -> (r:
        Result<(), ListingError>)
        requires
            old(self)@.wf(),
        ensures
            match listing {
                Ok(children) => r is Ok && final(self)@ == refreshed(req.path@, children@, req.filters),
                Err(e) => r == Err::<(), ListingError>(e) && final(self)@ == old(self)@,
            },
            final(self)@.wf(),
    {
        match listing {
            Ok(children) => {
                let entries = list(&children, req.filters);
                self.selected = if entries.len() > 0 {
                    Some(0usize)
                } else {
                    None
                };
                self.entries = entries;
                self.path = req.path;
                self.filters = req.filters;
                Ok(())
            },
            Err(e) => Err(e),
        }
    }
}

} // verus!
