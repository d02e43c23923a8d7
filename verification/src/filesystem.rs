//! The layout of a workspace on disk, and the decisions made about it:
//! which directories to create, what a complete workspace holds, where a
//! workspace starts, and in which order reports are listed.
//!
//! Nothing here touches the disk. Paths are text with `/` between
//! components; what was found on disk comes in as plain values, and what is
//! to be done goes out as requests for the caller to carry out.

use vstd::prelude::*;
use vstd::string::*;

verus! {

/// Permissions of every directory of a workspace: owner only.
pub const DIRECTORY_MODE: u32 = 0o700;

/// Whether `name` starts at the filesystem root.
pub open spec fn starts_at_root(name: Seq<char>) -> bool {
    name.len() > 0 && name[0] == '/'
}

/// `base` as the prefix of what lies in it: `base` followed by a `/`,
/// unless it is empty or already ends in one.
pub open spec fn as_directory(base: Seq<char>) -> Seq<char> {
    if base.len() == 0 || base.last() == '/' {
        base
    } else {
        base + seq!['/']
    }
}

/// `name` as seen from the directory `base`: `name` itself where it starts
/// at the root, else `name` placed in `base`.
pub open spec fn child(base: Seq<char>, name: Seq<char>) -> Seq<char> {
    if starts_at_root(name) {
        name
    } else {
        as_directory(base) + name
    }
}

/// The path of `name` as seen from the directory `base`.
pub fn join(base: &str, name: &str) -> (path: String)
    ensures
        path@ == child(base@, name@),
{
    if name.unicode_len() > 0 && name.get_char(0) == '/' {
        return String::from_str(name);
    }
    let length: usize = base.unicode_len();
    let mut path = String::from_str(base);
    if length > 0 && base.get_char(length - 1) != '/' {
        proof {
            reveal_strlit("/");
            assert("/"@ =~= seq!['/']);
        }
        path.append("/");
    }
    path.append(name);
    path
}

/// The directories of a workspace rooted at `root`.
#[derive(Debug, Clone)]
pub struct ProjectPaths {
    /// The project root.
    pub root: String,
    /// `.miyabi` under the root: parent of everything the tool stores.
    pub config: String,
    /// `logs` under `config`: the action log lives here.
    pub logs: String,
    /// `reports` under `config`: execution reports live here.
    pub reports: String,
}

/// Mathematical view of [`ProjectPaths`].
pub struct ProjectPathsView {
    pub root: Seq<char>,
    pub config: Seq<char>,
    pub logs: Seq<char>,
    pub reports: Seq<char>,
}

impl View for ProjectPaths {
    type V = ProjectPathsView;

    open spec fn view(&self) -> ProjectPathsView {
        ProjectPathsView {
            root: self.root@,
            config: self.config@,
            logs: self.logs@,
            reports: self.reports@,
        }
    }
}

/// The layout of the workspace rooted at `root`.
pub open spec fn layout(root: Seq<char>) -> ProjectPathsView {
    ProjectPathsView {
        root,
        config: child(root, ".miyabi"@),
        logs: child(child(root, ".miyabi"@), "logs"@),
        reports: child(child(root, ".miyabi"@), "reports"@),
    }
}

/// Written out, the layout of the workspace rooted at `root`: `.miyabi` in
/// the root, `logs` and `reports` in `.miyabi`, `config.toml` in `.miyabi`
/// and `actions.log` in `logs`.
pub proof fn law_layout_is_nested(root: Seq<char>)
    ensures
        layout(root).root == root,
        layout(root).config == as_directory(root) + ".miyabi"@,
        layout(root).logs == layout(root).config + "/logs"@,
        layout(root).reports == layout(root).config + "/reports"@,
        layout(root).config_file() == layout(root).config + "/config.toml"@,
        layout(root).actions_log() == layout(root).logs + "/actions.log"@,
{
    reveal_strlit(".miyabi");
    reveal_strlit("logs");
    reveal_strlit("reports");
    reveal_strlit("config.toml");
    reveal_strlit("actions.log");
    reveal_strlit("/logs");
    reveal_strlit("/reports");
    reveal_strlit("/config.toml");
    reveal_strlit("/actions.log");
    let config = layout(root).config;
    let logs = layout(root).logs;
    assert(config.last() == 'i');
    assert(logs.last() == 's');
    assert(seq!['/'] + "logs"@ =~= "/logs"@);
    assert(seq!['/'] + "reports"@ =~= "/reports"@);
    assert(seq!['/'] + "config.toml"@ =~= "/config.toml"@);
    assert(seq!['/'] + "actions.log"@ =~= "/actions.log"@);
    assert(config + seq!['/'] + "logs"@ =~= config + (seq!['/'] + "logs"@));
    assert(config + seq!['/'] + "reports"@ =~= config + (seq!['/'] + "reports"@));
    assert(config + seq!['/'] + "config.toml"@ =~= config + (seq!['/'] + "config.toml"@));
    assert(logs + seq!['/'] + "actions.log"@ =~= logs + (seq!['/'] + "actions.log"@));
}

/// A directory to create, with the permissions to give it.
#[derive(Debug, Clone)]
pub struct DirectoryRequest {
    pub path: String,
    pub mode: u32,
}

/// Mathematical view of a [`DirectoryRequest`].
pub struct DirectoryRequestView {
    pub path: Seq<char>,
    pub mode: u32,
}

impl View for DirectoryRequest {
    type V = DirectoryRequestView;

    open spec fn view(&self) -> DirectoryRequestView {
        DirectoryRequestView { path: self.path@, mode: self.mode }
    }
}

impl DeepView for DirectoryRequest {
    type V = DirectoryRequestView;

    open spec fn deep_view(&self) -> DirectoryRequestView {
        self@
    }
}

/// Which parts of a workspace were found on disk.
#[derive(Debug, Clone, Copy, PartialEq, Eq, Structural)]
pub struct Presence {
    /// The `.miyabi` directory.
    pub config_dir: bool,
    /// `config.toml` inside it.
    pub config_file: bool,
    /// The `logs` directory.
    pub logs_dir: bool,
    /// The `reports` directory.
    pub reports_dir: bool,
}

/// The first part of a workspace found missing, with the path where it was
/// looked for.
#[derive(Debug, Clone)]
pub enum LayoutError {
    ConfigDirMissing { path: String },
    ConfigFileMissing { path: String },
    LogsDirMissing { path: String },
    ReportsDirMissing { path: String },
}

/// Mathematical view of a [`LayoutError`].
pub enum LayoutErrorView {
    ConfigDirMissing { path: Seq<char> },
    ConfigFileMissing { path: Seq<char> },
    LogsDirMissing { path: Seq<char> },
    ReportsDirMissing { path: Seq<char> },
}

impl View for LayoutError {
    type V = LayoutErrorView;

    open spec fn view(&self) -> LayoutErrorView {
        match self {
            LayoutError::ConfigDirMissing { path } => LayoutErrorView::ConfigDirMissing {
                path: path@,
            },
            LayoutError::ConfigFileMissing { path } => LayoutErrorView::ConfigFileMissing {
                path: path@,
            },
            LayoutError::LogsDirMissing { path } => LayoutErrorView::LogsDirMissing { path: path@ },
            LayoutError::ReportsDirMissing { path } => LayoutErrorView::ReportsDirMissing {
                path: path@,
            },
        }
    }
}

impl ProjectPathsView {
    /// Path of the configuration file.
    pub open spec fn config_file(self) -> Seq<char> {
        child(self.config, "config.toml"@)
    }

    /// Path of the action log.
    pub open spec fn actions_log(self) -> Seq<char> {
        child(self.logs, "actions.log"@)
    }

    /// The directories to create, in order: `config`, `logs`, `reports`,
    /// each for the owner only.
    pub open spec fn structure(self) -> Seq<DirectoryRequestView> {
        seq![
            DirectoryRequestView { path: self.config, mode: DIRECTORY_MODE },
            DirectoryRequestView { path: self.logs, mode: DIRECTORY_MODE },
            DirectoryRequestView { path: self.reports, mode: DIRECTORY_MODE },
        ]
    }

    /// What holds of a workspace of which `found` was found: it is complete,
    /// or a part is missing. Parts are looked for in the order config
    /// directory, configuration file, logs directory, reports directory, and
    /// the first one missing is named.
    pub open spec fn validation(self, found: Presence) -> Result<(), LayoutErrorView> {
        if !found.config_dir {
            Err(LayoutErrorView::ConfigDirMissing { path: self.config })
        } else if !found.config_file {
            Err(LayoutErrorView::ConfigFileMissing { path: self.config_file() })
        } else if !found.logs_dir {
            Err(LayoutErrorView::LogsDirMissing { path: self.logs })
        } else if !found.reports_dir {
            Err(LayoutErrorView::ReportsDirMissing { path: self.reports })
        } else {
            Ok(())
        }
    }
}

impl ProjectPaths {
    /// The paths of the workspace rooted at `root`. Nothing is created.
    pub fn new(root: &str) -> (paths: Self)
        ensures
            paths@ == layout(root@),
    {
        let config = join(root, ".miyabi");
        let logs = join(config.as_str(), "logs");
        let reports = join(config.as_str(), "reports");
        ProjectPaths { root: String::from_str(root), config, logs, reports }
    }

    /// Path of the configuration file, `config.toml` under `config`.
    pub fn config_file(&self) -> (path: String)
        ensures
            path@ == self@.config_file(),
    {
        join(self.config.as_str(), "config.toml")
    }

    /// Path of the action log, `actions.log` under `logs`.
    pub fn actions_log(&self) -> (path: String)
        ensures
            path@ == self@.actions_log(),
    {
        join(self.logs.as_str(), "actions.log")
    }

    /// The directories that make up the workspace, in the order in which
    /// they are to be created. The caller creates them and stops at the
    /// first failure.
    pub fn ensure_structure(&self) -> (requests: Vec<DirectoryRequest>)
        ensures
            requests.deep_view() == self@.structure(),
    {
        let mut requests: Vec<DirectoryRequest> = Vec::new();
        requests.push(DirectoryRequest { path: self.config.clone(), mode: DIRECTORY_MODE });
        requests.push(DirectoryRequest { path: self.logs.clone(), mode: DIRECTORY_MODE });
        requests.push(DirectoryRequest { path: self.reports.clone(), mode: DIRECTORY_MODE });
        assert(requests.deep_view() =~= self@.structure());
        requests
    }

    /// Whether the workspace has been set up, given which of its parts were
    /// found on disk: it has once the config directory is there.
    pub fn is_initialized(&self, found: &Presence) -> (present: bool)
        ensures
            present == found.config_dir,
    {
        found.config_dir
    }

    /// Checks that the workspace is complete, given which of its parts were
    /// found on disk. Fails with the first part that is missing.
    pub fn validate(&self, found: &Presence) -> (result: Result<(), LayoutError>)
        ensures
            match result {
                Ok(()) => self@.validation(*found) is Ok,
                Err(error) => self@.validation(*found) == Err::<(), LayoutErrorView>(error@),
            },
    {
        if !found.config_dir {
            return Err(LayoutError::ConfigDirMissing { path: self.config.clone() });
        }
        if !found.config_file {
            return Err(LayoutError::ConfigFileMissing { path: self.config_file() });
        }
        if !found.logs_dir {
            return Err(LayoutError::LogsDirMissing { path: self.logs.clone() });
        }
        if !found.reports_dir {
            return Err(LayoutError::ReportsDirMissing { path: self.reports.clone() });
        }
        Ok(())
    }
}

/// A directory on the way from a starting point up to the filesystem root,
/// with whether it holds a `.miyabi` entry.
#[derive(Debug, Clone)]
pub struct Candidate {
    pub path: String,
    pub has_workspace: bool,
}

/// Mathematical view of a [`Candidate`].
pub struct CandidateView {
    pub path: Seq<char>,
    pub has_workspace: bool,
}

impl View for Candidate {
    type V = CandidateView;

    open spec fn view(&self) -> CandidateView {
        CandidateView { path: self.path@, has_workspace: self.has_workspace }
    }
}

impl DeepView for Candidate {
    type V = CandidateView;

    open spec fn deep_view(&self) -> CandidateView {
        self@
    }
}

/// `at` is the position of the first candidate that holds a workspace.
pub open spec fn first_workspace_at(candidates: Seq<CandidateView>, at: int) -> bool {
    &&& 0 <= at < candidates.len()
    &&& candidates[at].has_workspace
    &&& forall|earlier: int| 0 <= earlier < at ==> !(#[trigger] candidates[earlier]).has_workspace
}

/// Finds the project root above a starting directory.
#[derive(Debug, Clone, Copy)]
pub struct WorkspaceDetector;

impl WorkspaceDetector {
    /// The nearest project root: the path of the first of `candidates` that
    /// holds a workspace, or `None` when none does. The candidates are the
    /// starting directory and its ancestors, nearest first.
    pub fn detect(candidates: &Vec<Candidate>) -> (root: Option<String>)
        ensures
            match root {
                Some(path) => exists|at: int|
                    first_workspace_at(candidates.deep_view(), at) && path@ == (
                    #[trigger] candidates[at]).path@,
                None => forall|i: int|
                    0 <= i < candidates.len() ==> !(#[trigger] candidates[i]).has_workspace,
            },
    {
        let mut i: usize = 0;
        while i < candidates.len()
            invariant
                i <= candidates.len(),
                forall|k: int| 0 <= k < i ==> !(#[trigger] candidates[k]).has_workspace,
            decreases candidates.len() - i,
        {
            if candidates[i].has_workspace {
                proof {
                    assert forall|earlier: int| 0 <= earlier < i implies !(
                    #[trigger] candidates.deep_view()[earlier]).has_workspace by {
                        assert(candidates.deep_view()[earlier] == candidates[earlier]@);
                    }
                    assert(candidates.deep_view()[i as int] == candidates[i as int]@);
                    assert(first_workspace_at(candidates.deep_view(), i as int));
                }
                return Some(candidates[i].path.clone());
            }
            i = i + 1;
        }
        None
    }

    /// The directories to create for `paths`: see
    /// [`ProjectPaths::ensure_structure`].
    pub fn ensure_structure(paths: &ProjectPaths) -> (requests: Vec<DirectoryRequest>)
        ensures
            requests.deep_view() == paths@.structure(),
    {
        paths.ensure_structure()
    }
}

/// A report found in the reports directory, with the time it was last
/// modified in nanoseconds since the Unix epoch, where that is known.
#[derive(Debug, Clone)]
pub struct ReportEntry {
    pub path: String,
    pub modified: Option<u128>,
}

/// Mathematical view of a [`ReportEntry`].
pub struct ReportEntryView {
    pub path: Seq<char>,
    pub modified: Option<u128>,
}

impl View for ReportEntry {
    type V = ReportEntryView;

    open spec fn view(&self) -> ReportEntryView {
        ReportEntryView { path: self.path@, modified: self.modified }
    }
}

impl DeepView for ReportEntry {
    type V = ReportEntryView;

    open spec fn deep_view(&self) -> ReportEntryView {
        self@
    }
}

/// How recent an entry is: its modification time, or -1 when that is
/// unknown, so that entries of unknown age count as the oldest.
pub open spec fn recency(entry: ReportEntryView) -> int {
    match entry.modified {
        Some(time) => time as int,
        None => -1,
    }
}

/// The entry at position `a` is listed ahead of the one at position `b`:
/// it is more recent, or as recent and found earlier.
pub open spec fn listed_before(entries: Seq<ReportEntryView>, a: int, b: int) -> bool {
    recency(entries[a]) > recency(entries[b]) || (recency(entries[a]) == recency(entries[b]) && a
        < b)
}

/// `order` lists the positions of the first `count` entries, each exactly
/// once, most recent first, entries of equal recency in the order in which
/// they were found.
pub open spec fn is_listing_of_first(
    entries: Seq<ReportEntryView>,
    count: int,
    order: Seq<usize>,
) -> bool {
    &&& order.len() == count
    &&& forall|i: int| 0 <= i < order.len() ==> (#[trigger] order[i]) < count
    &&& forall|position: usize| position < count ==> #[trigger] order.contains(position)
    &&& forall|i: int, j: int|
        0 <= i < j < order.len() ==> listed_before(
            entries,
            (#[trigger] order[i]) as int,
            (#[trigger] order[j]) as int,
        )
}

/// `order` lists the positions of all `entries`: see
/// [`is_listing_of_first`].
pub open spec fn is_listing(entries: Seq<ReportEntryView>, order: Seq<usize>) -> bool {
    is_listing_of_first(entries, entries.len() as int, order)
}

/// `paths` are the paths of `entries` in listing order.
pub open spec fn is_listed(entries: Seq<ReportEntryView>, paths: Seq<Seq<char>>) -> bool {
    exists|order: Seq<usize>|
        {
            &&& #[trigger] is_listing(entries, order)
            &&& paths.len() == order.len()
            &&& forall|i: int|
                0 <= i < paths.len() ==> #[trigger] paths[i] == entries[order[i] as int].path
        }
}

/// Whether `a` is strictly more recent than `b`.
pub fn more_recent(a: &ReportEntry, b: &ReportEntry) -> (newer: bool)
    ensures
        newer == (recency(a@) > recency(b@)),
{
    match a.modified {
        Some(mine) => match b.modified {
            Some(theirs) => mine > theirs,
            None => true,
        },
        None => false,
    }
}

/// The positions of `entries` in listing order: most recent first, entries
/// of unknown age last, ties kept in the order found.
pub fn listing_order(entries: &Vec<ReportEntry>) -> (order: Vec<usize>)
    ensures
        is_listing(entries.deep_view(), order@),
{
    let ghost all = entries.deep_view();
    let mut order: Vec<usize> = Vec::new();
    let mut next: usize = 0;
    while next < entries.len()
        invariant
            next <= entries.len(),
            all == entries.deep_view(),
            is_listing_of_first(all, next as int, order@),
        decreases entries.len() - next,
    {
        // The new entry goes behind every entry that is at least as recent.
        let mut slot: usize = order.len();
        while slot > 0 && more_recent(&entries[next], &entries[order[slot - 1]])
            invariant
                slot <= order.len(),
                next < entries.len(),
                all == entries.deep_view(),
                is_listing_of_first(all, next as int, order@),
                forall|k: int|
                    slot <= k < order.len() ==> recency(all[next as int]) > recency(
                        all[(#[trigger] order[k]) as int],
                    ),
            decreases slot,
        {
            slot = slot - 1;
        }
        let ghost before = order@;
        order.insert(slot, next);
        proof {
            let after = order@;
            assert forall|i: int| 0 <= i < after.len() implies (#[trigger] after[i]) < next
                + 1 by {
                if i < slot {
                    assert(after[i] == before[i]);
                } else if i > slot {
                    assert(after[i] == before[i - 1]);
                }
            }
            assert forall|position: usize| position < next + 1 implies #[trigger] after.contains(
                position,
            ) by {
                if position == next {
                    assert(after[slot as int] == next);
                } else {
                    assert(before.contains(position));
                    let k = choose|k: int| 0 <= k < before.len() && before[k] == position;
                    if k < slot {
                        assert(after[k] == position);
                    } else {
                        assert(after[k + 1] == position);
                    }
                }
            }
            assert forall|i: int, j: int| 0 <= i < j < after.len() implies listed_before(
                all,
                (#[trigger] after[i]) as int,
                (#[trigger] after[j]) as int,
            ) by {
                let bi = if i < slot { i } else { i - 1 };
                let bj = if j < slot { j } else { j - 1 };
                if i != slot {
                    assert(after[i] == before[bi]);
                }
                if j != slot {
                    assert(after[j] == before[bj]);
                }
                if i == slot {
                    // Everything behind the slot is strictly older.
                    assert(recency(all[next as int]) > recency(all[before[bj] as int]));
                } else if j == slot {
                    // Everything ahead of the slot is at least as recent
                    // and was found earlier.
                    assert(before[bi] < next);
                    if slot > 0 {
                        if bi < slot - 1 {
                            assert(listed_before(
                                all,
                                before[bi] as int,
                                before[slot - 1] as int,
                            ));
                        }
                    }
                } else {
                    assert(listed_before(all, before[bi] as int, before[bj] as int));
                }
            }
        }
        next = next + 1;
    }
    order
}

/// The paths of the reports found in the reports directory, most recently
/// modified first. Reports whose modification time is unknown come last,
/// and reports modified at the same time keep the order in which they
/// were found.
pub fn list_recent_reports(entries: &Vec<ReportEntry>) -> (paths: Vec<String>)
    ensures
        is_listed(entries.deep_view(), paths.deep_view()),
{
    let order = listing_order(entries);
    let mut paths: Vec<String> = Vec::new();
    let mut i: usize = 0;
    while i < order.len()
        invariant
            i <= order.len(),
            is_listing(entries.deep_view(), order@),
            paths.len() == i,
            forall|k: int| 0 <= k < i ==> (#[trigger] paths[k])@ == entries[order[k] as int].path@,
        decreases order.len() - i,
    {
        paths.push(entries[order[i]].path.clone());
        i = i + 1;
    }
    proof {
        let listed = paths.deep_view();
        let all = entries.deep_view();
        assert forall|k: int| 0 <= k < listed.len() implies #[trigger] listed[k]
            == all[order@[k] as int].path by {
            assert(listed[k] == paths[k]@);
            assert(all[order@[k] as int] == entries[order@[k] as int]@);
        }
        assert(is_listing(all, order@));
    }
    paths
}

proof fn lemma_listings_agree_up_to(
    entries: Seq<ReportEntryView>,
    a: Seq<usize>,
    b: Seq<usize>,
    last: int,
)
    requires
        is_listing(entries, a),
        is_listing(entries, b),
        0 <= last < entries.len(),
    ensures
        forall|k: int| 0 <= k <= last ==> a[k] == b[k],
    decreases last,
{
    if last > 0 {
        lemma_listings_agree_up_to(entries, a, b, last - 1);
    }
    let x = a[last];
    let y = b[last];
    assert(b.contains(x));
    assert(a.contains(y));
    let x_in_b = choose|j: int| 0 <= j < b.len() && b[j] == x;
    let y_in_a = choose|j: int| 0 <= j < a.len() && a[j] == y;
    // Neither can sit ahead of `last`: there the listings agree, and no
    // position is listed twice.
    if x_in_b < last {
        assert(listed_before(entries, a[x_in_b] as int, a[last] as int));
    }
    if y_in_a < last {
        assert(listed_before(entries, b[y_in_a] as int, b[last] as int));
    }
    // And not both can sit behind it: each would be listed ahead of the
    // other.
    if x_in_b > last && y_in_a > last {
        assert(listed_before(entries, b[last] as int, b[x_in_b] as int));
        assert(listed_before(entries, a[last] as int, a[y_in_a] as int));
    }
}

/// The listing order is determined by the entries: two orders that both
/// list the same entries are equal.
pub proof fn law_listing_is_unique(entries: Seq<ReportEntryView>, a: Seq<usize>, b: Seq<usize>)
    requires
        is_listing(entries, a),
        is_listing(entries, b),
    ensures
        a == b,
{
    if entries.len() > 0 {
        lemma_listings_agree_up_to(entries, a, b, entries.len() - 1);
    }
    assert(a =~= b);
}

/// The listed paths are determined by the entries.
pub proof fn law_listed_paths_are_unique(
    entries: Seq<ReportEntryView>,
    p: Seq<Seq<char>>,
    q: Seq<Seq<char>>,
)
    requires
        is_listed(entries, p),
        is_listed(entries, q),
    ensures
        p == q,
{
    let a = choose|order: Seq<usize>|
        {
            &&& #[trigger] is_listing(entries, order)
            &&& p.len() == order.len()
            &&& forall|i: int| 0 <= i < p.len() ==> #[trigger] p[i] == entries[order[i] as int].path
        };
    let b = choose|order: Seq<usize>|
        {
            &&& #[trigger] is_listing(entries, order)
            &&& q.len() == order.len()
            &&& forall|i: int| 0 <= i < q.len() ==> #[trigger] q[i] == entries[order[i] as int].path
        };
    law_listing_is_unique(entries, a, b);
    assert(p =~= q);
}

} // verus!
