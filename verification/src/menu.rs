//! The interactive menu: what can be done on each kind of branch, and the
//! action the user's choices amount to.
use vstd::prelude::*;

use crate::action::{branch_name_error, validate_branch_name as validate_name};
use crate::flows::start::ReleaseType;
use crate::git::branch::{kind_name, kind_str, BranchType, BranchView};
use crate::prompt::Prompter;
use crate::text::{chars_of, substring};

verus! {

#[derive(Debug, Clone, Copy)]
pub enum DevelopOption {
    StartFeature,
    StartFix,
    StartChore,
    StartDocs,
    StartRefactor,
    StartRelease,
}

/// The work kind an option starts (`kind_name` index); 5 for a release.
pub open spec fn develop_index(o: DevelopOption) -> int {
    match o {
        DevelopOption::StartFeature => 0,
        DevelopOption::StartFix => 1,
        DevelopOption::StartChore => 2,
        DevelopOption::StartDocs => 3,
        DevelopOption::StartRefactor => 4,
        DevelopOption::StartRelease => 5,
    }
}

pub open spec fn start_label(i: int) -> Seq<char> {
    if i == 0 {
        "start feature"@
    } else if i == 1 {
        "start fix"@
    } else if i == 2 {
        "start chore"@
    } else if i == 3 {
        "start docs"@
    } else if i == 4 {
        "start refactor"@
    } else {
        "start release"@
    }
}

fn start_label_str(i: usize) -> (r: &'static str)
    ensures
        r@ == start_label(i as int),
{
    if i == 0 {
        "start feature"
    } else if i == 1 {
        "start fix"
    } else if i == 2 {
        "start chore"
    } else if i == 3 {
        "start docs"
    } else if i == 4 {
        "start refactor"
    } else {
        "start release"
    }
}

impl DevelopOption {
    fn index(&self) -> (r: usize)
        ensures
            r == develop_index(*self),
    {
        match self {
            DevelopOption::StartFeature => 0,
            DevelopOption::StartFix => 1,
            DevelopOption::StartChore => 2,
            DevelopOption::StartDocs => 3,
            DevelopOption::StartRefactor => 4,
            DevelopOption::StartRelease => 5,
        }
    }

    pub fn label(&self) -> (r: &'static str)
        ensures
            r@ == start_label(develop_index(*self)),
    {
        start_label_str(self.index())
    }

    /// The branch prefix an option starts; a release start has none.
    pub fn branch_prefix(&self) -> (r: &'static str)
        requires
            !(*self is StartRelease),
        ensures
            r@ == kind_name(develop_index(*self)),
    {
        kind_str(self.index())
    }
}

#[derive(Debug, Clone, Copy)]
pub enum WorkBranchOption {
    Finish,
    StartFeature,
    StartFix,
    StartChore,
    StartDocs,
    StartRefactor,
}

/// The work kind an option starts (`kind_name` index); -1 for finishing.
pub open spec fn work_option_index(o: WorkBranchOption) -> int {
    match o {
        WorkBranchOption::Finish => -1,
        WorkBranchOption::StartFeature => 0,
        WorkBranchOption::StartFix => 1,
        WorkBranchOption::StartChore => 2,
        WorkBranchOption::StartDocs => 3,
        WorkBranchOption::StartRefactor => 4,
    }
}

pub open spec fn work_option_label(o: WorkBranchOption, branch_type: Seq<char>) -> Seq<char> {
    if o is Finish {
        "finish "@ + branch_type
    } else {
        start_label(work_option_index(o))
    }
}

impl WorkBranchOption {
    pub fn label(&self, branch_type: &str) -> (r: String)
        ensures
            r@ == work_option_label(*self, branch_type@),
    {
        match self {
            WorkBranchOption::Finish => {
                let mut s = String::from_str("finish ");
                s.append(branch_type);
                s
            },
            WorkBranchOption::StartFeature => String::from_str(start_label_str(0)),
            WorkBranchOption::StartFix => String::from_str(start_label_str(1)),
            WorkBranchOption::StartChore => String::from_str(start_label_str(2)),
            WorkBranchOption::StartDocs => String::from_str(start_label_str(3)),
            WorkBranchOption::StartRefactor => String::from_str(start_label_str(4)),
        }
    }

    /// The branch prefix an option starts; finishing has none.
    pub fn branch_prefix(&self) -> (r: &'static str)
        requires
            !(*self is Finish),
        ensures
            r@ == kind_name(work_option_index(*self)),
    {
        match self {
            WorkBranchOption::StartFeature => kind_str(0),
            WorkBranchOption::StartFix => kind_str(1),
            WorkBranchOption::StartChore => kind_str(2),
            WorkBranchOption::StartDocs => kind_str(3),
            _ => kind_str(4),
        }
    }
}

#[derive(Debug, Clone, Copy)]
pub enum ReleaseOption {
    FinishRelease,
    StartReleaseFix,
    BumpVersion,
    SyncWithDevelop,
}

pub open spec fn release_option_label(o: ReleaseOption) -> Seq<char> {
    match o {
        ReleaseOption::FinishRelease => "finish release"@,
        ReleaseOption::StartReleaseFix => "start release fix"@,
        ReleaseOption::BumpVersion => "bump version"@,
        ReleaseOption::SyncWithDevelop => "sync with develop"@,
    }
}

impl ReleaseOption {
    pub fn label(&self) -> (r: &'static str)
        ensures
            r@ == release_option_label(*self),
    {
        match self {
            ReleaseOption::FinishRelease => "finish release",
            ReleaseOption::StartReleaseFix => "start release fix",
            ReleaseOption::BumpVersion => "bump version",
            ReleaseOption::SyncWithDevelop => "sync with develop",
        }
    }
}

pub fn validate_branch_name(input: &str) -> (r: Result<(), String>)
    ensures
        match branch_name_error(input@) {
            Some(m) => r matches Err(e) && e@ == m,
            None => r is Ok,
        },
{
    validate_name(input)
}

/// How a typed character is shaped into a branch name: a space becomes `-`,
/// and a `-` right after a `-` is dropped.
pub open spec fn shaped_char(typed: Seq<char>, c: char) -> Option<char> {
    let ch = if c == ' ' {
        '-'
    } else {
        c
    };
    if ch == '-' && typed.len() > 0 && typed.last() == '-' {
        None
    } else {
        Some(ch)
    }
}

pub fn shape_name_char(typed: &str, c: char) -> (r: Option<char>)
    ensures
        r == shaped_char(typed@, c),
{
    let ch = if c == ' ' {
        '-'
    } else {
        c
    };
    let n = typed.unicode_len();
    if ch == '-' && n > 0 && typed.get_char(n - 1) == '-' {
        None
    } else {
        Some(ch)
    }
}

/// `s` without leading and trailing `-` (`str::trim_matches('-')`).
pub open spec fn trim_hyphens_text(s: Seq<char>) -> Seq<char>
    decreases s.len(),
{
    if s.len() > 0 && s[0] == '-' {
        trim_hyphens_text(s.drop_first())
    } else if s.len() > 0 && s.last() == '-' {
        trim_hyphens_text(s.drop_last())
    } else {
        s
    }
}

pub fn trim_hyphens(s: &str) -> (r: String)
    ensures
        r@ == trim_hyphens_text(s@),
{
    let v = chars_of(s);
    let mut a: usize = 0;
    let mut b: usize = v.len();
    assert(v@.subrange(0, v@.len() as int) =~= v@);
    while a < b && v[a] == '-'
        invariant
            v@ == s@,
            a <= b == v@.len(),
            trim_hyphens_text(s@) == trim_hyphens_text(v@.subrange(a as int, b as int)),
        decreases b - a,
    {
        assert(v@.subrange(a as int, b as int).drop_first() =~= v@.subrange(a + 1, b as int));
        a = a + 1;
    }
    while b > a && v[b - 1] == '-'
        invariant
            v@ == s@,
            a <= b <= v@.len(),
            a < b ==> v@[a as int] != '-',
            trim_hyphens_text(s@) == trim_hyphens_text(v@.subrange(a as int, b as int)),
        decreases b - a,
    {
        assert(v@.subrange(a as int, b as int).drop_last() =~= v@.subrange(a as int, b - 1));
        b = b - 1;
    }
    substring(s, a, b)
}

/// What a typed branch name becomes: hyphens trimmed, then validated.
pub fn accept_name(typed: &str) -> (r: Result<String, String>)
    ensures
        match branch_name_error(trim_hyphens_text(typed@)) {
            Some(m) => r matches Err(e) && e@ == m,
            None => r matches Ok(n) && n@ == trim_hyphens_text(typed@),
        },
{
    let trimmed = trim_hyphens(typed);
    validate_name(trimmed.as_str())?;
    Ok(trimmed)
}

#[derive(Debug, PartialEq)]
pub enum Action {
    StartWorkBranch { prefix: String, name: String, from: String, no_checkout: bool, no_worktree: bool },
    StartRelease(Option<ReleaseType>),
    StartReleaseFix { name: String, no_checkout: bool, no_worktree: bool },
    StartHotfixFix { name: String, no_checkout: bool, no_worktree: bool },
    FinishWorkBranch { breaking: Option<bool>, base: Option<String> },
    FinishReleaseFix,
    FinishRelease,
    FinishHotfix,
    FinishHotfixFix,
    AbortFinish,
    BumpVersion,
    SyncWithDevelop,
}

pub open spec fn menu_starts_branch(a: Action) -> bool {
    ||| a is StartWorkBranch
    ||| a is StartRelease
    ||| a is StartReleaseFix
    ||| a is StartHotfixFix
}

pub open spec fn menu_names_work_branch(a: Action) -> bool {
    ||| a is StartWorkBranch
    ||| a is StartReleaseFix
    ||| a is StartHotfixFix
}

pub open spec fn menu_checkout_flag(a: Action) -> bool {
    match a {
        Action::StartWorkBranch { no_checkout, .. } => no_checkout,
        Action::StartReleaseFix { no_checkout, .. } => no_checkout,
        Action::StartHotfixFix { no_checkout, .. } => no_checkout,
        _ => false,
    }
}

pub open spec fn menu_worktree_flag(a: Action) -> bool {
    match a {
        Action::StartWorkBranch { no_worktree, .. } => no_worktree,
        Action::StartReleaseFix { no_worktree, .. } => no_worktree,
        Action::StartHotfixFix { no_worktree, .. } => no_worktree,
        _ => false,
    }
}

impl Action {
    pub fn is_start(&self) -> (r: bool)
        ensures
            r == menu_starts_branch(*self),
    {
        match self {
            Action::StartWorkBranch { .. } => true,
            Action::StartRelease(_) => true,
            Action::StartReleaseFix { .. } => true,
            Action::StartHotfixFix { .. } => true,
            _ => false,
        }
    }

    pub fn no_checkout(&self) -> (r: bool)
        ensures
            r == menu_checkout_flag(*self),
    {
        match self {
            Action::StartWorkBranch { no_checkout, .. } => *no_checkout,
            Action::StartReleaseFix { no_checkout, .. } => *no_checkout,
            Action::StartHotfixFix { no_checkout, .. } => *no_checkout,
            _ => false,
        }
    }

    /// Whether this action is a named-work-branch start eligible for the worktree
    /// flow. Deliberately excludes `StartRelease`, unlike `is_start`.
    pub fn worktree_eligible(&self) -> (r: bool)
        ensures
            r == menu_names_work_branch(*self),
    {
        match self {
            Action::StartWorkBranch { .. } => true,
            Action::StartReleaseFix { .. } => true,
            Action::StartHotfixFix { .. } => true,
            _ => false,
        }
    }

    pub fn no_worktree(&self) -> (r: bool)
        ensures
            r == menu_worktree_flag(*self),
    {
        match self {
            Action::StartWorkBranch { no_worktree, .. } => *no_worktree,
            Action::StartReleaseFix { no_worktree, .. } => *no_worktree,
            Action::StartHotfixFix { no_worktree, .. } => *no_worktree,
            _ => false,
        }
    }

    /// Whether the branch this action starts goes into a worktree of its own
    /// (the worktree flow `enabled`, the action eligible, not opted out),
    /// and whether the run leaves the checkout alone (asked for, or the
    /// branch goes into a worktree).
    pub fn worktree_and_checkout(&self, enabled: bool) -> (r: (bool, bool))
        ensures
            r.0 == (enabled && !menu_worktree_flag(*self) && menu_names_work_branch(*self)),
            r.1 == (menu_checkout_flag(*self) || r.0),
    {
        let active = enabled && !self.no_worktree() && self.worktree_eligible();
        (active, self.no_checkout() || active)
    }
}

/// Only starts of a named work branch are eligible for a worktree (a release
/// start is not), and only starts carry the checkout and worktree flags.
pub proof fn law_menu_start_flags(a: Action)
    ensures
        menu_names_work_branch(a) ==> menu_starts_branch(a),
        a is StartRelease ==> menu_starts_branch(a) && !menu_names_work_branch(a),
        !menu_starts_branch(a) ==> !menu_checkout_flag(a) && !menu_worktree_flag(a),
{
}

pub open spec fn is_work_kind(p: Seq<char>) -> bool {
    exists|i: int| 0 <= i < 5 && p == #[trigger] kind_name(i)
}

/// A start of a work branch of some kind from `from`, with default flags and
/// a valid name.
pub open spec fn plain_work_start(a: Action, from: Seq<char>) -> bool {
    a matches Action::StartWorkBranch { prefix, name, from: f, no_checkout, no_worktree }
        && is_work_kind(prefix@) && f@ == from && !no_checkout && !no_worktree
        && branch_name_error(name@) is None
}

/// What the menu can answer on a branch of type `b` standing on `current`.
pub open spec fn menu_outcome(b: BranchView, current: Seq<char>, a: Action) -> bool {
    match b {
        BranchView::Main => a matches Action::StartHotfixFix { name, no_checkout, no_worktree }
            && !no_checkout && !no_worktree && branch_name_error(name@) is None,
        BranchView::Develop => a == Action::StartRelease(None) || plain_work_start(a, "develop"@),
        BranchView::Feature(_) | BranchView::Fix(_) | BranchView::Chore(_) | BranchView::Docs(_)
        | BranchView::Refactor(_) => a == Action::FinishWorkBranch { breaking: None, base: None }
            || plain_work_start(a, current) || plain_work_start(a, "develop"@),
        BranchView::ReleaseFix(..) => a is FinishReleaseFix,
        BranchView::Release(..) => {
            ||| a matches Action::StartReleaseFix { name, no_checkout, no_worktree } && !no_checkout
                && !no_worktree && branch_name_error(name@) is None
            ||| a is BumpVersion
            ||| a is SyncWithDevelop
            ||| a is FinishRelease
        },
        BranchView::HotfixFix(..) => a is FinishHotfixFix,
        BranchView::Hotfix(..) => a is FinishHotfix,
        BranchView::Other => false,
    }
}

pub open spec fn unrecognized_branch_message() -> Seq<char> {
    "Not on a recognized gitflow branch. Switch to main or develop first."@
}

fn name_prompt(prefix: &str) -> (r: String)
    ensures
        r@ == "Name for "@ + prefix@ + " branch"@,
{
    let mut s = String::from_str("Name for ");
    s.append(prefix);
    s.append(" branch");
    s
}

/// The kind index (`kind_name`) of a work branch type; -1 for any other.
pub open spec fn work_kind_index(b: BranchView) -> int {
    match b {
        BranchView::Feature(_) => 0,
        BranchView::Fix(_) => 1,
        BranchView::Chore(_) => 2,
        BranchView::Docs(_) => 3,
        BranchView::Refactor(_) => 4,
        _ => -1,
    }
}

/// The menu shown on a branch of type `b`, in order.
pub open spec fn menu_labels_spec(b: BranchView) -> Seq<Seq<char>> {
    match b {
        BranchView::Main => seq!["start hotfix fix"@],
        BranchView::Develop => seq![start_label(0), start_label(1), start_label(2), start_label(3), start_label(4), start_label(5)],
        BranchView::Feature(_) | BranchView::Fix(_) | BranchView::Chore(_) | BranchView::Docs(_)
        | BranchView::Refactor(_) => seq![
            "finish "@ + kind_name(work_kind_index(b)),
            start_label(0),
            start_label(1),
            start_label(2),
            start_label(3),
            start_label(4),
        ],
        BranchView::ReleaseFix(..) => seq!["finish release fix"@],
        BranchView::Release(..) => seq![
            release_option_label(ReleaseOption::FinishRelease),
            release_option_label(ReleaseOption::StartReleaseFix),
            release_option_label(ReleaseOption::BumpVersion),
            release_option_label(ReleaseOption::SyncWithDevelop),
        ],
        BranchView::HotfixFix(..) => seq!["finish hotfix fix"@],
        BranchView::Hotfix(..) => seq!["finish hotfix"@],
        BranchView::Other => seq![],
    }
}

/// The question asked for the new branch's name after menu pick `pick`, when
/// the pick starts a named branch.
pub open spec fn name_question(b: BranchView, pick: int) -> Option<Seq<char>> {
    match b {
        BranchView::Main => Some("Name for hotfix-fix branch"@),
        BranchView::Develop => if pick < 5 {
            Some("Name for "@ + kind_name(pick) + " branch"@)
        } else {
            None
        },
        BranchView::Feature(_) | BranchView::Fix(_) | BranchView::Chore(_) | BranchView::Docs(_)
        | BranchView::Refactor(_) => if pick > 0 {
            Some("Name for "@ + kind_name(pick - 1) + " branch"@)
        } else {
            None
        },
        BranchView::Release(..) => if pick == 1 {
            Some("Name for release-fix branch"@)
        } else {
            None
        },
        _ => None,
    }
}

/// Whether pick `pick` asks which branch to start from: starting a work
/// branch from a work branch (the current one, or develop).
pub open spec fn asks_base(b: BranchView, pick: int) -> bool {
    work_kind_index(b) >= 0 && pick > 0
}

/// The base choices offered on a work branch `current`.
pub open spec fn base_labels_spec(current: Seq<char>) -> Seq<Seq<char>> {
    seq![current + " (current)"@, "develop"@]
}

/// `a` starts the `prefix` branch `name` from `from`, with default flags.
pub open spec fn work_start(a: Action, prefix: Seq<char>, name: Seq<char>, from: Seq<char>) -> bool {
    a matches Action::StartWorkBranch { prefix: p, name: n, from: f, no_checkout, no_worktree } && p@ == prefix
        && n@ == name && f@ == from && !no_checkout && !no_worktree
}

/// The action that menu pick `pick`, typed name `name` and base pick
/// `base_pick` amount to on a branch of type `b` standing on `current`.
pub open spec fn menu_action_ok(b: BranchView, current: Seq<char>, pick: int, name: Seq<char>, base_pick: int, a: Action) -> bool {
    match b {
        BranchView::Main => a matches Action::StartHotfixFix { name: n, no_checkout, no_worktree } && n@ == name
            && !no_checkout && !no_worktree,
        BranchView::Develop => if pick == 5 {
            a == Action::StartRelease(None)
        } else {
            work_start(a, kind_name(pick), name, "develop"@)
        },
        BranchView::Feature(_) | BranchView::Fix(_) | BranchView::Chore(_) | BranchView::Docs(_)
        | BranchView::Refactor(_) => if pick == 0 {
            a == Action::FinishWorkBranch { breaking: None, base: None }
        } else {
            work_start(
                a,
                kind_name(pick - 1),
                name,
                if base_pick == 0 {
                    current
                } else {
                    "develop"@
                },
            )
        },
        BranchView::ReleaseFix(..) => a is FinishReleaseFix,
        BranchView::Release(..) => if pick == 0 {
            a is FinishRelease
        } else if pick == 1 {
            a matches Action::StartReleaseFix { name: n, no_checkout, no_worktree } && n@ == name && !no_checkout
                && !no_worktree
        } else if pick == 2 {
            a is BumpVersion
        } else {
            a is SyncWithDevelop
        },
        BranchView::HotfixFix(..) => a is FinishHotfixFix,
        BranchView::Hotfix(..) => a is FinishHotfix,
        BranchView::Other => false,
    }
}

fn work_kind_of(branch_type: &BranchType) -> (r: usize)
    requires
        work_kind_index(branch_type@) >= 0,
    ensures
        r == work_kind_index(branch_type@),
{
    match branch_type {
        BranchType::Feature { .. } => 0,
        BranchType::Fix { .. } => 1,
        BranchType::Chore { .. } => 2,
        BranchType::Docs { .. } => 3,
        _ => 4,
    }
}

/// The menu for a branch of type `branch_type`, in order.
pub fn menu_labels(branch_type: &BranchType) -> (r: Vec<String>)
    ensures
        r@.map_values(|l: String| l@) == menu_labels_spec(branch_type@),
{
    let mut r: Vec<String> = Vec::new();
    match branch_type {
        BranchType::Main => r.push(String::from_str("start hotfix fix")),
        BranchType::Develop => {
            let mut i: usize = 0;
            while i < 6
                invariant
                    i <= 6,
                    r@.len() == i,
                    forall|k: int| 0 <= k < i ==> (#[trigger] r@[k])@ == start_label(k),
                decreases 6 - i,
            {
                r.push(String::from_str(start_label_str(i)));
                i = i + 1;
            }
            assert(r@.map_values(|l: String| l@) =~= menu_labels_spec(branch_type@));
        },
        BranchType::Feature { .. } | BranchType::Fix { .. } | BranchType::Chore { .. }
        | BranchType::Docs { .. } | BranchType::Refactor { .. } => {
            let mut finish = String::from_str("finish ");
            finish.append(kind_str(work_kind_of(branch_type)));
            r.push(finish);
            let mut i: usize = 0;
            while i < 5
                invariant
                    i <= 5,
                    r@.len() == i + 1,
                    r@[0]@ == "finish "@ + kind_name(work_kind_index(branch_type@)),
                    forall|k: int| 1 <= k <= i ==> (#[trigger] r@[k])@ == start_label(k - 1),
                decreases 5 - i,
            {
                r.push(String::from_str(start_label_str(i)));
                i = i + 1;
            }
            assert(r@.map_values(|l: String| l@) =~= menu_labels_spec(branch_type@));
        },
        BranchType::ReleaseFix { .. } => r.push(String::from_str("finish release fix")),
        BranchType::Release { .. } => {
            r.push(String::from_str(ReleaseOption::FinishRelease.label()));
            r.push(String::from_str(ReleaseOption::StartReleaseFix.label()));
            r.push(String::from_str(ReleaseOption::BumpVersion.label()));
            r.push(String::from_str(ReleaseOption::SyncWithDevelop.label()));
        },
        BranchType::HotfixFix { .. } => r.push(String::from_str("finish hotfix fix")),
        BranchType::Hotfix { .. } => r.push(String::from_str("finish hotfix")),
        BranchType::Other => {},
    }
    assert(r@.map_values(|l: String| l@) =~= menu_labels_spec(branch_type@));
    r
}

/// The name question for menu pick `pick`, when it starts a named branch.
fn name_question_for(branch_type: &BranchType, pick: usize) -> (r: Option<String>)
    requires
        pick < menu_labels_spec(branch_type@).len(),
    ensures
        match name_question(branch_type@, pick as int) {
            Some(q) => r matches Some(s) && s@ == q,
            None => r is None,
        },
{
    match branch_type {
        BranchType::Main => Some(String::from_str("Name for hotfix-fix branch")),
        BranchType::Develop => if pick < 5 {
            Some(name_prompt(kind_str(pick)))
        } else {
            None
        },
        BranchType::Feature { .. } | BranchType::Fix { .. } | BranchType::Chore { .. }
        | BranchType::Docs { .. } | BranchType::Refactor { .. } => if pick > 0 {
            Some(name_prompt(kind_str(pick - 1)))
        } else {
            None
        },
        BranchType::Release { .. } => if pick == 1 {
            Some(String::from_str("Name for release-fix branch"))
        } else {
            None
        },
        _ => None,
    }
}

/// The action that menu pick `pick`, typed name `name` and base pick
/// `base_pick` amount to on `branch_type`, standing on `current`.
pub fn menu_action(branch_type: &BranchType, current: &str, pick: usize, name: String, base_pick: usize) -> (r: Action)
    requires
        pick < menu_labels_spec(branch_type@).len(),
    ensures
        menu_action_ok(branch_type@, current@, pick as int, name@, base_pick as int, r),
{
    match branch_type {
        BranchType::Main => Action::StartHotfixFix { name, no_checkout: false, no_worktree: false },
        BranchType::Develop => if pick == 5 {
            Action::StartRelease(None)
        } else {
            Action::StartWorkBranch {
                prefix: String::from_str(kind_str(pick)),
                name,
                from: String::from_str("develop"),
                no_checkout: false,
                no_worktree: false,
            }
        },
        BranchType::Feature { .. } | BranchType::Fix { .. } | BranchType::Chore { .. }
        | BranchType::Docs { .. } | BranchType::Refactor { .. } => if pick == 0 {
            Action::FinishWorkBranch { breaking: None, base: None }
        } else {
            let from = if base_pick == 0 {
                String::from_str(current)
            } else {
                String::from_str("develop")
            };
            Action::StartWorkBranch {
                prefix: String::from_str(kind_str(pick - 1)),
                name,
                from,
                no_checkout: false,
                no_worktree: false,
            }
        },
        BranchType::ReleaseFix { .. } => Action::FinishReleaseFix,
        BranchType::Release { .. } => if pick == 0 {
            Action::FinishRelease
        } else if pick == 1 {
            Action::StartReleaseFix { name, no_checkout: false, no_worktree: false }
        } else if pick == 2 {
            Action::BumpVersion
        } else {
            Action::SyncWithDevelop
        },
        BranchType::HotfixFix { .. } => Action::FinishHotfixFix,
        BranchType::Hotfix { .. } | BranchType::Other => Action::FinishHotfix,
    }
}

proof fn lemma_menu_action_outcome(b: BranchView, current: Seq<char>, pick: int, name: Seq<char>, base_pick: int, a: Action)
    requires
        0 <= pick < menu_labels_spec(b).len(),
        menu_action_ok(b, current, pick, name, base_pick, a),
        name_question(b, pick) is Some ==> branch_name_error(name) is None,
    ensures
        menu_outcome(b, current, a),
{
    match b {
        BranchView::Develop => {
            if pick < 5 {
                assert(is_work_kind(kind_name(pick)));
            }
        },
        BranchView::Feature(_) | BranchView::Fix(_) | BranchView::Chore(_) | BranchView::Docs(_)
        | BranchView::Refactor(_) => {
            if pick > 0 {
                assert(is_work_kind(kind_name(pick - 1)));
            }
        },
        _ => {},
    }
}

/// The interactive menu for the current branch: present the options its type
/// allows and turn the choices into an `Action`. The menu is
/// `menu_labels(branch_type)`; a pick that starts a named branch asks for the
/// name, and starting a work branch from a work branch asks for the base
/// (`current` or develop); `menu_action` turns the answers into the action.
pub fn show_menu(prompter: &dyn Prompter, branch_type: &BranchType, current_branch: &str) -> (r: Result<Action, String>)
    ensures
        r matches Ok(a) ==> menu_outcome(branch_type@, current_branch@, a),
        r matches Ok(a) ==> exists|pick: int, name: Seq<char>, base_pick: int|
            #![trigger menu_action_ok(branch_type@, current_branch@, pick, name, base_pick, a)]
            0 <= pick < menu_labels_spec(branch_type@).len() && 0 <= base_pick < 2 && (name_question(
                branch_type@,
                pick,
            ) is Some ==> branch_name_error(name) is None) && menu_action_ok(
                branch_type@,
                current_branch@,
                pick,
                name,
                base_pick,
                a,
            ),
        branch_type@ is Other ==> (r matches Err(e) && e@ == unrecognized_branch_message()),
{
    if let BranchType::Other = branch_type {
        return Err(String::from_str("Not on a recognized gitflow branch. Switch to main or develop first."));
    }
    let labels = menu_labels(branch_type);
    let mut refs: Vec<&str> = Vec::new();
    let mut i: usize = 0;
    while i < labels.len()
        invariant
            i <= labels@.len(),
            refs@.len() == i,
        decreases labels@.len() - i,
    {
        refs.push(labels[i].as_str());
        i = i + 1;
    }
    proof {
        assert(labels@.map_values(|l: String| l@).len() == labels@.len());
    }
    let pick = prompter.select("What would you like to do?", refs.as_slice())?;
    let (name, base_pick) = match name_question_for(branch_type, pick) {
        Some(question) => {
            let name = prompter.prompt_name(question.as_str())?;
            let base_pick: usize = if asks_base_exec(branch_type, pick) {
                let mut current_label = String::from_str(current_branch);
                current_label.append(" (current)");
                let base_options: Vec<&str> = vec![current_label.as_str(), "develop"];
                prompter.select("Base branch", base_options.as_slice())?
            } else {
                0
            };
            (name, base_pick)
        },
        None => (String::new(), 0),
    };
    let a = menu_action(branch_type, current_branch, pick, name, base_pick);
    proof {
        lemma_menu_action_outcome(branch_type@, current_branch@, pick as int, name@, base_pick as int, a);
    }
    Ok(a)
}

fn asks_base_exec(branch_type: &BranchType, pick: usize) -> (r: bool)
    ensures
        r == asks_base(branch_type@, pick as int),
{
    match branch_type {
        BranchType::Feature { .. } | BranchType::Fix { .. } | BranchType::Chore { .. }
        | BranchType::Docs { .. } | BranchType::Refactor { .. } => pick > 0,
        _ => false,
    }
}

} // verus!
