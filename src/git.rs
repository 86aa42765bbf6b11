//! The repository handle and its operations, each written as a machine that
//! names the next command to run from the outcomes of those already run.
use vstd::prelude::*;
use crate::text::{
    decode_utf8, join2, newline_pieces, parse_i32, parsed_i32, split_newlines, trim_end_text, trim_text,
    trimmed, trimmed_end, utf8_text,
};

verus! {

/// The remote that mirrors the upstream lessons.
pub const UPSTREAM: &'static str = "upstream";

/// The tag on the pristine starter commit.
pub const INITIAL_TAG: &'static str = "initial";

/// How a derivation reconciled the new branch.
#[derive(PartialEq, Eq, Structural, Clone, Copy, Debug)]
pub enum MergeType {
    /// The primary strategy applied cleanly.
    Success,
    /// The replay conflicted; the target's tree was taken whole.
    SolutionReset,
    /// The last patch did not apply; the tree was reset to the initial tag
    /// and every patch was applied in order.
    StarterReset,
}

/// A command for the caller to run in the repository.
#[derive(Clone, Debug, PartialEq, Eq)]
pub enum Action {
    /// `git <args>` in the working directory.
    Git(String),
    /// `git apply -`, with the patch written to its standard input.
    Apply(String),
    /// `git clone <url>` in the parent of the working directory.
    Clone(String),
    /// The repository's `.githooks/post-checkout` script.
    PostCheckoutHook,
    /// Write the package's starter files into the working directory.
    WriteInitialFiles,
    /// Write the package metadata files into the working directory.
    WriteMeta,
}

/// The mathematical value of an [`Action`].
pub enum ActionView {
    Git(Seq<char>),
    Apply(Seq<char>),
    Clone(Seq<char>),
    PostCheckoutHook,
    WriteInitialFiles,
    WriteMeta,
}

impl View for Action {
    type V = ActionView;

    open spec fn view(&self) -> ActionView {
        match self {
            Action::Git(a) => ActionView::Git(a@),
            Action::Apply(p) => ActionView::Apply(p@),
            Action::Clone(u) => ActionView::Clone(u@),
            Action::PostCheckoutHook => ActionView::PostCheckoutHook,
            Action::WriteInitialFiles => ActionView::WriteInitialFiles,
            Action::WriteMeta => ActionView::WriteMeta,
        }
    }
}

/// How a command that the caller ran ended.
#[derive(Clone, Debug)]
pub struct Outcome {
    /// Whether it exited with success.
    pub success: bool,
    /// What it wrote to standard output.
    pub stdout: Vec<u8>,
    /// What it wrote to standard error.
    pub stderr: String,
}

/// Why an operation failed.
#[derive(Clone, Debug, PartialEq, Eq)]
pub enum GitError {
    /// A command exited with failure.
    Failed { command: String, stderr: String },
    /// A command's output was not UTF-8 text.
    NotText { command: String },
    /// `git rev-list --count` printed something other than a number.
    NotACount { output: String },
}

/// The mathematical value of a [`GitError`].
pub enum GitErrorView {
    Failed { command: Seq<char>, stderr: Seq<char> },
    NotText { command: Seq<char> },
    NotACount { output: Seq<char> },
}

impl View for GitError {
    type V = GitErrorView;

    open spec fn view(&self) -> GitErrorView {
        match self {
            GitError::Failed { command, stderr } => GitErrorView::Failed {
                command: command@,
                stderr: stderr@,
            },
            GitError::NotText { command } => GitErrorView::NotText { command: command@ },
            GitError::NotACount { output } => GitErrorView::NotACount { output: output@ },
        }
    }
}

/// What an operation asks of its caller next.
#[derive(Debug, PartialEq)]
pub enum Step<T> {
    /// Run this command, then call the operation again with its outcome added.
    Run(Action),
    /// The operation is over.
    Done(Result<T, GitError>),
}

/// The command line that an action stands for, as error messages show it.
pub open spec fn command_text(a: ActionView) -> Seq<char> {
    match a {
        ActionView::Git(args) => "git "@ + args,
        ActionView::Apply(_) => "git apply -"@,
        ActionView::Clone(url) => "git clone "@ + url,
        ActionView::PostCheckoutHook => ".githooks/post-checkout"@,
        ActionView::WriteInitialFiles => "write starter files"@,
        ActionView::WriteMeta => "write package metadata"@,
    }
}

/// Step `i` of the script is where the run stopped on a failure: its command
/// failed, it is not the step whose failure is tolerated, and every earlier
/// step that is not tolerated succeeded.
pub open spec fn halts_at(done: Seq<Outcome>, n: int, skip: int, i: int) -> bool {
    &&& 0 <= i < n
    &&& i < done.len()
    &&& i != skip
    &&& !done[i].success
    &&& forall|j: int| 0 <= j < i && j != skip ==> done[j].success
}

/// No step among the first `n` of the script stopped the run.
pub open spec fn no_halt(done: Seq<Outcome>, n: int, skip: int) -> bool {
    forall|j: int| 0 <= j < n && j < done.len() && j != skip ==> done[j].success
}

/// Where a run of a script stands.
pub enum Progress {
    /// The step at this index is the next to run.
    Next(usize),
    /// The step at this index failed and ends the run.
    Halted(usize),
    /// Every step has run.
    Complete,
}

/// Where the run of a script of `n` steps stands after the outcomes `done`,
/// when a failure of step `skip` is no error.
pub open spec fn progress_of(done: Seq<Outcome>, n: int, skip: int, p: Progress) -> bool {
    match p {
        Progress::Next(k) => no_halt(done, n, skip) && k == done.len() && k < n,
        Progress::Halted(i) => halts_at(done, n, skip, i as int),
        Progress::Complete => no_halt(done, n, skip) && done.len() >= n,
    }
}

/// Finds where the run of a script of `n` steps stands.
pub fn progress(done: &Vec<Outcome>, n: usize, skip: usize) -> (r: Progress)
    ensures
        progress_of(done@, n as int, skip as int, r),
{
    let mut i: usize = 0;
    while i < n && i < done.len()
        invariant
            i <= n,
            i <= done@.len(),
            no_halt(done@, i as int, skip as int),
        decreases n - i,
    {
        if i != skip && !done[i].success {
            return Progress::Halted(i);
        }
        i = i + 1;
    }
    if i < n {
        Progress::Next(i)
    } else {
        Progress::Complete
    }
}

/// The text of a command's line, for an error.
fn describe(a: &Action) -> (r: String)
    ensures
        r@ == command_text(a@),
{
    match a {
        Action::Git(args) => join2("git ", args.as_str()),
        Action::Apply(_) => String::from_str("git apply -"),
        Action::Clone(url) => join2("git clone ", url.as_str()),
        Action::PostCheckoutHook => String::from_str(".githooks/post-checkout"),
        Action::WriteInitialFiles => String::from_str("write starter files"),
        Action::WriteMeta => String::from_str("write package metadata"),
    }
}

/// The error for a step that failed.
pub open spec fn failure_of(a: ActionView, o: Outcome) -> GitErrorView {
    GitErrorView::Failed { command: command_text(a), stderr: o.stderr@ }
}

fn failure(a: &Action, o: &Outcome) -> (r: GitError)
    ensures
        r@ == failure_of(a@, *o),
{
    GitError::Failed { command: describe(a), stderr: o.stderr.clone() }
}

fn copy_action(a: &Action) -> (r: Action)
    ensures
        r@ == a@,
{
    match a {
        Action::Git(s) => Action::Git(s.clone()),
        Action::Apply(s) => Action::Apply(s.clone()),
        Action::Clone(s) => Action::Clone(s.clone()),
        Action::PostCheckoutHook => Action::PostCheckoutHook,
        Action::WriteInitialFiles => Action::WriteInitialFiles,
        Action::WriteMeta => Action::WriteMeta,
    }
}

/// The views of a script's actions.
pub open spec fn views(s: Seq<Action>) -> Seq<ActionView> {
    s.map_values(|a: Action| a@)
}

/// What a step of an operation owes, given its script, the step whose failure
/// is tolerated, and what it returns once every step has run.
pub open spec fn step_follows<T>(
    r: Step<T>,
    script: Seq<ActionView>,
    done: Seq<Outcome>,
    skip: int,
    finish: spec_fn(Result<T, GitError>) -> bool,
) -> bool {
    match r {
        Step::Run(a) => no_halt(done, script.len() as int, skip) && done.len() < script.len()
            && a@ == script[done.len() as int],
        Step::Done(Err(e)) => (exists|i: int|
            halts_at(done, script.len() as int, skip, i) && e@ == failure_of(script[i], done[i]))
            || (no_halt(done, script.len() as int, skip) && done.len() >= script.len()
            && finish(Err(e))),
        Step::Done(Ok(v)) => no_halt(done, script.len() as int, skip) && done.len()
            >= script.len() && finish(Ok(v)),
    }
}

/// Runs the generic part of a step: the next action, the error of the step
/// that failed, or `None` once every step has run.
fn advance<T>(script: &Vec<Action>, done: &Vec<Outcome>, skip: usize) -> (r: Option<Step<T>>)
    ensures
        match r {
            None => no_halt(done@, script@.len() as int, skip as int) && done@.len()
                >= script@.len(),
            Some(s) => s is Run || s matches Step::Done(Err(_)),
        },
        match r {
            Some(Step::Run(a)) => no_halt(done@, script@.len() as int, skip as int)
                && done@.len() < script@.len() && a@ == views(script@)[done@.len() as int],
            Some(Step::Done(Err(e))) => exists|i: int|
                halts_at(done@, script@.len() as int, skip as int, i) && e@ == failure_of(
                    views(script@)[i],
                    done@[i],
                ),
            _ => true,
        },
{
    match progress(done, script.len(), skip) {
        Progress::Next(k) => Some(Step::Run(copy_action(&script[k]))),
        Progress::Halted(i) => {
            let e = failure(&script[i], &done[i]);
            assert(halts_at(done@, script@.len() as int, skip as int, i as int));
            Some(Step::Done(Err(e)))
        },
        Progress::Complete => None,
    }
}


/// A working directory bound to a repository.
#[derive(Debug)]
pub struct GitRepo {
    path: String,
}

/// Which of the two reconciliations a derivation uses.
#[derive(Clone, Debug)]
pub enum Strategy {
    /// Apply a stack of patches, the last one alone first.
    Patches(Vec<String>),
    /// Replay the upstream commits between the base and the target branch.
    Replay,
}

/// The mathematical value of a [`Strategy`].
pub enum StrategyView {
    Patches(Seq<Seq<char>>),
    Replay,
}

impl View for Strategy {
    type V = StrategyView;

    open spec fn view(&self) -> StrategyView {
        match self {
            Strategy::Patches(p) => StrategyView::Patches(p@.map_values(|x: String| x@)),
            Strategy::Replay => StrategyView::Replay,
        }
    }
}

/// The texts of a list of strings.
pub open spec fn texts(v: Seq<String>) -> Seq<Seq<char>> {
    v.map_values(|x: String| x@)
}

/// Whether the first step of a run succeeded, or has not run yet.
pub open spec fn first_ok(done: Seq<Outcome>) -> bool {
    done.len() == 0 || done[0].success
}

/// The commands that reconcile a patch stack: the last patch alone; where that
/// fails, a hard reset to the initial tag and every patch in order; then a
/// commit of the result.
pub open spec fn patch_script(p: Seq<Seq<char>>, fast: bool) -> Seq<ActionView> {
    let tail = seq![ActionView::Git("add ."@), ActionView::Git("commit -m 'Starter code'"@)];
    if fast {
        seq![ActionView::Apply(p.last())] + tail
    } else {
        seq![ActionView::Apply(p.last()), ActionView::Git("reset --hard "@ + INITIAL_TAG@)]
            + p.map_values(|x: Seq<char>| ActionView::Apply(x)) + tail
    }
}

/// How the patch stack was reconciled.
pub open spec fn patch_merge(fast: bool) -> MergeType {
    if fast { MergeType::Success } else { MergeType::StarterReset }
}

/// The range of upstream commits that a replay cherry-picks.
pub open spec fn pick_args(base: Seq<char>, target: Seq<char>) -> Seq<char> {
    "cherry-pick "@ + UPSTREAM@ + "/"@ + base + ".."@ + UPSTREAM@ + "/"@ + target
}

/// The commands that replay a range: the cherry-pick; where it conflicts, an
/// abort, a hard reset to the upstream target, a soft reset to `main`, and a
/// commit of the target's tree.
pub open spec fn replay_script(base: Seq<char>, target: Seq<char>, fast: bool) -> Seq<ActionView> {
    if fast {
        seq![ActionView::Git(pick_args(base, target))]
    } else {
        seq![
            ActionView::Git(pick_args(base, target)),
            ActionView::Git("cherry-pick --abort"@),
            ActionView::Git("reset --hard "@ + UPSTREAM@ + "/"@ + target),
            ActionView::Git("reset --soft main"@),
            ActionView::Git("commit -m 'Override with reference solution'"@),
        ]
    }
}

/// How the range was reconciled.
pub open spec fn replay_merge(fast: bool) -> MergeType {
    if fast { MergeType::Success } else { MergeType::SolutionReset }
}

fn push_action(v: &mut Vec<Action>, a: Action)
    ensures
        views(final(v)@) == views(old(v)@).push(a@),
{
    v.push(a);
    assert(views(final(v)@) =~= views(old(v)@).push(a@));
}

fn push_git(v: &mut Vec<Action>, a: &str, b: &str)
    ensures
        views(final(v)@) == views(old(v)@).push(ActionView::Git(a@ + b@)),
{
    v.push(Action::Git(join2(a, b)));
    assert(views(final(v)@) =~= views(old(v)@).push(ActionView::Git(a@ + b@)));
}

/// Appends the commands of a patch stack's reconciliation.
fn add_patch_script(v: &mut Vec<Action>, patches: &Vec<String>, fast: bool)
    requires
        patches@.len() > 0,
    ensures
        views(final(v)@) == views(old(v)@) + patch_script(texts(patches@), fast),
{
    let ghost start = views(v@);
    let last = patches.len() - 1;
    assert(patches@[last as int]@ == texts(patches@).last());
    push_action(v, Action::Apply(patches[last].clone()));
    if !fast {
        push_git(v, "reset --hard ", INITIAL_TAG);
        let mut i: usize = 0;
        while i < patches.len()
            invariant
                0 <= i <= patches@.len(),
                views(v@) == start + seq![
                    ActionView::Apply(texts(patches@).last()),
                    ActionView::Git("reset --hard "@ + INITIAL_TAG@),
                ] + texts(patches@).take(i as int).map_values(|x: Seq<char>| ActionView::Apply(x)),
            decreases patches@.len() - i,
        {
            let ghost before = views(v@);
            v.push(Action::Apply(patches[i].clone()));
            assert(texts(patches@).take(i + 1) =~= texts(patches@).take(i as int).push(patches@[i as int]@));
            assert(views(v@) =~= before.push(ActionView::Apply(patches@[i as int]@)));
            i = i + 1;
        }
        assert(texts(patches@).take(i as int) =~= texts(patches@));
    }
    push_action(v, Action::Git(String::from_str("add .")));
    push_action(v, Action::Git(String::from_str("commit -m 'Starter code'")));
    assert(views(v@) =~= start + patch_script(texts(patches@), fast));
}


/// Appends the commands of a range's replay.
fn add_replay_script(v: &mut Vec<Action>, base: &str, target: &str, fast: bool)
    ensures
        views(final(v)@) == views(old(v)@) + replay_script(base@, target@, fast),
{
    let ghost start = views(v@);
    let a = join2(&join2(&join2(&join2(&join2(&join2("cherry-pick ", UPSTREAM), "/"), base), ".."), UPSTREAM), "/");
    push_git(v, a.as_str(), target);
    if !fast {
        push_action(v, Action::Git(String::from_str("cherry-pick --abort")));
        let r = join2(&join2("reset --hard ", UPSTREAM), "/");
        push_git(v, r.as_str(), target);
        push_action(v, Action::Git(String::from_str("reset --soft main")));
        push_action(v, Action::Git(String::from_str("commit -m 'Override with reference solution'")));
    }
    assert(views(v@) =~= start + replay_script(base@, target@, fast));
}

/// The commands of a strategy.
pub open spec fn strategy_script(
    st: StrategyView,
    base: Seq<char>,
    target: Seq<char>,
    fast: bool,
) -> Seq<ActionView> {
    match st {
        StrategyView::Patches(p) => patch_script(p, fast),
        StrategyView::Replay => replay_script(base, target, fast),
    }
}

/// The outcome of a strategy.
pub open spec fn strategy_merge(st: StrategyView, fast: bool) -> MergeType {
    match st {
        StrategyView::Patches(_) => patch_merge(fast),
        StrategyView::Replay => replay_merge(fast),
    }
}

/// A strategy is well formed when a patch stack is not empty.
pub open spec fn strategy_wf(st: StrategyView) -> bool {
    match st {
        StrategyView::Patches(p) => p.len() > 0,
        StrategyView::Replay => true,
    }
}

/// Whether the first step of a strategy, run after one step before it,
/// succeeded or has not run yet.
pub open spec fn second_ok(done: Seq<Outcome>) -> bool {
    done.len() <= 1 || done[1].success
}

/// The commands of a derivation: a new branch, the strategy, a push with
/// upstream tracking, a read of HEAD, and a return to `main`.
pub open spec fn derive_script(
    st: StrategyView,
    base: Seq<char>,
    target: Seq<char>,
    fast: bool,
) -> Seq<ActionView> {
    seq![ActionView::Git("checkout -b "@ + target)] + strategy_script(st, base, target, fast) + seq![
        ActionView::Git("push -u origin "@ + target),
        ActionView::Git("rev-parse HEAD"@),
        ActionView::Git("checkout main"@),
    ]
}

/// The head commit that `git rev-parse HEAD` printed, once decoded and trimmed.
pub open spec fn head_of(out: Seq<u8>) -> Option<Seq<char>> {
    match utf8_text(out) {
        Some(t) => Some(trimmed_end(t)),
        None => None,
    }
}

/// Decodes and trims the output of `git rev-parse HEAD`.
fn read_head(a: &Action, o: &Outcome) -> (r: Result<String, GitError>)
    ensures
        match r {
            Ok(h) => head_of(o.stdout@) == Some(h@),
            Err(e) => head_of(o.stdout@).is_none() && e@ == (GitErrorView::NotText {
                command: command_text(a@),
            }),
        },
{
    match decode_utf8(o.stdout.clone()) {
        Some(t) => Ok(trim_end_text(t.as_str())),
        None => Err(GitError::NotText { command: describe(a) }),
    }
}

/// Decodes the output of a command as text.
fn read_text(a: &Action, o: &Outcome) -> (r: Result<String, GitError>)
    ensures
        match r {
            Ok(t) => utf8_text(o.stdout@) == Some(t@),
            Err(e) => utf8_text(o.stdout@).is_none() && e@ == (GitErrorView::NotText {
                command: command_text(a@),
            }),
        },
{
    match decode_utf8(o.stdout.clone()) {
        Some(t) => Ok(t),
        None => Err(GitError::NotText { command: describe(a) }),
    }
}

/// The script of one `git` command.
pub open spec fn one_git(args: Seq<char>) -> Seq<ActionView> {
    seq![ActionView::Git(args)]
}

/// What a command that must succeed, and whose output is not read, owes.
pub open spec fn unit_done(x: Result<(), GitError>) -> bool {
    x is Ok
}

/// What a command whose output is read as text owes.
pub open spec fn text_done(args: Seq<char>, done: Seq<Outcome>, x: Result<String, GitError>) -> bool {
    match x {
        Ok(t) => utf8_text(done[0].stdout@) == Some(t@),
        Err(e) => utf8_text(done[0].stdout@).is_none() && e@ == (GitErrorView::NotText {
            command: command_text(ActionView::Git(args)),
        }),
    }
}

/// Whether `git rev-list --count` printed a positive count.
pub open spec fn behind_of(out: Seq<char>) -> Option<bool> {
    match parsed_i32(trimmed(out)) {
        Some(n) => Some(n > 0),
        None => None,
    }
}

/// The script of a hook installation.
pub open spec fn hooks_script(hooks_dir: bool, post_checkout: bool) -> Seq<ActionView> {
    let config = seq![ActionView::Git("config --local core.hooksPath .githooks"@)];
    if !hooks_dir {
        seq![]
    } else if post_checkout {
        seq![ActionView::PostCheckoutHook] + config
    } else {
        config
    }
}

/// The script that commits the starter files, tags them, and publishes them
/// and the package metadata on `main` and `meta`.
pub open spec fn initial_script() -> Seq<ActionView> {
    seq![
        ActionView::WriteInitialFiles,
        ActionView::Git("add ."@),
        ActionView::Git("commit -m 'Initial commit'"@),
        ActionView::Git("tag "@ + INITIAL_TAG@),
        ActionView::Git("push -u origin main"@),
        ActionView::Git("checkout -b meta"@),
        ActionView::WriteMeta,
        ActionView::Git("add ."@),
        ActionView::Git("commit -m 'Add meta'"@),
        ActionView::Git("push -u origin meta"@),
        ActionView::Git("checkout main"@),
    ]
}

fn git_of(a: &str, b: &str) -> (r: Vec<Action>)
    ensures
        views(r@) == one_git(a@ + b@),
        r@.len() == 1,
{
    let mut v: Vec<Action> = Vec::new();
    push_git(&mut v, a, b);
    assert(views(v@) =~= one_git(a@ + b@));
    v
}

fn git_lit(a: &str) -> (r: Vec<Action>)
    ensures
        views(r@) == one_git(a@),
        r@.len() == 1,
{
    let mut v: Vec<Action> = Vec::new();
    push_action(&mut v, Action::Git(String::from_str(a)));
    assert(views(v@) =~= one_git(a@));
    v
}

/// Runs a script whose every step must succeed and whose output is not read.
fn run_unit(script: &Vec<Action>, done: &Vec<Outcome>) -> (r: Step<()>)
    ensures
        step_follows(r, views(script@), done@, script@.len() as int, |x: Result<(), GitError>| unit_done(x)),
{
    match advance(script, done, script.len()) {
        Some(s) => s,
        None => Step::Done(Ok(())),
    }
}

/// Runs one command whose output is read as text.
fn run_text(script: &Vec<Action>, args: Ghost<Seq<char>>, done: &Vec<Outcome>) -> (r: Step<String>)
    requires
        views(script@) == one_git(args@),
        script@.len() == 1,
    ensures
        step_follows(r, one_git(args@), done@, 1, |x: Result<String, GitError>| text_done(args@, done@, x)),
{
    match advance(script, done, 1) {
        Some(s) => s,
        None => {
            assert(views(script@)[0] == ActionView::Git(args@));
            match read_text(&script[0], &done[0]) {
                Ok(t) => Step::Done(Ok(t)),
                Err(e) => Step::Done(Err(e)),
            }
        },
    }
}

impl GitRepo {
    /// The handle of the repository in this directory.
    pub fn new(path: &str) -> (r: GitRepo)
        ensures
            r.dir() == path@,
    {
        GitRepo { path: String::from_str(path) }
    }

    /// The working directory.
    pub closed spec fn dir(&self) -> Seq<char> {
        self.path@
    }

    /// The working directory.
    pub fn path(&self) -> (r: &str)
        ensures
            r@ == self.dir(),
    {
        self.path.as_str()
    }

    /// Clones the repository at `url` into the parent of `path`, and binds the
    /// clone's directory `path`.
    pub fn clone(path: &str, url: &str, done: &Vec<Outcome>) -> (r: Step<GitRepo>)
        ensures
            step_follows(r, seq![ActionView::Clone(url@)], done@, 1, |x: Result<GitRepo, GitError>| {
                match x {
                    Ok(g) => g.dir() == path@,
                    Err(_) => false,
                }
            }),
    {
        let mut script: Vec<Action> = Vec::new();
        push_action(&mut script, Action::Clone(String::from_str(url)));
        assert(views(script@) =~= seq![ActionView::Clone(url@)]);
        match advance(&script, done, 1) {
            Some(s) => s,
            None => Step::Done(Ok(GitRepo::new(path))),
        }
    }

    /// Adds the upstream remote at `remote_url` and fetches it.
    pub fn setup_upstream(&self, remote_url: &str, done: &Vec<Outcome>) -> (r: Step<()>)
        ensures
            step_follows(
                r,
                seq![
                    ActionView::Git("remote add "@ + UPSTREAM@ + " "@ + remote_url@),
                    ActionView::Git("fetch "@ + UPSTREAM@),
                ],
                done@,
                2,
                |x: Result<(), GitError>| unit_done(x),
            ),
    {
        let mut script: Vec<Action> = Vec::new();
        let a = join2(&join2("remote add ", UPSTREAM), " ");
        push_git(&mut script, a.as_str(), remote_url);
        push_git(&mut script, "fetch ", UPSTREAM);
        assert(views(script@) =~= seq![
            ActionView::Git("remote add "@ + UPSTREAM@ + " "@ + remote_url@),
            ActionView::Git("fetch "@ + UPSTREAM@),
        ]);
        run_unit(&script, done)
    }

    /// Fetches the branches of `remote`.
    pub fn fetch(&self, remote: &str, done: &Vec<Outcome>) -> (r: Step<()>)
        ensures
            step_follows(r, one_git("fetch "@ + remote@), done@, 1, |x: Result<(), GitError>| unit_done(x)),
    {
        run_unit(&git_of("fetch ", remote), done)
    }

    /// The name of the upstream remote, where the repository has one. A
    /// failure of the query means that there is none.
    pub fn upstream(&self, done: &Vec<Outcome>) -> (r: Step<Option<String>>)
        ensures
            step_follows(
                r,
                one_git("remote get-url "@ + UPSTREAM@),
                done@,
                0,
                |x: Result<Option<String>, GitError>| {
                    match x {
                        Ok(Some(u)) => done@[0].success && u@ == UPSTREAM@,
                        Ok(None) => !done@[0].success,
                        Err(_) => false,
                    }
                },
            ),
    {
        let script = git_of("remote get-url ", UPSTREAM);
        match advance(&script, done, 0) {
            Some(s) => s,
            None => {
                if done[0].success {
                    Step::Done(Ok(Some(String::from_str(UPSTREAM))))
                } else {
                    Step::Done(Ok(None))
                }
            },
        }
    }

    /// Reconciles a patch stack onto the checked-out branch. The last patch is
    /// applied alone; if it does not apply, the tree is hard reset to the
    /// initial tag and every patch is applied in order. The result is then
    /// committed as starter code. Only the first apply may fail without error.
    pub fn apply_patch(&self, patches: &Vec<String>, done: &Vec<Outcome>) -> (r: Step<MergeType>)
        requires
            patches@.len() > 0,
        ensures
            step_follows(
                r,
                patch_script(texts(patches@), first_ok(done@)),
                done@,
                0,
                |x: Result<MergeType, GitError>| x == Ok::<MergeType, GitError>(patch_merge(first_ok(done@))),
            ),
    {
        let fast = done.len() == 0 || done[0].success;
        let mut script: Vec<Action> = Vec::new();
        add_patch_script(&mut script, patches, fast);
        assert(views(script@) =~= patch_script(texts(patches@), fast));
        match advance(&script, done, 0) {
            Some(s) => s,
            None => Step::Done(Ok(if fast { MergeType::Success } else { MergeType::StarterReset })),
        }
    }

    /// Replays the upstream commits after `base_branch` up to `target_branch`
    /// onto the checked-out branch. On a conflict the cherry-pick is aborted,
    /// the branch is hard reset to the upstream target, soft reset to `main`,
    /// and the target's tree is committed. Only the cherry-pick may fail
    /// without error.
    pub fn cherry_pick(&self, base_branch: &str, target_branch: &str, done: &Vec<Outcome>) -> (r: Step<MergeType>)
        ensures
            step_follows(
                r,
                replay_script(base_branch@, target_branch@, first_ok(done@)),
                done@,
                0,
                |x: Result<MergeType, GitError>| x == Ok::<MergeType, GitError>(replay_merge(first_ok(done@))),
            ),
    {
        let fast = done.len() == 0 || done[0].success;
        let mut script: Vec<Action> = Vec::new();
        add_replay_script(&mut script, base_branch, target_branch, fast);
        assert(views(script@) =~= replay_script(base_branch@, target_branch@, fast));
        match advance(&script, done, 0) {
            Some(s) => s,
            None => Step::Done(Ok(if fast { MergeType::Success } else { MergeType::SolutionReset })),
        }
    }

    /// Derives the branch `target_branch` from the current one: creates it,
    /// reconciles it with the strategy, pushes it with upstream tracking,
    /// reads its head commit and checks out `main` again. Returns the head
    /// commit and how the branch was reconciled. Only the strategy's first
    /// step may fail without error.
    pub fn create_branch_from(
        &self,
        strategy: &Strategy,
        base_branch: &str,
        target_branch: &str,
        done: &Vec<Outcome>,
    ) -> (r: Step<(String, MergeType)>)
        requires
            strategy_wf(strategy@),
        ensures
            step_follows(
                r,
                derive_script(strategy@, base_branch@, target_branch@, second_ok(done@)),
                done@,
                1,
                |x: Result<(String, MergeType), GitError>| {
                    let script = derive_script(strategy@, base_branch@, target_branch@, second_ok(done@));
                    let i = script.len() - 2;
                    match x {
                        Ok((h, m)) => head_of(done@[i].stdout@) == Some(h@)
                            && m == strategy_merge(strategy@, second_ok(done@)),
                        Err(e) => head_of(done@[i].stdout@).is_none() && e@ == (GitErrorView::NotText {
                            command: command_text(ActionView::Git("rev-parse HEAD"@)),
                        }),
                    }
                },
            ),
    {
        let fast = done.len() <= 1 || done[1].success;
        let mut script: Vec<Action> = Vec::new();
        push_git(&mut script, "checkout -b ", target_branch);
        let merge = match strategy {
            Strategy::Patches(p) => {
                add_patch_script(&mut script, p, fast);
                if fast { MergeType::Success } else { MergeType::StarterReset }
            },
            Strategy::Replay => {
                add_replay_script(&mut script, base_branch, target_branch, fast);
                if fast { MergeType::Success } else { MergeType::SolutionReset }
            },
        };
        push_git(&mut script, "push -u origin ", target_branch);
        push_action(&mut script, Action::Git(String::from_str("rev-parse HEAD")));
        push_action(&mut script, Action::Git(String::from_str("checkout main")));
        assert(merge == strategy_merge(strategy@, fast));
        let ghost want = derive_script(strategy@, base_branch@, target_branch@, fast);
        assert(views(script@) =~= want);
        match advance(&script, done, 1) {
            Some(s) => s,
            None => {
                let i = script.len() - 2;
                assert(views(script@)[i as int] == ActionView::Git("rev-parse HEAD"@));
                match read_head(&script[i], &done[i]) {
                    Ok(h) => Step::Done(Ok((h, merge))),
                    Err(e) => Step::Done(Err(e)),
                }
            },
        }
    }
}


/// The command that lists the files on `main`.
pub open spec fn list_args() -> Seq<char> {
    "ls-tree -r main --name-only"@
}

/// The files that the listing names: its text, trimmed, cut at each newline.
pub open spec fn listed_files(t: Seq<char>) -> Seq<Seq<char>> {
    newline_pieces(trimmed(t))
}

/// The command that reads a file on `main`.
pub open spec fn read_args(f: Seq<char>) -> Seq<char> {
    "cat-file -p main:"@ + f
}

/// The listing, then a read of each file that it names.
pub open spec fn files_script(files: Seq<Seq<char>>) -> Seq<ActionView> {
    one_git(list_args()) + files.map_values(|f: Seq<char>| ActionView::Git(read_args(f)))
}

/// What reading the listed files returns once every read has run: each file
/// with its text, or the first read whose output is not text.
pub open spec fn files_done(
    files: Seq<Seq<char>>,
    done: Seq<Outcome>,
    x: Result<Vec<(String, String)>, GitError>,
) -> bool {
    match x {
        Ok(v) => v@.len() == files.len() && forall|k: int|
            #![trigger v@[k]]
            0 <= k < files.len() ==> v@[k].0@ == files[k] && utf8_text(done[k + 1].stdout@) == Some(v@[k].1@),
        Err(e) => exists|k: int|
            0 <= k < files.len() && utf8_text(done[k + 1].stdout@) is None && (forall|j: int|
                0 <= j < k ==> utf8_text(#[trigger] done[j + 1].stdout@) is Some) && e@
                == (GitErrorView::NotText { command: command_text(ActionView::Git(read_args(files[k]))) }),
    }
}

impl GitRepo {
    /// The files on `main`, each with its text: the listing of `main`, then a
    /// read of each listed file.
    pub fn read_initial_files(&self, done: &Vec<Outcome>) -> (r: Step<Vec<(String, String)>>)
        ensures
            done@.len() == 0 ==> (r matches Step::Run(a) && a@ == ActionView::Git(list_args())),
            done@.len() > 0 && !done@[0].success ==> (r matches Step::Done(Err(e)) && e@ == failure_of(
                ActionView::Git(list_args()),
                done@[0],
            )),
            done@.len() > 0 && done@[0].success && utf8_text(done@[0].stdout@) is None ==> (r matches Step::Done(
                Err(e),
            ) && e@ == (GitErrorView::NotText { command: command_text(ActionView::Git(list_args())) })),
            done@.len() > 0 && done@[0].success && utf8_text(done@[0].stdout@) is Some ==> step_follows(
                r,
                files_script(listed_files(utf8_text(done@[0].stdout@)->Some_0)),
                done@,
                files_script(listed_files(utf8_text(done@[0].stdout@)->Some_0)).len() as int,
                |x: Result<Vec<(String, String)>, GitError>|
                    files_done(listed_files(utf8_text(done@[0].stdout@)->Some_0), done@, x),
            ),
    {
        let ls = git_lit("ls-tree -r main --name-only");
        if done.len() == 0 || !done[0].success {
            return match advance(&ls, done, 1) {
                Some(s) => s,
                None => Step::Done(Ok(Vec::new())),
            };
        }
        assert(views(ls@)[0] == ActionView::Git(list_args()));
        let listing = match read_text(&ls[0], &done[0]) {
            Ok(t) => t,
            Err(e) => {
                return Step::Done(Err(e));
            },
        };
        let files = split_newlines(trim_text(listing.as_str()).as_str());
        let ghost fs = listed_files(listing@);
        assert(files@.map_values(|p: String| p@) == fs);
        let mut script = ls;
        let mut i: usize = 0;
        while i < files.len()
            invariant
                0 <= i <= files@.len(),
                files@.map_values(|p: String| p@) == fs,
                done@.len() > 0 && done@[0].success,
                utf8_text(done@[0].stdout@) == Some(listing@),
                views(script@) == one_git(list_args()) + fs.take(i as int).map_values(
                    |f: Seq<char>| ActionView::Git(read_args(f)),
                ),
            decreases files@.len() - i,
        {
            assert(fs[i as int] == files@[i as int]@);
            push_git(&mut script, "cat-file -p main:", files[i].as_str());
            assert(fs.take(i + 1) =~= fs.take(i as int).push(fs[i as int]));
            assert(views(script@) =~= one_git(list_args()) + fs.take(i + 1).map_values(
                |f: Seq<char>| ActionView::Git(read_args(f)),
            ));
            i = i + 1;
        }
        assert(fs.take(i as int) =~= fs);
        assert(views(script@) == files_script(fs));
        match advance(&script, done, script.len()) {
            Some(s) => s,
            None => {
                let mut out: Vec<(String, String)> = Vec::new();
                let mut k: usize = 0;
                while k < files.len()
                    invariant
                        0 <= k <= files@.len(),
                        files@.map_values(|p: String| p@) == fs,
                        done@.len() > 0 && done@[0].success,
                        utf8_text(done@[0].stdout@) == Some(listing@),
                        fs == listed_files(listing@),
                        no_halt(done@, script@.len() as int, script@.len() as int),
                        views(script@) == files_script(fs),
                        script@.len() == fs.len() + 1,
                        done@.len() >= script@.len(),
                        out@.len() == k,
                        forall|j: int|
                            #![trigger out@[j]]
                            0 <= j < k ==> out@[j].0@ == fs[j] && utf8_text(done@[j + 1].stdout@) == Some(out@[j].1@),
                    decreases files@.len() - k,
                {
                    assert(views(script@)[k + 1] == ActionView::Git(read_args(fs[k as int])));
                    match read_text(&script[k + 1], &done[k + 1]) {
                        Ok(t) => {
                            let ghost before = out@;
                            let f = files[k].clone();
                            assert(f@ == fs[k as int]);
                            let ghost tv = t@;
                            assert(utf8_text(done@[k + 1].stdout@) == Some(tv));
                            out.push((f, t));
                            assert(out@[k as int].1@ == tv);
                            assert(out@[k as int].0@ == fs[k as int]);
                            assert forall|j: int| #![trigger out@[j]] 0 <= j < k + 1 implies out@[j].0@ == fs[j]
                                && utf8_text(done@[j + 1].stdout@) == Some(out@[j].1@) by {
                                if j < k {
                                    assert(out@[j] == before[j]);
                                }
                            }
                        },
                        Err(e) => {
                            assert(forall|j: int| 0 <= j < k ==> utf8_text(#[trigger] done@[j + 1].stdout@) is Some) by {
                                assert forall|j: int| 0 <= j < k implies utf8_text(#[trigger] done@[j + 1].stdout@) is Some by {
                                    assert(out@[j] == out@[j]);
                                }
                            }
                            assert(files_done(fs, done@, Err(e)));
                            return Step::Done(Err(e));
                        },
                    }
                    k = k + 1;
                }
                assert(files_done(fs, done@, Ok(out)));
                Step::Done(Ok(out))
            },
        }
    }

    /// Pulls the checked-out branch.
    pub fn pull(&self, done: &Vec<Outcome>) -> (r: Step<()>)
        ensures
            step_follows(r, one_git("pull"@), done@, 1, |x: Result<(), GitError>| unit_done(x)),
    {
        run_unit(&git_lit("pull"), done)
    }

    /// Checks out `main`.
    pub fn checkout_main(&self, done: &Vec<Outcome>) -> (r: Step<()>)
        ensures
            step_follows(r, one_git("checkout main"@), done@, 1, |x: Result<(), GitError>| unit_done(x)),
    {
        run_unit(&git_lit("checkout main"), done)
    }

    /// The commit that HEAD resolves to, without trailing whitespace.
    pub fn head_commit(&self, done: &Vec<Outcome>) -> (r: Step<String>)
        ensures
            step_follows(
                r,
                one_git("rev-parse HEAD"@),
                done@,
                1,
                |x: Result<String, GitError>| {
                    match x {
                        Ok(h) => head_of(done@[0].stdout@) == Some(h@),
                        Err(e) => head_of(done@[0].stdout@).is_none() && e@ == (GitErrorView::NotText {
                            command: command_text(ActionView::Git("rev-parse HEAD"@)),
                        }),
                    }
                },
            ),
    {
        let script = git_lit("rev-parse HEAD");
        match advance(&script, done, 1) {
            Some(s) => s,
            None => {
                assert(views(script@)[0] == ActionView::Git("rev-parse HEAD"@));
                match read_head(&script[0], &done[0]) {
                    Ok(h) => Step::Done(Ok(h)),
                    Err(e) => Step::Done(Err(e)),
                }
            },
        }
    }

    /// Hard resets the checked-out branch to `branch` and force-pushes it.
    pub fn reset(&self, branch: &str, done: &Vec<Outcome>) -> (r: Step<()>)
        ensures
            step_follows(
                r,
                seq![ActionView::Git("reset --hard "@ + branch@), ActionView::Git("push --force"@)],
                done@,
                2,
                |x: Result<(), GitError>| unit_done(x),
            ),
    {
        let mut script: Vec<Action> = Vec::new();
        push_git(&mut script, "reset --hard ", branch);
        push_action(&mut script, Action::Git(String::from_str("push --force")));
        assert(views(script@) =~= seq![
            ActionView::Git("reset --hard "@ + branch@),
            ActionView::Git("push --force"@),
        ]);
        run_unit(&script, done)
    }

    /// The diff between two commits.
    pub fn diff(&self, base: &str, head: &str, done: &Vec<Outcome>) -> (r: Step<String>)
        ensures
            step_follows(
                r,
                one_git("diff "@ + base@ + ".."@ + head@),
                done@,
                1,
                |x: Result<String, GitError>| text_done("diff "@ + base@ + ".."@ + head@, done@, x),
            ),
    {
        let a = join2(&join2("diff ", base), "..");
        run_text(&git_of(a.as_str(), head), Ghost("diff "@ + base@ + ".."@ + head@), done)
    }

    /// Whether `file` exists at `branch`. A failure of the query means that it
    /// does not.
    pub fn contains_file(&self, branch: &str, file: &str, done: &Vec<Outcome>) -> (r: Step<bool>)
        ensures
            step_follows(
                r,
                one_git("cat-file -e "@ + branch@ + ":"@ + file@),
                done@,
                0,
                |x: Result<bool, GitError>| x == Ok::<bool, GitError>(done@[0].success),
            ),
    {
        let a = join2(&join2(&join2("cat-file -e ", branch), ":"), file);
        let script = git_lit(a.as_str());
        match advance(&script, done, 0) {
            Some(s) => s,
            None => Step::Done(Ok(done[0].success)),
        }
    }

    /// The text of `file` at `branch`.
    pub fn read_file(&self, branch: &str, file: &str, done: &Vec<Outcome>) -> (r: Step<String>)
        ensures
            step_follows(
                r,
                one_git("cat-file -p "@ + branch@ + ":"@ + file@),
                done@,
                1,
                |x: Result<String, GitError>| text_done("cat-file -p "@ + branch@ + ":"@ + file@, done@, x),
            ),
    {
        let a = join2(&join2("cat-file -p ", branch), ":");
        run_text(&git_of(a.as_str(), file), Ghost("cat-file -p "@ + branch@ + ":"@ + file@), done)
    }

    /// The bytes of `file` at `branch`.
    pub fn show_bin(&self, branch: &str, file: &str, done: &Vec<Outcome>) -> (r: Step<Vec<u8>>)
        ensures
            step_follows(
                r,
                one_git("cat-file -p "@ + branch@ + ":"@ + file@),
                done@,
                1,
                |x: Result<Vec<u8>, GitError>| {
                    match x {
                        Ok(b) => b@ == done@[0].stdout@,
                        Err(_) => false,
                    }
                },
            ),
    {
        let a = join2(&join2("cat-file -p ", branch), ":");
        let script = git_of(a.as_str(), file);
        match advance(&script, done, 1) {
            Some(s) => s,
            None => Step::Done(Ok(done[0].stdout.clone())),
        }
    }

    /// Whether `origin/main` holds commits that `main` does not, by the count
    /// that `git rev-list` prints.
    pub fn is_behind_origin(&self, done: &Vec<Outcome>) -> (r: Step<bool>)
        ensures
            step_follows(
                r,
                one_git("rev-list --count main..origin/main"@),
                done@,
                1,
                |x: Result<bool, GitError>| {
                    match x {
                        Ok(b) => exists|t: Seq<char>|
                            utf8_text(done@[0].stdout@) == Some(t) && behind_of(t) == Some(b),
                        Err(e) => match utf8_text(done@[0].stdout@) {
                            None => e@ == (GitErrorView::NotText {
                                command: command_text(ActionView::Git("rev-list --count main..origin/main"@)),
                            }),
                            Some(t) => behind_of(t).is_none() && e@ == (GitErrorView::NotACount { output: t }),
                        },
                    }
                },
            ),
    {
        let script = git_lit("rev-list --count main..origin/main");
        match advance(&script, done, 1) {
            Some(s) => s,
            None => {
                assert(views(script@)[0] == ActionView::Git("rev-list --count main..origin/main"@));
                match read_text(&script[0], &done[0]) {
                    Err(e) => Step::Done(Err(e)),
                    Ok(out) => {
                        let t = trim_text(out.as_str());
                        match parse_i32(t.as_str()) {
                            Some(n) => Step::Done(Ok(n > 0)),
                            None => Step::Done(Err(GitError::NotACount { output: out })),
                        }
                    },
                }
            },
        }
    }

    /// Runs the post-checkout hook where the repository has one, and points
    /// git at the repository's hooks directory where it has one.
    pub fn install_hooks(&self, hooks_dir: bool, post_checkout: bool, done: &Vec<Outcome>) -> (r: Step<()>)
        ensures
            step_follows(
                r,
                hooks_script(hooks_dir, post_checkout),
                done@,
                hooks_script(hooks_dir, post_checkout).len() as int,
                |x: Result<(), GitError>| unit_done(x),
            ),
    {
        let mut script: Vec<Action> = Vec::new();
        if hooks_dir {
            if post_checkout {
                push_action(&mut script, Action::PostCheckoutHook);
            }
            push_action(&mut script, Action::Git(String::from_str("config --local core.hooksPath .githooks")));
        }
        assert(views(script@) =~= hooks_script(hooks_dir, post_checkout));
        run_unit(&script, done)
    }

    /// Commits the starter files on `main`, tags them as the initial state,
    /// publishes `main`, then commits the package metadata on a new `meta`
    /// branch, publishes it, and checks out `main` again.
    pub fn write_initial_files(&self, done: &Vec<Outcome>) -> (r: Step<()>)
        ensures
            step_follows(r, initial_script(), done@, initial_script().len() as int, |x: Result<(), GitError>| unit_done(x)),
    {
        let mut script: Vec<Action> = Vec::new();
        push_action(&mut script, Action::WriteInitialFiles);
        push_action(&mut script, Action::Git(String::from_str("add .")));
        push_action(&mut script, Action::Git(String::from_str("commit -m 'Initial commit'")));
        push_git(&mut script, "tag ", INITIAL_TAG);
        push_action(&mut script, Action::Git(String::from_str("push -u origin main")));
        push_action(&mut script, Action::Git(String::from_str("checkout -b meta")));
        push_action(&mut script, Action::WriteMeta);
        push_action(&mut script, Action::Git(String::from_str("add .")));
        push_action(&mut script, Action::Git(String::from_str("commit -m 'Add meta'")));
        push_action(&mut script, Action::Git(String::from_str("push -u origin meta")));
        push_action(&mut script, Action::Git(String::from_str("checkout main")));
        assert(views(script@) =~= initial_script());
        run_unit(&script, done)
    }
}

} // verus!
