//! What the scripts do to a repository, for any meaning of the commands.
//!
//! A repository state is any `S`. `apply(s, p)` is the state after `git apply`
//! of the patch `p`, `None` where the patch does not apply; `git(s, args)` is
//! the state after `git <args>`, `None` where it fails. The other actions do
//! not change the state that these laws speak of.
use vstd::prelude::*;
use crate::git::{
    derive_script, patch_merge, patch_script, pick_args, replay_merge, replay_script,
    strategy_wf, ActionView, MergeType, StrategyView, INITIAL_TAG, UPSTREAM,
};

verus! {

/// The state after one action, `None` where it fails.
pub open spec fn act<S>(
    a: ActionView,
    s: S,
    apply: spec_fn(S, Seq<char>) -> Option<S>,
    git: spec_fn(S, Seq<char>) -> Option<S>,
) -> Option<S> {
    match a {
        ActionView::Apply(p) => apply(s, p),
        ActionView::Git(args) => git(s, args),
        _ => Some(s),
    }
}

/// The state after each action of the script, in order, from `s`; `None`
/// once one of them fails.
pub open spec fn run<S>(
    script: Seq<ActionView>,
    s: S,
    apply: spec_fn(S, Seq<char>) -> Option<S>,
    git: spec_fn(S, Seq<char>) -> Option<S>,
) -> Option<S>
    decreases script.len(),
{
    if script.len() == 0 {
        Some(s)
    } else {
        match run(script.drop_last(), s, apply, git) {
            Some(u) => act(script.last(), u, apply, git),
            None => None,
        }
    }
}

/// The run of a script whose first action may fail without ending it: a
/// failed first action leaves the state as it was.
pub open spec fn run_tolerant<S>(
    script: Seq<ActionView>,
    s: S,
    apply: spec_fn(S, Seq<char>) -> Option<S>,
    git: spec_fn(S, Seq<char>) -> Option<S>,
) -> Option<S> {
    if script.len() == 0 {
        Some(s)
    } else {
        let u = match act(script[0], s, apply, git) {
            Some(u) => u,
            None => s,
        };
        run(script.drop_first(), u, apply, git)
    }
}

proof fn lemma_run_one<S>(
    a: ActionView,
    s: S,
    apply: spec_fn(S, Seq<char>) -> Option<S>,
    git: spec_fn(S, Seq<char>) -> Option<S>,
)
    ensures
        run(seq![a], s, apply, git) == act(a, s, apply, git),
{
    assert(seq![a].drop_last() =~= Seq::<ActionView>::empty());
    assert(run(Seq::<ActionView>::empty(), s, apply, git) == Some(s));
    assert(seq![a].last() == a);
}

/// The state after each patch of the stack, in order, from `s`.
pub open spec fn apply_all<S>(p: Seq<Seq<char>>, s: S, apply: spec_fn(S, Seq<char>) -> Option<S>) -> Option<S>
    decreases p.len(),
{
    if p.len() == 0 {
        Some(s)
    } else {
        match apply_all(p.drop_last(), s, apply) {
            Some(u) => apply(u, p.last()),
            None => None,
        }
    }
}

proof fn lemma_run_concat<S>(
    a: Seq<ActionView>,
    b: Seq<ActionView>,
    s: S,
    apply: spec_fn(S, Seq<char>) -> Option<S>,
    git: spec_fn(S, Seq<char>) -> Option<S>,
)
    ensures
        run(a + b, s, apply, git) == match run(a, s, apply, git) {
            Some(u) => run(b, u, apply, git),
            None => None,
        },
    decreases b.len(),
{
    if b.len() == 0 {
        assert(a + b =~= a);
    } else {
        lemma_run_concat(a, b.drop_last(), s, apply, git);
        assert((a + b).drop_last() =~= a + b.drop_last());
        assert((a + b).last() == b.last());
    }
}

proof fn lemma_run_patches<S>(
    p: Seq<Seq<char>>,
    s: S,
    apply: spec_fn(S, Seq<char>) -> Option<S>,
    git: spec_fn(S, Seq<char>) -> Option<S>,
)
    ensures
        run(p.map_values(|x: Seq<char>| ActionView::Apply(x)), s, apply, git) == apply_all(p, s, apply),
    decreases p.len(),
{
    let m = p.map_values(|x: Seq<char>| ActionView::Apply(x));
    if p.len() > 0 {
        lemma_run_patches(p.drop_last(), s, apply, git);
        assert(m.drop_last() =~= p.drop_last().map_values(|x: Seq<char>| ActionView::Apply(x)));
        assert(m.last() == ActionView::Apply(p.last()));
    } else {
        assert(m.len() == 0);
    }
}

/// Staging and committing keep the working tree as it is.
pub open spec fn keeps_on_commit<S>(git: spec_fn(S, Seq<char>) -> Option<S>, msg: Seq<char>) -> bool {
    forall|x: S| #[trigger] git(x, "add ."@) == Some(x) && git(x, msg) == Some(x)
}

proof fn lemma_run_tail<S>(
    s: S,
    apply: spec_fn(S, Seq<char>) -> Option<S>,
    git: spec_fn(S, Seq<char>) -> Option<S>,
)
    requires
        keeps_on_commit(git, "commit -m 'Starter code'"@),
    ensures
        run(seq![ActionView::Git("add ."@), ActionView::Git("commit -m 'Starter code'"@)], s, apply, git)
            == Some(s),
{
    let a = ActionView::Git("add ."@);
    let c = ActionView::Git("commit -m 'Starter code'"@);
    assert(git(s, "add ."@) == Some(s));
    assert(git(s, "commit -m 'Starter code'"@) == Some(s));
    lemma_run_concat(seq![a], seq![c], s, apply, git);
    assert(seq![a] + seq![c] =~= seq![a, c]);
    lemma_run_one(a, s, apply, git);
    lemma_run_one(c, s, apply, git);
}

/// Where the last patch applies to the current tree, the stack's run is that
/// one apply and a commit: the tree is the current tree with the last patch
/// applied, and the outcome is `Success`.
pub proof fn law_last_patch_applies<S>(
    p: Seq<Seq<char>>,
    s: S,
    apply: spec_fn(S, Seq<char>) -> Option<S>,
    git: spec_fn(S, Seq<char>) -> Option<S>,
)
    requires
        p.len() > 0,
        apply(s, p.last()) is Some,
        keeps_on_commit(git, "commit -m 'Starter code'"@),
    ensures
        run_tolerant(patch_script(p, apply(s, p.last()) is Some), s, apply, git) == apply(s, p.last()),
        patch_merge(apply(s, p.last()) is Some) == MergeType::Success,
{
    let tail = seq![ActionView::Git("add ."@), ActionView::Git("commit -m 'Starter code'"@)];
    let sc = patch_script(p, true);
    assert(sc.drop_first() =~= tail);
    assert(sc[0] == ActionView::Apply(p.last()));
    lemma_run_tail(apply(s, p.last())->Some_0, apply, git);
}

/// Where the last patch does not apply to the current tree, the stack's run
/// resets to the initial tag and applies every patch in order: the tree is
/// the initial tree with the whole stack applied, and the outcome is
/// `StarterReset`.
pub proof fn law_stack_replayed_from_initial<S>(
    p: Seq<Seq<char>>,
    s: S,
    initial: S,
    apply: spec_fn(S, Seq<char>) -> Option<S>,
    git: spec_fn(S, Seq<char>) -> Option<S>,
)
    requires
        p.len() > 0,
        apply(s, p.last()) is None,
        forall|x: S| #[trigger] git(x, "reset --hard "@ + INITIAL_TAG@) == Some(initial),
        keeps_on_commit(git, "commit -m 'Starter code'"@),
        apply_all(p, initial, apply) is Some,
    ensures
        run_tolerant(patch_script(p, apply(s, p.last()) is Some), s, apply, git) == apply_all(p, initial, apply),
        patch_merge(apply(s, p.last()) is Some) == MergeType::StarterReset,
{
    let reset = seq![ActionView::Git("reset --hard "@ + INITIAL_TAG@)];
    let middle = p.map_values(|x: Seq<char>| ActionView::Apply(x));
    let tail = seq![ActionView::Git("add ."@), ActionView::Git("commit -m 'Starter code'"@)];
    let sc = patch_script(p, false);
    assert(sc[0] == ActionView::Apply(p.last()));
    assert(sc.drop_first() =~= reset + middle + tail);
    lemma_run_concat(reset + middle, tail, s, apply, git);
    lemma_run_concat(reset, middle, s, apply, git);
    lemma_run_one(ActionView::Git("reset --hard "@ + INITIAL_TAG@), s, apply, git);
    assert(git(s, "reset --hard "@ + INITIAL_TAG@) == Some(initial));
    lemma_run_patches(p, initial, apply, git);
    lemma_run_tail(apply_all(p, initial, apply)->Some_0, apply, git);
}

/// Where the cherry-pick of the range succeeds, the replay's run is that
/// cherry-pick alone: the state is the one it made, and the outcome is
/// `Success`.
pub proof fn law_clean_replay_kept<S>(
    base: Seq<char>,
    target: Seq<char>,
    s: S,
    apply: spec_fn(S, Seq<char>) -> Option<S>,
    git: spec_fn(S, Seq<char>) -> Option<S>,
)
    requires
        git(s, pick_args(base, target)) is Some,
    ensures
        run_tolerant(replay_script(base, target, git(s, pick_args(base, target)) is Some), s, apply, git)
            == git(s, pick_args(base, target)),
        replay_merge(git(s, pick_args(base, target)) is Some) == MergeType::Success,
{
    let sc = replay_script(base, target, true);
    assert(sc.drop_first() =~= Seq::<ActionView>::empty());
}

/// A commit's state: the tree and the chain of commits that ends at HEAD.
pub struct Snapshot<T> {
    pub tree: T,
    pub history: Seq<int>,
}

/// Where the cherry-pick of the range conflicts, the replay's run takes the
/// upstream target's tree whole and commits it on top of `main`: the tree is
/// exactly the target's, HEAD's parent is `main`'s commit, and the outcome is
/// `SolutionReset`.
pub proof fn law_conflict_takes_target<T>(
    base: Seq<char>,
    target: Seq<char>,
    s: Snapshot<T>,
    upstream: Snapshot<T>,
    main: Seq<int>,
    fresh: int,
    apply: spec_fn(Snapshot<T>, Seq<char>) -> Option<Snapshot<T>>,
    git: spec_fn(Snapshot<T>, Seq<char>) -> Option<Snapshot<T>>,
)
    requires
        git(s, pick_args(base, target)) is None,
        forall|x: Snapshot<T>| #[trigger] git(x, "cherry-pick --abort"@) == Some(x),
        forall|x: Snapshot<T>| #[trigger] git(x, "reset --hard "@ + UPSTREAM@ + "/"@ + target) == Some(upstream),
        forall|x: Snapshot<T>| #[trigger] git(x, "reset --soft main"@) == Some(Snapshot { tree: x.tree, history: main }),
        forall|x: Snapshot<T>| #[trigger] git(x, "commit -m 'Override with reference solution'"@) == Some(
            Snapshot { tree: x.tree, history: x.history.push(fresh) },
        ),
    ensures
        ({
            let r = run_tolerant(replay_script(base, target, git(s, pick_args(base, target)) is Some), s, apply, git);
            &&& r is Some
            &&& r->Some_0.tree == upstream.tree
            &&& r->Some_0.history.drop_last() == main
        }),
        replay_merge(git(s, pick_args(base, target)) is Some) == MergeType::SolutionReset,
{
    let sc = replay_script(base, target, false);
    let a1 = ActionView::Git("cherry-pick --abort"@);
    let a2 = ActionView::Git("reset --hard "@ + UPSTREAM@ + "/"@ + target);
    let a3 = ActionView::Git("reset --soft main"@);
    let a4 = ActionView::Git("commit -m 'Override with reference solution'"@);
    assert(sc[0] == ActionView::Git(pick_args(base, target)));
    assert(sc.drop_first() =~= seq![a1] + seq![a2] + seq![a3] + seq![a4]);
    lemma_run_concat(seq![a1] + seq![a2] + seq![a3], seq![a4], s, apply, git);
    lemma_run_concat(seq![a1] + seq![a2], seq![a3], s, apply, git);
    lemma_run_concat(seq![a1], seq![a2], s, apply, git);
    lemma_run_one(a1, s, apply, git);
    assert(git(s, "cherry-pick --abort"@) == Some(s));
    lemma_run_one(a2, s, apply, git);
    assert(git(s, "reset --hard "@ + UPSTREAM@ + "/"@ + target) == Some(upstream));
    let m = Snapshot { tree: upstream.tree, history: main };
    lemma_run_one(a3, upstream, apply, git);
    assert(git(upstream, "reset --soft main"@) == Some(m));
    lemma_run_one(a4, m, apply, git);
    assert(git(m, "commit -m 'Override with reference solution'"@) == Some(
        Snapshot { tree: m.tree, history: m.history.push(fresh) },
    ));
    assert(main.push(fresh).drop_last() =~= main);
}


/// A derivation's last command checks out `main`, whichever strategy it used
/// and however the strategy went; so where every command of its run
/// succeeds, the repository ends on `main`.
pub proof fn law_derivation_ends_on_main<S>(
    st: StrategyView,
    base: Seq<char>,
    target: Seq<char>,
    fast: bool,
    s: S,
    on_main: spec_fn(S) -> bool,
    apply: spec_fn(S, Seq<char>) -> Option<S>,
    git: spec_fn(S, Seq<char>) -> Option<S>,
)
    requires
        strategy_wf(st),
        forall|x: S| #[trigger] git(x, "checkout main"@) matches Some(y) ==> on_main(y),
    ensures
        derive_script(st, base, target, fast).last() == ActionView::Git("checkout main"@),
        run(derive_script(st, base, target, fast), s, apply, git) matches Some(r) ==> on_main(r),
{
    let sc = derive_script(st, base, target, fast);
    assert(sc.last() == ActionView::Git("checkout main"@));
    match run(sc.drop_last(), s, apply, git) {
        Some(u) => {
            assert(git(u, "checkout main"@) matches Some(y) ==> on_main(y));
        },
        None => {},
    }
}

/// Two runs of the same patch stack on two repositories in the same state end
/// in the same state, with the same outcome.
pub proof fn law_patch_runs_agree<S>(
    p: Seq<Seq<char>>,
    s1: S,
    s2: S,
    apply: spec_fn(S, Seq<char>) -> Option<S>,
    git: spec_fn(S, Seq<char>) -> Option<S>,
)
    requires
        p.len() > 0,
        s1 == s2,
    ensures
        run_tolerant(patch_script(p, apply(s1, p.last()) is Some), s1, apply, git) == run_tolerant(
            patch_script(p, apply(s2, p.last()) is Some),
            s2,
            apply,
            git,
        ),
        patch_merge(apply(s1, p.last()) is Some) == patch_merge(apply(s2, p.last()) is Some),
{
}

} // verus!
