use rq_core::command::{parse_env, split_command};
use rq_core::git::{Action, GitError, GitRepo, Outcome, Step};
use rq_core::text::join2;

fn ok(out: &[u8]) -> Outcome {
    Outcome { success: true, stdout: out.to_vec(), stderr: String::new() }
}

fn fail(err: &str) -> Outcome {
    Outcome { success: false, stdout: Vec::new(), stderr: err.to_string() }
}

fn git(args: &str) -> Action {
    Action::Git(args.to_string())
}

#[test]
fn head_commit_is_trimmed() {
    let repo = GitRepo::new("/w");
    assert_eq!(repo.head_commit(&vec![]), Step::Run(git("rev-parse HEAD")));
    assert_eq!(repo.head_commit(&vec![ok(b"abc123 \n")]), Step::Done(Ok("abc123".to_string())));
}

#[test]
fn head_commit_rejects_bytes_that_are_not_text() {
    let repo = GitRepo::new("/w");
    assert_eq!(
        repo.head_commit(&vec![ok(&[0xff, 0xfe])]),
        Step::Done(Err(GitError::NotText { command: "git rev-parse HEAD".to_string() }))
    );
}

#[test]
fn behind_origin_reads_the_count() {
    let repo = GitRepo::new("/w");
    assert_eq!(repo.is_behind_origin(&vec![]), Step::Run(git("rev-list --count main..origin/main")));
    assert_eq!(repo.is_behind_origin(&vec![ok(b"3\n")]), Step::Done(Ok(true)));
    assert_eq!(repo.is_behind_origin(&vec![ok(b"0\n")]), Step::Done(Ok(false)));
    assert_eq!(
        repo.is_behind_origin(&vec![ok(b"many\n")]),
        Step::Done(Err(GitError::NotACount { output: "many\n".to_string() }))
    );
}

#[test]
fn failed_fetch_reports_command_and_stderr() {
    let repo = GitRepo::new("/w");
    assert_eq!(repo.fetch("origin", &vec![]), Step::Run(git("fetch origin")));
    assert_eq!(repo.fetch("origin", &vec![ok(b"")]), Step::Done(Ok(())));
    assert_eq!(
        repo.fetch("origin", &vec![fail("no such remote")]),
        Step::Done(Err(GitError::Failed {
            command: "git fetch origin".to_string(),
            stderr: "no such remote".to_string(),
        }))
    );
}

#[test]
fn upstream_is_absent_when_query_fails() {
    let repo = GitRepo::new("/w");
    assert_eq!(repo.upstream(&vec![]), Step::Run(git("remote get-url upstream")));
    assert_eq!(repo.upstream(&vec![fail("")]), Step::Done(Ok(None)));
    assert_eq!(repo.upstream(&vec![ok(b"")]), Step::Done(Ok(Some("upstream".to_string()))));
}

#[test]
fn setup_upstream_adds_then_fetches() {
    let repo = GitRepo::new("/w");
    let url = "https://example.com/a/b.git";
    assert_eq!(repo.setup_upstream(url, &vec![]), Step::Run(git("remote add upstream https://example.com/a/b.git")));
    assert_eq!(repo.setup_upstream(url, &vec![ok(b"")]), Step::Run(git("fetch upstream")));
    assert_eq!(repo.setup_upstream(url, &vec![ok(b""), ok(b"")]), Step::Done(Ok(())));
}

#[test]
fn reset_hard_then_force_push() {
    let repo = GitRepo::new("/w");
    assert_eq!(repo.reset("lesson2", &vec![]), Step::Run(git("reset --hard lesson2")));
    assert_eq!(repo.reset("lesson2", &vec![ok(b"")]), Step::Run(git("push --force")));
    assert_eq!(repo.reset("lesson2", &vec![ok(b""), ok(b"")]), Step::Done(Ok(())));
}

#[test]
fn file_queries() {
    let repo = GitRepo::new("/w");
    assert_eq!(repo.contains_file("main", "a.rs", &vec![]), Step::Run(git("cat-file -e main:a.rs")));
    assert_eq!(repo.contains_file("main", "a.rs", &vec![fail("")]), Step::Done(Ok(false)));
    assert_eq!(repo.contains_file("main", "a.rs", &vec![ok(b"")]), Step::Done(Ok(true)));
    assert_eq!(repo.read_file("main", "a.rs", &vec![ok(b"fn a() {}\n")]), Step::Done(Ok("fn a() {}\n".to_string())));
    assert_eq!(repo.show_bin("main", "a.png", &vec![ok(&[0, 0xff])]), Step::Done(Ok(vec![0, 0xff])));
    assert_eq!(repo.diff("a", "b", &vec![]), Step::Run(git("diff a..b")));
    assert_eq!(repo.diff("a", "b", &vec![ok(b"+x\n")]), Step::Done(Ok("+x\n".to_string())));
}

#[test]
fn initial_files_are_listed_and_read() {
    let repo = GitRepo::new("/w");
    assert_eq!(repo.read_initial_files(&vec![]), Step::Run(git("ls-tree -r main --name-only")));
    let mut done = vec![ok(b"a.rs\nsrc/b.rs\n")];
    assert_eq!(repo.read_initial_files(&done), Step::Run(git("cat-file -p main:a.rs")));
    done.push(ok(b"A"));
    assert_eq!(repo.read_initial_files(&done), Step::Run(git("cat-file -p main:src/b.rs")));
    done.push(ok(b"B"));
    assert_eq!(
        repo.read_initial_files(&done),
        Step::Done(Ok(vec![
            ("a.rs".to_string(), "A".to_string()),
            ("src/b.rs".to_string(), "B".to_string()),
        ]))
    );
}

#[test]
fn hooks_install_only_where_present() {
    let repo = GitRepo::new("/w");
    assert_eq!(repo.install_hooks(false, false, &vec![]), Step::Done(Ok(())));
    assert_eq!(repo.install_hooks(true, true, &vec![]), Step::Run(Action::PostCheckoutHook));
    assert_eq!(
        repo.install_hooks(true, true, &vec![ok(b"")]),
        Step::Run(git("config --local core.hooksPath .githooks"))
    );
    assert_eq!(
        repo.install_hooks(true, false, &vec![]),
        Step::Run(git("config --local core.hooksPath .githooks"))
    );
}

#[test]
fn initial_files_are_committed_tagged_and_published() {
    let repo = GitRepo::new("/w");
    let mut done: Vec<Outcome> = Vec::new();
    let mut ran: Vec<Action> = Vec::new();
    loop {
        match repo.write_initial_files(&done) {
            Step::Run(a) => {
                ran.push(a);
                done.push(ok(b""));
            }
            Step::Done(r) => {
                assert_eq!(r, Ok(()));
                break;
            }
        }
    }
    assert_eq!(ran.len(), 11);
    assert_eq!(ran[3], git("tag initial"));
    assert_eq!(ran[6], Action::WriteMeta);
    assert_eq!(ran[10], git("checkout main"));
}

#[test]
fn clone_binds_the_path() {
    assert_eq!(
        GitRepo::clone("/w/b", "https://example.com/b.git", &vec![]).map_run(),
        Some(Action::Clone("https://example.com/b.git".to_string()))
    );
    match GitRepo::clone("/w/b", "https://example.com/b.git", &vec![ok(b"")]) {
        Step::Done(Ok(g)) => assert_eq!(g.path(), "/w/b"),
        other => panic!("unexpected {other:?}"),
    }
}

trait RunOf {
    fn map_run(self) -> Option<Action>;
}

impl<T> RunOf for Step<T> {
    fn map_run(self) -> Option<Action> {
        match self {
            Step::Run(a) => Some(a),
            Step::Done(_) => None,
        }
    }
}

#[test]
fn command_lines_split_like_a_shell() {
    assert_eq!(
        split_command("git commit -m 'Starter code'"),
        Some(("git".to_string(), vec!["commit".to_string(), "-m".to_string(), "Starter code".to_string()]))
    );
    assert_eq!(split_command(""), None);
    assert_eq!(split_command("git 'open"), None);
}

#[test]
fn env_lines_split_at_first_equals() {
    assert_eq!(
        parse_env("HOME=/root\nOPTS=a=b\nnot a pair\n"),
        vec![
            ("HOME".to_string(), "/root".to_string()),
            ("OPTS".to_string(), "a=b".to_string()),
        ]
    );
    assert_eq!(parse_env(""), vec![]);
}

#[test]
fn join_concatenates() {
    assert_eq!(join2("ab", "cd"), "abcd");
}
