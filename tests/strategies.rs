use rq_core::git::{Action, GitError, GitRepo, MergeType, Outcome, Step, Strategy};

/// A small stand-in for a repository: files, a chain of commits, and the
/// upstream lessons. A patch is written `file:old>new`; it applies where the
/// file holds `old`.
#[derive(Clone)]
struct Sim {
    files: Vec<(String, String)>,
    initial: Vec<(String, String)>,
    history: Vec<String>,
    main: Vec<String>,
    lesson2: Vec<(String, String)>,
    lesson2_history: Vec<String>,
    pick: Vec<(String, String)>,
    ran: Vec<Action>,
}

fn get(files: &[(String, String)], name: &str) -> Option<String> {
    files.iter().find(|(n, _)| n == name).map(|(_, c)| c.clone())
}

fn set(files: &mut Vec<(String, String)>, name: &str, content: &str) {
    files.retain(|(n, _)| n != name);
    files.push((name.to_string(), content.to_string()));
}

fn ok(out: &str) -> Outcome {
    Outcome { success: true, stdout: out.as_bytes().to_vec(), stderr: String::new() }
}

fn fail(err: &str) -> Outcome {
    Outcome { success: false, stdout: Vec::new(), stderr: err.to_string() }
}

impl Sim {
    fn with_file(name: &str, content: &str) -> Sim {
        let files = vec![(name.to_string(), content.to_string())];
        Sim {
            files: files.clone(),
            initial: files,
            history: vec!["A".to_string()],
            main: vec!["A".to_string()],
            lesson2: Vec::new(),
            lesson2_history: Vec::new(),
            pick: Vec::new(),
            ran: Vec::new(),
        }
    }

    fn run(&mut self, a: &Action) -> Outcome {
        self.ran.push(a.clone());
        match a {
            Action::Apply(p) => {
                let (name, change) = p.split_once(':').unwrap();
                let (old, new) = change.split_once('>').unwrap();
                if get(&self.files, name).as_deref() == Some(old) {
                    set(&mut self.files, name, new);
                    ok("")
                } else {
                    fail("error: patch does not apply")
                }
            }
            Action::Git(args) => self.git(args),
            _ => ok(""),
        }
    }

    fn git(&mut self, args: &str) -> Outcome {
        if args == "reset --hard initial" {
            self.files = self.initial.clone();
            self.history = vec!["A".to_string()];
            ok("")
        } else if args.starts_with("cherry-pick upstream/") {
            for (n, c) in self.pick.clone() {
                match get(&self.files, &n) {
                    Some(old) if old != c => return fail("CONFLICT (add/add)"),
                    _ => set(&mut self.files, &n, &c),
                }
            }
            self.history.push("picked".to_string());
            ok("")
        } else if args.starts_with("reset --hard upstream/") {
            self.files = self.lesson2.clone();
            self.history = self.lesson2_history.clone();
            ok("")
        } else if args == "reset --soft main" {
            self.history = self.main.clone();
            ok("")
        } else if args.starts_with("commit") {
            let id = format!("c{}", self.history.len());
            self.history.push(id);
            ok("")
        } else if args == "rev-parse HEAD" {
            ok(&format!("{}\n", self.history.last().unwrap()))
        } else {
            ok("")
        }
    }
}

fn drive<T>(sim: &mut Sim, mut step: impl FnMut(&Vec<Outcome>) -> Step<T>) -> Result<T, GitError> {
    let mut done: Vec<Outcome> = Vec::new();
    loop {
        match step(&done) {
            Step::Run(a) => {
                let o = sim.run(&a);
                done.push(o);
            }
            Step::Done(r) => return r,
        }
    }
}

fn strings(v: &[&str]) -> Vec<String> {
    v.iter().map(|s| s.to_string()).collect()
}

#[test]
fn stacked_patches_fall_back_to_initial() {
    let mut sim = Sim::with_file("f.txt", "v0");
    let repo = GitRepo::new("/work/lesson");
    let patches = strings(&["f.txt:v0>v1", "f.txt:v1>v2"]);
    let r = drive(&mut sim, |d| repo.apply_patch(&patches, d));
    assert_eq!(r, Ok(MergeType::StarterReset));
    assert_eq!(get(&sim.files, "f.txt").as_deref(), Some("v2"));
    assert_eq!(
        sim.ran,
        vec![
            Action::Apply("f.txt:v1>v2".to_string()),
            Action::Git("reset --hard initial".to_string()),
            Action::Apply("f.txt:v0>v1".to_string()),
            Action::Apply("f.txt:v1>v2".to_string()),
            Action::Git("add .".to_string()),
            Action::Git("commit -m 'Starter code'".to_string()),
        ]
    );
}

#[test]
fn last_patch_applies_alone() {
    let mut sim = Sim::with_file("f.txt", "v1");
    let repo = GitRepo::new("/work/lesson");
    let patches = strings(&["f.txt:v0>v1", "f.txt:v1>v2"]);
    let r = drive(&mut sim, |d| repo.apply_patch(&patches, d));
    assert_eq!(r, Ok(MergeType::Success));
    assert_eq!(get(&sim.files, "f.txt").as_deref(), Some("v2"));
    assert_eq!(sim.ran.len(), 3);
    assert!(!sim.ran.contains(&Action::Git("reset --hard initial".to_string())));
}

#[test]
fn same_patches_give_same_tree() {
    let patches = strings(&["f.txt:v0>v1", "f.txt:v1>v2"]);
    let repo = GitRepo::new("/work/lesson");
    let mut a = Sim::with_file("f.txt", "v0");
    let mut b = Sim::with_file("f.txt", "v0");
    let ra = drive(&mut a, |d| repo.apply_patch(&patches, d));
    let rb = drive(&mut b, |d| repo.apply_patch(&patches, d));
    assert_eq!(ra, rb);
    assert_eq!(a.files, b.files);
}

#[test]
fn patch_stack_fails_when_replay_fails() {
    let mut sim = Sim::with_file("f.txt", "v9");
    sim.initial = vec![("f.txt".to_string(), "v9".to_string())];
    let repo = GitRepo::new("/work/lesson");
    let patches = strings(&["f.txt:v0>v1", "f.txt:v1>v2"]);
    let r = drive(&mut sim, |d| repo.apply_patch(&patches, d));
    assert_eq!(
        r,
        Err(GitError::Failed {
            command: "git apply -".to_string(),
            stderr: "error: patch does not apply".to_string(),
        })
    );
}

fn lesson_sim() -> Sim {
    let mut sim = Sim::with_file("f.txt", "lesson1");
    sim.lesson2 = vec![
        ("f.txt".to_string(), "lesson1".to_string()),
        ("g.txt".to_string(), "upstream g".to_string()),
    ];
    sim.lesson2_history = vec!["A".to_string(), "L2".to_string()];
    sim.pick = vec![("g.txt".to_string(), "upstream g".to_string())];
    sim
}

#[test]
fn clean_replay_adds_upstream_file() {
    let mut sim = lesson_sim();
    let repo = GitRepo::new("/work/student");
    let r = drive(&mut sim, |d| repo.cherry_pick("lesson1", "lesson2", d));
    assert_eq!(r, Ok(MergeType::Success));
    assert_eq!(get(&sim.files, "g.txt").as_deref(), Some("upstream g"));
    assert_eq!(
        sim.ran,
        vec![Action::Git("cherry-pick upstream/lesson1..upstream/lesson2".to_string())]
    );
    assert_eq!(sim.history, vec!["A".to_string(), "picked".to_string()]);
}

#[test]
fn conflicting_replay_takes_reference_solution() {
    let mut sim = lesson_sim();
    set(&mut sim.files, "g.txt", "student g");
    let repo = GitRepo::new("/work/student");
    let r = drive(&mut sim, |d| repo.cherry_pick("lesson1", "lesson2", d));
    assert_eq!(r, Ok(MergeType::SolutionReset));
    assert_eq!(get(&sim.files, "g.txt").as_deref(), Some("upstream g"));
    assert_eq!(sim.files, sim.lesson2);
    assert_eq!(sim.history, vec!["A".to_string(), "c1".to_string()]);
    assert_eq!(
        sim.ran[1..].to_vec(),
        vec![
            Action::Git("cherry-pick --abort".to_string()),
            Action::Git("reset --hard upstream/lesson2".to_string()),
            Action::Git("reset --soft main".to_string()),
            Action::Git("commit -m 'Override with reference solution'".to_string()),
        ]
    );
}

#[test]
fn derivation_returns_to_main_after_replay() {
    let mut sim = lesson_sim();
    set(&mut sim.files, "g.txt", "student g");
    let repo = GitRepo::new("/work/student");
    let r = drive(&mut sim, |d| repo.create_branch_from(&Strategy::Replay, "lesson1", "lesson2", d));
    assert_eq!(r, Ok(("c1".to_string(), MergeType::SolutionReset)));
    assert_eq!(sim.ran.first(), Some(&Action::Git("checkout -b lesson2".to_string())));
    assert_eq!(sim.ran.last(), Some(&Action::Git("checkout main".to_string())));
    assert!(sim.ran.contains(&Action::Git("push -u origin lesson2".to_string())));
}

#[test]
fn derivation_returns_to_main_after_patches() {
    let mut sim = Sim::with_file("f.txt", "v1");
    let repo = GitRepo::new("/work/lesson");
    let st = Strategy::Patches(strings(&["f.txt:v0>v1", "f.txt:v1>v2"]));
    let r = drive(&mut sim, |d| repo.create_branch_from(&st, "lesson1", "lesson2", d));
    assert_eq!(r, Ok(("c1".to_string(), MergeType::Success)));
    assert_eq!(sim.ran.last(), Some(&Action::Git("checkout main".to_string())));
    assert_eq!(get(&sim.files, "f.txt").as_deref(), Some("v2"));
}

#[test]
fn derivation_stops_at_failed_push() {
    let repo = GitRepo::new("/work/lesson");
    let st = Strategy::Patches(strings(&["f.txt:v0>v1"]));
    let done = vec![ok(""), ok(""), ok(""), ok(""), fail("rejected")];
    assert_eq!(
        repo.create_branch_from(&st, "a", "b", &done),
        Step::Done(Err(GitError::Failed {
            command: "git push -u origin b".to_string(),
            stderr: "rejected".to_string(),
        }))
    );
}
