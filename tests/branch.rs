use branch_picker::branch::{branch_filter, candidates, checkout, get_branches, get_current_branch};
use branch_picker::{Branch, BranchType, LocalBranch, LocalListing, RemoteBranch};

fn listing(name: Option<&str>, upstream: Option<Option<&str>>) -> LocalListing {
    LocalListing {
        name: name.map(|s| s.to_string()),
        upstream: upstream.map(|u| u.map(|s| s.to_string())),
    }
}

fn names(bs: &[Branch]) -> Vec<String> {
    bs.iter().map(|b| b.text().to_string()).collect()
}

fn sample() -> (Vec<LocalListing>, Vec<Option<String>>) {
    let locals = vec![
        listing(Some("main"), Some(Some("origin/main"))),
        listing(Some("dev"), Some(None)),
        listing(Some("broken"), None),
        listing(None, Some(Some("origin/x"))),
        listing(Some("main2"), Some(Some("origin/main"))),
    ];
    let remotes = vec![Some("origin/main".to_string()), None, Some("origin/feature".to_string())];
    (locals, remotes)
}

#[test]
fn both_kinds_locals_first() {
    let (l, r) = sample();
    let bs = get_branches(&l, &r, None);
    assert_eq!(names(&bs), vec!["main", "dev", "main2", "origin/main", "origin/feature"]);
    match &bs[3] {
        Branch::Remote(RemoteBranch { local_name, .. }) => assert_eq!(local_name.as_deref(), Some("main2")),
        _ => panic!("expected a remote branch"),
    }
    match &bs[4] {
        Branch::Remote(RemoteBranch { local_name, .. }) => assert_eq!(*local_name, None),
        _ => panic!("expected a remote branch"),
    }
}

#[test]
fn filters_pick_one_kind() {
    let (l, r) = sample();
    assert_eq!(names(&get_branches(&l, &r, Some(BranchType::Local))), vec!["main", "dev", "main2"]);
    assert_eq!(names(&get_branches(&l, &r, Some(BranchType::Remote))), vec!["origin/main", "origin/feature"]);
}

#[test]
fn flags_choose_the_filter() {
    assert_eq!(branch_filter(true, false), Some(BranchType::Remote));
    assert_eq!(branch_filter(false, true), Some(BranchType::Local));
    assert_eq!(branch_filter(false, false), None);
}

#[test]
fn current_branch_first_then_the_others() {
    let (l, r) = sample();
    let bs = get_branches(&l, &r, None);
    let current = get_current_branch("dev".to_string());
    assert_eq!(names(&candidates(&current, &bs, false)), vec!["dev", "main", "main2", "origin/main", "origin/feature"]);
    assert_eq!(names(&candidates(&current, &bs, true)), vec!["main", "main2", "origin/main", "origin/feature"]);
}

#[test]
fn checkout_arguments() {
    let local = Branch::Local(LocalBranch { name: "dev".to_string(), remote_name: None });
    assert_eq!(checkout(&local), vec!["checkout", "dev"]);
    let with_local = Branch::Remote(RemoteBranch { name: "origin/main".to_string(), local_name: Some("main".to_string()) });
    assert_eq!(checkout(&with_local), vec!["checkout", "main"]);
    let untracked = Branch::Remote(RemoteBranch { name: "origin/feature".to_string(), local_name: None });
    assert_eq!(checkout(&untracked), vec!["checkout", "-b", "origin/feature"]);
}

#[test]
fn branch_name_and_copy() {
    let b = Branch::Remote(RemoteBranch { name: "origin/x".to_string(), local_name: Some("x".to_string()) });
    let c = b.duplicate();
    assert_eq!(c.text(), "origin/x");
    assert_eq!(b.name(), "origin/x");
}
