use passh_agent::pass::find;
use passh_agent::pass::tree_to_paths;

fn lines(v: &[&str]) -> Vec<String> {
    v.iter().map(|s| s.to_string()).collect()
}

#[test]
fn flat_tree() {
    let tree = lines(&["├── mail", "└── web"]);
    assert_eq!(tree_to_paths(&tree).unwrap(), vec!["mail", "web"]);
}

#[test]
fn nested_tree() {
    let tree = lines(&[
        "├── email",
        "│   ├── private",
        "│   └── public",
        "├── misc",
        "└── work",
        "    ├── a",
        "    └── deep",
        "        └── b",
    ]);
    assert_eq!(
        tree_to_paths(&tree).unwrap(),
        vec!["email/private", "email/public", "misc", "work/a", "work/deep/b"]
    );
}

#[test]
fn empty_tree() {
    assert!(tree_to_paths(&Vec::new()).unwrap().is_empty());
}

#[test]
fn short_line_is_an_error() {
    let tree = lines(&["├── email", "│  "]);
    assert!(tree_to_paths(&tree).is_err());
}

#[test]
fn find_filters_by_query() {
    let listing = lines(&[
        "Password Store",
        "├── email",
        "│   ├── private",
        "│   └── public",
        "└── web",
    ]);
    assert_eq!(
        find(&listing, &"pub".to_string()).unwrap(),
        vec!["email/public"]
    );
    assert_eq!(find(&listing, &"".to_string()).unwrap().len(), 3);
    assert!(find(&listing, &"zzz".to_string()).unwrap().is_empty());
    assert!(find(&Vec::new(), &"x".to_string()).is_err());
}
