use baker_link_env::project::{NewProject, Project};

#[test]
fn get_path_joins_base_and_name() {
    let pj = Project { name: "myproject".to_string(), path: "/home/dev".to_string() };
    assert_eq!(pj.get_path(), "/home/dev/myproject");
}

#[test]
fn get_path_adds_no_second_separator() {
    let pj = Project { name: "myproject".to_string(), path: "/home/dev/".to_string() };
    assert_eq!(pj.get_path(), "/home/dev/myproject");
}

#[test]
fn an_absolute_name_replaces_the_base() {
    let pj = Project { name: "/abs/target".to_string(), path: "/home/dev".to_string() };
    assert_eq!(pj.get_path(), "/abs/target");
    let pj = Project { name: "/abs".to_string(), path: String::new() };
    assert_eq!(pj.get_path(), "/abs");
}

#[test]
fn get_path_with_no_base_is_the_bare_name() {
    let pj = Project { name: "myproject".to_string(), path: String::new() };
    assert_eq!(pj.get_path(), "myproject");
}

#[test]
fn fresh_form_has_the_expected_defaults() {
    let form = NewProject::default();
    assert_eq!(form.name, "myproject");
    assert_eq!(form.path, "");
    assert!(form.vscode_open_enabled);
    assert!(form.history.is_empty());
    assert_eq!(form.history_max, 10);
}

#[test]
fn history_push_records_a_new_pair() {
    let mut form = NewProject::default();
    form.name = "alpha".to_string();
    form.path = "/tmp/work".to_string();
    assert!(form.history_push());
    assert_eq!(form.history.len(), 1);
    assert_eq!(form.history[0].name, "alpha");
    assert_eq!(form.history[0].path, "/tmp/work");
}

#[test]
fn history_push_skips_a_pair_already_recorded() {
    let mut form = NewProject::default();
    form.name = "alpha".to_string();
    form.path = "/tmp/work".to_string();
    assert!(form.history_push());
    assert!(!form.history_push());
    assert_eq!(form.history.len(), 1);
}

#[test]
fn history_push_records_again_when_either_part_differs() {
    let mut form = NewProject::default();
    form.name = "alpha".to_string();
    form.path = "/tmp/work".to_string();
    assert!(form.history_push());
    form.name = "beta".to_string();
    assert!(form.history_push());
    form.path = "/tmp/other".to_string();
    assert!(form.history_push());
    assert_eq!(form.history.len(), 3);
}

#[test]
fn a_full_history_evicts_its_oldest_entry() {
    let mut form = NewProject::default();
    form.path = "/tmp/work".to_string();
    for i in 0..10 {
        form.name = format!("project{}", i);
        assert!(form.history_push());
    }
    assert_eq!(form.history.len(), 10);
    assert_eq!(form.history[0].name, "project0");

    form.name = "project10".to_string();
    assert!(form.history_push());
    assert_eq!(form.history.len(), 10);
    assert_eq!(form.history[0].name, "project1");
    assert_eq!(form.history[9].name, "project10");
}

#[test]
fn a_zero_bound_history_stores_nothing() {
    let mut form = NewProject::default();
    form.history_max = 0;
    form.name = "alpha".to_string();
    form.path = "/tmp/work".to_string();
    assert!(!form.history_push());
    assert!(form.history.is_empty());
}

#[test]
fn folder_existence_follows_the_disk() {
    let missing = Project {
        name: "no_such_project_awtvq".to_string(),
        path: "/no_such_dir_awtvq".to_string(),
    };
    assert!(!missing.is_folder_exists());
    let root = Project { name: String::new(), path: "/".to_string() };
    assert_eq!(root.get_path(), "/");
    assert!(root.is_folder_exists());
}

#[test]
fn equal_projects_compare_equal() {
    let a = Project { name: "n".to_string(), path: "p".to_string() };
    let b = Project { name: "n".to_string(), path: "p".to_string() };
    let c = Project { name: "n".to_string(), path: "q".to_string() };
    assert!(a == b);
    assert!(a != c);
}
