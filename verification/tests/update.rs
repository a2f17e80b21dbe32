use anda::build::defs::Defs;
use anda::update::{is_filtered_out, merge_labels, runs_update, sort_tasks, task_name, update_report};

fn defs(v: &[(&str, &str)]) -> Defs {
    let mut d = Defs::new();
    for (k, x) in v {
        d.insert(k.to_string(), x.to_string());
    }
    d
}

#[test]
fn global_labels_override_own() {
    let m = merge_labels(&defs(&[("a", "1"), ("b", "2")]), &defs(&[("b", "3"), ("c", "4")]));
    assert_eq!(m.get("a"), Some("1".to_owned()));
    assert_eq!(m.get("b"), Some("3".to_owned()));
    assert_eq!(m.get("c"), Some("4".to_owned()));
}

#[test]
fn filters_reject_other_values() {
    let labels = defs(&[("arch", "x86_64")]);
    assert!(is_filtered_out(&labels, &defs(&[("arch", "aarch64")])));
    assert!(!is_filtered_out(&labels, &defs(&[("arch", "x86_64")])));
    assert!(!is_filtered_out(&labels, &defs(&[("large", "1")])));
    assert!(runs_update(true, &labels, &Defs::new(), &defs(&[("arch", "x86_64")])));
    assert!(!runs_update(false, &labels, &Defs::new(), &Defs::new()));
    assert!(!runs_update(true, &labels, &defs(&[("arch", "i686")]), &defs(&[("arch", "x86_64")])));
}

#[test]
fn task_names() {
    assert_eq!(task_name("foo", &Some(vec!["bar".to_owned(), "baz".to_owned()])), "bar");
    assert_eq!(task_name("foo", &Some(vec![])), "foo");
    assert_eq!(task_name("foo", &None), "foo");
}

#[test]
fn summary_of_an_update() {
    let tasks = sort_tasks(vec![("a".to_owned(), 5), ("b".to_owned(), 10), ("c".to_owned(), 7)]);
    assert_eq!(tasks, vec![("b".to_owned(), 10), ("c".to_owned(), 7), ("a".to_owned(), 5)]);
    let r = update_report(&tasks, 4, 3);
    let expected = format!(
        "\nFinished running 3/4 tasks, 0 failed fatally.\nHere is a list of unfiltered tasks:\n\nNo.    Time/ms Project/alias\n═════╤════════╤═{}\n1    ┃     10 ┃ b\n2    │      7 │ c\n3    ┃      5 ┃ a\n",
        "═".repeat(13)
    );
    assert_eq!(r, expected);
}

#[test]
fn summary_widens_for_long_names() {
    let name = "a-very-long-project-name";
    let r = update_report(&vec![(name.to_owned(), 1234567)], 1, 2);
    assert!(r.contains("1 failed fatally."));
    assert!(r.contains(&format!("═════╤════════╤═{}\n", "═".repeat(name.len()))));
    assert!(r.ends_with(&format!("1    ┃1234567 ┃ {name}\n")));
    let empty = update_report(&vec![], 0, 0);
    assert!(empty.ends_with(&format!("═{}\n", "═".repeat(13))));
}
