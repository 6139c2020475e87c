use monort::jobs::{progress_line, split_jobs};

fn args(items: &[&str]) -> Vec<String> {
    items.iter().map(|s| s.to_string()).collect()
}

#[test]
fn triples_are_taken_in_order() {
    let jobs = split_jobs(&args(&["default", "a.txt", "a.svg", "demo", "b.txt", "b.svg"]));
    assert_eq!(jobs.len(), 2);
    assert_eq!(jobs[0].table, "default");
    assert_eq!(jobs[0].input, "a.txt");
    assert_eq!(jobs[0].output, "a.svg");
    assert_eq!(jobs[1].table, "demo");
    assert_eq!(jobs[1].input, "b.txt");
    assert_eq!(jobs[1].output, "b.svg");
}

#[test]
fn trailing_one_or_two_arguments_are_dropped() {
    let one = split_jobs(&args(&["default", "a.txt", "a.svg", "demo"]));
    assert_eq!(one.len(), 1);
    assert_eq!(one[0].output, "a.svg");
    let two = split_jobs(&args(&["default", "a.txt", "a.svg", "demo", "b.txt"]));
    assert_eq!(two.len(), 1);
    assert_eq!(two[0].input, "a.txt");
}

#[test]
fn too_few_arguments_give_no_job() {
    assert_eq!(split_jobs(&args(&[])).len(), 0);
    assert_eq!(split_jobs(&args(&["default"])).len(), 0);
    assert_eq!(split_jobs(&args(&["default", "a.txt"])).len(), 0);
}

#[test]
fn progress_line_names_both_paths() {
    assert_eq!(progress_line("plus.txt", "plus.svg"), "processing plus.txt to plus.svg");
    assert_eq!(progress_line("", ""), "processing  to ");
}
