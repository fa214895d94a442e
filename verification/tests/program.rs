use scope_teardown::program::{parse_flag, run};

#[test]
fn run_true_exact_sequence() {
    let trace = run(true);
    assert_eq!(trace.len(), 7);
    assert_eq!(trace[0], "calling helper()");
    assert_eq!(trace[1], "CallableResource invoked");
    assert_eq!(trace[2], "helper() returned");
    assert_eq!(trace[3], "end of main()");
    assert_eq!(trace[4], "TaggedResource (\"dog\")::drop()");
    assert_eq!(trace[5], "CallableResource::drop()");
    assert_eq!(trace[6], "TaggedResource (\"\")::drop()");
}

#[test]
fn run_false_exact_sequence() {
    let trace = run(false);
    assert_eq!(trace.len(), 5);
    assert_eq!(trace[0], "not calling helper()");
    assert_eq!(trace[1], "end of main()");
    assert_eq!(trace[2], "TaggedResource (\"dog\")::drop()");
    assert_eq!(trace[3], "CallableResource::drop()");
    assert_eq!(trace[4], "TaggedResource (\"\")::drop()");
}

#[test]
fn parse_accepts_exactly_true_and_false() {
    assert_eq!(parse_flag("true"), Some(true));
    assert_eq!(parse_flag("false"), Some(false));
}

#[test]
fn parse_rejects_other_texts() {
    assert_eq!(parse_flag("yes"), None);
    assert_eq!(parse_flag("no"), None);
    assert_eq!(parse_flag(""), None);
    assert_eq!(parse_flag("True"), None);
    assert_eq!(parse_flag("FALSE"), None);
    assert_eq!(parse_flag(" true"), None);
    assert_eq!(parse_flag("true "), None);
    assert_eq!(parse_flag("1"), None);
    assert_eq!(parse_flag("0"), None);
}

#[test]
fn teardown_markers_once_per_instance_true_branch() {
    let trace = run(true);
    let count = |needle: &str| trace.iter().filter(|line| line.as_str() == needle).count();
    assert_eq!(count("TaggedResource (\"dog\")::drop()"), 1);
    assert_eq!(count("CallableResource::drop()"), 1);
    assert_eq!(count("TaggedResource (\"\")::drop()"), 1);
}

#[test]
fn teardown_markers_once_per_instance_false_branch() {
    let trace = run(false);
    let count = |needle: &str| trace.iter().filter(|line| line.as_str() == needle).count();
    assert_eq!(count("TaggedResource (\"dog\")::drop()"), 1);
    assert_eq!(count("CallableResource::drop()"), 1);
    assert_eq!(count("TaggedResource (\"\")::drop()"), 1);
}

#[test]
fn invoked_marker_iff_true_and_between_call_markers() {
    let on = run(true);
    let pos = |trace: &Vec<String>, needle: &str| {
        trace.iter().position(|line| line.as_str() == needle)
    };
    let calling = pos(&on, "calling helper()").unwrap();
    let invoked = pos(&on, "CallableResource invoked").unwrap();
    let returned = pos(&on, "helper() returned").unwrap();
    assert!(calling < invoked);
    assert!(invoked < returned);

    let off = run(false);
    assert_eq!(pos(&off, "CallableResource invoked"), None);
}
