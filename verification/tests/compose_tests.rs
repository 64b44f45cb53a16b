use nu_plugin_nnm::compose::{fold_children, list_or_nothing, ToValue};
use nu_plugin_nnm::connection::ConnectionSnapshot;
use nu_plugin_nnm::device::DeviceSnapshot;
use nu_plugin_nnm::value::ReportValue;

fn device(interface: &str) -> DeviceSnapshot {
    DeviceSnapshot { interface: Some(interface.to_string()), ..DeviceSnapshot::default() }
}

#[test]
fn unfetched_list_is_absent() {
    let list: Option<Vec<Option<DeviceSnapshot>>> = None;
    assert_eq!(list_or_nothing(&list), ReportValue::Absent);
}

#[test]
fn list_of_no_references_is_an_empty_list() {
    let list: Option<Vec<Option<DeviceSnapshot>>> = Some(Vec::new());
    assert_eq!(list_or_nothing(&list), ReportValue::List(Vec::new()));
}

#[test]
fn unfetched_and_empty_lists_differ() {
    let unfetched: Option<Vec<Option<DeviceSnapshot>>> = None;
    let empty: Option<Vec<Option<DeviceSnapshot>>> = Some(Vec::new());
    assert_ne!(list_or_nothing(&unfetched), list_or_nothing(&empty));
}

#[test]
fn list_whose_children_all_failed_is_empty_not_absent() {
    let list: Option<Vec<Option<DeviceSnapshot>>> = Some(vec![None, None]);
    assert_eq!(list_or_nothing(&list), ReportValue::List(Vec::new()));
}

#[test]
fn folding_drops_the_unresolved_child_and_keeps_the_order() {
    let a = device("a");
    let c = device("c");
    let children = vec![Some(a.clone()), None, Some(c.clone())];
    let folded = fold_children(&children);
    assert_eq!(folded, vec![a.to_value(), c.to_value()]);
}

#[test]
fn folding_keeps_every_resolved_child() {
    let names = ["eth0", "wlan0", "lo", "tun0"];
    let children: Vec<Option<DeviceSnapshot>> = names.iter().map(|n| Some(device(n))).collect();
    let folded = fold_children(&children);
    assert_eq!(folded.len(), 4);
    for (node, name) in folded.iter().zip(names) {
        assert_eq!(
            node.get("interface").and_then(|i| i.get("name")),
            Some(&ReportValue::Text(name.to_string()))
        );
    }
}

#[test]
fn folding_drops_leading_and_trailing_failures() {
    let b = device("b");
    let children = vec![None, Some(b.clone()), None];
    assert_eq!(fold_children(&children), vec![b.to_value()]);
}

#[test]
fn folding_nothing_gives_nothing() {
    let children: Vec<Option<ConnectionSnapshot>> = Vec::new();
    assert_eq!(fold_children(&children), Vec::new());
}

#[test]
fn folding_two_runs_end_to_end() {
    let first = vec![Some(device("a")), None];
    let second = vec![None, Some(device("b")), Some(device("c"))];
    let mut both = first.clone();
    both.extend(second.clone());
    let mut expected = fold_children(&first);
    expected.extend(fold_children(&second));
    assert_eq!(fold_children(&both), expected);
}
