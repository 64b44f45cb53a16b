use nu_plugin_nnm::compose::ToValue;
use nu_plugin_nnm::manager::ManagerSnapshot;
use nu_plugin_nnm::plugin::{NuNNMPlugin, Status};
use nu_plugin_nnm::session::{LabeledError, NMConnection, ToLabeledError, ToLabeledResult};
use nu_plugin_nnm::value::ReportValue;

fn manager() -> ManagerSnapshot {
    ManagerSnapshot { version: Some("1.42.0".to_string()), ..ManagerSnapshot::default() }
}

#[test]
fn failed_session_is_the_labeled_error() {
    let outcome = Status.run(Err("org.freedesktop.DBus.Error.NoServer".to_string()));
    assert_eq!(
        outcome,
        Err(LabeledError { msg: "org.freedesktop.DBus.Error.NoServer".to_string() })
    );
}

#[test]
fn open_session_always_gives_the_report() {
    assert_eq!(Status.run(Ok(manager())), Ok(manager().to_value()));
    assert_eq!(
        Status.run(Ok(ManagerSnapshot::default())),
        Ok(ManagerSnapshot::default().to_value())
    );
}

#[test]
fn status_is_the_full_report() {
    let report = manager().status();
    assert_eq!(report, Ok(manager().to_value()));
    assert_eq!(
        report.unwrap().get("version"),
        Some(&ReportValue::Text("1.42.0".to_string()))
    );
}

#[test]
fn new_ext_passes_the_manager_on_and_labels_the_failure() {
    assert_eq!(ManagerSnapshot::new_ext(Ok(manager())), Ok(manager()));
    assert_eq!(
        ManagerSnapshot::new_ext(Err("no such name".to_string())),
        Err(LabeledError { msg: "no such name".to_string() })
    );
}

#[test]
fn to_labeled_keeps_success_and_labels_failure() {
    let ok: Result<u32, String> = Ok(3);
    assert_eq!(ok.to_labeled(), Ok(3));
    let err: Result<u32, String> = Err("boom".to_string());
    assert_eq!(err.to_labeled(), Err(LabeledError { msg: "boom".to_string() }));
}

#[test]
fn to_labeled_error_carries_the_message() {
    assert_eq!("x".to_string().to_labeled_error(), LabeledError::new("x".to_string()));
    assert_eq!(LabeledError::new("x".to_string()).msg, "x");
}

#[test]
fn command_name_and_description() {
    assert_eq!(Status.name(), "nnm status");
    assert_eq!(Status.description(), "Network Status");
}

#[test]
fn plugin_offers_the_status_command() {
    let commands = NuNNMPlugin.commands();
    assert_eq!(commands.len(), 1);
    assert_eq!(commands[0].name(), "nnm status");
}
