use nu_plugin_nnm::compose::ToValue;
use nu_plugin_nnm::connection::ConnectionSnapshot;
use nu_plugin_nnm::value::ReportValue;

#[test]
fn connection_record_has_banner_and_vpn_state() {
    let snapshot = ConnectionSnapshot { banner: Some("b".to_string()), vpn_state: Some(4) };
    assert_eq!(
        snapshot.to_value(),
        ReportValue::Record(vec![
            ("banner".to_string(), ReportValue::Text("b".to_string())),
            ("vpn_state".to_string(), ReportValue::Integer(4)),
        ])
    );
}

#[test]
fn connection_with_nothing_read_has_absent_fields() {
    assert_eq!(
        ConnectionSnapshot::default().to_value(),
        ReportValue::Record(vec![
            ("banner".to_string(), ReportValue::Absent),
            ("vpn_state".to_string(), ReportValue::Absent),
        ])
    );
}

#[test]
fn one_failed_read_does_not_touch_the_other() {
    let snapshot = ConnectionSnapshot { banner: None, vpn_state: Some(5) };
    let report = snapshot.to_value();
    assert_eq!(report.get("banner"), Some(&ReportValue::Absent));
    assert_eq!(report.get("vpn_state"), Some(&ReportValue::Integer(5)));
}
