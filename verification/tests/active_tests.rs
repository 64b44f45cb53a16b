use nu_plugin_nnm::active::ActiveConnectionSnapshot;
use nu_plugin_nnm::compose::ToValue;
use nu_plugin_nnm::connection::ConnectionSnapshot;
use nu_plugin_nnm::decode::DecodedCode;
use nu_plugin_nnm::device::DeviceSnapshot;
use nu_plugin_nnm::value::ReportValue;

fn text(s: &str) -> ReportValue {
    ReportValue::Text(s.to_string())
}

fn reachable_connection() -> ConnectionSnapshot {
    ConnectionSnapshot { banner: Some("b".to_string()), vpn_state: Some(4) }
}

#[test]
fn vpn_flag_true_nests_the_connection_record() {
    let snapshot = ActiveConnectionSnapshot {
        vpn: Some(true),
        connection: Some(reachable_connection()),
        ..ActiveConnectionSnapshot::default()
    };
    assert_eq!(
        snapshot.to_value().get("vpn"),
        Some(&ReportValue::Record(vec![
            ("banner".to_string(), text("b")),
            ("vpn_state".to_string(), ReportValue::Integer(4)),
        ]))
    );
}

#[test]
fn vpn_flag_false_is_absent() {
    let snapshot = ActiveConnectionSnapshot {
        vpn: Some(false),
        connection: Some(reachable_connection()),
        ..ActiveConnectionSnapshot::default()
    };
    assert_eq!(snapshot.to_value().get("vpn"), Some(&ReportValue::Absent));
}

#[test]
fn vpn_flag_unreadable_is_absent() {
    let snapshot = ActiveConnectionSnapshot {
        vpn: None,
        connection: Some(reachable_connection()),
        ..ActiveConnectionSnapshot::default()
    };
    assert_eq!(snapshot.to_value().get("vpn"), Some(&ReportValue::Absent));
}

#[test]
fn vpn_flag_true_with_unreachable_connection_is_absent() {
    let snapshot = ActiveConnectionSnapshot {
        vpn: Some(true),
        connection: None,
        ..ActiveConnectionSnapshot::default()
    };
    assert_eq!(snapshot.to_value().get("vpn"), Some(&ReportValue::Absent));
}

#[test]
fn connection_is_wanted_only_for_a_flag_read_as_true() {
    assert!(ActiveConnectionSnapshot::wants_connection(Some(true)));
    assert!(!ActiveConnectionSnapshot::wants_connection(Some(false)));
    assert!(!ActiveConnectionSnapshot::wants_connection(None));
}

#[test]
fn active_connection_record_lists_every_attribute_in_order() {
    let eth0 = DeviceSnapshot { interface: Some("eth0".to_string()), ..DeviceSnapshot::default() };
    let snapshot = ActiveConnectionSnapshot {
        default: Some(true),
        default6: Some(false),
        devices: Some(vec![Some(eth0.clone())]),
        id: Some("Wired connection 1".to_string()),
        state: Some(DecodedCode { raw: 2, label: Some("ACTIVATED".to_string()) }),
        state_flags: Some(DecodedCode { raw: 92, label: None }),
        type_: Some("802-3-ethernet".to_string()),
        uuid: Some("4a4d7f9e-0000-4000-8000-000000000001".to_string()),
        vpn: Some(false),
        connection: None,
    };
    assert_eq!(
        snapshot.to_value(),
        ReportValue::Record(vec![
            ("default".to_string(), ReportValue::Boolean(true)),
            ("default6".to_string(), ReportValue::Boolean(false)),
            ("devices".to_string(), ReportValue::List(vec![eth0.to_value()])),
            ("id".to_string(), text("Wired connection 1")),
            ("state".to_string(), text("ACTIVATED")),
            ("state_flags".to_string(), ReportValue::Integer(92)),
            ("type".to_string(), text("802-3-ethernet")),
            ("uuid".to_string(), text("4a4d7f9e-0000-4000-8000-000000000001")),
            ("vpn".to_string(), ReportValue::Absent),
        ])
    );
}

#[test]
fn active_connection_without_device_list_has_absent_devices() {
    let snapshot = ActiveConnectionSnapshot { devices: None, ..ActiveConnectionSnapshot::default() };
    assert_eq!(snapshot.to_value().get("devices"), Some(&ReportValue::Absent));
    let snapshot =
        ActiveConnectionSnapshot { devices: Some(Vec::new()), ..ActiveConnectionSnapshot::default() };
    assert_eq!(snapshot.to_value().get("devices"), Some(&ReportValue::List(Vec::new())));
}

#[test]
fn active_connection_drops_the_device_that_did_not_resolve() {
    let a = DeviceSnapshot { interface: Some("a".to_string()), ..DeviceSnapshot::default() };
    let c = DeviceSnapshot { interface: Some("c".to_string()), ..DeviceSnapshot::default() };
    let snapshot = ActiveConnectionSnapshot {
        devices: Some(vec![Some(a.clone()), None, Some(c.clone())]),
        ..ActiveConnectionSnapshot::default()
    };
    assert_eq!(
        snapshot.to_value().get("devices"),
        Some(&ReportValue::List(vec![a.to_value(), c.to_value()]))
    );
}
