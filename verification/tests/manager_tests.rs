use nu_plugin_nnm::active::ActiveConnectionSnapshot;
use nu_plugin_nnm::compose::ToValue;
use nu_plugin_nnm::connection::ConnectionSnapshot;
use nu_plugin_nnm::decode::DecodedCode;
use nu_plugin_nnm::device::DeviceSnapshot;
use nu_plugin_nnm::manager::{capabilities_or_nothing, radio, ManagerSnapshot};
use nu_plugin_nnm::value::ReportValue;

fn text(s: &str) -> ReportValue {
    ReportValue::Text(s.to_string())
}

fn device(interface: &str) -> DeviceSnapshot {
    DeviceSnapshot { interface: Some(interface.to_string()), ..DeviceSnapshot::default() }
}

fn radio_record(enabled: ReportValue, hardware_enabled: ReportValue) -> ReportValue {
    ReportValue::Record(vec![
        ("enabled".to_string(), enabled),
        ("hardware_enabled".to_string(), hardware_enabled),
    ])
}

/// A manager of version 1.42.0 with no active connection and two device
/// references of which only the one for eth0 resolved.
fn scenario() -> ManagerSnapshot {
    ManagerSnapshot {
        active_connections: Some(Vec::new()),
        all_devices: Some(vec![None, Some(device("eth0"))]),
        devices: Some(vec![None, Some(device("eth0"))]),
        version: Some("1.42.0".to_string()),
        ..ManagerSnapshot::default()
    }
}

#[test]
fn end_to_end_scenario() {
    let report = scenario().to_value();
    assert_eq!(report.get("version"), Some(&text("1.42.0")));
    assert_eq!(report.get("active_connections"), Some(&ReportValue::List(Vec::new())));
    match report.get("devices") {
        Some(ReportValue::List(devices)) => {
            assert_eq!(devices.len(), 1);
            assert_eq!(
                devices[0].get("interface"),
                Some(&ReportValue::Record(vec![
                    ("name".to_string(), text("eth0")),
                    ("flags".to_string(), ReportValue::Absent),
                ]))
            );
        }
        other => panic!("devices is {:?}", other),
    }
    assert_eq!(
        report.get("all_devices"),
        Some(&ReportValue::List(vec![device("eth0").to_value()]))
    );
}

#[test]
fn root_record_lists_every_field_in_order() {
    let snapshot = ManagerSnapshot {
        active_connections: Some(Vec::new()),
        all_devices: Some(Vec::new()),
        capabilities: Some(vec![
            DecodedCode { raw: 1, label: Some("TEAM".to_string()) },
            DecodedCode { raw: 9, label: None },
        ]),
        connectivity: Some(DecodedCode { raw: 4, label: Some("FULL".to_string()) }),
        connectivity_check_available: Some(true),
        connectivity_check_enabled: Some(false),
        devices: Some(Vec::new()),
        metered: Some(DecodedCode { raw: 2, label: Some("NO".to_string()) }),
        networking_enabled: Some(true),
        primary_connection_type: Some("802-11-wireless".to_string()),
        startup: Some(false),
        version: Some("1.42.0".to_string()),
        wimax_enabled: None,
        wimax_hardware_enabled: None,
        wireless_enabled: Some(true),
        wireless_hardware_enabled: Some(true),
        wwan_enabled: Some(false),
        wwan_hardware_enabled: Some(true),
    };
    let expected = ReportValue::Record(vec![
        ("active_connections".to_string(), ReportValue::List(Vec::new())),
        ("all_devices".to_string(), ReportValue::List(Vec::new())),
        (
            "capabilities".to_string(),
            ReportValue::List(vec![text("TEAM"), ReportValue::Integer(9)]),
        ),
        (
            "connectivity".to_string(),
            ReportValue::Record(vec![
                ("state".to_string(), text("FULL")),
                (
                    "check".to_string(),
                    ReportValue::Record(vec![
                        ("enabled".to_string(), ReportValue::Boolean(false)),
                        ("available".to_string(), ReportValue::Boolean(true)),
                    ]),
                ),
            ]),
        ),
        ("devices".to_string(), ReportValue::List(Vec::new())),
        ("metered".to_string(), text("NO")),
        ("networking_enabled".to_string(), ReportValue::Boolean(true)),
        (
            "primary_connetion".to_string(),
            ReportValue::Record(vec![
                ("info".to_string(), ReportValue::Record(Vec::new())),
                ("type".to_string(), text("802-11-wireless")),
            ]),
        ),
        ("startup".to_string(), ReportValue::Boolean(false)),
        ("version".to_string(), text("1.42.0")),
        ("wimax".to_string(), radio_record(ReportValue::Absent, ReportValue::Absent)),
        (
            "wireless".to_string(),
            radio_record(ReportValue::Boolean(true), ReportValue::Boolean(true)),
        ),
        ("wwan".to_string(), radio_record(ReportValue::Boolean(false), ReportValue::Boolean(true))),
    ]);
    assert_eq!(snapshot.to_value(), expected);
}

#[test]
fn nothing_readable_still_gives_a_report() {
    let report = ManagerSnapshot::default().to_value();
    for key in ["active_connections", "all_devices", "capabilities", "devices"] {
        assert_eq!(report.get(key), Some(&ReportValue::Absent), "{}", key);
    }
    for key in ["metered", "networking_enabled", "startup", "version"] {
        assert_eq!(report.get(key), Some(&ReportValue::Absent), "{}", key);
    }
    assert_eq!(
        report.get("wwan"),
        Some(&radio_record(ReportValue::Absent, ReportValue::Absent))
    );
}

#[test]
fn failed_list_is_absent_while_the_others_stay() {
    let snapshot = ManagerSnapshot { all_devices: None, ..scenario() };
    let report = snapshot.to_value();
    assert_eq!(report.get("all_devices"), Some(&ReportValue::Absent));
    assert_eq!(report.get("active_connections"), Some(&ReportValue::List(Vec::new())));
    assert_eq!(
        report.get("devices"),
        Some(&ReportValue::List(vec![device("eth0").to_value()]))
    );
}

#[test]
fn active_connections_keep_their_listed_order() {
    let named = |id: &str| ActiveConnectionSnapshot {
        id: Some(id.to_string()),
        ..ActiveConnectionSnapshot::default()
    };
    let snapshot = ManagerSnapshot {
        active_connections: Some(vec![Some(named("A")), None, Some(named("C"))]),
        ..ManagerSnapshot::default()
    };
    assert_eq!(
        snapshot.to_value().get("active_connections"),
        Some(&ReportValue::List(vec![named("A").to_value(), named("C").to_value()]))
    );
}

#[test]
fn vpn_record_nests_three_levels_deep() {
    let vpn = ActiveConnectionSnapshot {
        vpn: Some(true),
        connection: Some(ConnectionSnapshot { banner: Some("b".to_string()), vpn_state: Some(4) }),
        ..ActiveConnectionSnapshot::default()
    };
    let snapshot =
        ManagerSnapshot { active_connections: Some(vec![Some(vpn)]), ..ManagerSnapshot::default() };
    let report = snapshot.to_value();
    let banner = match report.get("active_connections") {
        Some(ReportValue::List(items)) => {
            items[0].get("vpn").and_then(|v| v.get("banner")).map(|b| format!("{:?}", b))
        }
        _ => None,
    };
    assert_eq!(banner, Some(format!("{:?}", text("b"))));
}

#[test]
fn repeated_passes_over_the_same_state_agree() {
    let first = scenario().to_value();
    let second = scenario().to_value();
    assert_eq!(first, second);
    let snapshot = scenario();
    assert_eq!(snapshot.to_value(), snapshot.to_value());
}

#[test]
fn root_keys_are_unique() {
    match scenario().to_value() {
        ReportValue::Record(fields) => {
            assert_eq!(fields.len(), 13);
            for i in 0..fields.len() {
                for j in (i + 1)..fields.len() {
                    assert_ne!(fields[i].0, fields[j].0);
                }
            }
        }
        _ => panic!("not a record"),
    }
}

#[test]
fn capabilities_list() {
    assert_eq!(capabilities_or_nothing(&None), ReportValue::Absent);
    assert_eq!(capabilities_or_nothing(&Some(Vec::new())), ReportValue::List(Vec::new()));
    let codes = vec![
        DecodedCode { raw: 2, label: Some("OVS".to_string()) },
        DecodedCode { raw: 1, label: Some("TEAM".to_string()) },
        DecodedCode { raw: 77, label: None },
    ];
    assert_eq!(
        capabilities_or_nothing(&Some(codes)),
        ReportValue::List(vec![text("OVS"), text("TEAM"), ReportValue::Integer(77)])
    );
}

#[test]
fn radio_pairs_software_and_hardware_switch() {
    assert_eq!(
        radio(Some(true), None),
        radio_record(ReportValue::Boolean(true), ReportValue::Absent)
    );
}
