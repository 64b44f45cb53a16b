use crate::active::{
    active_reports, lemma_active_report_wf, lemma_active_reports_of_view, ActiveConnectionFacts,
    ActiveConnectionSnapshot,
};
use crate::adapter::{
    code_or_absent, code_or_nothing, flag_or_absent, flag_or_nothing, text_or_absent,
    text_or_nothing,
};
use crate::compose::{lemma_list_report_wf, list_or_nothing, list_report, ToValue};
use crate::decode::{Code, DecodedCode};
use crate::device::{
    device_reports, lemma_device_list_wf, lemma_device_reports_of_view, DeviceFacts,
    DeviceSnapshot,
};
use crate::value::{
    items_view, lemma_items_view_push, lemma_list_wf, lemma_record_of_two_wf, lemma_record_wf,
    outline, record_of_two, Report, ReportValue, ValueExt,
};
use vstd::prelude::*;

verus! {

/// What was read from the manager object and from the objects that it
/// refers to: each attribute as it came back, `None` where the read yielded
/// nothing.
#[derive(Debug, Clone, Default, PartialEq, Eq)]
pub struct ManagerSnapshot {
    /// The active connections in the order in which they were listed,
    /// `None` in the place of each one that did not resolve.
    pub active_connections: Option<Vec<Option<ActiveConnectionSnapshot>>>,
    /// Every device that the service knows, in listed order, `None` in the
    /// place of each one that did not resolve.
    pub all_devices: Option<Vec<Option<DeviceSnapshot>>>,
    pub capabilities: Option<Vec<DecodedCode>>,
    pub connectivity: Option<DecodedCode>,
    pub connectivity_check_available: Option<bool>,
    pub connectivity_check_enabled: Option<bool>,
    /// The realized devices, in listed order, `None` in the place of each
    /// one that did not resolve.
    pub devices: Option<Vec<Option<DeviceSnapshot>>>,
    pub metered: Option<DecodedCode>,
    pub networking_enabled: Option<bool>,
    pub primary_connection_type: Option<String>,
    pub startup: Option<bool>,
    pub version: Option<String>,
    pub wimax_enabled: Option<bool>,
    pub wimax_hardware_enabled: Option<bool>,
    pub wireless_enabled: Option<bool>,
    pub wireless_hardware_enabled: Option<bool>,
    pub wwan_enabled: Option<bool>,
    pub wwan_hardware_enabled: Option<bool>,
}

/// What a `ManagerSnapshot` denotes.
pub struct ManagerFacts {
    pub active_connections: Option<Seq<Option<ActiveConnectionFacts>>>,
    pub all_devices: Option<Seq<Option<DeviceFacts>>>,
    pub capabilities: Option<Seq<Code>>,
    pub connectivity: Option<Code>,
    pub connectivity_check_available: Option<bool>,
    pub connectivity_check_enabled: Option<bool>,
    pub devices: Option<Seq<Option<DeviceFacts>>>,
    pub metered: Option<Code>,
    pub networking_enabled: Option<bool>,
    pub primary_connection_type: Option<Seq<char>>,
    pub startup: Option<bool>,
    pub version: Option<Seq<char>>,
    pub wimax_enabled: Option<bool>,
    pub wimax_hardware_enabled: Option<bool>,
    pub wireless_enabled: Option<bool>,
    pub wireless_hardware_enabled: Option<bool>,
    pub wwan_enabled: Option<bool>,
    pub wwan_hardware_enabled: Option<bool>,
}

impl View for ManagerSnapshot {
    type V = ManagerFacts;

    open spec fn view(&self) -> ManagerFacts {
        ManagerFacts {
            active_connections: self.active_connections.deep_view(),
            all_devices: self.all_devices.deep_view(),
            capabilities: self.capabilities.deep_view(),
            connectivity: self.connectivity.deep_view(),
            connectivity_check_available: self.connectivity_check_available,
            connectivity_check_enabled: self.connectivity_check_enabled,
            devices: self.devices.deep_view(),
            metered: self.metered.deep_view(),
            networking_enabled: self.networking_enabled,
            primary_connection_type: self.primary_connection_type.deep_view(),
            startup: self.startup,
            version: self.version.deep_view(),
            wimax_enabled: self.wimax_enabled,
            wimax_hardware_enabled: self.wimax_hardware_enabled,
            wireless_enabled: self.wireless_enabled,
            wireless_hardware_enabled: self.wireless_hardware_enabled,
            wwan_enabled: self.wwan_enabled,
            wwan_hardware_enabled: self.wwan_hardware_enabled,
        }
    }
}

impl DeepView for ManagerSnapshot {
    type V = ManagerFacts;

    open spec fn deep_view(&self) -> ManagerFacts {
        self.view()
    }
}

/// The reports of a run of codes, code by code.
pub open spec fn code_reports(codes: Seq<Code>) -> Seq<Report> {
    Seq::new(codes.len(), |i: int| codes[i].report())
}

/// What the list of capabilities reads as: absent where the list could not
/// be fetched, else one node for each code, in listed order.
pub open spec fn capabilities_report(list: Option<Seq<Code>>) -> Report {
    match list {
        Some(codes) => Report::List(code_reports(codes)),
        None => Report::Absent,
    }
}

/// The record of a technology that can be switched on and off in software
/// and in hardware.
pub open spec fn radio_report(enabled: Option<bool>, hardware_enabled: Option<bool>) -> Report {
    Report::Record(
        seq![
            ("enabled"@, flag_or_absent(enabled)),
            ("hardware_enabled"@, flag_or_absent(hardware_enabled)),
        ],
    )
}

impl ManagerFacts {
    /// The record of how connected the host is and of the check that finds
    /// it out.
    pub open spec fn connectivity_report(self) -> Report {
        Report::Record(
            seq![
                ("state"@, code_or_absent(self.connectivity)),
                (
                    "check"@,
                    Report::Record(
                        seq![
                            ("enabled"@, flag_or_absent(self.connectivity_check_enabled)),
                            ("available"@, flag_or_absent(self.connectivity_check_available)),
                        ],
                    ),
                ),
            ],
        )
    }

    /// The record of the primary connection, whose details are not read.
    pub open spec fn primary_connection_report(self) -> Report {
        Report::Record(
            seq![
                ("info"@, Report::Record(Seq::empty())),
                ("type"@, text_or_absent(self.primary_connection_type)),
            ],
        )
    }

    /// The root record of a pass: the attributes of the manager and the
    /// lists of its children. The record of the primary connection stands
    /// under the key `primary_connetion`, spelled so.
    pub open spec fn report(self) -> Report {
        Report::Record(
            seq![
                ("active_connections"@, list_report(active_reports(self.active_connections))),
                ("all_devices"@, list_report(device_reports(self.all_devices))),
                ("capabilities"@, capabilities_report(self.capabilities)),
                ("connectivity"@, self.connectivity_report()),
                ("devices"@, list_report(device_reports(self.devices))),
                ("metered"@, code_or_absent(self.metered)),
                ("networking_enabled"@, flag_or_absent(self.networking_enabled)),
                ("primary_connetion"@, self.primary_connection_report()),
                ("startup"@, flag_or_absent(self.startup)),
                ("version"@, text_or_absent(self.version)),
                ("wimax"@, radio_report(self.wimax_enabled, self.wimax_hardware_enabled)),
                ("wireless"@, radio_report(self.wireless_enabled, self.wireless_hardware_enabled)),
                ("wwan"@, radio_report(self.wwan_enabled, self.wwan_hardware_enabled)),
            ],
        )
    }
}

/// The node of the list of capabilities.
pub fn capabilities_or_nothing(list: &Option<Vec<DecodedCode>>) -> (r: ReportValue)
    ensures
        r@ == capabilities_report(list.deep_view()),
{
    match list {
        Some(codes) => {
            let mut out: Vec<ReportValue> = Vec::new();
            let mut i: usize = 0;
            while i < codes.len()
                invariant
                    i <= codes.len(),
                    items_view(out@) == code_reports(codes.deep_view()).take(i as int),
                decreases codes.len() - i,
            {
                let node = codes[i].to_value();
                proof {
                    lemma_items_view_push(out@, node);
                    assert(code_reports(codes.deep_view()).take(i + 1) =~= code_reports(
                        codes.deep_view(),
                    ).take(i as int).push(node@));
                }
                out.push(node);
                i += 1;
            }
            assert(code_reports(codes.deep_view()).take(i as int) =~= code_reports(
                codes.deep_view(),
            ));
            ReportValue::list(out)
        },
        None => ReportValue::nothing(),
    }
}

/// The node of a technology that can be switched on and off in software and
/// in hardware.
pub fn radio(enabled: Option<bool>, hardware_enabled: Option<bool>) -> (r: ReportValue)
    ensures
        r@ == radio_report(enabled, hardware_enabled),
{
    record_of_two(
        ("enabled", flag_or_nothing(enabled)),
        ("hardware_enabled", flag_or_nothing(hardware_enabled)),
    )
}

impl ToValue for ManagerSnapshot {
    open spec fn report(&self) -> Report {
        self@.report()
    }

    fn to_value(&self) -> (r: ReportValue) {
        let active_connections = list_or_nothing(&self.active_connections);
        let all_devices = list_or_nothing(&self.all_devices);
        let capabilities = capabilities_or_nothing(&self.capabilities);
        let connectivity = code_or_nothing(&self.connectivity);
        let connectivity_check_available = flag_or_nothing(self.connectivity_check_available);
        let connectivity_check_enabled = flag_or_nothing(self.connectivity_check_enabled);
        let devices = list_or_nothing(&self.devices);
        let metered = code_or_nothing(&self.metered);
        let networking_enabled = flag_or_nothing(self.networking_enabled);
        let primary_connection_type = text_or_nothing(&self.primary_connection_type);
        let startup = flag_or_nothing(self.startup);
        let version = text_or_nothing(&self.version);
        let wimax = radio(self.wimax_enabled, self.wimax_hardware_enabled);
        let wireless = radio(self.wireless_enabled, self.wireless_hardware_enabled);
        let wwan = radio(self.wwan_enabled, self.wwan_hardware_enabled);
        proof {
            lemma_active_reports_of_view(self.active_connections);
            lemma_device_reports_of_view(self.all_devices);
            lemma_device_reports_of_view(self.devices);
        }

        let check = record_of_two(
            ("enabled", connectivity_check_enabled),
            ("available", connectivity_check_available),
        );
        let connectivity_group = record_of_two(("state", connectivity), ("check", check));
        let info = ReportValue::record_str_iter(Vec::new());
        assert(info@->Record_0 =~= Seq::empty());
        let primary_connection = record_of_two(("info", info), ("type", primary_connection_type));

        let r = ReportValue::record_str_iter(
            vec![
                ("active_connections", active_connections),
                ("all_devices", all_devices),
                ("capabilities", capabilities),
                ("connectivity", connectivity_group),
                ("devices", devices),
                ("metered", metered),
                ("networking_enabled", networking_enabled),
                ("primary_connetion", primary_connection),
                ("startup", startup),
                ("version", version),
                ("wimax", wimax),
                ("wireless", wireless),
                ("wwan", wwan),
            ],
        );
        proof {
            assert(r@->Record_0 =~= self@.report()->Record_0);
            lemma_manager_report_wf(self@);
        }
        r
    }
}

/// The list that a fetched list of active connections reads as is well
/// formed.
pub proof fn lemma_active_list_wf(list: Option<Seq<Option<ActiveConnectionFacts>>>)
    ensures
        list_report(active_reports(list)).wf(),
{
    let reports = active_reports(list);
    if list is Some {
        let children = list->Some_0;
        assert forall|i: int|
            0 <= i < reports->Some_0.len() && (#[trigger] reports->Some_0[i]) is Some implies reports->Some_0[i]->Some_0.wf() by {
            lemma_active_report_wf(children[i]->Some_0);
        }
    }
    lemma_list_report_wf(reports);
}

/// The record of a switchable technology is well formed.
pub proof fn lemma_radio_report_wf(enabled: Option<bool>, hardware_enabled: Option<bool>)
    ensures
        radio_report(enabled, hardware_enabled).wf(),
{
    reveal_strlit("enabled");
    reveal_strlit("hardware_enabled");
    assert(outline("enabled"@) == (7nat, 'e', 'n', 'd'));
    assert(outline("hardware_enabled"@) == (16nat, 'h', 'a', 'd'));
    lemma_record_of_two_wf(
        ("enabled"@, flag_or_absent(enabled)),
        ("hardware_enabled"@, flag_or_absent(hardware_enabled)),
    );
}

/// No record of the root report names a key twice.
pub proof fn lemma_manager_report_wf(facts: ManagerFacts)
    ensures
        facts.report().wf(),
{
    reveal_strlit("active_connections");
    reveal_strlit("all_devices");
    reveal_strlit("capabilities");
    reveal_strlit("connectivity");
    reveal_strlit("devices");
    reveal_strlit("metered");
    reveal_strlit("networking_enabled");
    reveal_strlit("primary_connetion");
    reveal_strlit("startup");
    reveal_strlit("version");
    reveal_strlit("wimax");
    reveal_strlit("wireless");
    reveal_strlit("wwan");
    reveal_strlit("state");
    reveal_strlit("check");
    reveal_strlit("enabled");
    reveal_strlit("available");
    reveal_strlit("info");
    reveal_strlit("type");
    assert(outline("active_connections"@) == (18nat, 'a', 'c', 's'));
    assert(outline("all_devices"@) == (11nat, 'a', 'l', 's'));
    assert(outline("capabilities"@) == (12nat, 'c', 'a', 's'));
    assert(outline("connectivity"@) == (12nat, 'c', 'o', 'y'));
    assert(outline("devices"@) == (7nat, 'd', 'e', 's'));
    assert(outline("metered"@) == (7nat, 'm', 'e', 'd'));
    assert(outline("networking_enabled"@) == (18nat, 'n', 'e', 'd'));
    assert(outline("primary_connetion"@) == (17nat, 'p', 'r', 'n'));
    assert(outline("startup"@) == (7nat, 's', 't', 'p'));
    assert(outline("version"@) == (7nat, 'v', 'e', 'n'));
    assert(outline("wimax"@) == (5nat, 'w', 'i', 'x'));
    assert(outline("wireless"@) == (8nat, 'w', 'i', 's'));
    assert(outline("wwan"@) == (4nat, 'w', 'w', 'n'));
    assert(outline("state"@) == (5nat, 's', 't', 'e'));
    assert(outline("check"@) == (5nat, 'c', 'h', 'k'));
    assert(outline("enabled"@) == (7nat, 'e', 'n', 'd'));
    assert(outline("available"@) == (9nat, 'a', 'v', 'e'));
    assert(outline("info"@) == (4nat, 'i', 'n', 'o'));
    assert(outline("type"@) == (4nat, 't', 'y', 'e'));
    lemma_active_list_wf(facts.active_connections);
    lemma_device_list_wf(facts.all_devices);
    lemma_device_list_wf(facts.devices);
    if facts.capabilities is Some {
        lemma_list_wf(code_reports(facts.capabilities->Some_0));
    }
    lemma_record_of_two_wf(
        ("enabled"@, flag_or_absent(facts.connectivity_check_enabled)),
        ("available"@, flag_or_absent(facts.connectivity_check_available)),
    );
    lemma_record_of_two_wf(
        ("state"@, code_or_absent(facts.connectivity)),
        (
            "check"@,
            Report::Record(
                seq![
                    ("enabled"@, flag_or_absent(facts.connectivity_check_enabled)),
                    ("available"@, flag_or_absent(facts.connectivity_check_available)),
                ],
            ),
        ),
    );
    lemma_record_wf(Seq::empty());
    lemma_record_of_two_wf(
        ("info"@, Report::Record(Seq::empty())),
        ("type"@, text_or_absent(facts.primary_connection_type)),
    );
    lemma_radio_report_wf(facts.wimax_enabled, facts.wimax_hardware_enabled);
    lemma_radio_report_wf(facts.wireless_enabled, facts.wireless_hardware_enabled);
    lemma_radio_report_wf(facts.wwan_enabled, facts.wwan_hardware_enabled);
    lemma_record_wf(facts.report()->Record_0);
}

/// A pass is a function of the state that it reads: two snapshots that
/// denote the same facts have the same report, list by list in the order in
/// which the references were listed.
pub proof fn lemma_same_facts_same_report(first: ManagerSnapshot, second: ManagerSnapshot)
    requires
        first@ == second@,
    ensures
        first.report() == second.report(),
{
}

} // verus!
