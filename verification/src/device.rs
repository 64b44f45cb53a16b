use crate::adapter::{
    address_or_absent, address_or_nothing, code_or_absent, code_or_nothing, flag_or_absent,
    flag_or_nothing, number_or_absent, number_or_nothing, text_or_absent, text_or_nothing,
};
use crate::compose::{fetched_reports, lemma_list_report_wf, list_report, ToValue};
use crate::decode::{Code, DecodedCode};
use crate::value::{
    lemma_record_of_two_wf, lemma_record_wf, outline, record_of_two, Report, ReportValue, ValueExt,
};
use vstd::prelude::*;

verus! {

/// What was read from one device object: each attribute as it came back,
/// `None` where the read yielded nothing.
#[derive(Debug, Clone, Default, PartialEq, Eq)]
pub struct DeviceSnapshot {
    pub capabilities: Option<DecodedCode>,
    pub driver: Option<String>,
    pub driver_version: Option<String>,
    pub firmware_missing: Option<bool>,
    pub firmware_version: Option<String>,
    pub hw_address: Option<String>,
    pub interface: Option<String>,
    pub interface_flags: Option<DecodedCode>,
    pub ip4_address: Option<u32>,
    pub ip4_connectivity: Option<DecodedCode>,
    pub ip6_connectivity: Option<DecodedCode>,
    pub ip_interface: Option<String>,
    pub managed: Option<bool>,
    pub metered: Option<DecodedCode>,
    pub mtu: Option<u32>,
    pub nm_plugin_missing: Option<bool>,
    pub path: Option<String>,
    pub physical_port_id: Option<String>,
    pub real: Option<bool>,
    /// The state of the device and the reason for it, which are read
    /// together.
    pub state_reason: Option<(DecodedCode, DecodedCode)>,
    pub udi: Option<String>,
}

/// What a `DeviceSnapshot` denotes.
pub struct DeviceFacts {
    pub capabilities: Option<Code>,
    pub driver: Option<Seq<char>>,
    pub driver_version: Option<Seq<char>>,
    pub firmware_missing: Option<bool>,
    pub firmware_version: Option<Seq<char>>,
    pub hw_address: Option<Seq<char>>,
    pub interface: Option<Seq<char>>,
    pub interface_flags: Option<Code>,
    pub ip4_address: Option<u32>,
    pub ip4_connectivity: Option<Code>,
    pub ip6_connectivity: Option<Code>,
    pub ip_interface: Option<Seq<char>>,
    pub managed: Option<bool>,
    pub metered: Option<Code>,
    pub mtu: Option<u32>,
    pub nm_plugin_missing: Option<bool>,
    pub path: Option<Seq<char>>,
    pub physical_port_id: Option<Seq<char>>,
    pub real: Option<bool>,
    pub state_reason: Option<(Code, Code)>,
    pub udi: Option<Seq<char>>,
}

impl View for DeviceSnapshot {
    type V = DeviceFacts;

    open spec fn view(&self) -> DeviceFacts {
        DeviceFacts {
            capabilities: self.capabilities.deep_view(),
            driver: self.driver.deep_view(),
            driver_version: self.driver_version.deep_view(),
            firmware_missing: self.firmware_missing,
            firmware_version: self.firmware_version.deep_view(),
            hw_address: self.hw_address.deep_view(),
            interface: self.interface.deep_view(),
            interface_flags: self.interface_flags.deep_view(),
            ip4_address: self.ip4_address,
            ip4_connectivity: self.ip4_connectivity.deep_view(),
            ip6_connectivity: self.ip6_connectivity.deep_view(),
            ip_interface: self.ip_interface.deep_view(),
            managed: self.managed,
            metered: self.metered.deep_view(),
            mtu: self.mtu,
            nm_plugin_missing: self.nm_plugin_missing,
            path: self.path.deep_view(),
            physical_port_id: self.physical_port_id.deep_view(),
            real: self.real,
            state_reason: self.state_reason.deep_view(),
            udi: self.udi.deep_view(),
        }
    }
}

impl DeepView for DeviceSnapshot {
    type V = DeviceFacts;

    open spec fn deep_view(&self) -> DeviceFacts {
        self.view()
    }
}

impl DeviceFacts {
    /// The state of the device, absent where state and reason were not read.
    pub open spec fn state(self) -> Option<Code> {
        match self.state_reason {
            Some(pair) => Some(pair.0),
            None => None,
        }
    }

    /// The reason for the state, absent where state and reason were not
    /// read.
    pub open spec fn reason(self) -> Option<Code> {
        match self.state_reason {
            Some(pair) => Some(pair.1),
            None => None,
        }
    }

    /// The record of a device. Attributes that belong together are grouped
    /// in records of their own: driver, firmware, interface, ip4 and ip6.
    pub open spec fn report(self) -> Report {
        Report::Record(
            seq![
                ("capabilities"@, code_or_absent(self.capabilities)),
                (
                    "driver"@,
                    Report::Record(
                        seq![
                            ("name"@, text_or_absent(self.driver)),
                            ("version"@, text_or_absent(self.driver_version)),
                        ],
                    ),
                ),
                (
                    "firmware"@,
                    Report::Record(
                        seq![
                            ("missing"@, flag_or_absent(self.firmware_missing)),
                            ("version"@, text_or_absent(self.firmware_version)),
                        ],
                    ),
                ),
                ("hw_address"@, text_or_absent(self.hw_address)),
                (
                    "interface"@,
                    Report::Record(
                        seq![
                            ("name"@, text_or_absent(self.interface)),
                            ("flags"@, code_or_absent(self.interface_flags)),
                        ],
                    ),
                ),
                (
                    "ip4"@,
                    Report::Record(
                        seq![
                            ("address"@, address_or_absent(self.ip4_address)),
                            ("connectivity"@, code_or_absent(self.ip4_connectivity)),
                        ],
                    ),
                ),
                (
                    "ip6"@,
                    Report::Record(seq![("connectivity"@, code_or_absent(self.ip6_connectivity))]),
                ),
                ("ip_interface"@, text_or_absent(self.ip_interface)),
                ("managed"@, flag_or_absent(self.managed)),
                ("metered"@, code_or_absent(self.metered)),
                ("mtu"@, number_or_absent(self.mtu)),
                ("nm_plugin_missing"@, flag_or_absent(self.nm_plugin_missing)),
                ("path"@, text_or_absent(self.path)),
                ("physical_port_id"@, text_or_absent(self.physical_port_id)),
                ("real"@, flag_or_absent(self.real)),
                ("state"@, code_or_absent(self.state())),
                ("reason"@, code_or_absent(self.reason())),
                ("udi"@, text_or_absent(self.udi)),
            ],
        )
    }
}

impl ToValue for DeviceSnapshot {
    open spec fn report(&self) -> Report {
        self@.report()
    }

    fn to_value(&self) -> (r: ReportValue) {
        let capabilities = code_or_nothing(&self.capabilities);
        let driver = text_or_nothing(&self.driver);
        let driver_version = text_or_nothing(&self.driver_version);
        let firmware_missing = flag_or_nothing(self.firmware_missing);
        let firmware_version = text_or_nothing(&self.firmware_version);
        let hw_address = text_or_nothing(&self.hw_address);
        let interface = text_or_nothing(&self.interface);
        let interface_flags = code_or_nothing(&self.interface_flags);
        let ip4_address = address_or_nothing(self.ip4_address);
        let ip4_connectivity = code_or_nothing(&self.ip4_connectivity);
        let ip6_connectivity = code_or_nothing(&self.ip6_connectivity);
        let ip_interface = text_or_nothing(&self.ip_interface);
        let managed = flag_or_nothing(self.managed);
        let metered = code_or_nothing(&self.metered);
        let mtu = number_or_nothing(self.mtu);
        let nm_plugin_missing = flag_or_nothing(self.nm_plugin_missing);
        let path = text_or_nothing(&self.path);
        let physical_port_id = text_or_nothing(&self.physical_port_id);
        let is_real = flag_or_nothing(self.real);
        let (state, reason) = match &self.state_reason {
            Some((state, reason)) => (state.to_value(), reason.to_value()),
            None => (ReportValue::nothing(), ReportValue::nothing()),
        };
        let udi = text_or_nothing(&self.udi);

        let driver_group = record_of_two(("name", driver), ("version", driver_version));
        let firmware_group = record_of_two(
            ("missing", firmware_missing),
            ("version", firmware_version),
        );
        let interface_group = record_of_two(("name", interface), ("flags", interface_flags));
        let ip4_group = record_of_two(("address", ip4_address), ("connectivity", ip4_connectivity));
        let ip6_group = ReportValue::record_str_iter(vec![("connectivity", ip6_connectivity)]);
        assert(ip6_group@->Record_0 =~= seq![
            ("connectivity"@, code_or_absent(self@.ip6_connectivity)),
        ]);

        let r = ReportValue::record_str_iter(
            vec![
                ("capabilities", capabilities),
                ("driver", driver_group),
                ("firmware", firmware_group),
                ("hw_address", hw_address),
                ("interface", interface_group),
                ("ip4", ip4_group),
                ("ip6", ip6_group),
                ("ip_interface", ip_interface),
                ("managed", managed),
                ("metered", metered),
                ("mtu", mtu),
                ("nm_plugin_missing", nm_plugin_missing),
                ("path", path),
                ("physical_port_id", physical_port_id),
                ("real", is_real),
                ("state", state),
                ("reason", reason),
                ("udi", udi),
            ],
        );
        proof {
            assert(r@->Record_0 =~= self@.report()->Record_0);
            lemma_device_report_wf(self@);
        }
        r
    }
}

/// The reports of a fetched list of devices, position by position, or
/// `None` where the list could not be fetched.
pub open spec fn device_reports(list: Option<Seq<Option<DeviceFacts>>>) -> Option<
    Seq<Option<Report>>,
> {
    match list {
        Some(children) => Some(
            Seq::new(
                children.len(),
                |i: int|
                    match children[i] {
                        Some(device) => Some(device.report()),
                        None => None,
                    },
            ),
        ),
        None => None,
    }
}

/// The reports of a list of device snapshots are those of what the
/// snapshots denote.
pub proof fn lemma_device_reports_of_view(list: Option<Vec<Option<DeviceSnapshot>>>)
    ensures
        fetched_reports(list) == device_reports(list.deep_view()),
{
}

/// No record of a device's report names a key twice.
pub proof fn lemma_device_report_wf(facts: DeviceFacts)
    ensures
        facts.report().wf(),
{
    reveal_strlit("capabilities");
    reveal_strlit("driver");
    reveal_strlit("firmware");
    reveal_strlit("hw_address");
    reveal_strlit("interface");
    reveal_strlit("ip4");
    reveal_strlit("ip6");
    reveal_strlit("ip_interface");
    reveal_strlit("managed");
    reveal_strlit("metered");
    reveal_strlit("mtu");
    reveal_strlit("nm_plugin_missing");
    reveal_strlit("path");
    reveal_strlit("physical_port_id");
    reveal_strlit("real");
    reveal_strlit("state");
    reveal_strlit("reason");
    reveal_strlit("udi");
    reveal_strlit("name");
    reveal_strlit("version");
    reveal_strlit("missing");
    reveal_strlit("flags");
    reveal_strlit("address");
    reveal_strlit("connectivity");
    assert(outline("capabilities"@) == (12nat, 'c', 'a', 's'));
    assert(outline("driver"@) == (6nat, 'd', 'r', 'r'));
    assert(outline("firmware"@) == (8nat, 'f', 'i', 'e'));
    assert(outline("hw_address"@) == (10nat, 'h', 'w', 's'));
    assert(outline("interface"@) == (9nat, 'i', 'n', 'e'));
    assert(outline("ip4"@) == (3nat, 'i', 'p', '4'));
    assert(outline("ip6"@) == (3nat, 'i', 'p', '6'));
    assert(outline("ip_interface"@) == (12nat, 'i', 'p', 'e'));
    assert(outline("managed"@) == (7nat, 'm', 'a', 'd'));
    assert(outline("metered"@) == (7nat, 'm', 'e', 'd'));
    assert(outline("mtu"@) == (3nat, 'm', 't', 'u'));
    assert(outline("nm_plugin_missing"@) == (17nat, 'n', 'm', 'g'));
    assert(outline("path"@) == (4nat, 'p', 'a', 'h'));
    assert(outline("physical_port_id"@) == (16nat, 'p', 'h', 'd'));
    assert(outline("real"@) == (4nat, 'r', 'e', 'l'));
    assert(outline("state"@) == (5nat, 's', 't', 'e'));
    assert(outline("reason"@) == (6nat, 'r', 'e', 'n'));
    assert(outline("udi"@) == (3nat, 'u', 'd', 'i'));
    assert(outline("name"@) == (4nat, 'n', 'a', 'e'));
    assert(outline("version"@) == (7nat, 'v', 'e', 'n'));
    assert(outline("missing"@) == (7nat, 'm', 'i', 'g'));
    assert(outline("flags"@) == (5nat, 'f', 'l', 's'));
    assert(outline("address"@) == (7nat, 'a', 'd', 's'));
    assert(outline("connectivity"@) == (12nat, 'c', 'o', 'y'));
    lemma_record_of_two_wf(
        ("name"@, text_or_absent(facts.driver)),
        ("version"@, text_or_absent(facts.driver_version)),
    );
    lemma_record_of_two_wf(
        ("missing"@, flag_or_absent(facts.firmware_missing)),
        ("version"@, text_or_absent(facts.firmware_version)),
    );
    lemma_record_of_two_wf(
        ("name"@, text_or_absent(facts.interface)),
        ("flags"@, code_or_absent(facts.interface_flags)),
    );
    lemma_record_of_two_wf(
        ("address"@, address_or_absent(facts.ip4_address)),
        ("connectivity"@, code_or_absent(facts.ip4_connectivity)),
    );
    lemma_record_wf(seq![("connectivity"@, code_or_absent(facts.ip6_connectivity))]);
    lemma_record_wf(facts.report()->Record_0);
}

/// The list that a fetched list of devices reads as is well formed.
pub proof fn lemma_device_list_wf(list: Option<Seq<Option<DeviceFacts>>>)
    ensures
        list_report(device_reports(list)).wf(),
{
    let reports = device_reports(list);
    if list is Some {
        let children = list->Some_0;
        assert forall|i: int|
            0 <= i < reports->Some_0.len() && (#[trigger] reports->Some_0[i]) is Some implies reports->Some_0[i]->Some_0.wf() by {
            lemma_device_report_wf(children[i]->Some_0);
        }
    }
    lemma_list_report_wf(reports);
}

} // verus!
