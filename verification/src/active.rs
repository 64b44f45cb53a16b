use crate::adapter::{
    code_or_absent, code_or_nothing, flag_or_absent, flag_or_nothing, text_or_absent,
    text_or_nothing,
};
use crate::compose::{fetched_reports, list_or_nothing, list_report, ToValue};
use crate::connection::{lemma_connection_report_wf, ConnectionFacts, ConnectionSnapshot};
use crate::decode::{Code, DecodedCode};
use crate::device::{
    device_reports, lemma_device_list_wf, lemma_device_reports_of_view, DeviceFacts,
    DeviceSnapshot,
};
use crate::value::{
    distinct_keys, lemma_lookup_first, lemma_record_wf, outline, Report, ReportValue, ValueExt,
};
use vstd::prelude::*;

verus! {

/// What was read from one active connection: each attribute as it came
/// back, `None` where the read yielded nothing.
#[derive(Debug, Clone, Default, PartialEq, Eq)]
pub struct ActiveConnectionSnapshot {
    pub default: Option<bool>,
    pub default6: Option<bool>,
    /// The devices of the connection in the order in which they were
    /// listed, `None` in the place of each device that did not resolve.
    pub devices: Option<Vec<Option<DeviceSnapshot>>>,
    pub id: Option<String>,
    pub state: Option<DecodedCode>,
    pub state_flags: Option<DecodedCode>,
    pub type_: Option<String>,
    pub uuid: Option<String>,
    /// Whether the connection is a VPN.
    pub vpn: Option<bool>,
    /// The connection object found under the path of this active
    /// connection, where one was looked for and resolved.
    pub connection: Option<ConnectionSnapshot>,
}

/// What an `ActiveConnectionSnapshot` denotes.
pub struct ActiveConnectionFacts {
    pub default: Option<bool>,
    pub default6: Option<bool>,
    pub devices: Option<Seq<Option<DeviceFacts>>>,
    pub id: Option<Seq<char>>,
    pub state: Option<Code>,
    pub state_flags: Option<Code>,
    pub type_: Option<Seq<char>>,
    pub uuid: Option<Seq<char>>,
    pub vpn: Option<bool>,
    pub connection: Option<ConnectionFacts>,
}

impl View for ActiveConnectionSnapshot {
    type V = ActiveConnectionFacts;

    open spec fn view(&self) -> ActiveConnectionFacts {
        ActiveConnectionFacts {
            default: self.default,
            default6: self.default6,
            devices: self.devices.deep_view(),
            id: self.id.deep_view(),
            state: self.state.deep_view(),
            state_flags: self.state_flags.deep_view(),
            type_: self.type_.deep_view(),
            uuid: self.uuid.deep_view(),
            vpn: self.vpn,
            connection: self.connection.deep_view(),
        }
    }
}

impl DeepView for ActiveConnectionSnapshot {
    type V = ActiveConnectionFacts;

    open spec fn deep_view(&self) -> ActiveConnectionFacts {
        self.view()
    }
}

/// Whether the VPN flag, as it was read, says that the connection is a VPN.
/// A flag that could not be read counts as `false`.
pub open spec fn is_vpn(flag: Option<bool>) -> bool {
    flag == Some(true)
}

impl ActiveConnectionFacts {
    /// The nested record of the VPN: that of the connection object where
    /// the flag says VPN and the connection resolved, else absent.
    pub open spec fn vpn_report(self) -> Report {
        if is_vpn(self.vpn) {
            match self.connection {
                Some(connection) => connection.report(),
                None => Report::Absent,
            }
        } else {
            Report::Absent
        }
    }

    /// The record of an active connection.
    pub open spec fn report(self) -> Report {
        Report::Record(
            seq![
                ("default"@, flag_or_absent(self.default)),
                ("default6"@, flag_or_absent(self.default6)),
                ("devices"@, list_report(device_reports(self.devices))),
                ("id"@, text_or_absent(self.id)),
                ("state"@, code_or_absent(self.state)),
                ("state_flags"@, code_or_absent(self.state_flags)),
                ("type"@, text_or_absent(self.type_)),
                ("uuid"@, text_or_absent(self.uuid)),
                ("vpn"@, self.vpn_report()),
            ],
        )
    }
}

impl ActiveConnectionSnapshot {
    /// Whether the connection object is to be looked up for an active
    /// connection whose VPN flag was read as `flag`: only where the flag
    /// was read and is `true`.
    pub fn wants_connection(flag: Option<bool>) -> (r: bool)
        ensures
            r == is_vpn(flag),
    {
        match flag {
            Some(flag) => flag,
            None => false,
        }
    }
}

impl ToValue for ActiveConnectionSnapshot {
    open spec fn report(&self) -> Report {
        self@.report()
    }

    fn to_value(&self) -> (r: ReportValue) {
        let default = flag_or_nothing(self.default);
        let default6 = flag_or_nothing(self.default6);
        let devices = list_or_nothing(&self.devices);
        proof {
            lemma_device_reports_of_view(self.devices);
        }
        let id = text_or_nothing(&self.id);
        let state = code_or_nothing(&self.state);
        let state_flags = code_or_nothing(&self.state_flags);
        let type_ = text_or_nothing(&self.type_);
        let uuid = text_or_nothing(&self.uuid);
        let vpn = if ActiveConnectionSnapshot::wants_connection(self.vpn) {
            match &self.connection {
                Some(connection) => connection.to_value(),
                None => ReportValue::nothing(),
            }
        } else {
            ReportValue::nothing()
        };
        let r = ReportValue::record_str_iter(
            vec![
                ("default", default),
                ("default6", default6),
                ("devices", devices),
                ("id", id),
                ("state", state),
                ("state_flags", state_flags),
                ("type", type_),
                ("uuid", uuid),
                ("vpn", vpn),
            ],
        );
        proof {
            assert(r@->Record_0 =~= self@.report()->Record_0);
            lemma_active_report_wf(self@);
        }
        r
    }
}

/// The reports of a fetched list of active connections, position by
/// position, or `None` where the list could not be fetched.
pub open spec fn active_reports(list: Option<Seq<Option<ActiveConnectionFacts>>>) -> Option<
    Seq<Option<Report>>,
> {
    match list {
        Some(children) => Some(
            Seq::new(
                children.len(),
                |i: int|
                    match children[i] {
                        Some(active) => Some(active.report()),
                        None => None,
                    },
            ),
        ),
        None => None,
    }
}

/// The reports of a list of active-connection snapshots are those of what
/// the snapshots denote.
pub proof fn lemma_active_reports_of_view(list: Option<Vec<Option<ActiveConnectionSnapshot>>>)
    ensures
        fetched_reports(list) == active_reports(list.deep_view()),
{
}

/// The nine keys of an active connection's record differ from one
/// another.
pub proof fn lemma_active_keys_differ(facts: ActiveConnectionFacts)
    ensures
        distinct_keys(facts.report()->Record_0),
{
    reveal_strlit("default");
    reveal_strlit("default6");
    reveal_strlit("devices");
    reveal_strlit("id");
    reveal_strlit("state");
    reveal_strlit("state_flags");
    reveal_strlit("type");
    reveal_strlit("uuid");
    reveal_strlit("vpn");
    assert(outline("default"@) == (7nat, 'd', 'e', 't'));
    assert(outline("default6"@) == (8nat, 'd', 'e', '6'));
    assert(outline("devices"@) == (7nat, 'd', 'e', 's'));
    assert(outline("id"@) == (2nat, 'i', 'd', 'd'));
    assert(outline("state"@) == (5nat, 's', 't', 'e'));
    assert(outline("state_flags"@) == (11nat, 's', 't', 's'));
    assert(outline("type"@) == (4nat, 't', 'y', 'e'));
    assert(outline("uuid"@) == (4nat, 'u', 'u', 'd'));
    assert(outline("vpn"@) == (3nat, 'v', 'p', 'n'));
}

/// No record of an active connection's report names a key twice.
pub proof fn lemma_active_report_wf(facts: ActiveConnectionFacts)
    ensures
        facts.report().wf(),
{
    lemma_active_keys_differ(facts);
    lemma_device_list_wf(facts.devices);
    if facts.connection is Some {
        lemma_connection_report_wf(facts.connection->Some_0);
    }
    lemma_record_wf(facts.report()->Record_0);
}

/// The `vpn` field of an active connection's record holds the record of
/// the connection object where the flag was read as `true` and the
/// connection resolved; where the flag is `false` or was not read, and
/// where the connection did not resolve, it holds the absent marker.
pub proof fn lemma_vpn_nesting(facts: ActiveConnectionFacts)
    ensures
        facts.report().field("vpn"@) == Some(facts.vpn_report()),
        facts.vpn == Some(true) && facts.connection is Some ==> facts.vpn_report()
            == facts.connection->Some_0.report(),
        facts.vpn == Some(true) && facts.connection is None ==> facts.vpn_report()
            == Report::Absent,
        facts.vpn != Some(true) ==> facts.vpn_report() == Report::Absent,
{
    lemma_active_keys_differ(facts);
    let fields = facts.report()->Record_0;
    assert(fields[8].0 == "vpn"@);
    lemma_lookup_first(fields, "vpn"@, 8);
}

} // verus!
