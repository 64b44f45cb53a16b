use crate::adapter::{number_or_absent, number_or_nothing, text_or_absent, text_or_nothing};
use crate::compose::ToValue;
use crate::value::{lemma_record_wf, outline, Report, ReportValue, ValueExt};
use vstd::prelude::*;

verus! {

/// What was read from one connection object: each attribute as it came
/// back, `None` where the read yielded nothing.
#[derive(Debug, Clone, Default, PartialEq, Eq)]
pub struct ConnectionSnapshot {
    pub banner: Option<String>,
    pub vpn_state: Option<u32>,
}

/// What a `ConnectionSnapshot` denotes.
pub struct ConnectionFacts {
    pub banner: Option<Seq<char>>,
    pub vpn_state: Option<u32>,
}

impl View for ConnectionSnapshot {
    type V = ConnectionFacts;

    open spec fn view(&self) -> ConnectionFacts {
        ConnectionFacts { banner: self.banner.deep_view(), vpn_state: self.vpn_state }
    }
}

impl DeepView for ConnectionSnapshot {
    type V = ConnectionFacts;

    open spec fn deep_view(&self) -> ConnectionFacts {
        self.view()
    }
}

impl ConnectionFacts {
    /// The record of a connection: its banner and the state of its VPN.
    pub open spec fn report(self) -> Report {
        Report::Record(
            seq![
                ("banner"@, text_or_absent(self.banner)),
                ("vpn_state"@, number_or_absent(self.vpn_state)),
            ],
        )
    }
}

impl ToValue for ConnectionSnapshot {
    open spec fn report(&self) -> Report {
        self@.report()
    }

    fn to_value(&self) -> (r: ReportValue) {
        let banner = text_or_nothing(&self.banner);
        let vpn_state = number_or_nothing(self.vpn_state);
        let r = ReportValue::record_str_iter(vec![("banner", banner), ("vpn_state", vpn_state)]);
        proof {
            assert(r@->Record_0 =~= self@.report()->Record_0);
            lemma_connection_report_wf(self@);
        }
        r
    }
}

/// No record of a connection's report names a key twice.
pub proof fn lemma_connection_report_wf(facts: ConnectionFacts)
    ensures
        facts.report().wf(),
{
    reveal_strlit("banner");
    reveal_strlit("vpn_state");
    assert(outline("banner"@) == (6nat, 'b', 'a', 'r'));
    assert(outline("vpn_state"@) == (9nat, 'v', 'p', 'e'));
    lemma_record_wf(facts.report()->Record_0);
}

} // verus!
