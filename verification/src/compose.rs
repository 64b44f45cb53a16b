use crate::value::{
    items_view, items_wf, lemma_items_view_push, lemma_list_wf, Report, ReportValue,
};
use vstd::prelude::*;

verus! {

/// A snapshot of one remote object that can be written out as a report.
pub trait ToValue {
    /// The report that the snapshot denotes.
    spec fn report(&self) -> Report;

    /// The report of the snapshot as a node.
    fn to_value(&self) -> (r: ReportValue)
        ensures
            r@ == self.report(),
            r@.wf(),
    ;
}

/// The reports of the children that resolved, in the order in which the
/// children were listed. A child that did not resolve leaves no trace.
pub open spec fn resolved(children: Seq<Option<Report>>) -> Seq<Report>
    decreases children.len(),
{
    if children.len() == 0 {
        Seq::empty()
    } else {
        let earlier = resolved(children.drop_last());
        match children.last() {
            Some(report) => earlier.push(report),
            None => earlier,
        }
    }
}

/// What a list of references reads as: absent where the list itself could
/// not be fetched, else the list of its resolved children.
pub open spec fn list_report(list: Option<Seq<Option<Report>>>) -> Report {
    match list {
        Some(children) => Report::List(resolved(children)),
        None => Report::Absent,
    }
}

/// The report of each child that resolved, position by position.
pub open spec fn child_reports<S: ToValue>(children: Seq<Option<S>>) -> Seq<Option<Report>> {
    Seq::new(
        children.len(),
        |i: int|
            match children[i] {
                Some(child) => Some(child.report()),
                None => None,
            },
    )
}

/// The reports of a fetched list of children, or `None` where the list
/// could not be fetched.
pub open spec fn fetched_reports<S: ToValue>(list: Option<Vec<Option<S>>>) -> Option<
    Seq<Option<Report>>,
> {
    match list {
        Some(children) => Some(child_reports(children@)),
        None => None,
    }
}

/// The nodes of the children that resolved, in their listed order.
pub fn fold_children<S: ToValue>(children: &Vec<Option<S>>) -> (r: Vec<ReportValue>)
    ensures
        items_view(r@) == resolved(child_reports(children@)),
        items_wf(items_view(r@)),
{
    let mut out: Vec<ReportValue> = Vec::new();
    let mut i: usize = 0;
    while i < children.len()
        invariant
            i <= children.len(),
            items_view(out@) == resolved(child_reports(children@).take(i as int)),
            items_wf(items_view(out@)),
        decreases children.len() - i,
    {
        let ghost prefix = child_reports(children@).take(i as int);
        let ghost next = child_reports(children@).take(i + 1);
        assert(next.drop_last() =~= prefix);
        match &children[i] {
            Some(child) => {
                let node = child.to_value();
                proof {
                    lemma_items_view_push(out@, node);
                }
                out.push(node);
            },
            None => {},
        }
        i += 1;
    }
    assert(child_reports(children@).take(i as int) =~= child_reports(children@));
    out
}

/// The node for a list of references: the absent marker where the list
/// could not be fetched, else a list node of the resolved children.
pub fn list_or_nothing<S: ToValue>(list: &Option<Vec<Option<S>>>) -> (r: ReportValue)
    ensures
        r@ == list_report(fetched_reports(*list)),
        r@.wf(),
{
    match list {
        Some(children) => {
            let items = fold_children(children);
            proof {
                lemma_list_wf(items_view(items@));
            }
            ReportValue::list(items)
        },
        None => ReportValue::nothing(),
    }
}

/// Folding keeps the order of the children: the resolved children of two
/// runs put end to end are those of the first run followed by those of the
/// second.
pub proof fn lemma_resolved_concat(a: Seq<Option<Report>>, b: Seq<Option<Report>>)
    ensures
        resolved(a + b) == resolved(a) + resolved(b),
    decreases b.len(),
{
    if b.len() > 0 {
        assert((a + b).drop_last() =~= a + b.drop_last());
        lemma_resolved_concat(a, b.drop_last());
    }
}

/// A child that resolved contributes exactly its report; one that did not
/// contributes nothing.
pub proof fn lemma_resolved_single(child: Option<Report>)
    ensures
        resolved(seq![child]) == match child {
            Some(report) => seq![report],
            None => Seq::empty(),
        },
{
    reveal_with_fuel(resolved, 2);
}

/// Of three children of which the middle one did not resolve, the first and
/// the last are reported, in that order.
pub proof fn lemma_resolved_drops_only_the_unresolved(first: Report, last: Report)
    ensures
        resolved(seq![Some(first), None, Some(last)]) == seq![first, last],
{
    let a = seq![Some(first)];
    let b = seq![None::<Report>];
    let c = seq![Some(last)];
    lemma_resolved_single(Some(first));
    lemma_resolved_single(None);
    lemma_resolved_single(Some(last));
    lemma_resolved_concat(a, b);
    lemma_resolved_concat(a + b, c);
    assert(a + b + c =~= seq![Some(first), None, Some(last)]);
}

/// A list that could not be fetched and a list that was fetched empty read
/// differently: the first as the absent marker, the second as an empty list.
pub proof fn lemma_unfetched_list_differs_from_empty()
    ensures
        list_report(None) == Report::Absent,
        list_report(Some(Seq::empty())) == Report::List(Seq::empty()),
        list_report(None) != list_report(Some(Seq::empty())),
{
}

/// A list reads as the absent marker exactly when it could not be fetched.
pub proof fn lemma_list_absent_iff_unfetched(list: Option<Seq<Option<Report>>>)
    ensures
        list_report(list) is Absent <==> list is None,
        list is Some ==> list_report(list) is List,
{
}

/// Where every child that resolved has a well-formed report, so has the
/// list that the children read as.
pub proof fn lemma_list_report_wf(list: Option<Seq<Option<Report>>>)
    requires
        list is Some ==> forall|i: int|
            0 <= i < list->Some_0.len() && (#[trigger] list->Some_0[i]) is Some
                ==> list->Some_0[i]->Some_0.wf(),
    ensures
        list_report(list).wf(),
{
    match list {
        Some(children) => {
            lemma_resolved_wf(children);
            lemma_list_wf(resolved(children));
        },
        None => {},
    }
}

/// Where every child that resolved has a well-formed report, every report
/// that folding keeps is well formed.
pub proof fn lemma_resolved_wf(children: Seq<Option<Report>>)
    requires
        forall|i: int|
            0 <= i < children.len() && (#[trigger] children[i]) is Some
                ==> children[i]->Some_0.wf(),
    ensures
        items_wf(resolved(children)),
    decreases children.len(),
{
    if children.len() > 0 {
        lemma_resolved_wf(children.drop_last());
    }
}

} // verus!
