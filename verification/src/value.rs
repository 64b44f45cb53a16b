use vstd::prelude::*;

verus! {

/// What a report denotes: the nested, ordered content that a `ReportValue`
/// stands for.
pub enum Report {
    /// Nothing usable could be read for this node.
    Absent,
    Boolean(bool),
    Integer(int),
    Text(Seq<char>),
    /// Children in the order in which they were discovered.
    List(Seq<Report>),
    /// Named fields in the order in which they were inserted.
    Record(Seq<(Seq<char>, Report)>),
}

/// The value of the first field named `key`, if any field is so named.
pub open spec fn lookup(fields: Seq<(Seq<char>, Report)>, key: Seq<char>) -> Option<Report>
    decreases fields.len(),
{
    if fields.len() == 0 {
        None
    } else if fields[0].0 == key {
        Some(fields[0].1)
    } else {
        lookup(fields.drop_first(), key)
    }
}

/// No two fields share a key.
pub open spec fn distinct_keys(fields: Seq<(Seq<char>, Report)>) -> bool {
    forall|i: int, j: int| 0 <= i < j < fields.len() ==> fields[i].0 != fields[j].0
}

/// Every value of a run of fields is well formed.
pub open spec fn values_wf(fields: Seq<(Seq<char>, Report)>) -> bool
    decreases fields,
{
    forall|i: int| 0 <= i < fields.len() ==> (#[trigger] fields[i]).1.wf()
}

/// Every report of a run is well formed.
pub open spec fn items_wf(items: Seq<Report>) -> bool
    decreases items,
{
    forall|i: int| 0 <= i < items.len() ==> (#[trigger] items[i]).wf()
}

impl Report {
    /// The value that a record stores under `key`; `None` for a key it does
    /// not hold and for a node that is no record.
    pub open spec fn field(self, key: Seq<char>) -> Option<Report> {
        match self {
            Report::Record(fields) => lookup(fields, key),
            _ => None,
        }
    }

    /// No record anywhere in the tree names a key twice.
    pub open spec fn wf(self) -> bool
        decreases self,
    {
        match self {
            Report::List(items) => items_wf(items),
            Report::Record(fields) => distinct_keys(fields) && values_wf(fields),
            Report::Absent | Report::Boolean(_) | Report::Integer(_) | Report::Text(_) => true,
        }
    }
}

/// One node of a report as the program holds it.
#[derive(Debug, PartialEq, Eq)]
pub enum ReportValue {
    Absent,
    Boolean(bool),
    Integer(i64),
    Text(String),
    List(Vec<ReportValue>),
    Record(Vec<(String, ReportValue)>),
}

/// What a run of nodes denotes, node by node.
pub open spec fn items_view(items: Seq<ReportValue>) -> Seq<Report>
    decreases items,
{
    Seq::new(
        items.len(),
        |i: int|
            if 0 <= i < items.len() {
                items[i].view()
            } else {
                Report::Absent
            },
    )
}

/// What a run of named nodes denotes, field by field.
pub open spec fn fields_view(fields: Seq<(String, ReportValue)>) -> Seq<(Seq<char>, Report)>
    decreases fields,
{
    Seq::new(
        fields.len(),
        |i: int|
            if 0 <= i < fields.len() {
                (fields[i].0@, fields[i].1.view())
            } else {
                (Seq::empty(), Report::Absent)
            },
    )
}

impl View for ReportValue {
    type V = Report;

    open spec fn view(&self) -> Report
        decreases self,
    {
        match self {
            ReportValue::Absent => Report::Absent,
            ReportValue::Boolean(b) => Report::Boolean(*b),
            ReportValue::Integer(i) => Report::Integer(*i as int),
            ReportValue::Text(s) => Report::Text(s@),
            ReportValue::List(items) => Report::List(items_view(items@)),
            ReportValue::Record(fields) => Report::Record(fields_view(fields@)),
        }
    }
}

/// Viewing a run of named nodes commutes with appending a field.
pub proof fn lemma_fields_view_push(
    fields: Seq<(String, ReportValue)>,
    key: String,
    value: ReportValue,
)
    ensures
        fields_view(fields.push((key, value))) == fields_view(fields).push((key@, value@)),
{
}

/// Viewing a run of nodes commutes with appending a node.
pub proof fn lemma_items_view_push(items: Seq<ReportValue>, value: ReportValue)
    ensures
        items_view(items.push(value)) == items_view(items).push(value@),
{
}

/// The fields that a run of key and node pairs names, in the same order.
pub open spec fn named_fields(pairs: Seq<(&str, ReportValue)>) -> Seq<(Seq<char>, Report)> {
    Seq::new(pairs.len(), |i: int| (pairs[i].0@, pairs[i].1@))
}

impl ReportValue {
    /// The marker for a node that could not be read.
    pub fn nothing() -> (r: ReportValue)
        ensures
            r@ == Report::Absent,
            r@.wf(),
    {
        ReportValue::Absent
    }

    /// A node that holds a truth value.
    pub fn boolean(val: bool) -> (r: ReportValue)
        ensures
            r@ == Report::Boolean(val),
            r@.wf(),
    {
        ReportValue::Boolean(val)
    }

    /// A node that holds an integer.
    pub fn integer(val: i64) -> (r: ReportValue)
        ensures
            r@ == Report::Integer(val as int),
            r@.wf(),
    {
        ReportValue::Integer(val)
    }

    /// A node that holds a text.
    pub fn text(val: String) -> (r: ReportValue)
        ensures
            r@ == Report::Text(val@),
            r@.wf(),
    {
        ReportValue::Text(val)
    }

    /// A list node of the given nodes, in their order. It is well formed
    /// where each of them is.
    pub fn list(vals: Vec<ReportValue>) -> (r: ReportValue)
        ensures
            r@ == Report::List(items_view(vals@)),
            r@.wf() <==> items_wf(items_view(vals@)),
    {
        ReportValue::List(vals)
    }

    /// A record node of the given fields, in their order. It is well formed
    /// where no two of them share a key and each value is well formed.
    pub fn record(fields: Vec<(String, ReportValue)>) -> (r: ReportValue)
        ensures
            r@ == Report::Record(fields_view(fields@)),
            r@.wf() <==> distinct_keys(fields_view(fields@)) && values_wf(fields_view(fields@)),
    {
        ReportValue::Record(fields)
    }
}

/// Building a record from pairs of a borrowed key and a node.
pub trait RecordExt: Sized {
    /// The fields that the record holds, in insertion order.
    spec fn fields(&self) -> Seq<(Seq<char>, Report)>;

    /// A record with one field for each pair, in the order of the pairs.
    fn from_str_iter<'a>(iter: Vec<(&'a str, ReportValue)>) -> (r: Self)
        ensures
            r.fields() == named_fields(iter@),
    ;
}

impl RecordExt for Vec<(String, ReportValue)> {
    open spec fn fields(&self) -> Seq<(Seq<char>, Report)> {
        fields_view(self@)
    }

    fn from_str_iter<'a>(iter: Vec<(&'a str, ReportValue)>) -> (r: Self) {
        let ghost pairs = iter@;
        let mut out: Vec<(String, ReportValue)> = Vec::new();
        for pair in it: iter
            invariant
                it.seq() == pairs,
                fields_view(out@) =~= named_fields(pairs).take(it.index() as int),
        {
            let (key, value) = pair;
            let owned = key.to_owned();
            proof {
                lemma_fields_view_push(out@, owned, value);
                assert(named_fields(pairs).take(it.index() + 1) =~= named_fields(pairs).take(
                    it.index() as int,
                ).push((key@, value@)));
            }
            out.push((owned, value));
        }
        out
    }
}

/// Building a record node from pairs of a borrowed key and a node.
pub trait ValueExt: Sized + View<V = Report> {
    /// A record node with one field for each pair, in the order of the
    /// pairs. It is well formed where no two pairs share a key and each
    /// node is well formed.
    fn record_str_iter<'a>(iter: Vec<(&'a str, ReportValue)>) -> (r: Self)
        ensures
            r@ == Report::Record(named_fields(iter@)),
            r@.wf() <==> distinct_keys(named_fields(iter@)) && values_wf(named_fields(iter@)),
    ;
}

impl ValueExt for ReportValue {
    fn record_str_iter<'a>(iter: Vec<(&'a str, ReportValue)>) -> (r: Self) {
        let fields: Vec<(String, ReportValue)> = RecordExt::from_str_iter(iter);
        ReportValue::record(fields)
    }
}

/// A record node of two fields.
pub fn record_of_two(first: (&str, ReportValue), second: (&str, ReportValue)) -> (r: ReportValue)
    ensures
        r@ == Report::Record(seq![(first.0@, first.1@), (second.0@, second.1@)]),
{
    let r = ReportValue::record_str_iter(vec![first, second]);
    assert(r@->Record_0 =~= seq![(first.0@, first.1@), (second.0@, second.1@)]);
    r
}

/// A key that first occurs at position `i` is looked up to the value at
/// position `i`.
pub proof fn lemma_lookup_first(fields: Seq<(Seq<char>, Report)>, key: Seq<char>, i: int)
    requires
        0 <= i < fields.len(),
        fields[i].0 == key,
        forall|j: int| 0 <= j < i ==> fields[j].0 != key,
    ensures
        lookup(fields, key) == Some(fields[i].1),
    decreases i,
{
    if i > 0 {
        let rest = fields.drop_first();
        lemma_lookup_first(rest, key, i - 1);
    }
}

/// A key that no field bears is looked up to nothing.
pub proof fn lemma_lookup_missing(fields: Seq<(Seq<char>, Report)>, key: Seq<char>)
    requires
        forall|j: int| 0 <= j < fields.len() ==> fields[j].0 != key,
    ensures
        lookup(fields, key) is None,
    decreases fields.len(),
{
    if fields.len() > 0 {
        let rest = fields.drop_first();
        lemma_lookup_missing(rest, key);
    }
}

impl ReportValue {
    /// The node that a record node stores under `key`: that of the first
    /// field so named. `None` for a key that the record does not hold and
    /// for a node that is no record.
    pub fn get(&self, key: &str) -> (r: Option<&ReportValue>)
        ensures
            match r {
                Some(node) => self@.field(key@) == Some(node@),
                None => self@.field(key@) is None,
            },
    {
        match self {
            ReportValue::Record(fields) => {
                let wanted = key.to_owned();
                let mut i: usize = 0;
                while i < fields.len()
                    invariant
                        i <= fields.len(),
                        wanted@ == key@,
                        self@ == Report::Record(fields_view(fields@)),
                        forall|j: int| 0 <= j < i ==> fields_view(fields@)[j].0 != key@,
                    decreases fields.len() - i,
                {
                    if fields[i].0 == wanted {
                        proof {
                            assert(fields_view(fields@)[i as int] == (
                                fields@[i as int].0@,
                                fields@[i as int].1@,
                            ));
                            lemma_lookup_first(fields_view(fields@), key@, i as int);
                        }
                        return Some(&fields[i].1);
                    }
                    i += 1;
                }
                proof {
                    lemma_lookup_missing(fields_view(fields@), key@);
                }
                None
            },
            _ => None,
        }
    }
}

/// The length of a key with its first two characters and its last one:
/// enough to tell apart the keys that any one record of a report uses.
pub open spec fn outline(key: Seq<char>) -> (nat, char, char, char) {
    (key.len(), key[0], key[1], key.last())
}

/// A record whose keys differ and whose values are well formed is well
/// formed.
pub proof fn lemma_record_wf(fields: Seq<(Seq<char>, Report)>)
    requires
        distinct_keys(fields),
        values_wf(fields),
    ensures
        Report::Record(fields).wf(),
{
}

/// A record of two fields with different keys and well-formed values is
/// well formed.
pub proof fn lemma_record_of_two_wf(first: (Seq<char>, Report), second: (Seq<char>, Report))
    requires
        first.0 != second.0,
        first.1.wf(),
        second.1.wf(),
    ensures
        Report::Record(seq![first, second]).wf(),
{
    let fields = seq![first, second];
    lemma_record_wf(fields);
}

/// A list of well-formed reports is well formed.
pub proof fn lemma_list_wf(items: Seq<Report>)
    requires
        items_wf(items),
    ensures
        Report::List(items).wf(),
{
}

} // verus!
