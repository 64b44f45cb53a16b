use crate::value::{Report, ReportValue};
use vstd::prelude::*;
use vstd::string::StringExecFns;

verus! {

/// The character that writes the decimal digit `d`.
pub open spec fn digit(d: int) -> char {
    if d == 0 {
        '0'
    } else if d == 1 {
        '1'
    } else if d == 2 {
        '2'
    } else if d == 3 {
        '3'
    } else if d == 4 {
        '4'
    } else if d == 5 {
        '5'
    } else if d == 6 {
        '6'
    } else if d == 7 {
        '7'
    } else if d == 8 {
        '8'
    } else {
        '9'
    }
}

/// The decimal numeral of `n`, without leading zeros.
pub open spec fn decimal(n: nat) -> Seq<char>
    decreases n,
{
    if n < 10 {
        seq![digit(n as int)]
    } else {
        decimal(n / 10).push(digit((n % 10) as int))
    }
}

/// The four bytes of a 32-bit address, the most significant first.
pub open spec fn octets(bits: u32) -> Seq<nat> {
    seq![
        (bits as nat / 16777216) % 256,
        (bits as nat / 65536) % 256,
        (bits as nat / 256) % 256,
        bits as nat % 256,
    ]
}

/// The dotted-quad notation of a 32-bit address: its four bytes in decimal,
/// the most significant first, with a dot between neighbours.
pub open spec fn dotted_quad(bits: u32) -> Seq<char> {
    let o = octets(bits);
    decimal(o[0]) + seq!['.'] + decimal(o[1]) + seq!['.'] + decimal(o[2]) + seq!['.'] + decimal(
        o[3],
    )
}

/// The one-character string that writes a decimal digit.
fn digit_str(d: u8) -> (r: &'static str)
    requires
        d < 10,
    ensures
        r@ == seq![digit(d as int)],
{
    proof {
        reveal_strlit("0");
        reveal_strlit("1");
        reveal_strlit("2");
        reveal_strlit("3");
        reveal_strlit("4");
        reveal_strlit("5");
        reveal_strlit("6");
        reveal_strlit("7");
        reveal_strlit("8");
        reveal_strlit("9");
    }
    let r = if d == 0 {
        "0"
    } else if d == 1 {
        "1"
    } else if d == 2 {
        "2"
    } else if d == 3 {
        "3"
    } else if d == 4 {
        "4"
    } else if d == 5 {
        "5"
    } else if d == 6 {
        "6"
    } else if d == 7 {
        "7"
    } else if d == 8 {
        "8"
    } else {
        "9"
    };
    r
}

/// Appends the decimal numeral of one byte to `out`.
fn push_octet(out: &mut String, n: u8)
    ensures
        final(out)@ == old(out)@ + decimal(n as nat),
{
    reveal_with_fuel(decimal, 3);
    if n >= 100 {
        out.append(digit_str(n / 100));
    }
    if n >= 10 {
        out.append(digit_str((n / 10) % 10));
    }
    out.append(digit_str(n % 10));
}

/// A 32-bit internet address, held by its bits in host order.
#[derive(Debug, Clone, Copy, PartialEq, Eq)]
pub struct Ipv4Addr {
    pub bits: u32,
}

impl Ipv4Addr {
    /// The address whose bits are `bits`.
    pub fn from_bits(bits: u32) -> (r: Ipv4Addr)
        ensures
            r.bits == bits,
    {
        Ipv4Addr { bits }
    }

    /// The address in dotted-quad notation.
    pub fn to_string(&self) -> (r: String)
        ensures
            r@ == dotted_quad(self.bits),
    {
        let bits = self.bits;
        let mut out = String::new();
        push_octet(&mut out, ((bits / 16777216) % 256) as u8);
        out.append(".");
        push_octet(&mut out, ((bits / 65536) % 256) as u8);
        out.append(".");
        push_octet(&mut out, ((bits / 256) % 256) as u8);
        out.append(".");
        push_octet(&mut out, (bits % 256) as u8);
        proof {
            reveal_strlit(".");
        }
        out
    }
}

/// A raw integer code together with the name that its domain gives it, if
/// the domain names it.
#[derive(Debug, Clone, PartialEq, Eq)]
pub struct DecodedCode {
    pub raw: u32,
    pub label: Option<String>,
}

/// What a `DecodedCode` denotes.
pub struct Code {
    pub raw: u32,
    pub label: Option<Seq<char>>,
}

impl Code {
    /// The report of a code: its label where it has one, else the raw
    /// integer, so that the code can always be read back.
    pub open spec fn report(self) -> Report {
        match self.label {
            Some(label) => Report::Text(label),
            None => Report::Integer(self.raw as int),
        }
    }
}

impl View for DecodedCode {
    type V = Code;

    open spec fn view(&self) -> Code {
        Code { raw: self.raw, label: self.label.deep_view() }
    }
}

impl DeepView for DecodedCode {
    type V = Code;

    open spec fn deep_view(&self) -> Code {
        self.view()
    }
}

/// A domain of integer codes, some of which carry a name. The names are
/// the domain's own table: here they are known only as what `label`
/// answers, which `answers` puts into words for contracts. The trait holds
/// no ghost item, so that code outside the verified library can implement
/// a domain.
pub trait NMFlags {
    /// The name of the enumerator whose value is exactly `raw`, or `None`
    /// where the domain defines no such enumerator.
    fn label(raw: u32) -> Option<String>;
}

/// `name` is what the domain `F` answers for the code `raw`: a value that
/// `F::label(raw)` may return. Nothing but a call of `F::label` shows that
/// a name is an answer.
pub open spec fn answers<F: NMFlags>(raw: u32, name: Option<String>) -> bool {
    call_ensures(F::label, (raw,), name)
}

impl DecodedCode {
    /// The code `raw` with the name that the domain `F` answers for it.
    pub fn lookup<F: NMFlags>(raw: u32) -> (r: DecodedCode)
        ensures
            r.raw == raw,
            answers::<F>(raw, r.label),
    {
        DecodedCode { raw, label: F::label(raw) }
    }

    /// The report node of this code: a text node holding the label where
    /// there is one, else an integer node holding the raw code.
    pub fn to_value(&self) -> (r: ReportValue)
        ensures
            r@ == self@.report(),
    {
        match &self.label {
            Some(label) => ReportValue::text(label.clone()),
            None => ReportValue::integer(self.raw as i64),
        }
    }
}

/// Reading a raw 32-bit value as a report node.
pub trait ValFromU32 {
    /// Whether `report` is what `val` reads as.
    spec fn admits(val: u32, report: Report) -> bool;

    fn from_u32_to_str_val(val: u32) -> (r: ReportValue)
        ensures
            Self::admits(val, r@),
    ;
}

impl<F: NMFlags> ValFromU32 for F {
    /// A code reads as the name that its domain answers for it, or as the
    /// raw integer where the domain answers none.
    open spec fn admits(val: u32, report: Report) -> bool {
        exists|name: Option<String>| #[trigger]
            answers::<F>(val, name) && report == (Code {
                raw: val,
                label: name.deep_view(),
            }).report()
    }

    fn from_u32_to_str_val(val: u32) -> (r: ReportValue) {
        let code = DecodedCode::lookup::<F>(val);
        assert(answers::<F>(val, code.label));
        code.to_value()
    }
}

impl ValFromU32 for Ipv4Addr {
    /// An address reads as its dotted-quad notation.
    open spec fn admits(val: u32, report: Report) -> bool {
        report == Report::Text(dotted_quad(val))
    }

    fn from_u32_to_str_val(val: u32) -> (r: ReportValue) {
        ReportValue::text(Ipv4Addr::from_bits(val).to_string())
    }
}

/// A code reads as its label where it has one and as its raw integer,
/// unchanged, where it has none.
pub proof fn lemma_label_or_raw(code: Code)
    ensures
        code.label is Some ==> code.report() == Report::Text(code.label->Some_0),
        code.label is None ==> code.report() == Report::Integer(code.raw as int),
{
}

/// In every domain a code reads as the domain answers for it: where the
/// domain answers the name of an enumerator, as that name; where it answers
/// none, as the raw integer, unchanged.
pub proof fn lemma_decode_follows_the_domain<F: NMFlags>(val: u32, name: Option<String>)
    requires
        answers::<F>(val, name),
    ensures
        name is Some ==> <F as ValFromU32>::admits(val, Report::Text(name->Some_0@)),
        name is None ==> <F as ValFromU32>::admits(val, Report::Integer(val as int)),
{
}

/// In every domain a code reads as nothing but what the domain answers for
/// it: every reading is the name of an answer or, for an answer without a
/// name, the raw integer.
pub proof fn lemma_decode_reads_only_answers<F: NMFlags>(val: u32, report: Report)
    requires
        <F as ValFromU32>::admits(val, report),
    ensures
        exists|name: Option<String>| #[trigger]
            answers::<F>(val, name) && report == (match name {
                Some(label) => Report::Text(label@),
                None => Report::Integer(val as int),
            }),
        report is Text || report == Report::Integer(val as int),
{
    let name = choose|name: Option<String>| #[trigger]
        answers::<F>(val, name) && report == (Code {
            raw: val,
            label: name.deep_view(),
        }).report();
    assert(answers::<F>(val, name));
}

/// Where a domain has one answer for a code, the code has one reading.
pub proof fn lemma_one_answer_one_reading<F: NMFlags>(val: u32, first: Report, second: Report)
    requires
        forall|a: Option<String>, b: Option<String>|
            #[trigger] answers::<F>(val, a) && #[trigger] answers::<F>(val, b) ==> a.deep_view()
                == b.deep_view(),
        <F as ValFromU32>::admits(val, first),
        <F as ValFromU32>::admits(val, second),
    ensures
        first == second,
{
}

/// Reading a code loses nothing: two codes that read alike bear the same
/// label, or bear none and are the same integer.
pub proof fn lemma_code_reads_back(first: Code, second: Code)
    requires
        first.report() == second.report(),
    ensures
        first.label == second.label,
        first.label is None ==> first.raw == second.raw,
{
}

} // verus!
