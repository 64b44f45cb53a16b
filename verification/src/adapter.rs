use crate::decode::{dotted_quad, Code, DecodedCode, Ipv4Addr, ValFromU32};
use crate::value::{Report, ReportValue};
use vstd::prelude::*;

verus! {

/// What the outcome of a read comes out as where the read yields a node:
/// what that node denotes, or the absent marker where the read yielded
/// none.
pub open spec fn node_or_absent(yielded: Option<ReportValue>) -> Report {
    match yielded {
        Some(node) => node@,
        None => Report::Absent,
    }
}

/// Whether `r` may come out of a read that is converted with `f`: for a
/// value that was read, whatever `f` may make of it; else only the absent
/// marker.
pub open spec fn converts<T, F: Fn(T) -> ReportValue>(
    fetched: Option<T>,
    f: F,
    r: ReportValue,
) -> bool {
    match fetched {
        Some(val) => f.ensures((val,), r),
        None => r@ == Report::Absent,
    }
}

/// Turning the outcome of one read that already yields a node into a node.
pub trait UnwrapOrNothing: Sized {
    /// The node that the read yielded, if it yielded one.
    spec fn yielded(self) -> Option<ReportValue>;

    /// The node that was read, or the absent marker where none was.
    fn unwrap_or_nothing(self) -> (r: ReportValue)
        ensures
            r@ == node_or_absent(self.yielded()),
    ;
}

impl UnwrapOrNothing for Option<ReportValue> {
    open spec fn yielded(self) -> Option<ReportValue> {
        self
    }

    fn unwrap_or_nothing(self) -> (r: ReportValue) {
        match self {
            Some(node) => node,
            None => ReportValue::nothing(),
        }
    }
}

impl<E> UnwrapOrNothing for Result<ReportValue, E> {
    open spec fn yielded(self) -> Option<ReportValue> {
        match self {
            Ok(node) => Some(node),
            Err(_) => None,
        }
    }

    fn unwrap_or_nothing(self) -> (r: ReportValue) {
        match self {
            Ok(node) => node,
            Err(_) => ReportValue::nothing(),
        }
    }
}

/// Turning the outcome of one read into a node with a conversion for the
/// value that was read.
pub trait ToValOrNothing<T>: Sized {
    /// The value that the read yielded, if it yielded one.
    spec fn fetched(self) -> Option<T>;

    /// What `f` makes of the value that was read, or the absent marker where
    /// none was.
    fn to_val_or_nothing_with<F: Fn(T) -> ReportValue>(self, f: F) -> (r: ReportValue)
        requires
            self.fetched() is Some ==> f.requires((self.fetched()->Some_0,)),
        ensures
            converts(self.fetched(), f, r),
    ;
}

impl<T> ToValOrNothing<T> for Option<T> {
    open spec fn fetched(self) -> Option<T> {
        self
    }

    fn to_val_or_nothing_with<F: Fn(T) -> ReportValue>(self, f: F) -> (r: ReportValue) {
        match self {
            Some(val) => f(val),
            None => ReportValue::nothing(),
        }
    }
}

impl<T, E> ToValOrNothing<T> for Result<T, E> {
    open spec fn fetched(self) -> Option<T> {
        match self {
            Ok(val) => Some(val),
            Err(_) => None,
        }
    }

    fn to_val_or_nothing_with<F: Fn(T) -> ReportValue>(self, f: F) -> (r: ReportValue) {
        match self {
            Ok(val) => f(val),
            Err(_) => ReportValue::nothing(),
        }
    }
}

/// What a text attribute reads as.
pub open spec fn text_or_absent(outcome: Option<Seq<char>>) -> Report {
    match outcome {
        Some(text) => Report::Text(text),
        None => Report::Absent,
    }
}

/// What a yes-or-no attribute reads as.
pub open spec fn flag_or_absent(outcome: Option<bool>) -> Report {
    match outcome {
        Some(flag) => Report::Boolean(flag),
        None => Report::Absent,
    }
}

/// What a plain numeric attribute reads as.
pub open spec fn number_or_absent(outcome: Option<u32>) -> Report {
    match outcome {
        Some(number) => Report::Integer(number as int),
        None => Report::Absent,
    }
}

/// What a coded attribute reads as.
pub open spec fn code_or_absent(outcome: Option<Code>) -> Report {
    match outcome {
        Some(code) => code.report(),
        None => Report::Absent,
    }
}

/// What an address attribute reads as.
pub open spec fn address_or_absent(outcome: Option<u32>) -> Report {
    match outcome {
        Some(bits) => Report::Text(dotted_quad(bits)),
        None => Report::Absent,
    }
}

/// The node of a plain number: an integer node holding `val`.
pub fn number(val: u32) -> (r: ReportValue)
    ensures
        r@ == Report::Integer(val as int),
{
    ReportValue::integer(val as i64)
}

/// The node of a text attribute.
pub fn text_or_nothing(outcome: &Option<String>) -> (r: ReportValue)
    ensures
        r@ == text_or_absent(outcome.deep_view()),
{
    let owned = match outcome {
        Some(text) => Some(text.clone()),
        None => None,
    };
    owned.to_val_or_nothing_with(ReportValue::text)
}

/// The node of a yes-or-no attribute.
pub fn flag_or_nothing(outcome: Option<bool>) -> (r: ReportValue)
    ensures
        r@ == flag_or_absent(outcome),
{
    outcome.to_val_or_nothing_with(ReportValue::boolean)
}

/// The node of a plain numeric attribute.
pub fn number_or_nothing(outcome: Option<u32>) -> (r: ReportValue)
    ensures
        r@ == number_or_absent(outcome),
{
    outcome.to_val_or_nothing_with(number)
}

/// The node of a coded attribute.
pub fn code_or_nothing(outcome: &Option<DecodedCode>) -> (r: ReportValue)
    ensures
        r@ == code_or_absent(outcome.deep_view()),
{
    let decoded = match outcome {
        Some(code) => Some(code.to_value()),
        None => None,
    };
    decoded.unwrap_or_nothing()
}

/// The node of an address attribute.
pub fn address_or_nothing(outcome: Option<u32>) -> (r: ReportValue)
    ensures
        r@ == address_or_absent(outcome),
{
    let decoded = match outcome {
        Some(bits) => Some(Ipv4Addr::from_u32_to_str_val(bits)),
        None => None,
    };
    decoded.unwrap_or_nothing()
}

/// A read that failed and a read that found nothing come out alike: as the
/// absent marker and nothing else, whatever the failure was and whatever
/// the conversion would have made of a value.
pub proof fn lemma_failure_reads_as_absence<T, E, F: Fn(T) -> ReportValue>(
    failure: E,
    f: F,
    r: ReportValue,
)
    ensures
        converts(Err::<T, E>(failure).fetched(), f, r) <==> r@ == Report::Absent,
        converts(None::<T>.fetched(), f, r) <==> r@ == Report::Absent,
        node_or_absent(Err::<ReportValue, E>(failure).yielded()) == Report::Absent,
        node_or_absent(None::<ReportValue>.yielded()) == Report::Absent,
{
}

} // verus!
