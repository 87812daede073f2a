//! What a backend call came to, and how it is told apart into success and
//! the three kinds of failure.

use crate::codec::{
    allocation_spec, decode, decode_allocation, decode_spec, DecodeError, NodeRecord, RecordModel,
};
use crate::registry::Protocol;
use crate::text::{decimal_digits, format_decimal};
use vstd::prelude::*;
use vstd::string::*;

verus! {

/// The one status that counts as success.
pub const HTTP_OK: u16 = 200;

/// What the transport hands back for one call: plain values, made by whoever
/// performed the call.
#[derive(Clone, Debug, PartialEq, Eq)]
pub enum HttpOutcome {
    /// A response arrived.
    Response { status: u16, body: String },
    /// No response arrived; the text is the transport's own reason.
    TransportError(String),
}

/// An outcome with its texts as character sequences.
pub enum OutcomeModel {
    Response { status: u16, body: Seq<char> },
    TransportError(Seq<char>),
}

impl View for HttpOutcome {
    type V = OutcomeModel;

    open spec fn view(&self) -> OutcomeModel {
        match *self {
            HttpOutcome::Response { status, body } => OutcomeModel::Response {
                status,
                body: body@,
            },
            HttpOutcome::TransportError(reason) => OutcomeModel::TransportError(reason@),
        }
    }
}

/// Why a call failed. A failure is kept as state and shown; it is never
/// raised.
#[derive(Clone, Debug, PartialEq, Eq)]
pub enum Failure {
    /// The transport failed; the raw reason is retained.
    Network(String),
    /// The backend answered with a status other than 200.
    Server(u16),
    /// The response arrived with status 200 but could not be decoded.
    Decode(DecodeError),
}

/// A failure with its text as a character sequence.
pub enum FailureModel {
    Network(Seq<char>),
    Server(u16),
    Decode(DecodeError),
}

impl View for Failure {
    type V = FailureModel;

    open spec fn view(&self) -> FailureModel {
        match *self {
            Failure::Network(reason) => FailureModel::Network(reason@),
            Failure::Server(status) => FailureModel::Server(status),
            Failure::Decode(e) => FailureModel::Decode(e),
        }
    }
}

impl DeepView for Failure {
    type V = FailureModel;

    open spec fn deep_view(&self) -> FailureModel {
        self@
    }
}

impl Failure {
    /// A copy of the failure.
    pub fn duplicate(&self) -> (r: Failure)
        ensures
            r@ == self@,
    {
        match self {
            Failure::Network(reason) => Failure::Network(reason.clone()),
            Failure::Server(status) => Failure::Server(*status),
            Failure::Decode(e) => Failure::Decode(*e),
        }
    }

    /// The failure in words, for display: the transport's raw reason, the
    /// status of the response, or the decoding error.
    pub fn describe(&self) -> (r: String)
        ensures
            r@ == failure_text(self@),
    {
        match self {
            Failure::Network(reason) => reason.clone(),
            Failure::Server(status) => {
                let mut r = "the server answered with status ".to_owned();
                let digits = format_decimal(*status as u64);
                r.append(digits.as_str());
                r
            },
            Failure::Decode(_) => "the response does not have the expected shape".to_owned(),
        }
    }
}

/// The words that describe a failure.
pub open spec fn failure_text(f: FailureModel) -> Seq<char> {
    match f {
        FailureModel::Network(reason) => reason,
        FailureModel::Server(status) => "the server answered with status "@ + decimal_digits(
            status as nat,
        ),
        FailureModel::Decode(_) => "the response does not have the expected shape"@,
    }
}

/// The failure of an outcome that is no response with status 200, `None`
/// for one that is: a transport error is a network failure, any other status
/// a server failure.
pub open spec fn refusal_of(o: OutcomeModel) -> Option<FailureModel> {
    match o {
        OutcomeModel::TransportError(reason) => Some(FailureModel::Network(reason)),
        OutcomeModel::Response { status, body } => if status == HTTP_OK {
            None
        } else {
            Some(FailureModel::Server(status))
        },
    }
}

/// What a listing call of protocol `p` came to: its records where the
/// response has status 200 and decodes, else the failure.
pub open spec fn listing_spec(p: Protocol, o: OutcomeModel) -> Result<
    Seq<RecordModel>,
    FailureModel,
> {
    match o {
        OutcomeModel::Response { status, body } if status == HTTP_OK => match decode_spec(p, body) {
            Ok(records) => Ok(records),
            Err(e) => Err(FailureModel::Decode(e)),
        },
        _ => Err(refusal_of(o)->0),
    }
}

/// What an allocation call came to: the fresh identifier where the response
/// has status 200 and carries one, else the failure.
pub open spec fn allocation_outcome_spec(o: OutcomeModel) -> Result<Seq<char>, FailureModel> {
    match o {
        OutcomeModel::Response { status, body } if status == HTTP_OK => {
            match allocation_spec(body) {
                Ok(uid) => Ok(uid),
                Err(e) => Err(FailureModel::Decode(e)),
            }
        },
        _ => Err(refusal_of(o)->0),
    }
}

/// Tells a failed call from a response with status 200.
pub fn refusal(outcome: &HttpOutcome) -> (r: Option<Failure>)
    ensures
        r.deep_view() == refusal_of(outcome@),
{
    match outcome {
        HttpOutcome::TransportError(reason) => Some(Failure::Network(reason.clone())),
        HttpOutcome::Response { status, body: _ } => if *status == HTTP_OK {
            None
        } else {
            Some(Failure::Server(*status))
        },
    }
}

/// Reads the outcome of a listing call of protocol `p`.
pub fn interpret_listing(p: Protocol, outcome: &HttpOutcome) -> (r: Result<
    Vec<NodeRecord>,
    Failure,
>)
    ensures
        match r {
            Ok(records) => listing_spec(p, outcome@) == Ok::<Seq<RecordModel>, FailureModel>(
                records.deep_view(),
            ),
            Err(f) => listing_spec(p, outcome@) == Err::<Seq<RecordModel>, FailureModel>(f@),
        },
{
    match refusal(outcome) {
        Some(f) => Err(f),
        None => match outcome {
            HttpOutcome::Response { status: _, body } => match decode(p, body.as_str()) {
                Ok(records) => Ok(records),
                Err(e) => Err(Failure::Decode(e)),
            },
            HttpOutcome::TransportError(reason) => Err(Failure::Network(reason.clone())),
        },
    }
}

/// Reads the outcome of an allocation call.
pub fn interpret_allocation(outcome: &HttpOutcome) -> (r: Result<String, Failure>)
    ensures
        match r {
            Ok(uid) => allocation_outcome_spec(outcome@) == Ok::<Seq<char>, FailureModel>(uid@),
            Err(f) => allocation_outcome_spec(outcome@) == Err::<Seq<char>, FailureModel>(f@),
        },
{
    match refusal(outcome) {
        Some(f) => Err(f),
        None => match outcome {
            HttpOutcome::Response { status: _, body } => match decode_allocation(body.as_str()) {
                Ok(uid) => Ok(uid),
                Err(e) => Err(Failure::Decode(e)),
            },
            HttpOutcome::TransportError(reason) => Err(Failure::Network(reason.clone())),
        },
    }
}

} // verus!
