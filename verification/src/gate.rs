//! The creation gate: a record is submitted only under an identifier that
//! the backend has allocated for it, and at most one call is in flight.
//!
//! A gate decides; whoever owns it performs the calls that it asks for and
//! reports what they came to.

use crate::codec::{
    node_identifier, stamp, stamp_spec, DraftModel, NodeRecord, RecordDraft, RecordModel,
};
use crate::outcome::{
    allocation_outcome_spec, interpret_allocation, refusal, refusal_of, Failure, FailureModel,
    HttpOutcome, OutcomeModel,
};
use vstd::prelude::*;
use vstd::string::*;

verus! {

/// The state of a creation session.
#[derive(Clone, Debug, PartialEq, Eq)]
pub enum GateState {
    /// Nothing is allocated and nothing is in flight.
    Idle,
    /// An allocation call is in flight.
    Allocating,
    /// The backend has allocated this identifier; the form may be submitted.
    Allocated(String),
    /// A submission under this identifier is in flight.
    Submitting(String),
    /// The last call failed. After a failed submission the identifier is
    /// retained, after a failed allocation there is none.
    Failed { reason: Failure, retained: Option<String> },
}

/// A gate state with its texts as character sequences.
pub enum GateModel {
    Idle,
    Allocating,
    Allocated(Seq<char>),
    Submitting(Seq<char>),
    Failed { reason: FailureModel, retained: Option<Seq<char>> },
}

impl View for GateState {
    type V = GateModel;

    open spec fn view(&self) -> GateModel {
        match *self {
            GateState::Idle => GateModel::Idle,
            GateState::Allocating => GateModel::Allocating,
            GateState::Allocated(id) => GateModel::Allocated(id@),
            GateState::Submitting(id) => GateModel::Submitting(id@),
            GateState::Failed { reason, retained } => GateModel::Failed {
                reason: reason@,
                retained: retained.deep_view(),
            },
        }
    }
}

/// The phase of a creation session. A successful submission has no resting
/// phase of its own: it returns the session to `Idle` at once.
#[derive(Clone, Copy, Debug, PartialEq, Eq, Structural)]
pub enum Phase {
    Idle,
    Allocating,
    Allocated,
    Submitting,
    Failed,
}

/// A creation session at a glance: its phase and the identifier it holds.
#[derive(Clone, Debug, PartialEq, Eq)]
pub struct CreationSession {
    pub allocated_id: Option<String>,
    pub phase: Phase,
}

/// The phase of a state.
pub open spec fn phase_of(s: GateModel) -> Phase {
    match s {
        GateModel::Idle => Phase::Idle,
        GateModel::Allocating => Phase::Allocating,
        GateModel::Allocated(_) => Phase::Allocated,
        GateModel::Submitting(_) => Phase::Submitting,
        GateModel::Failed { .. } => Phase::Failed,
    }
}

/// The identifier that a state holds, if any.
pub open spec fn held_identifier(s: GateModel) -> Option<Seq<char>> {
    match s {
        GateModel::Allocated(id) => Some(id),
        GateModel::Submitting(id) => Some(id),
        GateModel::Failed { retained, .. } => retained,
        _ => None,
    }
}

/// Whether a call is in flight.
pub open spec fn in_flight(s: GateModel) -> bool {
    s is Allocating || s is Submitting
}

/// "Generate identifier": from `Idle` the session starts allocating and one
/// allocation call is to be issued. In every other state the action is
/// rejected: the state stays and nothing is issued.
pub open spec fn generate_spec(s: GateModel) -> (GateModel, bool) {
    match s {
        GateModel::Idle => (GateModel::Allocating, true),
        _ => (s, false),
    }
}

/// The allocation call completed with `result`. While allocating, a fresh
/// identifier is allocated, and a failure fails the session with no
/// identifier retained. In every other state the result is a late one and is
/// discarded.
pub open spec fn allocation_completed_spec(
    s: GateModel,
    result: Result<Seq<char>, FailureModel>,
) -> GateModel {
    match s {
        GateModel::Allocating => match result {
            Ok(id) => GateModel::Allocated(id),
            Err(reason) => GateModel::Failed { reason, retained: None },
        },
        _ => s,
    }
}

/// The allocation call resolved with outcome `o`: it completed with the
/// identifier that a response with status 200 carries, or with the failure.
pub open spec fn allocation_resolved_spec(s: GateModel, o: OutcomeModel) -> GateModel {
    allocation_completed_spec(s, allocation_outcome_spec(o))
}

/// "Submit": from `Allocated(id)` the session starts submitting and the draft,
/// stamped with `id`, is to be posted once. In every other state the action
/// is rejected: the state stays and nothing is issued.
pub open spec fn submit_spec(s: GateModel, d: DraftModel) -> (GateModel, Option<RecordModel>) {
    match s {
        GateModel::Allocated(id) => (GateModel::Submitting(id), Some(stamp_spec(d, id))),
        _ => (s, None),
    }
}

/// The submission call resolved. While submitting, a response with status
/// 200 resets the session to `Idle`; anything else fails the session, and the
/// identifier is retained. In every other state the outcome is discarded.
pub open spec fn submission_resolved_spec(s: GateModel, o: OutcomeModel) -> GateModel {
    match s {
        GateModel::Submitting(id) => match refusal_of(o) {
            None => GateModel::Idle,
            Some(reason) => GateModel::Failed { reason, retained: Some(id) },
        },
        _ => s,
    }
}

/// "Retry" after a failure: with a retained identifier the session is
/// `Allocated` again, so that the same submission can be repeated; without
/// one it is `Idle`, so that allocation can be repeated. In every other
/// state the action is rejected.
pub open spec fn retry_spec(s: GateModel) -> (GateModel, bool) {
    match s {
        GateModel::Failed { retained: Some(id), .. } => (GateModel::Allocated(id), true),
        GateModel::Failed { retained: None, .. } => (GateModel::Idle, true),
        _ => (s, false),
    }
}

/// The creation gate of one view: it owns the session and alone changes it.
pub struct CreationGate {
    state: GateState,
}

impl View for CreationGate {
    type V = GateModel;

    closed spec fn view(&self) -> GateModel {
        self.state@
    }
}

impl CreationGate {
    /// A gate in its initial state, `Idle`.
    pub fn new() -> (gate: CreationGate)
        ensures
            gate@ == GateModel::Idle,
    {
        CreationGate { state: GateState::Idle }
    }

    /// The current state.
    pub fn state(&self) -> (s: &GateState)
        ensures
            s@ == self@,
    {
        &self.state
    }

    /// The session at a glance.
    pub fn session(&self) -> (r: CreationSession)
        ensures
            r.phase == phase_of(self@),
            r.allocated_id.deep_view() == held_identifier(self@),
    {
        match &self.state {
            GateState::Idle => CreationSession { allocated_id: None, phase: Phase::Idle },
            GateState::Allocating => CreationSession {
                allocated_id: None,
                phase: Phase::Allocating,
            },
            GateState::Allocated(id) => CreationSession {
                allocated_id: Some(id.clone()),
                phase: Phase::Allocated,
            },
            GateState::Submitting(id) => CreationSession {
                allocated_id: Some(id.clone()),
                phase: Phase::Submitting,
            },
            GateState::Failed { reason: _, retained } => CreationSession {
                allocated_id: match retained {
                    Some(id) => Some(id.clone()),
                    None => None,
                },
                phase: Phase::Failed,
            },
        }
    }

    /// Whether "generate identifier" is enabled: only in `Idle`.
    pub fn can_generate(&self) -> (r: bool)
        ensures
            r == generate_spec(self@).1,
            r == (self@ is Idle),
    {
        match &self.state {
            GateState::Idle => true,
            _ => false,
        }
    }

    /// Whether "submit" is enabled: only in `Allocated`.
    pub fn can_submit(&self) -> (r: bool)
        ensures
            r == (self@ is Allocated),
            forall|d: DraftModel| r == (#[trigger] submit_spec(self@, d)).1 is Some,
    {
        match &self.state {
            GateState::Allocated(_) => true,
            _ => false,
        }
    }

    /// "Generate identifier". Returns whether an allocation call is to be
    /// issued; it is exactly one, and only from `Idle`.
    pub fn generate(&mut self) -> (issue: bool)
        ensures
            (final(self)@, issue) == generate_spec(old(self)@),
    {
        match &self.state {
            GateState::Idle => {
                self.state = GateState::Allocating;
                true
            },
            _ => false,
        }
    }

    /// Reports the result of the allocation call: the fresh identifier, or
    /// the failure.
    pub fn allocation_completed(&mut self, result: Result<String, Failure>)
        ensures
            final(self)@ == allocation_completed_spec(
                old(self)@,
                match result {
                    Ok(id) => Ok(id@),
                    Err(reason) => Err(reason@),
                },
            ),
    {
        match &self.state {
            GateState::Allocating => {
                self.state = match result {
                    Ok(id) => GateState::Allocated(id),
                    Err(reason) => GateState::Failed { reason, retained: None },
                };
            },
            _ => {},
        }
    }

    /// Reports what the allocation call came to: the outcome is read and
    /// its result completes the allocation.
    pub fn allocation_resolved(&mut self, outcome: &HttpOutcome)
        ensures
            final(self)@ == allocation_resolved_spec(old(self)@, outcome@),
    {
        let result = interpret_allocation(outcome);
        self.allocation_completed(result);
    }

    /// "Submit". Returns the record to post, stamped with the allocated
    /// identifier, or `None` where the action is rejected.
    pub fn submit(&mut self, draft: RecordDraft) -> (post: Option<NodeRecord>)
        ensures
            (final(self)@, post.deep_view()) == submit_spec(old(self)@, draft@),
    {
        let id = match &self.state {
            GateState::Allocated(id) => id.clone(),
            _ => {
                return None;
            },
        };
        let record = stamp(draft, id.as_str());
        self.state = GateState::Submitting(id);
        Some(record)
    }

    /// Reports what the submission call came to.
    pub fn submission_resolved(&mut self, outcome: &HttpOutcome)
        ensures
            final(self)@ == submission_resolved_spec(old(self)@, outcome@),
    {
        let id = match &self.state {
            GateState::Submitting(id) => id.clone(),
            _ => {
                return ;
            },
        };
        self.state = match refusal(outcome) {
            None => GateState::Idle,
            Some(reason) => GateState::Failed { reason, retained: Some(id) },
        };
    }

    /// "Retry" after a failure. Returns whether the action was accepted.
    pub fn retry(&mut self) -> (accepted: bool)
        ensures
            (final(self)@, accepted) == retry_spec(old(self)@),
    {
        let next = match &self.state {
            GateState::Failed { reason: _, retained: Some(id) } => GateState::Allocated(id.clone()),
            GateState::Failed { reason: _, retained: None } => GateState::Idle,
            _ => {
                return false;
            },
        };
        self.state = next;
        true
    }
}

/// The identifier invariant: an identifier is held exactly in the phases
/// `Allocated` and `Submitting`, and in `Failed` after a submission; never in
/// `Idle` or `Allocating`.
pub proof fn lemma_identifier_by_phase(s: GateModel)
    ensures
        phase_of(s) == Phase::Allocated || phase_of(s) == Phase::Submitting ==> held_identifier(
            s,
        ) is Some,
        phase_of(s) == Phase::Idle || phase_of(s) == Phase::Allocating ==> held_identifier(s)
            is None,
{
}

/// Submission needs an allocated identifier: "submit" is accepted in
/// `Allocated` only, so it is rejected in `Idle` and in `Allocating`, and
/// the record that is posted carries the identifier that the session holds.
pub proof fn lemma_submit_needs_identifier(s: GateModel, d: DraftModel)
    ensures
        submit_spec(s, d).1 is Some <==> s is Allocated,
        s is Idle || s is Allocating ==> submit_spec(s, d) == (s, None::<RecordModel>),
        submit_spec(s, d).1 matches Some(record) ==> held_identifier(s) == Some(
            node_identifier(record),
        ) && submit_spec(s, d).0 == GateModel::Submitting(node_identifier(record)),
{
}

/// Single flight: while a call is in flight, "generate identifier", "submit"
/// and "retry" are all rejected, and the state does not move.
pub proof fn lemma_single_flight(s: GateModel, d: DraftModel)
    requires
        in_flight(s),
    ensures
        generate_spec(s) == (s, false),
        submit_spec(s, d) == (s, None::<RecordModel>),
        retry_spec(s) == (s, false),
{
}

/// A call is issued only from a state with none in flight, and puts the
/// session in flight: no second call can be issued before the first resolves.
pub proof fn lemma_issue_enters_flight(s: GateModel, d: DraftModel)
    ensures
        generate_spec(s).1 ==> !in_flight(s) && in_flight(generate_spec(s).0),
        submit_spec(s, d).1 is Some ==> !in_flight(s) && in_flight(submit_spec(s, d).0),
{
}

/// A repeated submission is the same submission: after a submission has
/// failed, "retry" and then "submit" post the draft under the identifier that
/// the failed submission was made under, and no new one is allocated.
pub proof fn lemma_retry_repeats_submission(s: GateModel, o: OutcomeModel, d: DraftModel)
    requires
        s is Submitting,
        refusal_of(o) is Some,
    ensures
        ({
            let failed = submission_resolved_spec(s, o);
            let again = retry_spec(failed);
            &&& again.1
            &&& again.0 == GateModel::Allocated(s->Submitting_0)
            &&& !generate_spec(failed).1
            &&& !generate_spec(again.0).1
            &&& submit_spec(again.0, d) == (
                GateModel::Submitting(s->Submitting_0),
                Some(stamp_spec(d, s->Submitting_0)),
            )
        }),
{
}

/// What a failure retains: a failed allocation leaves no identifier, a
/// failed submission keeps the one it was made under, and a successful
/// submission returns the session to `Idle`.
pub proof fn lemma_resolution(s: GateModel, o: OutcomeModel)
    ensures
        s is Allocating ==> held_identifier(allocation_resolved_spec(s, o)) == (
        match allocation_outcome_spec(o) {
            Ok(id) => Some(id),
            Err(_) => None,
        }),
        s is Submitting && refusal_of(o) is Some ==> held_identifier(
            submission_resolved_spec(s, o),
        ) == held_identifier(s),
        s is Submitting && refusal_of(o) is None ==> submission_resolved_spec(s, o)
            == GateModel::Idle,
        !(s is Allocating) ==> allocation_resolved_spec(s, o) == s,
        !(s is Submitting) ==> submission_resolved_spec(s, o) == s,
{
}

} // verus!
