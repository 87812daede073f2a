//! The view dispatcher: from a protocol key and a route segment to a render
//! plan, and from the state of the cache and of a creation session to what a
//! view shows.

use crate::cache::{
    complete_spec, get_spec, invalidate_spec, FetchModel, FetchState, ResourceCache,
};
use crate::codec::{
    direction_token, direction_word, draft_protocol, encode, encode_spec, protocol_of, NodeRecord,
    RecordDraft, RecordModel, WirePayload,
};
use crate::gate::{
    generate_spec, held_identifier, in_flight, submit_spec, CreationGate, GateModel, GateState,
};
use crate::instant::{format_instant, instant_text};
use crate::outcome::{failure_text, listing_spec, FailureModel, HttpOutcome};
use crate::registry::{
    allocate_path, descriptor, descriptor_of, protocol_for, protocol_of_key, Protocol,
    ProtocolDescriptor,
};
use crate::text::{decimal_digits, format_decimal, same_text};
use vstd::prelude::*;
use vstd::string::*;

verus! {

/// The part of a route below the protocol key.
#[derive(Clone, Copy, Debug, PartialEq, Eq, Structural)]
pub enum RouteSegment {
    /// The protocol's description: the empty segment.
    Info,
    /// The listing of the protocol's records: `list`, or `dnodes` as the
    /// route tree spells it.
    List,
    /// The creation of a record: `create`, or `newdnode` as the route tree
    /// spells it.
    Create,
}

/// What a route renders.
#[derive(Clone, Copy, Debug, PartialEq, Eq)]
pub enum RenderPlan {
    /// The key names no protocol: a neutral view with this notice.
    Unsupported { notice: &'static str },
    /// The key names a protocol, but the segment names no view of it.
    UnknownRoute,
    /// The protocol's name and description.
    Info(ProtocolDescriptor),
    /// The listing: the cache is observed under the protocol's key and
    /// fetched from the descriptor's list path.
    List(ProtocolDescriptor),
    /// The creation form behind a gate of its own, posting to the
    /// descriptor's create path.
    Create(ProtocolDescriptor),
}

/// The segment that a text names, if any.
pub open spec fn segment_of(segment: Seq<char>) -> Option<RouteSegment> {
    if segment == ""@ {
        Some(RouteSegment::Info)
    } else if segment == "list"@ || segment == "dnodes"@ {
        Some(RouteSegment::List)
    } else if segment == "create"@ || segment == "newdnode"@ {
        Some(RouteSegment::Create)
    } else {
        None
    }
}

/// The notice of the neutral view, by the segment that was asked for.
pub open spec fn unsupported_notice(segment: Option<RouteSegment>) -> &'static str {
    match segment {
        Some(RouteSegment::Info) => "No description for this data node",
        Some(RouteSegment::List) => "No map",
        Some(RouteSegment::Create) => "There are no new nodes for this protocol",
        None => "Data protocol not found!",
    }
}

/// The plan of a route. A key that the registry does not have gives the
/// neutral view, whatever the segment.
pub open spec fn resolve_spec(key: Seq<char>, segment: Seq<char>) -> RenderPlan {
    match protocol_of_key(key) {
        None => RenderPlan::Unsupported { notice: unsupported_notice(segment_of(segment)) },
        Some(p) => match segment_of(segment) {
            None => RenderPlan::UnknownRoute,
            Some(RouteSegment::Info) => RenderPlan::Info(descriptor_of(p)),
            Some(RouteSegment::List) => RenderPlan::List(descriptor_of(p)),
            Some(RouteSegment::Create) => RenderPlan::Create(descriptor_of(p)),
        },
    }
}

/// Reads a route segment.
pub fn segment_for(segment: &str) -> (r: Option<RouteSegment>)
    ensures
        r == segment_of(segment@),
{
    if same_text(segment, "") {
        Some(RouteSegment::Info)
    } else if same_text(segment, "list") || same_text(segment, "dnodes") {
        Some(RouteSegment::List)
    } else if same_text(segment, "create") || same_text(segment, "newdnode") {
        Some(RouteSegment::Create)
    } else {
        None
    }
}

/// Resolves a route to its plan.
pub fn resolve(protocol_key: &str, route_segment: &str) -> (plan: RenderPlan)
    ensures
        plan == resolve_spec(protocol_key@, route_segment@),
        protocol_of_key(protocol_key@) is None <==> plan is Unsupported,
{
    let segment = segment_for(route_segment);
    match protocol_for(protocol_key) {
        None => RenderPlan::Unsupported {
            notice: match segment {
                Some(RouteSegment::Info) => "No description for this data node",
                Some(RouteSegment::List) => "No map",
                Some(RouteSegment::Create) => "There are no new nodes for this protocol",
                None => "Data protocol not found!",
            },
        },
        Some(p) => match segment {
            None => RenderPlan::UnknownRoute,
            Some(RouteSegment::Info) => RenderPlan::Info(descriptor(p)),
            Some(RouteSegment::List) => RenderPlan::List(descriptor(p)),
            Some(RouteSegment::Create) => RenderPlan::Create(descriptor(p)),
        },
    }
}

/// One line of a record's card: a label and the value shown beside it.
#[derive(Clone, Debug, PartialEq, Eq)]
pub struct DisplayRow {
    pub label: &'static str,
    pub value: String,
}

impl DeepView for DisplayRow {
    type V = (Seq<char>, Seq<char>);

    open spec fn deep_view(&self) -> (Seq<char>, Seq<char>) {
        (self.label@, self.value@)
    }
}

/// The text shown for the instant of a record's last update: empty where
/// the record has none.
pub open spec fn last_update_text(at: Option<i64>) -> Seq<char> {
    match at {
        Some(millis) => instant_text(millis),
        None => Seq::empty(),
    }
}

/// The card of a record: its fields in the order of display, each under its
/// label. Numbers are shown as decimal numerals, directions as their words.
pub open spec fn rows_spec(r: RecordModel) -> Seq<(Seq<char>, Seq<char>)> {
    match r {
        RecordModel::Generic { uid, name, value, rw_direction, last_update } => seq![
            ("Data node uid: "@, uid),
            ("Data node value: "@, value),
            ("Data node last updated: "@, last_update_text(last_update)),
            ("Data node name: "@, name),
            ("Data node read/write ? : "@, direction_token(rw_direction)),
        ],
        RecordModel::ModbusMapping { locked_to_uid, ip, port, register, rw_direction } => seq![
            ("MB locked to dNode: "@, locked_to_uid),
            ("MB ip: "@, ip),
            ("MB port: "@, decimal_digits(port as nat)),
            ("MB register: "@, decimal_digits(register as nat)),
            ("MB read/write: "@, direction_token(rw_direction)),
        ],
        RecordModel::MqttMapping { locked_to_uid, ip, topic, topic_modifier, rw_direction } => seq![
            ("MQTT locked to dNode: "@, locked_to_uid),
            ("MQTT ip: "@, ip),
            ("MQTT topic: "@, topic),
            ("MQTT topic modifier: "@, topic_modifier),
            ("MQTT read/write: "@, direction_token(rw_direction)),
        ],
    }
}

/// Renders one record as its card.
pub fn render_record(record: &NodeRecord) -> (rows: Vec<DisplayRow>)
    ensures
        rows.deep_view() == rows_spec(record@),
{
    let mut rows: Vec<DisplayRow> = Vec::new();
    match record {
        NodeRecord::Generic { uid, name, value, rw_direction, last_update } => {
            let at = match last_update {
                Some(millis) => format_instant(*millis),
                None => String::new(),
            };
            rows.push(DisplayRow { label: "Data node uid: ", value: uid.clone() });
            rows.push(DisplayRow { label: "Data node value: ", value: value.clone() });
            rows.push(DisplayRow { label: "Data node last updated: ", value: at });
            rows.push(DisplayRow { label: "Data node name: ", value: name.clone() });
            rows.push(
                DisplayRow {
                    label: "Data node read/write ? : ",
                    value: direction_word(*rw_direction).to_owned(),
                },
            );
        },
        NodeRecord::ModbusMapping { locked_to_uid, ip, port, register, rw_direction } => {
            rows.push(DisplayRow { label: "MB locked to dNode: ", value: locked_to_uid.clone() });
            rows.push(DisplayRow { label: "MB ip: ", value: ip.clone() });
            rows.push(DisplayRow { label: "MB port: ", value: format_decimal(*port) });
            rows.push(DisplayRow { label: "MB register: ", value: format_decimal(*register) });
            rows.push(
                DisplayRow {
                    label: "MB read/write: ",
                    value: direction_word(*rw_direction).to_owned(),
                },
            );
        },
        NodeRecord::MqttMapping { locked_to_uid, ip, topic, topic_modifier, rw_direction } => {
            rows.push(DisplayRow { label: "MQTT locked to dNode: ", value: locked_to_uid.clone() });
            rows.push(DisplayRow { label: "MQTT ip: ", value: ip.clone() });
            rows.push(DisplayRow { label: "MQTT topic: ", value: topic.clone() });
            rows.push(DisplayRow { label: "MQTT topic modifier: ", value: topic_modifier.clone() });
            rows.push(
                DisplayRow {
                    label: "MQTT read/write: ",
                    value: direction_word(*rw_direction).to_owned(),
                },
            );
        },
    }
    assert(rows.deep_view() =~= rows_spec(record@));
    rows
}

/// What a list view shows.
#[derive(Clone, Debug, PartialEq, Eq)]
pub enum ListView {
    /// The listing is being fetched.
    Loading,
    /// The listing arrived: one card per record, in the listing's order. An
    /// empty listing is an empty collection.
    Cards(Vec<Vec<DisplayRow>>),
    /// The listing could not be loaded; the text says why. The state is
    /// terminal until the slot is invalidated.
    CouldNotLoad(String),
}

/// A list view with its texts as character sequences.
pub enum ListViewModel {
    Loading,
    Cards(Seq<Seq<(Seq<char>, Seq<char>)>>),
    CouldNotLoad(Seq<char>),
}

impl View for ListView {
    type V = ListViewModel;

    open spec fn view(&self) -> ListViewModel {
        match *self {
            ListView::Loading => ListViewModel::Loading,
            ListView::Cards(cards) => ListViewModel::Cards(cards.deep_view()),
            ListView::CouldNotLoad(reason) => ListViewModel::CouldNotLoad(reason@),
        }
    }
}

/// The list view of a fetch state.
pub open spec fn list_view_spec(state: FetchModel<Seq<RecordModel>>) -> ListViewModel {
    match state {
        FetchModel::Pending => ListViewModel::Loading,
        FetchModel::Ready(records) => ListViewModel::Cards(
            Seq::new(records.len(), |i: int| rows_spec(records[i])),
        ),
        FetchModel::Failed(failure) => ListViewModel::CouldNotLoad(failure_text(failure)),
    }
}

/// Renders the state of a listing.
pub fn list_view(state: &FetchState<Vec<NodeRecord>>) -> (view: ListView)
    ensures
        view@ == list_view_spec(state.deep_view()),
{
    match state {
        FetchState::Pending => ListView::Loading,
        FetchState::Ready(records) => {
            let mut cards: Vec<Vec<DisplayRow>> = Vec::new();
            let mut i: usize = 0;
            while i < records.len()
                invariant
                    0 <= i <= records.len(),
                    cards.len() == i,
                    forall|j: int|
                        0 <= j < i ==> (#[trigger] cards[j]).deep_view() == rows_spec(records[j]@),
                decreases records.len() - i,
            {
                cards.push(render_record(&records[i]));
                i = i + 1;
            }
            assert(cards.deep_view() =~= Seq::new(
                records.deep_view().len(),
                |i: int| rows_spec(records.deep_view()[i]),
            ));
            ListView::Cards(cards)
        },
        FetchState::Failed(failure) => ListView::CouldNotLoad(failure.describe()),
    }
}

/// One step of a list view: what it shows now, and the path to fetch from
/// where a fetch is due.
#[derive(Clone, Debug, PartialEq, Eq)]
pub struct ListingStep {
    pub view: ListView,
    pub fetch: Option<&'static str>,
}

/// Shows the listing of protocol `p`: the cache is observed under the
/// protocol's key. Where the observation asks for a fetch, the step names
/// the protocol's list path; its outcome is to be handed to
/// [`ResourceCache::resolve`] under the same key.
pub fn show_listing(cache: &mut ResourceCache, p: Protocol) -> (step: ListingStep)
    ensures
        final(cache)@ == get_spec(old(cache)@, descriptor_of(p).key@).0,
        step.view@ == list_view_spec(get_spec(old(cache)@, descriptor_of(p).key@).1),
        step.fetch == (if get_spec(old(cache)@, descriptor_of(p).key@).2 {
            Some(descriptor_of(p).list_path)
        } else {
            None
        }),
{
    let d = descriptor(p);
    let seen = cache.get(d.key);
    let view = list_view(&seen.state);
    let fetch = if seen.issue {
        Some(d.list_path)
    } else {
        None
    };
    ListingStep { view, fetch }
}

/// Hands the outcome of the listing call of protocol `p` to the cache, under
/// the protocol's key.
pub fn deliver_listing(cache: &mut ResourceCache, p: Protocol, outcome: &HttpOutcome)
    ensures
        final(cache)@ == complete_spec(
            old(cache)@,
            descriptor_of(p).key@,
            listing_spec(p, outcome@),
        ),
{
    cache.resolve(descriptor(p).key, p, outcome);
}

/// Asks for a fresh listing of protocol `p`: the slot under the protocol's
/// key is invalidated.
pub fn refresh_listing(cache: &mut ResourceCache, p: Protocol)
    ensures
        final(cache)@ == invalidate_spec(old(cache)@, descriptor_of(p).key@),
{
    cache.invalidate(descriptor(p).key);
}

/// A submission that is to be posted: the path and the body.
#[derive(Clone, Debug, PartialEq, Eq)]
pub struct PostRequest {
    pub path: &'static str,
    pub payload: WirePayload,
}

/// The submission of a record: its encoding, posted to the create path of
/// the record's protocol.
pub fn submission_request(record: &NodeRecord) -> (request: PostRequest)
    ensures
        request.path == descriptor_of(protocol_of(record@)).create_path,
        request.payload@ == encode_spec(record@),
{
    let p = match record {
        NodeRecord::Generic { .. } => Protocol::Rapi,
        NodeRecord::ModbusMapping { .. } => Protocol::ModbusTcp,
        NodeRecord::MqttMapping { .. } => Protocol::Mqtt,
    };
    PostRequest { path: descriptor(p).create_path, payload: encode(record) }
}

/// "Generate identifier" on a creation view: where the session accepts it,
/// one allocation call is to be issued, to the path that is returned.
pub fn request_identifier(gate: &mut CreationGate) -> (fetch: Option<&'static str>)
    ensures
        final(gate)@ == generate_spec(old(gate)@).0,
        fetch is Some <==> generate_spec(old(gate)@).1,
        fetch matches Some(path) ==> path@ == "/c/"@,
{
    if gate.generate() {
        Some(allocate_path())
    } else {
        None
    }
}

/// "Submit" on a creation view: where the session accepts it, the draft is
/// stamped with the allocated identifier and encoded, and one call is to be
/// issued with it, to the create path of the draft's protocol. Where the
/// session rejects it, nothing is to be issued.
pub fn submit_form(gate: &mut CreationGate, draft: RecordDraft) -> (post: Option<PostRequest>)
    ensures
        final(gate)@ == submit_spec(old(gate)@, draft@).0,
        match submit_spec(old(gate)@, draft@).1 {
            Some(record) => post matches Some(request) && request.path == descriptor_of(
                draft_protocol(draft@),
            ).create_path && request.payload@ == encode_spec(record),
            None => post is None,
        },
{
    match gate.submit(draft) {
        Some(record) => Some(submission_request(&record)),
        None => None,
    }
}

/// What a creation view shows of its session.
#[derive(Clone, Debug, PartialEq, Eq)]
pub struct CreateView {
    /// The identifier that the form is bound to, if one is held.
    pub identifier: Option<String>,
    /// Whether "generate identifier" is enabled.
    pub generate_enabled: bool,
    /// Whether the form can be submitted.
    pub submit_enabled: bool,
    /// Whether a call is in flight.
    pub busy: bool,
    /// Whether "retry" is offered.
    pub retry_enabled: bool,
    /// The failure in words, where the last call failed.
    pub notice: Option<String>,
}

/// A creation view with its texts as character sequences.
pub struct CreateViewModel {
    pub identifier: Option<Seq<char>>,
    pub generate_enabled: bool,
    pub submit_enabled: bool,
    pub busy: bool,
    pub retry_enabled: bool,
    pub notice: Option<Seq<char>>,
}

impl View for CreateView {
    type V = CreateViewModel;

    open spec fn view(&self) -> CreateViewModel {
        CreateViewModel {
            identifier: self.identifier.deep_view(),
            generate_enabled: self.generate_enabled,
            submit_enabled: self.submit_enabled,
            busy: self.busy,
            retry_enabled: self.retry_enabled,
            notice: self.notice.deep_view(),
        }
    }
}

/// The creation view of a gate state: the form is bound to the identifier
/// that the session holds; generating is enabled in `Idle` only, submitting in
/// `Allocated` only, so both are disabled while a call is in flight.
pub open spec fn create_view_spec(s: GateModel) -> CreateViewModel {
    CreateViewModel {
        identifier: held_identifier(s),
        generate_enabled: s is Idle,
        submit_enabled: s is Allocated,
        busy: in_flight(s),
        retry_enabled: s is Failed,
        notice: match s {
            GateModel::Failed { reason, .. } => Some(failure_text(reason)),
            _ => None,
        },
    }
}

/// Renders the state of a gate.
pub fn create_view(state: &GateState) -> (view: CreateView)
    ensures
        view@ == create_view_spec(state@),
{
    match state {
        GateState::Idle => CreateView {
            identifier: None,
            generate_enabled: true,
            submit_enabled: false,
            busy: false,
            retry_enabled: false,
            notice: None,
        },
        GateState::Allocating => CreateView {
            identifier: None,
            generate_enabled: false,
            submit_enabled: false,
            busy: true,
            retry_enabled: false,
            notice: None,
        },
        GateState::Allocated(id) => CreateView {
            identifier: Some(id.clone()),
            generate_enabled: false,
            submit_enabled: true,
            busy: false,
            retry_enabled: false,
            notice: None,
        },
        GateState::Submitting(id) => CreateView {
            identifier: Some(id.clone()),
            generate_enabled: false,
            submit_enabled: false,
            busy: true,
            retry_enabled: false,
            notice: None,
        },
        GateState::Failed { reason, retained } => CreateView {
            identifier: match retained {
                Some(id) => Some(id.clone()),
                None => None,
            },
            generate_enabled: false,
            submit_enabled: false,
            busy: false,
            retry_enabled: true,
            notice: Some(reason.describe()),
        },
    }
}

/// An empty listing renders as an empty collection, and a failed one as
/// "could not load": neither is mistaken for the other, nor for loading.
pub proof fn lemma_empty_listing_is_no_error()
    ensures
        list_view_spec(FetchModel::Ready(Seq::<RecordModel>::empty())) == ListViewModel::Cards(
            Seq::empty(),
        ),
        forall|f: FailureModel| #[trigger] list_view_spec(FetchModel::Failed(f)) is CouldNotLoad,
        forall|records: Seq<RecordModel>| #[trigger]
            list_view_spec(FetchModel::Ready(records)) is Cards,
{
    assert(Seq::new(
        Seq::<RecordModel>::empty().len(),
        |i: int| rows_spec(Seq::<RecordModel>::empty()[i]),
    ) =~= Seq::<Seq<(Seq<char>, Seq<char>)>>::empty());
}

} // verus!
