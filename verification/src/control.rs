//! NCC, the control plane of a node: encrypted requests over Nostr, and what
//! the node's replies mean.

use vstd::prelude::*;
use crate::codec::{nip04_decrypt, nip04_encrypt, nip04_key_error, nip04_open};
use crate::events::{
    comes_from, event_parts, pick_event, pubkey_tag, tag, tag_views, DraftView, EventDraft,
};
use crate::json::{
    boolean, empty_record, field, json_read, json_text, json_view, json_views, number, parse,
    render, set_field, text, JsonView,
};
use crate::outcome::{bare, during, unit_failing_view, Failure};
use crate::text::cat3;

verus! {

/// NCC control request kind (must match dln-node's CONTROL_REQUEST_KIND).
pub const CONTROL_REQUEST_KIND: u16 = 23198;

/// NCC control response kind (must match dln-node's CONTROL_RESPONSE_KIND).
pub const CONTROL_RESPONSE_KIND: u16 = 23199;

/// The two keys between which a control plane runs: the controller's secret
/// key and the service's public key, in hexadecimal.
pub struct ControlPlane {
    pub secret: Vec<u8>,
    pub service: String,
}

/// What a [`ControlPlane`] holds.
pub struct PlaneView {
    pub secret: Seq<u8>,
    pub service: Seq<char>,
}

impl View for ControlPlane {
    type V = PlaneView;

    open spec fn view(&self) -> PlaneView {
        PlaneView { secret: self.secret@, service: self.service@ }
    }
}

/// Whether a draft carries `payload`, encrypted for the service.
pub open spec fn seals(plane: PlaneView, kind: u16, payload: JsonView, draft: DraftView) -> bool {
    &&& draft.kind == kind
    &&& draft.tags == seq![pubkey_tag(plane.service)]
    &&& nip04_open(plane.secret, plane.service, draft.content) == Ok::<Seq<char>, Seq<char>>(
        json_text(payload),
    )
}

/// What the encrypted content of a reply says: a JSON value, or why it is none.
pub open spec fn unsealed(plane: PlaneView, content: Seq<char>) -> Result<
    JsonView,
    Seq<Seq<char>>,
> {
    match nip04_open(plane.secret, plane.service, content) {
        Err(e) => Err(bare(e)),
        Ok(plain) => match json_read(plain) {
            Err(e) => Err(bare(e)),
            Ok(v) => Ok(v),
        },
    }
}

/// The view of a JSON value or a failure.
pub open spec fn json_failing_view(r: Result<serde_json::Value, Failure>) -> Result<
    JsonView,
    Seq<Seq<char>>,
> {
    match r {
        Ok(v) => Ok(json_view(v)),
        Err(f) => Err(f@),
    }
}

impl ControlPlane {
    /// Encrypts a request for the service.
    pub fn seal(&self, kind: u16, payload: &serde_json::Value) -> (r: Result<EventDraft, Failure>)
        ensures
            match r {
                Ok(draft) => seals(self@, kind, json_view(*payload), draft@),
                Err(f) => f@ == bare(nip04_key_error(self@.secret, self@.service))
                    && forall|content: Seq<char>|
                    (#[trigger] nip04_open(self@.secret, self@.service, content)) is Err,
            },
    {
        let plain = render(payload);
        match nip04_encrypt(self.secret.as_slice(), self.service.as_str(), plain.as_str()) {
            Ok(content) => {
                let tags = vec![tag("p", self.service.as_str())];
                assert(tag_views(tags@) =~= seq![pubkey_tag(self@.service)]);
                Ok(EventDraft { kind, content, tags })
            },
            Err(e) => Err(Failure::new(e)),
        }
    }

    /// Reads the encrypted content of a reply.
    pub fn unseal(&self, content: &str) -> (r: Result<serde_json::Value, Failure>)
        ensures
            json_failing_view(r) == unsealed(self@, content@),
    {
        match nip04_decrypt(self.secret.as_slice(), self.service.as_str(), content) {
            Err(e) => Err(Failure::new(e)),
            Ok(plain) => match parse(plain.as_str()) {
                Err(e) => Err(Failure::new(e)),
                Ok(v) => Ok(v),
            },
        }
    }
}

/// Where a request and the wait for its reply stand. `D` is an event to
/// publish, `J` a JSON value and `F` a failure.
pub enum ControlCall<D, J, F> {
    /// Publish the request.
    Publish(D),
    /// Take what the relay passes on, for [`CONTROL_SECS`] in all.
    Listen,
    Done(Result<J, F>),
}

/// How long a request waits for its reply, in seconds.
pub const CONTROL_SECS: u64 = 10;

/// What a step of a request takes.
pub enum ControlEvent {
    Published(Result<(), String>),
    /// The JSON of an event that the relay passed on.
    Heard(String),
    /// The time to listen is over; the text is the timer's.
    TimedOut(String),
    /// The relay passes nothing more on.
    Ended,
}

impl View for ControlCall<EventDraft, serde_json::Value, Failure> {
    type V = ControlCall<DraftView, JsonView, Seq<Seq<char>>>;

    open spec fn view(&self) -> ControlCall<DraftView, JsonView, Seq<Seq<char>>> {
        match *self {
            ControlCall::Publish(draft) => ControlCall::Publish(draft@),
            ControlCall::Listen => ControlCall::Listen,
            ControlCall::Done(r) => ControlCall::Done(json_failing_view(r)),
        }
    }
}

impl ControlCall<DraftView, JsonView, Seq<Seq<char>>> {
    /// The state after `event`. What was not asked for changes nothing, and so
    /// does an event that is no reply of the service.
    pub open spec fn after(self, plane: PlaneView, event: ControlEvent) -> ControlCall<
        DraftView,
        JsonView,
        Seq<Seq<char>>,
    > {
        match (self, event) {
            (ControlCall::Publish(_), ControlEvent::Published(Ok(()))) => ControlCall::Listen,
            (ControlCall::Publish(_), ControlEvent::Published(Err(e))) => ControlCall::Done(
                Err(bare(e@)),
            ),
            (ControlCall::Listen, ControlEvent::Heard(json)) => if comes_from(
                json@,
                CONTROL_RESPONSE_KIND,
                plane.service,
            ) {
                ControlCall::Done(unsealed(plane, event_parts(json@)->Ok_0.content))
            } else {
                ControlCall::Listen
            },
            (ControlCall::Listen, ControlEvent::TimedOut(e)) => ControlCall::Done(
                Err(during("timeout waiting for NCC response"@, bare(e@))),
            ),
            (ControlCall::Listen, ControlEvent::Ended) => ControlCall::Done(
                Err(bare("notification stream ended before NCC response"@)),
            ),
            _ => self,
        }
    }
}

/// Whether a call begins by publishing `payload`, encrypted for the service. It
/// fails at once where the keys encrypt nothing: then they decrypt nothing
/// either.
pub open spec fn begins(
    call: ControlCall<EventDraft, serde_json::Value, Failure>,
    plane: PlaneView,
    payload: JsonView,
) -> bool {
    match call {
        ControlCall::Publish(draft) => seals(plane, CONTROL_REQUEST_KIND, payload, draft@),
        ControlCall::Listen => false,
        ControlCall::Done(result) => {
            &&& result matches Err(f) && f@ == bare(nip04_key_error(plane.secret, plane.service))
            &&& forall|content: Seq<char>|
                (#[trigger] nip04_open(plane.secret, plane.service, content)) is Err
        },
    }
}

impl ControlCall<EventDraft, serde_json::Value, Failure> {
    /// Begins to send a control request (NIP-04 encrypted, kind 23198).
    pub fn send_ncc_request(plane: &ControlPlane, payload: &serde_json::Value) -> (r: ControlCall<
        EventDraft,
        serde_json::Value,
        Failure,
    >)
        ensures
            begins(r, plane@, json_view(*payload)),
    {
        match plane.seal(CONTROL_REQUEST_KIND, payload) {
            Ok(draft) => ControlCall::Publish(draft),
            Err(f) => ControlCall::Done(Err(f)),
        }
    }

    /// How many seconds the call listens in all, while it does.
    pub fn listens_for(&self) -> (r: Option<u64>)
        ensures
            r == if self@ is Listen {
                Some(10u64)
            } else {
                None
            },
    {
        match self {
            ControlCall::Listen => Some(CONTROL_SECS),
            _ => None,
        }
    }

    /// Takes what happened.
    pub fn step(self, plane: &ControlPlane, event: ControlEvent) -> (r: ControlCall<
        EventDraft,
        serde_json::Value,
        Failure,
    >)
        ensures
            r@ == self@.after(plane@, event),
    {
        match self {
            ControlCall::Publish(draft) => match event {
                ControlEvent::Published(Ok(())) => ControlCall::Listen,
                ControlEvent::Published(Err(e)) => ControlCall::Done(Err(Failure::new(e))),
                _ => ControlCall::Publish(draft),
            },
            ControlCall::Listen => match event {
                ControlEvent::Heard(json) => match pick_event(
                    json.as_str(),
                    CONTROL_RESPONSE_KIND,
                    plane.service.as_str(),
                ) {
                    Some(parts) => ControlCall::Done(plane.unseal(parts.content.as_str())),
                    None => ControlCall::Listen,
                },
                ControlEvent::TimedOut(e) => ControlCall::Done(
                    Err(Failure::new(e).context("timeout waiting for NCC response")),
                ),
                ControlEvent::Ended => ControlCall::Done(
                    Err(Failure::new("notification stream ended before NCC response".to_owned())),
                ),
                _ => ControlCall::Listen,
            },
            ControlCall::Done(r) => ControlCall::Done(r),
        }
    }
}

/// A request is answered by nothing but an event of the response kind that the
/// service wrote: whatever else the relay passes on, the wait goes on.
pub proof fn only_the_service_answers(
    plane: PlaneView,
    json: String,
)
    requires
        !comes_from(json@, CONTROL_RESPONSE_KIND, plane.service),
    ensures
        ControlCall::<DraftView, JsonView, Seq<Seq<char>>>::Listen.after(
            plane,
            ControlEvent::Heard(json),
        ) is Listen,
{
}

// ---------------------------------------------------------------------------
// Requests
// ---------------------------------------------------------------------------

/// A request to run `method`.
pub open spec fn control_request(method: Seq<char>, params: JsonView) -> JsonView {
    JsonView::empty().with("method"@, JsonView::Text(method)).with("params"@, params)
}

fn request(method: &str, params: serde_json::Value) -> (r: serde_json::Value)
    ensures
        json_view(r) == control_request(method@, json_view(params)),
{
    let mut r = empty_record();
    set_field(&mut r, "method", text(method));
    set_field(&mut r, "params", params);
    r
}

/// What an `open_channel` request says. The amounts are in sats.
pub open spec fn open_channel_params(
    node_id: Seq<char>,
    addr: Seq<char>,
    amount: u64,
    push_amount: Option<u64>,
) -> JsonView {
    let base = JsonView::empty().with("pubkey"@, JsonView::Text(node_id)).with(
        "host"@,
        JsonView::Text(addr),
    ).with("amount"@, JsonView::Int(amount as int));
    match push_amount {
        Some(push) => base.with("push_amount"@, JsonView::Int(push as int)),
        None => base,
    }
}

/// The request that opens a channel. `push_amount` is in **sats** (the NCC
/// handler converts to msat internally).
pub fn open_channel_request(
    node_id: &str,
    addr: &str,
    amount: u64,
    push_amount: Option<u64>,
) -> (r: serde_json::Value)
    ensures
        json_view(r) == control_request(
            "open_channel"@,
            open_channel_params(node_id@, addr@, amount, push_amount),
        ),
{
    let mut params = empty_record();
    set_field(&mut params, "pubkey", text(node_id));
    set_field(&mut params, "host", text(addr));
    set_field(&mut params, "amount", number(amount));
    match push_amount {
        Some(push) => set_field(&mut params, "push_amount", number(push)),
        None => {},
    }
    request("open_channel", params)
}

/// The request for the list of channels.
pub fn list_channels_request() -> (r: serde_json::Value)
    ensures
        json_view(r) == control_request("list_channels"@, JsonView::empty()),
{
    request("list_channels", empty_record())
}

/// The request that closes a channel.
pub fn close_channel_request(channel_id: &str, force: bool) -> (r: serde_json::Value)
    ensures
        json_view(r) == control_request(
            "close_channel"@,
            JsonView::empty().with("id"@, JsonView::Text(channel_id@)).with(
                "force"@,
                JsonView::Bool(force),
            ),
        ),
{
    let mut params = empty_record();
    set_field(&mut params, "id", text(channel_id));
    set_field(&mut params, "force", boolean(force));
    request("close_channel", params)
}

// ---------------------------------------------------------------------------
// Replies
// ---------------------------------------------------------------------------

/// What a request for `method` came to: the reply, or why there is none. A
/// reply that reports an error is none.
pub open spec fn control_reply(method: Seq<char>, result: Result<JsonView, Seq<Seq<char>>>) -> Result<
    JsonView,
    Seq<Seq<char>>,
> {
    match result {
        Err(f) => Err(during("NCC "@ + method + " failed"@, f)),
        Ok(v) => if v.field("error"@) != JsonView::Null {
            Err(bare(method + " error: "@ + json_text(v.field("error"@))))
        } else {
            Ok(v)
        },
    }
}

fn accept_reply(method: &str, result: Result<serde_json::Value, Failure>) -> (r: Result<
    serde_json::Value,
    Failure,
>)
    ensures
        json_failing_view(r) == control_reply(method@, json_failing_view(result)),
{
    match result {
        Err(f) => {
            let doing = cat3("NCC ", method, " failed");
            Err(f.context(doing.as_str()))
        },
        Ok(v) => {
            let error = field(&v, "error");
            if !error.is_null() {
                let shown = render(error);
                Err(Failure::new(cat3(method, " error: ", shown.as_str())))
            } else {
                Ok(v)
            }
        },
    }
}

/// Whether a request that gives nothing back succeeded.
pub open spec fn done_or_failed(method: Seq<char>, result: Result<JsonView, Seq<Seq<char>>>) -> Result<
    (),
    Seq<Seq<char>>,
> {
    match control_reply(method, result) {
        Ok(_) => Ok(()),
        Err(f) => Err(f),
    }
}

/// What an `open_channel` request came to.
pub fn open_channel_reply(result: Result<serde_json::Value, Failure>) -> (r: Result<(), Failure>)
    ensures
        unit_failing_view(r) == done_or_failed("open_channel"@, json_failing_view(result)),
{
    match accept_reply("open_channel", result) {
        Ok(_) => Ok(()),
        Err(f) => Err(f),
    }
}

/// What a `close_channel` request came to.
pub fn close_channel_reply(result: Result<serde_json::Value, Failure>) -> (r: Result<(), Failure>)
    ensures
        unit_failing_view(r) == done_or_failed("close_channel"@, json_failing_view(result)),
{
    match accept_reply("close_channel", result) {
        Ok(_) => Ok(()),
        Err(f) => Err(f),
    }
}

/// The channels that a reply lists: none where it has no list.
pub open spec fn listed_channels(reply: JsonView) -> Seq<JsonView> {
    match reply.field("result"@).field("channels"@).items() {
        Some(items) => items,
        None => Seq::empty(),
    }
}

/// What a `list_channels` request came to.
pub open spec fn channels_or_failure(result: Result<JsonView, Seq<Seq<char>>>) -> Result<
    Seq<JsonView>,
    Seq<Seq<char>>,
> {
    match control_reply("list_channels"@, result) {
        Ok(v) => Ok(listed_channels(v)),
        Err(f) => Err(f),
    }
}

/// The view of a list of channels or a failure.
pub open spec fn channels_view(r: Result<Vec<serde_json::Value>, Failure>) -> Result<
    Seq<JsonView>,
    Seq<Seq<char>>,
> {
    match r {
        Ok(items) => Ok(json_views(items@)),
        Err(f) => Err(f@),
    }
}

fn copy_values(items: &Vec<serde_json::Value>) -> (r: Vec<serde_json::Value>)
    ensures
        json_views(r@) == json_views(items@),
{
    let mut r: Vec<serde_json::Value> = Vec::new();
    let mut i: usize = 0;
    while i < items.len()
        invariant
            i <= items.len(),
            r.len() == i,
            forall|k: int| 0 <= k < i ==> json_view(r@[k]) == json_view(items@[k]),
        decreases items.len() - i,
    {
        r.push(items[i].clone());
        i = i + 1;
    }
    assert(json_views(r@) =~= json_views(items@));
    r
}

/// The channels that a node lists.
pub fn list_channels_reply(result: Result<serde_json::Value, Failure>) -> (r: Result<
    Vec<serde_json::Value>,
    Failure,
>)
    ensures
        channels_view(r) == channels_or_failure(json_failing_view(result)),
{
    match accept_reply("list_channels", result) {
        Err(f) => Err(f),
        Ok(v) => match field(field(&v, "result"), "channels").as_array() {
            Some(items) => Ok(copy_values(items)),
            None => {
                let none: Vec<serde_json::Value> = Vec::new();
                assert(json_views(none@) =~= Seq::empty());
                Ok(none)
            },
        },
    }
}

/// Whether a channel is with the node `node_id`.
pub open spec fn is_with(channel: JsonView, node_id: Seq<char>) -> bool {
    channel.field("peer_pubkey"@).text() == Some(node_id)
}

/// Whether a channel is active, that is ready and usable.
pub open spec fn is_active(channel: JsonView) -> bool {
    channel.field("state"@).text() == Some("active"@)
}

/// Whether a list has a channel with the node, in any state.
pub open spec fn has_any(channels: Seq<JsonView>, node_id: Seq<char>) -> bool {
    exists|i: int| 0 <= i < channels.len() && is_with(#[trigger] channels[i], node_id)
}

/// Whether a list has an active channel with the node.
pub open spec fn has_ready(channels: Seq<JsonView>, node_id: Seq<char>) -> bool {
    exists|i: int|
        0 <= i < channels.len() && is_with(#[trigger] channels[i], node_id) && is_active(
            channels[i],
        )
}

/// Whether a listing has a channel with the node, in any state. A listing that
/// failed has none.
pub open spec fn lists_channel(
    channels: Result<Seq<JsonView>, Seq<Seq<char>>>,
    node_id: Seq<char>,
) -> bool {
    channels matches Ok(items) && has_any(items, node_id)
}

/// Whether a listing has an active channel with the node. A listing that failed
/// has none.
pub open spec fn lists_ready_channel(
    channels: Result<Seq<JsonView>, Seq<Seq<char>>>,
    node_id: Seq<char>,
) -> bool {
    channels matches Ok(items) && has_ready(items, node_id)
}

fn with_node(channel: &serde_json::Value, node_id: &str) -> (r: bool)
    ensures
        r == is_with(json_view(*channel), node_id@),
{
    match field(channel, "peer_pubkey").as_str() {
        Some(peer) => peer.to_owned() == node_id.to_owned(),
        None => false,
    }
}

fn active(channel: &serde_json::Value) -> (r: bool)
    ensures
        r == is_active(json_view(*channel)),
{
    match field(channel, "state").as_str() {
        Some(state) => state.to_owned() == "active".to_owned(),
        None => false,
    }
}

/// Where the first channel with a node stands in a listing.
fn find_channel(channels: &Vec<serde_json::Value>, node_id: &str) -> (r: Option<usize>)
    ensures
        match r {
            Some(k) => k < channels.len() && is_with(json_views(channels@)[k as int], node_id@)
                && forall|i: int|
                0 <= i < k ==> !is_with(#[trigger] json_views(channels@)[i], node_id@),
            None => forall|i: int|
                0 <= i < channels.len() ==> !is_with(#[trigger] json_views(channels@)[i], node_id@),
        },
{
    let mut k: usize = 0;
    while k < channels.len()
        invariant
            k <= channels.len(),
            forall|i: int| 0 <= i < k ==> !is_with(#[trigger] json_views(channels@)[i], node_id@),
        decreases channels.len() - k,
    {
        if with_node(&channels[k], node_id) {
            assert(json_views(channels@)[k as int] == json_view(channels@[k as int]));
            return Some(k);
        }
        k = k + 1;
    }
    None
}

/// Whether a list has an active channel with a node.
fn find_ready(channels: &Vec<serde_json::Value>, node_id: &str) -> (r: bool)
    ensures
        r == has_ready(json_views(channels@), node_id@),
{
    let mut k: usize = 0;
    while k < channels.len()
        invariant
            k <= channels.len(),
            forall|i: int|
                0 <= i < k ==> !(is_with(#[trigger] json_views(channels@)[i], node_id@)
                    && is_active(json_views(channels@)[i])),
        decreases channels.len() - k,
    {
        assert(json_views(channels@)[k as int] == json_view(channels@[k as int]));
        if with_node(&channels[k], node_id) && active(&channels[k]) {
            return true;
        }
        k = k + 1;
    }
    false
}

/// Check if there is any channel with the given node_id (any state).
pub fn has_channel_with(channels: &Result<Vec<serde_json::Value>, Failure>, node_id: &str) -> (r:
    bool)
    ensures
        r == lists_channel(channels_view(*channels), node_id@),
{
    match channels {
        Ok(items) => {
            let found = find_channel(items, node_id);
            assert(found is Some ==> is_with(json_views(items@)[found->0 as int], node_id@));
            found.is_some()
        },
        Err(_) => false,
    }
}

/// Check if there is an active (ready + usable) channel with the given node_id.
pub fn has_ready_channel_with(channels: &Result<Vec<serde_json::Value>, Failure>, node_id: &str) -> (r:
    bool)
    ensures
        r == lists_ready_channel(channels_view(*channels), node_id@),
{
    match channels {
        Ok(items) => find_ready(items, node_id),
        Err(_) => false,
    }
}

/// The transaction that funds the first channel with a node, or why none is
/// known.
pub open spec fn funding_of(channels: Seq<JsonView>, node_id: Seq<char>, k: int) -> Result<
    Seq<char>,
    Seq<char>,
>
    decreases channels.len() - k,
{
    if k < 0 || k >= channels.len() {
        Err("no BTK channel"@)
    } else if is_with(channels[k], node_id) {
        match channels[k].field("funding_txid"@).text() {
            Some(txid) => Ok(txid),
            None => Err("BTK channel has no funding_txid"@),
        }
    } else {
        funding_of(channels, node_id, k + 1)
    }
}

proof fn funding_skips(channels: Seq<JsonView>, node_id: Seq<char>, from: int, to: int)
    requires
        0 <= from <= to <= channels.len(),
        forall|i: int| from <= i < to ==> !is_with(#[trigger] channels[i], node_id),
    ensures
        funding_of(channels, node_id, from) == funding_of(channels, node_id, to),
    decreases to - from,
{
    if from < to {
        funding_skips(channels, node_id, from + 1, to);
    }
}

/// The transaction that funds the channel with a node: the first that is listed
/// with it.
pub fn funding_txid(channels: &Vec<serde_json::Value>, node_id: &str) -> (r: Result<String, String>)
    ensures
        crate::text::result_view(r) == funding_of(json_views(channels@), node_id@, 0),
{
    match find_channel(channels, node_id) {
        None => {
            proof {
                funding_skips(json_views(channels@), node_id@, 0, channels@.len() as int);
            }
            Err("no BTK channel".to_owned())
        },
        Some(k) => {
            proof {
                funding_skips(json_views(channels@), node_id@, 0, k as int);
            }
            match field(&channels[k], "funding_txid").as_str() {
                Some(txid) => Ok(txid.to_owned()),
                None => Err("BTK channel has no funding_txid".to_owned()),
            }
        },
    }
}

/// The channel to close: the first that is listed.
pub open spec fn first_channel(channels: Seq<JsonView>) -> Result<Seq<char>, Seq<char>> {
    if channels.len() == 0 {
        Err("no channels to close"@)
    } else {
        match channels[0].field("id"@).text() {
            Some(id) => Ok(id),
            None => Err("channel id missing from list_channels response"@),
        }
    }
}

/// The id of the channel to close.
pub fn channel_to_close(channels: &Vec<serde_json::Value>) -> (r: Result<String, String>)
    ensures
        crate::text::result_view(r) == first_channel(json_views(channels@)),
{
    if channels.len() == 0 {
        return Err("no channels to close".to_owned());
    }
    assert(json_views(channels@)[0] == json_view(channels@[0]));
    match field(&channels[0], "id").as_str() {
        Some(id) => Ok(id.to_owned()),
        None => Err("channel id missing from list_channels response".to_owned()),
    }
}

/// A ready channel is a channel, and a listing that failed shows neither.
pub proof fn ready_channels_are_channels(
    channels: Result<Seq<JsonView>, Seq<Seq<char>>>,
    node_id: Seq<char>,
)
    ensures
        lists_ready_channel(channels, node_id) ==> lists_channel(channels, node_id),
        channels is Err ==> !lists_channel(channels, node_id),
{
}

/// A listing shows a ready channel with a node exactly when one of its items has
/// that node under `peer_pubkey` and the text `active` under `state`: no other
/// state, and none at all, is ready. It shows a channel exactly when one of its
/// items has that node, whatever the state.
pub proof fn only_active_channels_are_ready(items: Seq<JsonView>, node_id: Seq<char>)
    ensures
        lists_ready_channel(Ok(items), node_id) <==> exists|i: int|
            0 <= i < items.len() && (#[trigger] items[i]).field("peer_pubkey"@) == JsonView::Text(
                node_id,
            ) && items[i].field("state"@) == JsonView::Text("active"@),
        lists_channel(Ok(items), node_id) <==> exists|i: int|
            0 <= i < items.len() && (#[trigger] items[i]).field("peer_pubkey"@) == JsonView::Text(
                node_id,
            ),
{
    assert forall|i: int| 0 <= i < items.len() implies (is_with(#[trigger] items[i], node_id) <==>
    items[i].field("peer_pubkey"@) == JsonView::Text(node_id)) && (is_active(items[i]) <==>
    items[i].field("state"@) == JsonView::Text("active"@)) by {}
}

/// A request is answered by the first event of kind 23199 that the service wrote,
/// with what that event's content decrypts to; by nothing else.
pub proof fn the_service_answers(plane: PlaneView, json: String)
    ensures
        ({
            let after = ControlCall::<DraftView, JsonView, Seq<Seq<char>>>::Listen.after(
                plane,
                ControlEvent::Heard(json),
            );
            match event_parts(json@) {
                Ok(parts) => if parts.kind == 23199 && parts.author == plane.service {
                    match nip04_open(plane.secret, plane.service, parts.content) {
                        Ok(plain) => match json_read(plain) {
                            Ok(v) => after == ControlCall::<
                                DraftView,
                                JsonView,
                                Seq<Seq<char>>,
                            >::Done(Ok(v)),
                            Err(_) => after matches ControlCall::Done(Err(_)),
                        },
                        Err(_) => after matches ControlCall::Done(Err(_)),
                    }
                } else {
                    after is Listen
                },
                Err(_) => after is Listen,
            }
        }),
{
}

/// A request is of kind 23198, points at the service, and the service's plane
/// decrypts what was to be said from its content.
pub proof fn a_request_is_for_the_service(
    call: ControlCall<EventDraft, serde_json::Value, Failure>,
    plane: PlaneView,
    payload: JsonView,
)
    requires
        begins(call, plane, payload),
        exists|content: Seq<char>|
            (#[trigger] nip04_open(plane.secret, plane.service, content)) is Ok,
    ensures
        call matches ControlCall::Publish(draft) && draft@.kind == 23198 && draft@.tags.len() == 1
            && draft@.tags[0] == seq!["p"@, plane.service] && nip04_open(
            plane.secret,
            plane.service,
            draft@.content,
        ) == Ok::<Seq<char>, Seq<char>>(json_text(payload)),
{
}

/// What a request says can be read back from it: its method, and its parameters.
pub proof fn requests_say_what_is_asked(
    node_id: Seq<char>,
    addr: Seq<char>,
    amount: u64,
    push: Option<u64>,
    method: Seq<char>,
    params: JsonView,
)
    ensures
        control_request(method, params).field("method"@).text() == Some(method),
        control_request(method, params).field("params"@) == params,
        ({
            let p = open_channel_params(node_id, addr, amount, push);
            &&& p.field("pubkey"@).text() == Some(node_id)
            &&& p.field("host"@).text() == Some(addr)
            &&& p.field("amount"@).natural() == Some(amount as int)
            &&& match push {
                Some(n) => p.field("push_amount"@).natural() == Some(n as int),
                None => p.field("push_amount"@) == JsonView::Null,
            }
        }),
{
    reveal_strlit("method");
    reveal_strlit("params");
    reveal_strlit("pubkey");
    reveal_strlit("host");
    reveal_strlit("amount");
    reveal_strlit("push_amount");
    assert("method"@[0] != "params"@[0]);
    assert("pubkey"@[0] != "amount"@[0]);
    assert("host"@.len() == 4 && "amount"@.len() == 6 && "pubkey"@.len() == 6);
    assert("push_amount"@.len() == 11);
}

/// A reply succeeds exactly when there is one and it has no error, or a null one.
/// Then it lists what its result has under `channels`, item by item, and nothing
/// where that is no list.
pub proof fn replies_with_an_error_fail(
    method: Seq<char>,
    result: Result<JsonView, Seq<Seq<char>>>,
    members: Map<Seq<char>, JsonView>,
    inner: Map<Seq<char>, JsonView>,
    items: Seq<JsonView>,
)
    ensures
        control_reply(method, result) is Ok <==> result is Ok && (result->Ok_0 matches
            JsonView::Record(m) ==> !m.contains_key("error"@) || m["error"@] == JsonView::Null),
        control_reply(method, result) is Ok ==> control_reply(method, result) == result,
        done_or_failed(method, result) is Ok <==> control_reply(method, result) is Ok,
        channels_or_failure(result) is Ok <==> control_reply("list_channels"@, result) is Ok,
        result == Ok::<JsonView, Seq<Seq<char>>>(JsonView::Record(members)) && (
        !members.contains_key("error"@) || members["error"@] == JsonView::Null)
            && members.contains_key("result"@) && members["result"@] == JsonView::Record(inner)
            && inner.contains_key("channels"@) && inner["channels"@] == JsonView::List(items)
            ==> channels_or_failure(result) == Ok::<Seq<JsonView>, Seq<Seq<char>>>(items),
{
}

/// The transaction that funds the channel with a node is the one that the first
/// listed channel with that node has under `funding_txid`, whatever channels with
/// others are listed before it.
pub proof fn the_first_channel_with_a_node_is_funded(
    channels: Seq<JsonView>,
    node_id: Seq<char>,
    k: int,
)
    requires
        0 <= k < channels.len(),
        channels[k].field("peer_pubkey"@).text() == Some(node_id),
        forall|i: int|
            0 <= i < k ==> (#[trigger] channels[i]).field("peer_pubkey"@).text() != Some(node_id),
    ensures
        channels[k].field("funding_txid"@).text() matches Some(txid) ==> funding_of(
            channels,
            node_id,
            0,
        ) == Ok::<Seq<char>, Seq<char>>(txid),
        channels[k].field("funding_txid"@).text() is None ==> funding_of(channels, node_id, 0)
            is Err,
{
    assert forall|i: int| 0 <= i < k implies !is_with(#[trigger] channels[i], node_id) by {}
    funding_skips(channels, node_id, 0, k);
}

/// Where no listed channel is with a node, none is known to be funded.
pub proof fn no_channel_is_not_funded(channels: Seq<JsonView>, node_id: Seq<char>)
    requires
        forall|i: int|
            0 <= i < channels.len() ==> (#[trigger] channels[i]).field("peer_pubkey"@).text()
                != Some(node_id),
    ensures
        funding_of(channels, node_id, 0) is Err,
{
    assert forall|i: int| 0 <= i < channels.len() implies !is_with(
        #[trigger] channels[i],
        node_id,
    ) by {}
    funding_skips(channels, node_id, 0, channels.len() as int);
}

/// The channel to close is the first that is listed, by what it has under `id`;
/// there is none in an empty listing, nor where that is no text.
pub proof fn the_first_channel_is_closed(channels: Seq<JsonView>)
    ensures
        channels.len() == 0 ==> first_channel(channels) is Err,
        channels.len() > 0 ==> (match channels[0].field("id"@) {
            JsonView::Text(id) => first_channel(channels) == Ok::<Seq<char>, Seq<char>>(id),
            _ => first_channel(channels) is Err,
        }),
{
}

} // verus!
