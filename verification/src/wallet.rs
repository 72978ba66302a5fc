//! NWC, the wallet interface of a node (NIP-47): encrypted requests over Nostr,
//! and what the wallet's replies mean.

use nostr_sdk::{Event, JsonUtil, PublicKey, SecretKey};
use nwc::nostr::nips::nip47::{
    NIP47Error, NostrWalletConnectURI, PayInvoiceRequest, Request, Response,
};
use nwc::nostr::nips::nip47::ResponseResult::{GetBalance, GetInfo, PayInvoice};
use vstd::prelude::*;
use crate::codec::{is_lower_hex, nip04_key_error, nip04_open, public_key_hex};
use crate::control::{control_request, seals, unsealed, ControlPlane, PlaneView};
use crate::events::{
    comes_from, event_parts, pick_event, pubkey_tag, verifies, verify_event, EventDraft,
};
use crate::json::{empty_record, field, json_read, json_view, set_field, text, JsonView};
use crate::outcome::{bare, during, failing_view, unit_failing_view, Failure};
use crate::text::{cat2, cat4, option_view};

verus! {

/// The kind of a wallet request.
pub const WALLET_REQUEST_KIND: u16 = 23194;

/// The kind of a wallet response.
pub const WALLET_RESPONSE_KIND: u16 = 23195;

/// What is asked of a wallet.
pub enum WalletRequest<T> {
    GetInfo,
    GetBalance,
    PayInvoice(T),
    /// A payment on a hold invoice, which ends only when its payee settles.
    PayHeld(T),
    MakeNewAddress,
}

/// How long a request waits for its reply, in seconds.
pub const WALLET_SECS: u64 = 10;

/// The same for a payment on a hold invoice.
pub const HELD_PAYMENT_SECS: u64 = 300;

/// How long a request waits for its reply, in seconds.
pub open spec fn wallet_secs<T>(request: WalletRequest<T>) -> u64 {
    match request {
        WalletRequest::PayHeld(_) => 300,
        _ => 10,
    }
}

impl View for WalletRequest<String> {
    type V = WalletRequest<Seq<char>>;

    open spec fn view(&self) -> WalletRequest<Seq<char>> {
        match *self {
            WalletRequest::GetInfo => WalletRequest::GetInfo,
            WalletRequest::GetBalance => WalletRequest::GetBalance,
            WalletRequest::PayInvoice(invoice) => WalletRequest::PayInvoice(invoice@),
            WalletRequest::PayHeld(invoice) => WalletRequest::PayHeld(invoice@),
            WalletRequest::MakeNewAddress => WalletRequest::MakeNewAddress,
        }
    }
}

impl WalletRequest<Seq<char>> {
    /// What a request says, as JSON.
    pub open spec fn body(self) -> JsonView {
        match self {
            WalletRequest::GetInfo => control_request("get_info"@, JsonView::empty()),
            WalletRequest::GetBalance => control_request("get_balance"@, JsonView::empty()),
            WalletRequest::PayInvoice(invoice) | WalletRequest::PayHeld(invoice) => control_request(
                "pay_invoice"@,
                JsonView::empty().with("invoice"@, JsonView::Text(invoice)),
            ),
            WalletRequest::MakeNewAddress => control_request(
                "make_new_address"@,
                JsonView::empty(),
            ),
        }
    }
}

// ---------------------------------------------------------------------------
// Requests
// ---------------------------------------------------------------------------

/// Whether the JSON of an event carries `body`, encrypted for the service and
/// signed with the secret key. The event points at the service, unless that is
/// its own author; it writes the service's key in lower case.
pub open spec fn is_wallet_event(
    event: Seq<char>,
    secret: Seq<u8>,
    service: Seq<char>,
    body: JsonView,
) -> bool {
    match event_parts(event) {
        Ok(parts) => {
            &&& parts.kind == WALLET_REQUEST_KIND
            &&& parts.author == public_key_hex(secret)
            &&& is_lower_hex(service) && service != public_key_hex(secret) ==> parts.tags == seq![
                pubkey_tag(service),
            ]
            &&& match nip04_open(secret, service, parts.content) {
                Ok(plain) => json_read(plain) == Ok::<JsonView, Seq<char>>(body),
                Err(_) => false,
            }
        },
        Err(_) => false,
    }
}

/// `Request::get_info` and `Request::to_event` of NIP-47: an event, given by its
/// JSON, that carries the request. Its vector, time and signature are chance.
/// It fails only for keys that encrypt nothing.
#[verifier::external_body]
fn get_info_event(secret: &[u8], service: &str) -> (r: Result<String, String>)
    ensures
        match r {
            Ok(event) => is_wallet_event(
                event@,
                secret@,
                service@,
                WalletRequest::<Seq<char>>::GetInfo.body(),
            ),
            Err(e) => e@ == nip04_key_error(secret@, service@) && forall|content: Seq<char>|
                (#[trigger] nip04_open(secret@, service@, content)) is Err,
        },
{
    let secret = SecretKey::from_slice(secret).map_err(|e| e.to_string())?;
    let service = PublicKey::from_hex(service).map_err(|e| e.to_string())?;
    let uri = NostrWalletConnectURI::new(service, vec![], secret, None);
    Request::get_info()
        .to_event(&uri)
        .map(|event| event.as_json())
        .map_err(|e| e.to_string())
}

/// `Request::get_balance` and `Request::to_event` of NIP-47: as
/// [`get_info_event`], for the balance.
#[verifier::external_body]
fn get_balance_event(secret: &[u8], service: &str) -> (r: Result<String, String>)
    ensures
        match r {
            Ok(event) => is_wallet_event(
                event@,
                secret@,
                service@,
                WalletRequest::<Seq<char>>::GetBalance.body(),
            ),
            Err(e) => e@ == nip04_key_error(secret@, service@) && forall|content: Seq<char>|
                (#[trigger] nip04_open(secret@, service@, content)) is Err,
        },
{
    let secret = SecretKey::from_slice(secret).map_err(|e| e.to_string())?;
    let service = PublicKey::from_hex(service).map_err(|e| e.to_string())?;
    let uri = NostrWalletConnectURI::new(service, vec![], secret, None);
    Request::get_balance()
        .to_event(&uri)
        .map(|event| event.as_json())
        .map_err(|e| e.to_string())
}

/// `Request::pay_invoice` of a `PayInvoiceRequest` for the invoice, and
/// `Request::to_event` of NIP-47: as [`get_info_event`], for a payment.
#[verifier::external_body]
fn pay_invoice_event(secret: &[u8], service: &str, invoice: &str) -> (r: Result<String, String>)
    ensures
        match r {
            Ok(event) => is_wallet_event(
                event@,
                secret@,
                service@,
                WalletRequest::PayInvoice(invoice@).body(),
            ),
            Err(e) => e@ == nip04_key_error(secret@, service@) && forall|content: Seq<char>|
                (#[trigger] nip04_open(secret@, service@, content)) is Err,
        },
{
    let secret = SecretKey::from_slice(secret).map_err(|e| e.to_string())?;
    let service = PublicKey::from_hex(service).map_err(|e| e.to_string())?;
    let uri = NostrWalletConnectURI::new(service, vec![], secret, None);
    let params = PayInvoiceRequest::new(invoice);
    Request::pay_invoice(params)
        .to_event(&uri)
        .map(|event| event.as_json())
        .map_err(|e| e.to_string())
}

/// A request on its way: the JSON of a signed event, or an event that is still
/// to be signed with the same key.
pub enum Outgoing {
    Signed(String),
    Draft(EventDraft),
}

/// Whether what goes out carries a request for the wallet.
pub open spec fn carries(out: Outgoing, plane: PlaneView, request: WalletRequest<Seq<char>>) -> bool {
    match out {
        Outgoing::Signed(event) => request !is MakeNewAddress && is_wallet_event(
            event@,
            plane.secret,
            plane.service,
            request.body(),
        ),
        Outgoing::Draft(draft) => request is MakeNewAddress && seals(
            plane,
            WALLET_REQUEST_KIND,
            request.body(),
            draft@,
        ),
    }
}

/// Encrypts a request for the wallet.
pub fn wallet_event(plane: &ControlPlane, request: &WalletRequest<String>) -> (r: Result<
    Outgoing,
    Failure,
>)
    ensures
        match r {
            Ok(out) => carries(out, plane@, request@),
            Err(f) => f@ == during(
                "failed to create NWC request event"@,
                bare(nip04_key_error(plane@.secret, plane@.service)),
            ) && forall|content: Seq<char>|
                (#[trigger] nip04_open(plane@.secret, plane@.service, content)) is Err,
        },
{
    let secret = plane.secret.as_slice();
    let service = plane.service.as_str();
    let doing = "failed to create NWC request event";
    match request {
        WalletRequest::GetInfo => match get_info_event(secret, service) {
            Ok(event) => Ok(Outgoing::Signed(event)),
            Err(e) => Err(Failure::new(e).context(doing)),
        },
        WalletRequest::GetBalance => match get_balance_event(secret, service) {
            Ok(event) => Ok(Outgoing::Signed(event)),
            Err(e) => Err(Failure::new(e).context(doing)),
        },
        WalletRequest::PayInvoice(invoice) | WalletRequest::PayHeld(invoice) =>
        match pay_invoice_event(secret, service, invoice.as_str()) {
            Ok(event) => Ok(Outgoing::Signed(event)),
            Err(e) => Err(Failure::new(e).context(doing)),
        },
        WalletRequest::MakeNewAddress => {
            let mut body = empty_record();
            set_field(&mut body, "method", text("make_new_address"));
            set_field(&mut body, "params", empty_record());
            match plane.seal(WALLET_REQUEST_KIND, &body) {
                Ok(draft) => Ok(Outgoing::Draft(draft)),
                Err(f) => Err(f.context(doing)),
            }
        },
    }
}

// ---------------------------------------------------------------------------
// Replies
// ---------------------------------------------------------------------------

/// An error that a wallet reports: its code and its words.
pub struct WalletError<T> {
    pub code: T,
    pub message: T,
}

/// What a wallet gave.
pub enum WalletResult<T> {
    Paid(T),
    Balance(u64),
    Info { pubkey: Option<T> },
    Address(T),
    Other,
}

/// A wallet's reply.
pub struct WalletReply<T> {
    pub error: Option<WalletError<T>>,
    pub result: Option<WalletResult<T>>,
}

impl View for WalletError<String> {
    type V = WalletError<Seq<char>>;

    open spec fn view(&self) -> WalletError<Seq<char>> {
        WalletError { code: self.code@, message: self.message@ }
    }
}

impl View for WalletResult<String> {
    type V = WalletResult<Seq<char>>;

    open spec fn view(&self) -> WalletResult<Seq<char>> {
        match *self {
            WalletResult::Paid(preimage) => WalletResult::Paid(preimage@),
            WalletResult::Balance(n) => WalletResult::Balance(n),
            WalletResult::Info { pubkey } => WalletResult::Info { pubkey: option_view(pubkey) },
            WalletResult::Address(address) => WalletResult::Address(address@),
            WalletResult::Other => WalletResult::Other,
        }
    }
}

impl View for WalletReply<String> {
    type V = WalletReply<Seq<char>>;

    open spec fn view(&self) -> WalletReply<Seq<char>> {
        WalletReply {
            error: match self.error {
                Some(e) => Some(e@),
                None => None,
            },
            result: match self.result {
                Some(r) => Some(r@),
                None => None,
            },
        }
    }
}

/// The view of a reply or the text of an error.
pub open spec fn reply_view(r: Result<WalletReply<String>, String>) -> Result<
    WalletReply<Seq<char>>,
    Seq<char>,
> {
    match r {
        Ok(reply) => Ok(reply@),
        Err(e) => Err(e@),
    }
}

/// The view of a reply or a failure.
pub open spec fn reply_failing_view(r: Result<WalletReply<String>, Failure>) -> Result<
    WalletReply<Seq<char>>,
    Seq<Seq<char>>,
> {
    match r {
        Ok(reply) => Ok(reply@),
        Err(f) => Err(f@),
    }
}

fn reported(code: String, message: String) -> (r: WalletError<String>)
    ensures
        r@ == (WalletError { code: code@, message: message@ }),
{
    WalletError { code, message }
}

/// Whether a reply gives an address, be it beside an error.
pub open spec fn gives_address(reply: WalletReply<Seq<char>>) -> bool {
    reply.result matches Some(result) && result is Address
}

/// What NIP-47 reads in the JSON of a response event: the reply, or the text of
/// the error.
pub uninterp spec fn nip47_reading(secret: Seq<u8>, service: Seq<char>, event: Seq<char>) -> Result<
    WalletReply<Seq<char>>,
    Seq<char>,
>;

/// `Response::from_event` of NIP-47, for an event given by its JSON. It refuses
/// an event that the service did not sign. Of the reply it gives the error, with
/// the debug form of its code, and the result: what was paid, the balance or
/// the information where it is one of these. It knows no addresses.
#[verifier::external_body]
fn read_nip47(secret: &[u8], service: &str, event: &str) -> (r: Result<WalletReply<String>, String>)
    ensures
        reply_view(r) == nip47_reading(secret@, service@, event@),
        r matches Ok(reply) ==> !gives_address(reply@),
{
    let read = || -> Result<Response, Box<dyn std::error::Error>> {
        let secret = SecretKey::from_slice(secret)?;
        let uri = NostrWalletConnectURI::new(PublicKey::from_hex(service)?, vec![], secret, None);
        Ok(Response::from_event(&uri, &Event::from_json(event)?)?)
    };
    let reply = read().map_err(|e| e.to_string())?;
    Ok(WalletReply {
        error: reply.error.map(|e| reported(format!("{:?}", e.code), e.message)),
        result: reply.result.map(|result| match result {
            PayInvoice(paid) => WalletResult::Paid(paid.preimage),
            GetBalance(found) => WalletResult::Balance(found.balance),
            GetInfo(info) => WalletResult::Info { pubkey: info.pubkey },
            _ => WalletResult::Other,
        }),
    })
}

/// What NIP-47 reads in the JSON of an error: its code, in debug form, and its
/// words; or the text of the error with which it refuses the JSON.
pub uninterp spec fn nip47_error(v: JsonView) -> Result<WalletError<Seq<char>>, Seq<char>>;

/// `serde_json::from_value` into the `NIP47Error` of NIP-47, with the debug form
/// of its code; an error is given by its text.
#[verifier::external_body]
fn read_nip47_error(v: &serde_json::Value) -> (r: Result<WalletError<String>, String>)
    ensures
        match r {
            Ok(e) => nip47_error(json_view(*v)) == Ok::<WalletError<Seq<char>>, Seq<char>>(e@),
            Err(e) => nip47_error(json_view(*v)) == Err::<WalletError<Seq<char>>, Seq<char>>(e@),
        },
{
    serde_json::from_value::<NIP47Error>(v.clone())
        .map(|e| reported(format!("{:?}", e.code), e.message))
        .map_err(|e| e.to_string())
}

/// Whether a JSON value is a reply to `make_new_address`, by the method that it
/// names.
pub open spec fn is_address_reply(v: JsonView) -> bool {
    v.field("result_type"@).text() == Some("make_new_address"@)
}

/// What the JSON of a reply to `make_new_address` says, or why it says nothing.
pub open spec fn address_reply(v: JsonView) -> Result<WalletReply<Seq<char>>, Seq<char>> {
    let result = match v.field("result"@).field("address"@).text() {
        Some(address) => Some(WalletResult::Address(address)),
        None => None,
    };
    let error = v.field("error"@);
    if error == JsonView::Null {
        Ok(WalletReply { error: None, result })
    } else {
        match nip47_error(error) {
            Ok(e) => Ok(WalletReply { error: Some(e), result }),
            Err(e) => Err(e),
        }
    }
}

fn read_address_reply(v: &serde_json::Value) -> (r: Result<WalletReply<String>, String>)
    ensures
        reply_view(r) == address_reply(json_view(*v)),
{
    let result = match field(field(v, "result"), "address").as_str() {
        Some(address) => Some(WalletResult::Address(address.to_owned())),
        None => None,
    };
    let error = field(v, "error");
    if error.is_null() {
        Ok(WalletReply { error: None, result })
    } else {
        match read_nip47_error(error) {
            Ok(e) => Ok(WalletReply { error: Some(e), result }),
            Err(e) => Err(e),
        }
    }
}

/// The JSON of the reply to `make_new_address` that a response event carries, if
/// it does, and the event's id and signature are right.
pub open spec fn address_json(plane: PlaneView, event: Seq<char>) -> Option<JsonView> {
    match event_parts(event) {
        Ok(parts) => match unsealed(plane, parts.content) {
            Ok(v) => if verifies(event) && is_address_reply(v) {
                Some(v)
            } else {
                None
            },
            Err(_) => None,
        },
        Err(_) => None,
    }
}

/// What a response event that the service wrote says, or why it says nothing.
/// NIP-47 does not know `make_new_address`: a reply to it is read here, and any
/// other there.
pub open spec fn wallet_reading(
    plane: PlaneView,
    request: WalletRequest<Seq<char>>,
    event: Seq<char>,
) -> Result<WalletReply<Seq<char>>, Seq<Seq<char>>> {
    let read = match address_json(plane, event) {
        Some(v) if request is MakeNewAddress => address_reply(v),
        _ => nip47_reading(plane.secret, plane.service, event),
    };
    match read {
        Ok(reply) => Ok(reply),
        Err(e) => Err(during("failed to decrypt NWC response"@, bare(e))),
    }
}

/// Where a wallet request and the wait for its reply stand. `O` is what goes
/// out, `R` a reply and `F` a failure.
pub enum WalletCall<O, R, F> {
    /// Publish the request.
    Publish(O),
    /// Take what the relay passes on, for as long as the request waits in all.
    Listen,
    Done(Result<R, F>),
}

/// What a step of a wallet request takes.
pub enum WalletEvent {
    Published(Result<(), String>),
    /// The JSON of an event that the relay passed on.
    Heard(String),
    /// The time to listen is over; the text is the timer's.
    TimedOut(String),
    /// The relay passes nothing more on.
    Ended,
}

impl View for WalletCall<Outgoing, WalletReply<String>, Failure> {
    type V = WalletCall<Outgoing, WalletReply<Seq<char>>, Seq<Seq<char>>>;

    open spec fn view(&self) -> WalletCall<Outgoing, WalletReply<Seq<char>>, Seq<Seq<char>>> {
        match *self {
            WalletCall::Publish(out) => WalletCall::Publish(out),
            WalletCall::Listen => WalletCall::Listen,
            WalletCall::Done(r) => WalletCall::Done(reply_failing_view(r)),
        }
    }
}

impl WalletCall<Outgoing, WalletReply<Seq<char>>, Seq<Seq<char>>> {
    /// The state after `event`. What was not asked for changes nothing, and so
    /// does an event that is no response of the service.
    pub open spec fn after(
        self,
        plane: PlaneView,
        request: WalletRequest<Seq<char>>,
        event: WalletEvent,
    ) -> WalletCall<Outgoing, WalletReply<Seq<char>>, Seq<Seq<char>>> {
        match (self, event) {
            (WalletCall::Publish(_), WalletEvent::Published(Ok(()))) => WalletCall::Listen,
            (WalletCall::Publish(_), WalletEvent::Published(Err(e))) => WalletCall::Done(
                Err(bare(e@)),
            ),
            (WalletCall::Listen, WalletEvent::Heard(json)) => if comes_from(
                json@,
                WALLET_RESPONSE_KIND,
                plane.service,
            ) {
                WalletCall::Done(wallet_reading(plane, request, json@))
            } else {
                WalletCall::Listen
            },
            (WalletCall::Listen, WalletEvent::TimedOut(e)) => WalletCall::Done(
                Err(during("timeout waiting for NWC response"@, bare(e@))),
            ),
            (WalletCall::Listen, WalletEvent::Ended) => WalletCall::Done(
                Err(bare("notification stream ended before NWC response"@)),
            ),
            _ => self,
        }
    }
}

/// Whether a call begins by publishing a request, encrypted for the wallet. It
/// fails at once where the keys encrypt nothing.
pub open spec fn begins_wallet_call(
    call: WalletCall<Outgoing, WalletReply<String>, Failure>,
    plane: PlaneView,
    request: WalletRequest<Seq<char>>,
) -> bool {
    match call {
        WalletCall::Publish(out) => carries(out, plane, request),
        WalletCall::Listen => false,
        WalletCall::Done(result) => {
            &&& result matches Err(f) && f@ == during(
                "failed to create NWC request event"@,
                bare(nip04_key_error(plane.secret, plane.service)),
            )
            &&& forall|content: Seq<char>|
                (#[trigger] nip04_open(plane.secret, plane.service, content)) is Err
        },
    }
}

impl WalletCall<Outgoing, WalletReply<String>, Failure> {
    /// Begins to send a wallet request.
    pub fn send_nwc_request(plane: &ControlPlane, request: &WalletRequest<String>) -> (r: WalletCall<
        Outgoing,
        WalletReply<String>,
        Failure,
    >)
        ensures
            begins_wallet_call(r, plane@, request@),
    {
        match wallet_event(plane, request) {
            Ok(out) => WalletCall::Publish(out),
            Err(f) => WalletCall::Done(Err(f)),
        }
    }

    /// How many seconds the call of a request listens in all, while it does.
    pub fn listens_for(&self, request: &WalletRequest<String>) -> (r: Option<u64>)
        ensures
            r == if self@ is Listen {
                Some(wallet_secs(request@))
            } else {
                None
            },
    {
        match self {
            WalletCall::Listen => match request {
                WalletRequest::PayHeld(_) => Some(HELD_PAYMENT_SECS),
                _ => Some(WALLET_SECS),
            },
            _ => None,
        }
    }

    /// Takes what happened.
    pub fn step(self, plane: &ControlPlane, request: &WalletRequest<String>, event: WalletEvent) -> (r:
        WalletCall<Outgoing, WalletReply<String>, Failure>)
        ensures
            r@ == self@.after(plane@, request@, event),
            // An address is given by nothing but a signed reply that names the method.
            self@ is Listen ==> (r@ matches WalletCall::Done(Ok(reply)) ==> gives_address(reply)
                ==> (event matches WalletEvent::Heard(json) && request@ is MakeNewAddress
                && address_json(plane@, json@) is Some)),
    {
        match self {
            WalletCall::Publish(out) => match event {
                WalletEvent::Published(Ok(())) => WalletCall::Listen,
                WalletEvent::Published(Err(e)) => WalletCall::Done(Err(Failure::new(e))),
                _ => WalletCall::Publish(out),
            },
            WalletCall::Listen => match event {
                WalletEvent::Heard(json) => match pick_event(
                    json.as_str(),
                    WALLET_RESPONSE_KIND,
                    plane.service.as_str(),
                ) {
                    Some(parts) => WalletCall::Done(
                        read_wallet_reply(plane, request, json.as_str(), parts.content.as_str()),
                    ),
                    None => WalletCall::Listen,
                },
                WalletEvent::TimedOut(e) => WalletCall::Done(
                    Err(Failure::new(e).context("timeout waiting for NWC response")),
                ),
                WalletEvent::Ended => WalletCall::Done(
                    Err(Failure::new("notification stream ended before NWC response".to_owned())),
                ),
                _ => WalletCall::Listen,
            },
            WalletCall::Done(r) => WalletCall::Done(r),
        }
    }
}

fn read_address_json(plane: &ControlPlane, event: &str, content: &str) -> (r: Option<
    serde_json::Value,
>)
    requires
        event_parts(event@) matches Ok(parts) && parts.content == content@,
    ensures
        match r {
            Some(v) => address_json(plane@, event@) == Some(json_view(v)),
            None => address_json(plane@, event@) is None,
        },
{
    match plane.unseal(content) {
        Ok(v) => {
            let named = match field(&v, "result_type").as_str() {
                Some(method) => method.to_owned() == "make_new_address".to_owned(),
                None => false,
            };
            if named && verify_event(event) {
                Some(v)
            } else {
                None
            }
        },
        Err(_) => None,
    }
}

fn read_wallet_reply(
    plane: &ControlPlane,
    request: &WalletRequest<String>,
    event: &str,
    content: &str,
) -> (r: Result<WalletReply<String>, Failure>)
    requires
        event_parts(event@) matches Ok(parts) && parts.content == content@,
    ensures
        reply_failing_view(r) == wallet_reading(plane@, request@, event@),
        r matches Ok(reply) ==> gives_address(reply@) ==> request@ is MakeNewAddress
            && address_json(plane@, event@) is Some,
{
    let asked = matches!(request, WalletRequest::MakeNewAddress);
    let address = if asked {
        read_address_json(plane, event, content)
    } else {
        None
    };
    let read = match address {
        Some(v) => read_address_reply(&v),
        None => read_nip47(plane.secret.as_slice(), plane.service.as_str(), event),
    };
    match read {
        Ok(reply) => Ok(reply),
        Err(e) => Err(Failure::new(e).context("failed to decrypt NWC response")),
    }
}

// ---------------------------------------------------------------------------
// What the replies mean
// ---------------------------------------------------------------------------

/// An error as it is shown: the words, and the code in brackets.
pub open spec fn error_text(e: WalletError<Seq<char>>) -> Seq<char> {
    e.message + " ["@ + e.code + "]"@
}

impl WalletError<String> {
    /// The error as it is shown.
    pub fn shown(&self) -> (r: String)
        ensures
            r@ == error_text(self@),
    {
        cat4(self.message.as_str(), " [", self.code.as_str(), "]")
    }
}

impl WalletReply<Seq<char>> {
    /// The balance that a reply gives, or why it gives none.
    pub open spec fn balance(self) -> Result<u64, Seq<char>> {
        match self.error {
            Some(e) => Err(error_text(e)),
            None => match self.result {
                Some(WalletResult::Balance(n)) => Ok(n),
                _ => Err("Unexpected result"@),
            },
        }
    }

    /// The node's public key that a reply gives, if it is information and has
    /// one.
    pub open spec fn pubkey(self) -> Option<Seq<char>> {
        match (self.error, self.result) {
            (None, Some(WalletResult::Info { pubkey })) => pubkey,
            _ => None,
        }
    }

    /// The address that a reply gives, or why it gives none.
    pub open spec fn address(self) -> Result<Seq<char>, Seq<char>> {
        match self.error {
            Some(e) => Err(error_text(e)),
            None => match self.result {
                Some(WalletResult::Address(address)) => Ok(address),
                _ => Err("Unexpected result"@),
            },
        }
    }
}

impl WalletReply<String> {
    /// The balance that a reply gives, or why it gives none.
    pub fn to_get_balance(&self) -> (r: Result<u64, String>)
        ensures
            match r {
                Ok(n) => self@.balance() == Ok::<u64, Seq<char>>(n),
                Err(e) => self@.balance() == Err::<u64, Seq<char>>(e@),
            },
    {
        match &self.error {
            Some(e) => Err(e.shown()),
            None => match &self.result {
                Some(WalletResult::Balance(n)) => Ok(*n),
                _ => Err("Unexpected result".to_owned()),
            },
        }
    }

    /// The node's public key that a reply gives, if it is information and has
    /// one.
    pub fn to_pubkey(&self) -> (r: Option<String>)
        ensures
            option_view(r) == self@.pubkey(),
    {
        match &self.error {
            Some(_) => None,
            None => match &self.result {
                Some(WalletResult::Info { pubkey: Some(pubkey) }) => Some(pubkey.clone()),
                _ => None,
            },
        }
    }

    /// The address that a reply gives, or why it gives none.
    pub fn to_make_new_address(&self) -> (r: Result<String, String>)
        ensures
            crate::text::result_view(r) == self@.address(),
    {
        match &self.error {
            Some(e) => Err(e.shown()),
            None => match &self.result {
                Some(WalletResult::Address(address)) => Ok(address.clone()),
                _ => Err("Unexpected result".to_owned()),
            },
        }
    }
}

/// What a payment came to.
pub open spec fn payment(result: Result<WalletReply<Seq<char>>, Seq<Seq<char>>>) -> Result<
    (),
    Seq<Seq<char>>,
> {
    match result {
        Err(f) => Err(during("NWC pay_invoice failed"@, f)),
        Ok(reply) => match reply.error {
            Some(e) => Err(bare("pay_invoice error: "@ + error_text(e))),
            None => Ok(()),
        },
    }
}

/// What a payment came to.
pub fn pay_invoice_reply(result: Result<WalletReply<String>, Failure>) -> (r: Result<(), Failure>)
    ensures
        unit_failing_view(r) == payment(reply_failing_view(result)),
{
    match result {
        Err(f) => Err(f.context("NWC pay_invoice failed")),
        Ok(reply) => match reply.error {
            Some(e) => {
                let shown = e.shown();
                Err(Failure::new(cat2("pay_invoice error: ", shown.as_str())))
            },
            None => Ok(()),
        },
    }
}

/// The preimage that a payment gave, or why it gave none.
pub open spec fn preimage_paid(result: Result<WalletReply<Seq<char>>, Seq<Seq<char>>>) -> Result<
    Seq<char>,
    Seq<Seq<char>>,
> {
    match payment(result) {
        Err(f) => Err(f),
        Ok(()) => match result->Ok_0.result {
            Some(WalletResult::Paid(preimage)) => Ok(preimage),
            _ => Err(during("pay_invoice response parse failed"@, bare("Unexpected result"@))),
        },
    }
}

/// The preimage that a payment gave. A reply that gives none is a failure.
pub fn paid_preimage(result: Result<WalletReply<String>, Failure>) -> (r: Result<String, Failure>)
    ensures
        failing_view(r) == preimage_paid(reply_failing_view(result)),
{
    match result {
        Err(f) => Err(f.context("NWC pay_invoice failed")),
        Ok(reply) => match reply.error {
            Some(e) => {
                let shown = e.shown();
                Err(Failure::new(cat2("pay_invoice error: ", shown.as_str())))
            },
            None => match reply.result {
                Some(WalletResult::Paid(preimage)) => Ok(preimage),
                _ => Err(
                    Failure::new("Unexpected result".to_owned()).context(
                        "pay_invoice response parse failed",
                    ),
                ),
            },
        },
    }
}

/// The balance that a request gave, in millisatoshis.
pub open spec fn balance_msat(result: Result<WalletReply<Seq<char>>, Seq<Seq<char>>>) -> Result<
    u64,
    Seq<Seq<char>>,
> {
    match result {
        Err(f) => Err(during("NWC get_balance failed"@, f)),
        Ok(reply) => match reply.error {
            Some(e) => Err(bare("get_balance error: "@ + error_text(e))),
            None => match reply.balance() {
                Ok(n) => Ok(n),
                Err(e) => Err(during("get_balance response parse failed"@, bare(e))),
            },
        },
    }
}

/// The view of a number or a failure.
pub open spec fn amount_view(r: Result<u64, Failure>) -> Result<u64, Seq<Seq<char>>> {
    match r {
        Ok(n) => Ok(n),
        Err(f) => Err(f@),
    }
}

/// Get on-chain + lightning balance in millisatoshis via NWC.
pub fn get_balance_msat_reply(result: Result<WalletReply<String>, Failure>) -> (r: Result<u64, Failure>)
    ensures
        amount_view(r) == balance_msat(reply_failing_view(result)),
{
    match result {
        Err(f) => Err(f.context("NWC get_balance failed")),
        Ok(reply) => match &reply.error {
            Some(e) => {
                let shown = e.shown();
                Err(Failure::new(cat2("get_balance error: ", shown.as_str())))
            },
            None => match reply.to_get_balance() {
                Ok(n) => Ok(n),
                Err(e) => Err(Failure::new(e).context("get_balance response parse failed")),
            },
        },
    }
}

/// The address that a request gave.
pub open spec fn new_address(result: Result<WalletReply<Seq<char>>, Seq<Seq<char>>>) -> Result<
    Seq<char>,
    Seq<Seq<char>>,
> {
    match result {
        Err(f) => Err(during("NWC make_new_address failed"@, f)),
        Ok(reply) => match reply.address() {
            Ok(address) => Ok(address),
            Err(e) => Err(during("make_new_address response parse failed"@, bare(e))),
        },
    }
}

/// The address that a request gave.
pub fn make_new_address_reply(result: Result<WalletReply<String>, Failure>) -> (r: Result<
    String,
    Failure,
>)
    ensures
        failing_view(r) == new_address(reply_failing_view(result)),
{
    match result {
        Err(f) => Err(f.context("NWC make_new_address failed")),
        Ok(reply) => match reply.to_make_new_address() {
            Ok(address) => Ok(address),
            Err(e) => Err(Failure::new(e).context("make_new_address response parse failed")),
        },
    }
}

/// A wallet request is answered by nothing but an event of the response kind that
/// the service wrote: whatever else the relay passes on, the wait goes on.
pub proof fn only_the_wallet_answers(
    plane: PlaneView,
    request: WalletRequest<Seq<char>>,
    json: String,
)
    requires
        !comes_from(json@, WALLET_RESPONSE_KIND, plane.service),
    ensures
        WalletCall::<Outgoing, WalletReply<Seq<char>>, Seq<Seq<char>>>::Listen.after(
            plane,
            request,
            WalletEvent::Heard(json),
        ) is Listen,
{
}

/// A wallet's error is never taken for a success: a reply that reports one
/// gives no balance, no key, no address and no payment.
pub proof fn wallet_errors_are_never_successes(reply: WalletReply<Seq<char>>)
    requires
        reply.error is Some,
    ensures
        reply.balance() is Err,
        reply.pubkey() is None,
        reply.address() is Err,
        payment(Ok(reply)) is Err,
        preimage_paid(Ok(reply)) is Err,
        balance_msat(Ok(reply)) is Err,
        new_address(Ok(reply)) is Err,
{
}

/// A wallet request is answered by the first event of kind 23195 that the service
/// wrote, and then with what NIP-47 reads in it, unless it is the address that
/// was asked for; by nothing else.
pub proof fn the_wallet_answers(
    plane: PlaneView,
    request: WalletRequest<Seq<char>>,
    json: String,
)
    ensures
        ({
            let after = WalletCall::<Outgoing, WalletReply<Seq<char>>, Seq<Seq<char>>>::Listen.after(
                plane,
                request,
                WalletEvent::Heard(json),
            );
            match event_parts(json@) {
                Ok(parts) => if parts.kind == 23195 && parts.author == plane.service {
                    after is Done && (!(request is MakeNewAddress) ==> match nip47_reading(
                        plane.secret,
                        plane.service,
                        json@,
                    ) {
                        Ok(reply) => after == WalletCall::<
                            Outgoing,
                            WalletReply<Seq<char>>,
                            Seq<Seq<char>>,
                        >::Done(Ok(reply)),
                        Err(_) => after matches WalletCall::Done(Err(_)),
                    })
                } else {
                    after is Listen
                },
                Err(_) => after is Listen,
            }
        }),
{
}

/// What a wallet request says can be read back from it.
pub proof fn wallet_requests_say_what_is_asked(invoice: Seq<char>)
    ensures
        WalletRequest::<Seq<char>>::GetInfo.body().field("method"@).text() == Some("get_info"@),
        WalletRequest::<Seq<char>>::GetBalance.body().field("method"@).text() == Some(
            "get_balance"@,
        ),
        WalletRequest::<Seq<char>>::MakeNewAddress.body().field("method"@).text() == Some(
            "make_new_address"@,
        ),
        WalletRequest::PayInvoice(invoice).body().field("method"@).text() == Some("pay_invoice"@),
        WalletRequest::PayInvoice(invoice).body().field("params"@).field("invoice"@).text()
            == Some(invoice),
        WalletRequest::PayHeld(invoice).body() == WalletRequest::PayInvoice(invoice).body(),
        wallet_secs(WalletRequest::PayInvoice(invoice)) == 10,
        wallet_secs(WalletRequest::<Seq<char>>::GetInfo) == 10,
        wallet_secs(WalletRequest::<Seq<char>>::GetBalance) == 10,
        wallet_secs(WalletRequest::<Seq<char>>::MakeNewAddress) == 10,
        WALLET_REQUEST_KIND == 23194 && WALLET_RESPONSE_KIND == 23195,
{
    reveal_strlit("method");
    reveal_strlit("params");
    assert("method"@[0] != "params"@[0]);
}

/// A reply without an error means exactly what its result says: a balance is the
/// balance, information gives its key, an address the address, a payment its
/// preimage. What another kind of result gives, none of them takes.
pub proof fn replies_mean_their_results(
    result: Option<WalletResult<Seq<char>>>,
    n: u64,
    text: Seq<char>,
)
    ensures
        ({
            let reply = WalletReply { error: None, result };
            &&& reply.balance() == Ok::<u64, Seq<char>>(n) <==> result == Some(
                WalletResult::<Seq<char>>::Balance(n),
            )
            &&& reply.pubkey() == Some(text) <==> result == Some(
                WalletResult::Info { pubkey: Some(text) },
            )
            &&& reply.address() == Ok::<Seq<char>, Seq<char>>(text) <==> result == Some(
                WalletResult::Address(text),
            )
            &&& preimage_paid(Ok(reply)) == Ok::<Seq<char>, Seq<Seq<char>>>(text) <==> result
                == Some(WalletResult::Paid(text))
            &&& payment(Ok(reply)) is Ok
            &&& balance_msat(Ok(reply)) == Ok::<u64, Seq<Seq<char>>>(n) <==> result == Some(
                WalletResult::<Seq<char>>::Balance(n),
            )
            &&& new_address(Ok(reply)) == Ok::<Seq<char>, Seq<Seq<char>>>(text) <==> result
                == Some(WalletResult::Address(text))
        }),
{
}

/// Without a reply nothing succeeds.
pub proof fn no_reply_is_no_success(failure: Seq<Seq<char>>)
    ensures
        payment(Err(failure)) is Err,
        preimage_paid(Err(failure)) is Err,
        balance_msat(Err(failure)) is Err,
        new_address(Err(failure)) is Err,
{
}

/// A reply to `make_new_address` gives the text that its result has under
/// `address`, unless it reports an error.
pub proof fn an_address_is_the_one_in_the_reply(v: JsonView, address: Seq<char>)
    requires
        v.field("error"@) == JsonView::Null,
        v.field("result"@).field("address"@) == JsonView::Text(address),
    ensures
        address_reply(v) matches Ok(reply) && reply.address() == Ok::<Seq<char>, Seq<char>>(
            address,
        ),
{
}

} // verus!
