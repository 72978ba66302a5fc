//! Grants: the events by which a node's owner allows a key to use a method of
//! the node.

use vstd::prelude::*;
use crate::events::{pubkey_tag, tag, DraftView, EventDraft};
use crate::json::{empty_record, json_text, json_view, null, render, set_field, JsonView};
use crate::text::cat3;

verus! {

/// The kind of a grant.
pub const GRANT_KIND: u16 = 30078;

/// A method that may be used at any rate.
pub open spec fn unlimited() -> JsonView {
    JsonView::empty().with("access_rate"@, JsonView::Null)
}

/// What a grant of the control methods says.
pub open spec fn control_grant_body() -> JsonView {
    JsonView::empty().with(
        "control"@,
        JsonView::empty().with("open_channel"@, unlimited()).with(
            "list_channels"@,
            unlimited(),
        ).with("close_channel"@, unlimited()),
    )
}

/// What a grant of the wallet methods says.
pub open spec fn wallet_grant_body() -> JsonView {
    JsonView::empty().with(
        "methods"@,
        JsonView::empty().with("get_info"@, unlimited()).with("pay_invoice"@, unlimited()).with(
            "get_balance"@,
            unlimited(),
        ).with("make_new_address"@, unlimited()),
    )
}

/// The event by which the key `grantee` is granted what `body` says of the
/// service.
pub open spec fn grant(service: Seq<char>, grantee: Seq<char>, body: JsonView) -> DraftView {
    DraftView {
        kind: GRANT_KIND,
        content: json_text(body),
        tags: seq![seq!["d"@, service + ":"@ + grantee], pubkey_tag(service)],
    }
}

fn any_rate() -> (r: serde_json::Value)
    ensures
        json_view(r) == unlimited(),
{
    let mut r = empty_record();
    set_field(&mut r, "access_rate", null());
    r
}

fn draft(service: &str, grantee: &str, body: &serde_json::Value) -> (r: EventDraft)
    ensures
        r@ == grant(service@, grantee@, json_view(*body)),
{
    let identifier = cat3(service, ":", grantee);
    let tags = vec![tag("d", identifier.as_str()), tag("p", service)];
    let r = EventDraft { kind: GRANT_KIND, content: render(body), tags };
    assert(r@.tags =~= grant(service@, grantee@, json_view(*body)).tags);
    r
}

/// The grant of the control methods to the controller's key.
pub fn control_grant(service: &str, controller: &str) -> (r: EventDraft)
    ensures
        r@ == grant(service@, controller@, control_grant_body()),
{
    let mut methods = empty_record();
    set_field(&mut methods, "open_channel", any_rate());
    set_field(&mut methods, "list_channels", any_rate());
    set_field(&mut methods, "close_channel", any_rate());
    let mut body = empty_record();
    set_field(&mut body, "control", methods);
    draft(service, controller, &body)
}

/// The grant of the wallet methods to the wallet client's key.
pub fn wallet_grant(service: &str, client: &str) -> (r: EventDraft)
    ensures
        r@ == grant(service@, client@, wallet_grant_body()),
{
    let mut methods = empty_record();
    set_field(&mut methods, "get_info", any_rate());
    set_field(&mut methods, "pay_invoice", any_rate());
    set_field(&mut methods, "get_balance", any_rate());
    set_field(&mut methods, "make_new_address", any_rate());
    let mut body = empty_record();
    set_field(&mut body, "methods", methods);
    draft(service, client, &body)
}

/// Every method that the control plane and the wallet are asked for at a start
/// and after it is granted.
pub proof fn used_methods_are_granted()
    ensures
        forall|m: Seq<char>|
            (m == "open_channel"@ || m == "list_channels"@ || m == "close_channel"@)
                ==> #[trigger] control_grant_body().field("control"@).field(m) == unlimited(),
        forall|m: Seq<char>|
            (m == "get_info"@ || m == "pay_invoice"@ || m == "get_balance"@ || m
                == "make_new_address"@) ==> #[trigger] wallet_grant_body().field(
                "methods"@,
            ).field(m) == unlimited(),
{
    reveal_strlit("open_channel");
    reveal_strlit("list_channels");
    reveal_strlit("close_channel");
    reveal_strlit("get_info");
    reveal_strlit("pay_invoice");
    reveal_strlit("get_balance");
    reveal_strlit("make_new_address");
    assert("open_channel"@[0] != "list_channels"@[0]);
    assert("open_channel"@[0] != "close_channel"@[0]);
    assert("list_channels"@[0] != "close_channel"@[0]);
    assert("get_info"@[4] != "get_balance"@[4]);
    assert("get_info"@[0] != "pay_invoice"@[0]);
    assert("get_info"@[0] != "make_new_address"@[0]);
    assert("get_balance"@[0] != "pay_invoice"@[0]);
    assert("get_balance"@[0] != "make_new_address"@[0]);
    assert("pay_invoice"@[0] != "make_new_address"@[0]);
}

/// A grant is for one key on one service: it is an event of kind 30078 that the
/// two keys identify, points at the service, and says its body.
pub proof fn a_grant_is_for_one_key(
    service: Seq<char>,
    grantee: Seq<char>,
    other: Seq<char>,
    body: JsonView,
)
    ensures
        ({
            let g = grant(service, grantee, body);
            &&& g.kind == 30078
            &&& g.content == json_text(body)
            &&& g.tags == seq![seq!["d"@, service + ":"@ + grantee], seq!["p"@, service]]
            &&& grantee.len() == other.len() && grantee != other ==> g.tags != grant(
                service,
                other,
                body,
            ).tags
        }),
{
    if grantee.len() == other.len() && grantee != other {
        let a = service + ":"@ + grantee;
        let b = service + ":"@ + other;
        if a == b {
            assert(grantee =~= a.skip((service + ":"@).len() as int));
            assert(other =~= b.skip((service + ":"@).len() as int));
        }
        let x = grant(service, grantee, body).tags;
        let y = grant(service, other, body).tags;
        assert(x[0][1] == a);
        assert(y[0][1] == b);
    }
}

/// Nothing but the methods that are used is granted.
pub proof fn nothing_else_is_granted(m: Seq<char>)
    ensures
        m != "open_channel"@ && m != "list_channels"@ && m != "close_channel"@
            ==> control_grant_body().field("control"@).field(m) == JsonView::Null,
        m != "get_info"@ && m != "pay_invoice"@ && m != "get_balance"@ && m != "make_new_address"@
            ==> wallet_grant_body().field("methods"@).field(m) == JsonView::Null,
        m != "control"@ ==> control_grant_body().field(m) == JsonView::Null,
        m != "methods"@ ==> wallet_grant_body().field(m) == JsonView::Null,
        unlimited().field("access_rate"@) == JsonView::Null && unlimited() is Record,
        unlimited()->Record_0.contains_key("access_rate"@),
{
}

} // verus!
