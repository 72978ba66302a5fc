//! The Nostr relay that is the nodes' only control plane.

use vstd::prelude::*;
use crate::text::{cat2, decimal, decimal_text};

verus! {

/// A container to start, and the line on its standard error that says it is
/// ready.
pub struct RelayPlan {
    pub image: String,
    pub tag: String,
    pub port: u16,
    pub ready_message: String,
}

/// The strfry relay's container.
pub fn start_relay() -> (r: RelayPlan)
    ensures
        r.image@ == "strfry-strfry"@,
        r.tag@ == "latest"@,
        r.port == 7777,
        r.ready_message@ == "Started websocket server"@,
{
    RelayPlan {
        image: "strfry-strfry".to_owned(),
        tag: "latest".to_owned(),
        port: 7777,
        ready_message: "Started websocket server".to_owned(),
    }
}

/// The URL of a relay whose port is mapped to `host_port`.
pub fn relay_url(host_port: u16) -> (r: String)
    ensures
        r@ == "ws://localhost:"@ + decimal(host_port as nat),
{
    let port = decimal_text(host_port as u128);
    cat2("ws://localhost:", port.as_str())
}

} // verus!
