//! Nostr events: what one says, and what to publish.

use vstd::prelude::*;
use crate::text::views;

verus! {

/// What an event says.
pub struct EventParts {
    pub kind: u16,
    /// The author's public key, in hexadecimal.
    pub author: String,
    pub content: String,
    pub tags: Vec<Vec<String>>,
}

/// What an [`EventParts`] holds.
pub struct EventView {
    pub kind: u16,
    pub author: Seq<char>,
    pub content: Seq<char>,
    pub tags: Seq<Seq<Seq<char>>>,
}

/// The views of a list of tags.
pub open spec fn tag_views(tags: Seq<Vec<String>>) -> Seq<Seq<Seq<char>>> {
    tags.map_values(|tag: Vec<String>| views(tag@))
}

impl View for EventParts {
    type V = EventView;

    open spec fn view(&self) -> EventView {
        EventView {
            kind: self.kind,
            author: self.author@,
            content: self.content@,
            tags: tag_views(self.tags@),
        }
    }
}

/// What `nostr` reads in the JSON of an event, or the text of its error.
pub uninterp spec fn event_parts(json: Seq<char>) -> Result<EventView, Seq<char>>;

/// `nostr::Event::from_json`, and the kind, the author, the content and the
/// tags of the event it reads. It does not verify the signature.
#[verifier::external_body]
pub(crate) fn read_event(json: &str) -> (r: Result<EventParts, String>)
    ensures
        match r {
            Ok(parts) => event_parts(json@) == Ok::<EventView, Seq<char>>(parts@),
            Err(e) => event_parts(json@) == Err::<EventView, Seq<char>>(e@),
        },
{
    let event = <nostr_sdk::Event as nostr_sdk::JsonUtil>::from_json(json)
        .map_err(|e| e.to_string())?;
    Ok(EventParts {
        kind: event.kind.as_u16(),
        author: event.pubkey.to_hex(),
        tags: event.tags.iter().map(|tag| tag.as_slice().to_vec()).collect(),
        content: event.content,
    })
}

/// Whether the JSON is that of an event whose id is the digest of what it says
/// and whose author signed that id.
pub uninterp spec fn verifies(json: Seq<char>) -> bool;

/// `nostr::Event::verify`, of the event that `nostr::Event::from_json` reads:
/// whether its id and its signature are right. What is no event is not.
#[verifier::external_body]
pub(crate) fn verify_event(json: &str) -> (r: bool)
    ensures
        r == verifies(json@),
{
    match <nostr_sdk::Event as nostr_sdk::JsonUtil>::from_json(json) {
        Ok(event) => event.verify().is_ok(),
        Err(_) => false,
    }
}

/// An event to sign and publish.
pub struct EventDraft {
    pub kind: u16,
    pub content: String,
    pub tags: Vec<Vec<String>>,
}

/// What an [`EventDraft`] holds.
pub struct DraftView {
    pub kind: u16,
    pub content: Seq<char>,
    pub tags: Seq<Seq<Seq<char>>>,
}

impl View for EventDraft {
    type V = DraftView;

    open spec fn view(&self) -> DraftView {
        DraftView { kind: self.kind, content: self.content@, tags: tag_views(self.tags@) }
    }
}

/// A tag that points at a public key.
pub open spec fn pubkey_tag(pubkey: Seq<char>) -> Seq<Seq<char>> {
    seq!["p"@, pubkey]
}

/// Writes a tag of a name and a value.
pub(crate) fn tag(name: &str, value: &str) -> (r: Vec<String>)
    ensures
        views(r@) == seq![name@, value@],
{
    let r = vec![name.to_owned(), value.to_owned()];
    assert(views(r@) =~= seq![name@, value@]);
    r
}

/// Whether the JSON of an event says that `author` wrote it and that it is of
/// the kind `kind`.
pub open spec fn comes_from(json: Seq<char>, kind: u16, author: Seq<char>) -> bool {
    event_parts(json) matches Ok(parts) && parts.kind == kind && parts.author == author
}

/// Reads the event where it is of the kind `kind` and `author` wrote it.
pub fn pick_event(json: &str, kind: u16, author: &str) -> (r: Option<EventParts>)
    ensures
        match r {
            Some(parts) => comes_from(json@, kind, author@) && event_parts(json@) == Ok::<
                EventView,
                Seq<char>,
            >(parts@),
            None => !comes_from(json@, kind, author@),
        },
{
    match read_event(json) {
        Ok(parts) => if parts.kind == kind && parts.author == author.to_owned() {
            Some(parts)
        } else {
            None
        },
        Err(_) => None,
    }
}

/// What `nostr` says against a text as the URL of a relay, if anything.
pub uninterp spec fn relay_url_error(url: Seq<char>) -> Option<Seq<char>>;

/// `nostr::RelayUrl::parse`: whether the text is the URL of a relay; an error is
/// given by its text.
#[verifier::external_body]
pub(crate) fn check_relay_url(url: &str) -> (r: Result<(), String>)
    ensures
        match r {
            Ok(()) => relay_url_error(url@) is None,
            Err(e) => relay_url_error(url@) == Some(e@),
        },
{
    nostr_sdk::RelayUrl::parse(url).map(|_| ()).map_err(|e| e.to_string())
}

/// An event comes from one author and is of one kind.
pub proof fn an_event_comes_from_one_author(
    json: Seq<char>,
    kind: u16,
    author: Seq<char>,
    other_kind: u16,
    other_author: Seq<char>,
)
    requires
        comes_from(json, kind, author),
    ensures
        comes_from(json, other_kind, other_author) <==> other_kind == kind && other_author == author,
        event_parts(json) is Ok,
{
}

} // verus!
