//! Parsing of the registration response: the JSON body is decoded with
//! serde_json, carried over into a tree the library owns, and the fields the
//! pipeline needs are drawn out of that tree by verified lookups.
//!
//! The shape expected of the body is
//! `{ result: { config: { interface: { addresses: { v4, v6 } },
//! peers: [ { public_key, endpoint: { host } }, .. ] } } }`; only the first
//! peer is read, further peers are deliberately ignored.

use vstd::prelude::*;

use crate::errors::MalformedResponseError;

verus! {

/// A JSON document as the specifications see it. Numbers collapse to a unit
/// variant: the pipeline reads none.
pub enum JsonView {
    Null,
    Bool(bool),
    Number,
    Text(Seq<char>),
    Array(Seq<JsonView>),
    Object(Seq<(Seq<char>, JsonView)>),
}

/// A JSON document as the library holds it, mirroring `JsonView` with plain
/// executable values.
#[derive(Debug)]
pub enum JsonValue {
    Null,
    Bool(bool),
    Number,
    Text(String),
    Array(Vec<JsonValue>),
    Object(Vec<(String, JsonValue)>),
}

/// The view of one tree node.
pub open spec fn view_rec(v: JsonValue) -> JsonView
    decreases v,
{
    match v {
        JsonValue::Null => JsonView::Null,
        JsonValue::Bool(b) => JsonView::Bool(b),
        JsonValue::Number => JsonView::Number,
        JsonValue::Text(s) => JsonView::Text(s@),
        JsonValue::Array(items) => JsonView::Array(view_items(items@)),
        JsonValue::Object(members) => JsonView::Object(view_members(members@)),
    }
}

/// The views of an array's elements, in order.
pub open spec fn view_items(items: Seq<JsonValue>) -> Seq<JsonView>
    decreases items,
{
    if items.len() == 0 {
        Seq::empty()
    } else {
        seq![view_rec(items[0])] + view_items(items.drop_first())
    }
}

/// The views of an object's members, in order.
pub open spec fn view_members(members: Seq<(String, JsonValue)>) -> Seq<(Seq<char>, JsonView)>
    decreases members,
{
    if members.len() == 0 {
        Seq::empty()
    } else {
        seq![(members[0].0@, view_rec(members[0].1))] + view_members(members.drop_first())
    }
}

impl View for JsonValue {
    type V = JsonView;

    open spec fn view(&self) -> JsonView {
        view_rec(*self)
    }
}

/// `view_items` keeps the length and maps each element to its view.
pub proof fn lemma_view_items(items: Seq<JsonValue>)
    ensures
        view_items(items).len() == items.len(),
        forall|i: int|
            0 <= i < items.len() ==> #[trigger] view_items(items)[i] == view_rec(items[i]),
    decreases items.len(),
{
    if items.len() > 0 {
        lemma_view_items(items.drop_first());
        assert forall|i: int|
            0 <= i < items.len() implies #[trigger] view_items(items)[i] == view_rec(items[i]) by {
            if i > 0 {
                assert(items.drop_first()[i - 1] == items[i]);
            }
        }
    }
}

/// `view_members` keeps the length and maps each member to its view.
pub proof fn lemma_view_members(members: Seq<(String, JsonValue)>)
    ensures
        view_members(members).len() == members.len(),
        forall|i: int|
            0 <= i < members.len() ==> #[trigger] view_members(members)[i] == (
                members[i].0@,
                view_rec(members[i].1),
            ),
    decreases members.len(),
{
    if members.len() > 0 {
        lemma_view_members(members.drop_first());
        assert forall|i: int|
            0 <= i < members.len() implies #[trigger] view_members(members)[i] == (
            members[i].0@,
            view_rec(members[i].1),
        ) by {
            if i > 0 {
                assert(members.drop_first()[i - 1] == members[i]);
            }
        }
    }
}

/// The first member under `key`; the trees the parser hands out carry each
/// key once, so this is the object's member under `key`.
pub open spec fn spec_member(members: Seq<(Seq<char>, JsonView)>, key: Seq<char>) -> Option<
    JsonView,
>
    decreases members.len(),
{
    if members.len() == 0 {
        None
    } else if members[0].0 == key {
        Some(members[0].1)
    } else {
        spec_member(members.drop_first(), key)
    }
}

/// The member under `key` when `v` is an object that has it.
pub open spec fn spec_get(v: JsonView, key: Seq<char>) -> Option<JsonView> {
    match v {
        JsonView::Object(members) => spec_member(members, key),
        _ => None,
    }
}

/// `spec_get` carried through an optional value.
pub open spec fn spec_opt_get(v: Option<JsonView>, key: Seq<char>) -> Option<JsonView> {
    match v {
        Some(w) => spec_get(w, key),
        None => None,
    }
}

/// The text when `v` is a JSON string.
pub open spec fn spec_as_text(v: JsonView) -> Option<Seq<char>> {
    match v {
        JsonView::Text(s) => Some(s),
        _ => None,
    }
}

/// `spec_as_text` carried through an optional value.
pub open spec fn spec_opt_text(v: Option<JsonView>) -> Option<Seq<char>> {
    match v {
        Some(w) => spec_as_text(w),
        None => None,
    }
}

/// The `result.config` object of a response document.
pub open spec fn spec_config_of(doc: JsonView) -> Option<JsonView> {
    spec_opt_get(spec_get(doc, "result"@), "config"@)
}

/// The `interface.addresses` object under the configuration.
pub open spec fn spec_addresses_of(doc: JsonView) -> Option<JsonView> {
    spec_opt_get(spec_opt_get(spec_config_of(doc), "interface"@), "addresses"@)
}

/// The `v4` address text, when present with the right type.
pub open spec fn spec_v4_of(doc: JsonView) -> Option<Seq<char>> {
    spec_opt_text(spec_opt_get(spec_addresses_of(doc), "v4"@))
}

/// The `v6` address text, when present with the right type.
pub open spec fn spec_v6_of(doc: JsonView) -> Option<Seq<char>> {
    spec_opt_text(spec_opt_get(spec_addresses_of(doc), "v6"@))
}

/// The elements of the `peers` array, when present as an array.
pub open spec fn spec_peers_of(doc: JsonView) -> Option<Seq<JsonView>> {
    match spec_opt_get(spec_config_of(doc), "peers"@) {
        Some(JsonView::Array(items)) => Some(items),
        _ => None,
    }
}

/// The first peer's `public_key` text, when a first peer exists and has it.
pub open spec fn spec_peer_key_of(doc: JsonView) -> Option<Seq<char>> {
    match spec_peers_of(doc) {
        Some(peers) => if peers.len() > 0 {
            spec_opt_text(spec_get(peers[0], "public_key"@))
        } else {
            None
        },
        None => None,
    }
}

/// The first peer's `endpoint.host` text, when a first peer exists and has it.
pub open spec fn spec_peer_host_of(doc: JsonView) -> Option<Seq<char>> {
    match spec_peers_of(doc) {
        Some(peers) => if peers.len() > 0 {
            spec_opt_text(spec_opt_get(spec_get(peers[0], "endpoint"@), "host"@))
        } else {
            None
        },
        None => None,
    }
}

impl JsonValue {
    /// The member under `key` when this is an object that has it.
    #[verifier::loop_isolation(false)]
    pub fn get<'a>(&'a self, key: &str) -> (r: Option<&'a JsonValue>)
        ensures
            match r {
                Some(v) => spec_get(self@, key@) == Some(v@),
                None => spec_get(self@, key@) is None,
            },
    {
        match self {
            JsonValue::Object(members) => {
                proof {
                    lemma_view_members(members@);
                    assert(view_members(members@).skip(0) =~= view_members(members@));
                }
                let k: String = key.to_owned();
                let n: usize = members.len();
                let mut i: usize = 0;
                while i < n
                    invariant
                        i <= n,
                        n == members@.len(),
                        k@ == key@,
                        view_members(members@).len() == members@.len(),
                        forall|j: int|
                            0 <= j < members@.len() ==> #[trigger] view_members(members@)[j] == (
                                members@[j].0@,
                                view_rec(members@[j].1),
                            ),
                        spec_member(view_members(members@), key@) == spec_member(
                            view_members(members@).skip(i as int),
                            key@,
                        ),
                    decreases n - i,
                {
                    if members[i].0 == k {
                        proof {
                            assert(view_members(members@).skip(i as int)[0] == view_members(
                                members@,
                            )[i as int]);
                            assert(spec_member(
                                view_members(members@).skip(i as int),
                                key@,
                            ) == Some(view_rec(members@[i as int].1)));
                            assert(self->Object_0 == *members);
                            assert(self@ == JsonView::Object(view_members(members@)));
                        }
                        return Some(&members[i].1);
                    }
                    proof {
                        assert(view_members(members@).skip(i as int).drop_first() =~= view_members(
                            members@,
                        ).skip(i + 1 as int));
                    }
                    i = i + 1;
                }
                proof {
                    assert(view_members(members@).skip(n as int) =~= Seq::<
                        (Seq<char>, JsonView),
                    >::empty());
                }
                None
            },
            _ => None,
        }
    }

    /// The text when this is a JSON string.
    pub fn as_text<'a>(&'a self) -> (r: Option<&'a String>)
        ensures
            match r {
                Some(s) => spec_as_text(self@) == Some(s@),
                None => spec_as_text(self@) is None,
            },
    {
        match self {
            JsonValue::Text(s) => Some(s),
            _ => None,
        }
    }
}

#[verifier::external_type_specification]
#[verifier::external_body]
pub struct ExValue(serde_json::Value);

/// Whether `serde_json::from_str` accepts this text as a JSON document.
pub uninterp spec fn json_parses(s: Seq<char>) -> bool;

/// The document that `serde_json::from_str` reads out of the text, as the
/// library's tree; a function of the text alone.
pub uninterp spec fn doc_of(s: Seq<char>) -> JsonView;

/// Relies on serde_json's Value enum: each variant is carried over into the
/// library's tree, one arm each, fields moved; numbers collapse to `Number`
/// since the pipeline reads none.
#[verifier::external_body]
fn value_to_tree(v: serde_json::Value) -> JsonValue {
    match v {
        serde_json::Value::Null => JsonValue::Null,
        serde_json::Value::Bool(b) => JsonValue::Bool(b),
        serde_json::Value::Number(_) => JsonValue::Number,
        serde_json::Value::String(s) => JsonValue::Text(s),
        serde_json::Value::Array(a) => JsonValue::Array(
            a.into_iter().map(value_to_tree).collect(),
        ),
        serde_json::Value::Object(m) => JsonValue::Object(
            m.into_iter().map(|(k, w)| (k, value_to_tree(w))).collect(),
        ),
    }
}

/// Relies on serde_json::from_str::<Value>, which succeeds exactly on the
/// valid JSON documents within serde_json's nesting limit and reads a
/// document that is deterministic in the text alone; the result is carried
/// over into the library's tree by `value_to_tree`.
#[verifier::external_body]
fn parse_json_document(s: &str) -> (r: Option<JsonValue>)
    ensures
        r is Some <==> json_parses(s@),
        r matches Some(t) ==> t@ == doc_of(s@),
{
    serde_json::from_str::<serde_json::Value>(s).ok().map(value_to_tree)
}

/// What a registration response yields for the pipeline: the client's two
/// interface addresses and the first peer's public key and endpoint host,
/// each passed through verbatim.
#[derive(Debug, Clone, PartialEq, Eq)]
pub struct RegistrationResult {
    pub address_v4: String,
    pub address_v6: String,
    pub peer_public_key: String,
    pub peer_endpoint: String,
}

/// A registration result as the specifications see it.
pub struct RegistrationView {
    pub address_v4: Seq<char>,
    pub address_v6: Seq<char>,
    pub peer_public_key: Seq<char>,
    pub peer_endpoint: Seq<char>,
}

impl View for RegistrationResult {
    type V = RegistrationView;

    open spec fn view(&self) -> RegistrationView {
        RegistrationView {
            address_v4: self.address_v4@,
            address_v6: self.address_v6@,
            peer_public_key: self.peer_public_key@,
            peer_endpoint: self.peer_endpoint@,
        }
    }
}

/// What parsing makes of a response document: both addresses and, from a
/// present and non-empty peers array, the first peer's two fields; a missing
/// or ill-typed field fails, an empty peers array fails on its own.
pub open spec fn spec_registration_of(doc: JsonView) -> Result<
    RegistrationView,
    MalformedResponseError,
> {
    match (spec_v4_of(doc), spec_v6_of(doc)) {
        (Some(address_v4), Some(address_v6)) => match spec_peers_of(doc) {
            Some(peers) => if peers.len() == 0 {
                Err(MalformedResponseError::NoPeers)
            } else {
                match (spec_peer_key_of(doc), spec_peer_host_of(doc)) {
                    (Some(peer_public_key), Some(peer_endpoint)) => Ok(
                        RegistrationView {
                            address_v4,
                            address_v6,
                            peer_public_key,
                            peer_endpoint,
                        },
                    ),
                    _ => Err(MalformedResponseError::MissingField),
                }
            },
            None => Err(MalformedResponseError::MissingField),
        },
        _ => Err(MalformedResponseError::MissingField),
    }
}

/// What the pipeline makes of the lookup outcomes, over the plain option
/// values that the lookups hand back.
pub open spec fn spec_assemble(
    v4: Option<String>,
    v6: Option<String>,
    peers_len: Option<usize>,
    peer_key: Option<String>,
    peer_host: Option<String>,
) -> Result<RegistrationResult, MalformedResponseError> {
    match (v4, v6) {
        (Some(address_v4), Some(address_v6)) => match peers_len {
            Some(n) => if n == 0 {
                Err(MalformedResponseError::NoPeers)
            } else {
                match (peer_key, peer_host) {
                    (Some(peer_public_key), Some(peer_endpoint)) => Ok(
                        RegistrationResult {
                            address_v4,
                            address_v6,
                            peer_public_key,
                            peer_endpoint,
                        },
                    ),
                    _ => Err(MalformedResponseError::MissingField),
                }
            },
            None => Err(MalformedResponseError::MissingField),
        },
        _ => Err(MalformedResponseError::MissingField),
    }
}

/// Builds the registration result from the lookup outcomes, exactly as
/// `spec_assemble` says.
pub fn assemble_registration_result(
    v4: Option<String>,
    v6: Option<String>,
    peers_len: Option<usize>,
    peer_key: Option<String>,
    peer_host: Option<String>,
) -> (r: Result<RegistrationResult, MalformedResponseError>)
    ensures
        r == spec_assemble(v4, v6, peers_len, peer_key, peer_host),
{
    match (v4, v6) {
        (Some(address_v4), Some(address_v6)) => match peers_len {
            Some(n) => if n == 0 {
                Err(MalformedResponseError::NoPeers)
            } else {
                match (peer_key, peer_host) {
                    (Some(peer_public_key), Some(peer_endpoint)) => Ok(
                        RegistrationResult {
                            address_v4,
                            address_v6,
                            peer_public_key,
                            peer_endpoint,
                        },
                    ),
                    _ => Err(MalformedResponseError::MissingField),
                }
            },
            None => Err(MalformedResponseError::MissingField),
        },
        _ => Err(MalformedResponseError::MissingField),
    }
}

/// Decodes a registration response body.
///
/// A body that is not valid JSON fails with `InvalidJson`, and only such a
/// body does; for a body that parses, the outcome is exactly what
/// `spec_registration_of` makes of the parsed document.
pub fn parse_registration_response(body: &str) -> (r: Result<
    RegistrationResult,
    MalformedResponseError,
>)
    ensures
        !json_parses(body@) ==> r == Err::<RegistrationResult, MalformedResponseError>(
            MalformedResponseError::InvalidJson,
        ),
        r is Ok ==> json_parses(body@),
        json_parses(body@) ==> match (r, spec_registration_of(doc_of(body@))) {
            (Ok(res), Ok(v)) => res@ == v,
            (Err(e), Err(m)) => e == m,
            _ => false,
        },
{
    let doc = match parse_json_document(body) {
        Some(d) => d,
        None => {
            return Err(MalformedResponseError::InvalidJson);
        },
    };
    let mut v4: Option<String> = None;
    let mut v6: Option<String> = None;
    let mut peers_len: Option<usize> = None;
    let mut peer_key: Option<String> = None;
    let mut peer_host: Option<String> = None;
    if let Some(config) = lookup_config(&doc) {
        if let Some(interface) = config.get("interface") {
            if let Some(addresses) = interface.get("addresses") {
                if let Some(v) = addresses.get("v4") {
                    if let Some(s) = v.as_text() {
                        v4 = Some(s.clone());
                    }
                }
                if let Some(v) = addresses.get("v6") {
                    if let Some(s) = v.as_text() {
                        v6 = Some(s.clone());
                    }
                }
            }
        }
        if let Some(peers_val) = config.get("peers") {
            if let JsonValue::Array(items) = peers_val {
                proof {
                    lemma_view_items(items@);
                }
                peers_len = Some(items.len());
                if items.len() > 0 {
                    let peer = &items[0];
                    if let Some(kv) = peer.get("public_key") {
                        if let Some(s) = kv.as_text() {
                            peer_key = Some(s.clone());
                        }
                    }
                    if let Some(ev) = peer.get("endpoint") {
                        if let Some(hv) = ev.get("host") {
                            if let Some(s) = hv.as_text() {
                                peer_host = Some(s.clone());
                            }
                        }
                    }
                }
            }
        }
    }
    proof {
        assert(match v4 {
            Some(s) => spec_v4_of(doc@) == Some(s@),
            None => spec_v4_of(doc@) is None,
        });
        assert(match v6 {
            Some(s) => spec_v6_of(doc@) == Some(s@),
            None => spec_v6_of(doc@) is None,
        });
        assert(match peers_len {
            Some(n) => spec_peers_of(doc@) matches Some(p) && p.len() == n,
            None => spec_peers_of(doc@) is None,
        });
        assert(match peer_key {
            Some(s) => spec_peer_key_of(doc@) == Some(s@),
            None => spec_peer_key_of(doc@) is None,
        });
        assert(match peer_host {
            Some(s) => spec_peer_host_of(doc@) == Some(s@),
            None => spec_peer_host_of(doc@) is None,
        });
    }
    assemble_registration_result(v4, v6, peers_len, peer_key, peer_host)
}

/// The `result.config` object of a parsed document.
fn lookup_config<'a>(doc: &'a JsonValue) -> (r: Option<&'a JsonValue>)
    ensures
        match r {
            Some(v) => spec_config_of(doc@) == Some(v@),
            None => spec_config_of(doc@) is None,
        },
{
    match doc.get("result") {
        Some(result_obj) => result_obj.get("config"),
        None => None,
    }
}

} // verus!
