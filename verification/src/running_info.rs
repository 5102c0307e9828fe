//! Re-inflation of running-info snapshots.
//!
//! The protobuf JSON writer drops every field that equals its default (an empty
//! list, zero, an empty text, false), while the readers of a snapshot decode every
//! key as required. The functions here put the dropped fields back.

use vstd::arithmetic::power;
use vstd::prelude::*;

use serde_json::Value;

use crate::dense;
use crate::json;
use crate::json::Json;

verus! {

/// Adds the member `key` to an object that has none of that name.
pub fn obj_default(v: &mut Value, key: &str, default: Value)
    ensures
        json::contents(*final(v)) == dense::with_default(
            json::contents(*old(v)),
            key@,
            json::contents(default),
        ),
{
    let ghost before = json::contents(*v);
    if let Some(o) = json::as_object_mut(v) {
        json::entry_or_insert(o, key, default);
        proof {
            let m = before->Object_0;
            let d = map![key@ => json::contents(default)];
            if m.contains_key(key@) {
                assert(d.union_prefer_right(m) =~= m);
            } else {
                assert(d.union_prefer_right(m) =~= m.insert(key@, json::contents(default)));
            }
        }
    }
}

/// The array without items.
fn empty_array() -> (v: Value)
    ensures
        json::contents(v) == dense::empty_list(),
{
    let items: Vec<Value> = Vec::new();
    assert(json::list(items@) =~= Seq::empty());
    json::from_items(items)
}

/// The float zero.
fn zero_rate() -> (v: Value)
    ensures
        json::contents(v) == Json::Float("0.0"@),
{
    match json::from_str("0.0") {
        Ok(v) => v,
        // Never taken: the text is JSON.
        Err(_) => json::from_int(0),
    }
}

/// The empty text.
fn empty_string() -> (v: Value)
    ensures
        json::contents(v) == dense::empty_text(),
{
    proof {
        reveal_strlit("");
        assert(""@ =~= Seq::empty());
    }
    json::from_text("")
}

/// Puts the dropped fields of a STUN report back.
pub fn densify_stun(v: &mut Value)
    ensures
        json::contents(*final(v)) == dense::dense_stun(json::contents(*old(v))),
{
    let ghost before = json::contents(*v);
    obj_default(v, "udp_nat_type", json::from_int(0));
    obj_default(v, "tcp_nat_type", json::from_int(0));
    obj_default(v, "last_update_time", json::from_int(0));
    obj_default(v, "public_ip", empty_array());
    proof {
        dense::lemma_names();
        assert(before is Object ==> json::contents(*v)->Object_0 =~= dense::dense_stun(
            before,
        )->Object_0);
    }
}

/// Puts the dropped fields of a node back.
pub fn densify_node(v: &mut Value)
    ensures
        json::contents(*final(v)) == dense::dense_node(json::contents(*old(v))),
{
    let ghost before = json::contents(*v);
    obj_default(v, "hostname", empty_string());
    obj_default(v, "version", empty_string());
    proof {
        dense::lemma_names();
        assert(before is Object ==> json::contents(*v)->Object_0 =~= dense::with_defaults(
            before,
            dense::node_defaults(),
        )->Object_0);
    }
    if let Some(si) = json::get_mut(v, "stun_info") {
        densify_stun(si);
    }
}

/// Puts the dropped fields of a route back.
pub fn densify_route(v: &mut Value)
    ensures
        json::contents(*final(v)) == dense::dense_route(json::contents(*old(v))),
{
    let ghost before = json::contents(*v);
    obj_default(v, "peer_id", json::from_int(0));
    obj_default(v, "next_hop_peer_id", json::from_int(0));
    obj_default(v, "cost", json::from_int(0));
    obj_default(v, "path_latency", json::from_int(0));
    obj_default(v, "proxy_cidrs", empty_array());
    obj_default(v, "hostname", empty_string());
    obj_default(v, "inst_id", empty_string());
    obj_default(v, "version", empty_string());
    proof {
        dense::lemma_names();
        assert(before is Object ==> json::contents(*v)->Object_0 =~= dense::with_defaults(
            before,
            dense::route_defaults(),
        )->Object_0);
    }
    if let Some(si) = json::get_mut(v, "stun_info") {
        densify_stun(si);
    }
}

/// Puts the dropped fields of a connection's statistics back.
fn densify_stats(v: &mut Value)
    ensures
        json::contents(*final(v)) == dense::dense_stats(json::contents(*old(v))),
{
    let ghost before = json::contents(*v);
    obj_default(v, "rx_bytes", json::from_int(0));
    obj_default(v, "tx_bytes", json::from_int(0));
    obj_default(v, "rx_packets", json::from_int(0));
    obj_default(v, "tx_packets", json::from_int(0));
    obj_default(v, "latency_us", json::from_int(0));
    proof {
        dense::lemma_names();
        assert(before is Object ==> json::contents(*v)->Object_0 =~= dense::dense_stats(
            before,
        )->Object_0);
    }
}

/// Puts the dropped fields of a connection back.
pub fn densify_conn(v: &mut Value)
    ensures
        json::contents(*final(v)) == dense::dense_conn(json::contents(*old(v))),
{
    let ghost before = json::contents(*v);
    obj_default(v, "conn_id", empty_string());
    obj_default(v, "my_peer_id", json::from_int(0));
    obj_default(v, "is_client", json::from_bool(false));
    obj_default(v, "peer_id", json::from_int(0));
    obj_default(v, "features", empty_array());
    obj_default(v, "loss_rate", zero_rate());
    proof {
        dense::lemma_names();
        assert(before is Object ==> json::contents(*v)->Object_0 =~= dense::with_defaults(
            before,
            dense::conn_defaults(),
        )->Object_0);
    }
    if let Some(st) = json::get_mut(v, "stats") {
        densify_stats(st);
    }
}

/// Puts the dropped fields of each connection back.
fn densify_conns(items: &mut Vec<Value>)
    ensures
        json::list(final(items)@) == json::list(old(items)@).map_values(
            |c: Json| dense::dense_conn(c),
        ),
{
    let ghost before = json::list(items@);
    let n = items.len();
    for i in 0..n
        invariant
            n == items.len() == before.len(),
            forall|j: int|
                0 <= j < i ==> json::contents(#[trigger] items@[j]) == dense::dense_conn(before[j]),
            forall|j: int| i <= j < n ==> json::contents(#[trigger] items@[j]) == before[j],
    {
        densify_conn(&mut items[i]);
    }
    assert(json::list(items@) =~= before.map_values(|c: Json| dense::dense_conn(c)));
}

/// Puts the dropped fields of a peer back.
pub fn densify_peer(v: &mut Value)
    ensures
        json::contents(*final(v)) == dense::dense_peer(json::contents(*old(v))),
{
    let ghost before = json::contents(*v);
    obj_default(v, "peer_id", json::from_int(0));
    obj_default(v, "conns", empty_array());
    obj_default(v, "directly_connected_conns", empty_array());
    proof {
        dense::lemma_names();
        assert(before is Object ==> json::contents(*v)->Object_0 =~= dense::with_defaults(
            before,
            dense::peer_defaults(),
        )->Object_0);
    }
    if let Some(conns) = json::get_mut(v, "conns") {
        if let Some(cs) = json::as_array_mut(conns) {
            densify_conns(cs);
        }
    }
}

/// Puts the dropped fields of each route back.
fn densify_routes(items: &mut Vec<Value>)
    ensures
        json::list(final(items)@) == json::list(old(items)@).map_values(
            |r: Json| dense::dense_route(r),
        ),
{
    let ghost before = json::list(items@);
    let n = items.len();
    for i in 0..n
        invariant
            n == items.len() == before.len(),
            forall|j: int|
                0 <= j < i ==> json::contents(#[trigger] items@[j]) == dense::dense_route(
                    before[j],
                ),
            forall|j: int| i <= j < n ==> json::contents(#[trigger] items@[j]) == before[j],
    {
        densify_route(&mut items[i]);
    }
    assert(json::list(items@) =~= before.map_values(|r: Json| dense::dense_route(r)));
}

/// Puts the dropped fields of each peer back.
fn densify_peers(items: &mut Vec<Value>)
    ensures
        json::list(final(items)@) == json::list(old(items)@).map_values(
            |p: Json| dense::dense_peer(p),
        ),
{
    let ghost before = json::list(items@);
    let n = items.len();
    for i in 0..n
        invariant
            n == items.len() == before.len(),
            forall|j: int|
                0 <= j < i ==> json::contents(#[trigger] items@[j]) == dense::dense_peer(before[j]),
            forall|j: int| i <= j < n ==> json::contents(#[trigger] items@[j]) == before[j],
    {
        densify_peer(&mut items[i]);
    }
    assert(json::list(items@) =~= before.map_values(|p: Json| dense::dense_peer(p)));
}

/// Puts the dropped fields of a peer-route pair back, a missing route among them.
fn densify_pair(v: &mut Value)
    ensures
        json::contents(*final(v)) == dense::dense_pair(json::contents(*old(v))),
{
    obj_default(v, "route", json::empty_object());
    if let Some(r) = json::get_mut(v, "route") {
        densify_route(r);
    }
    if let Some(p) = json::get_mut(v, "peer") {
        densify_peer(p);
    }
}

/// Puts the dropped fields of each peer-route pair back.
fn densify_pairs(items: &mut Vec<Value>)
    ensures
        json::list(final(items)@) == json::list(old(items)@).map_values(
            |p: Json| dense::dense_pair(p),
        ),
{
    let ghost before = json::list(items@);
    let n = items.len();
    for i in 0..n
        invariant
            n == items.len() == before.len(),
            forall|j: int|
                0 <= j < i ==> json::contents(#[trigger] items@[j]) == dense::dense_pair(before[j]),
            forall|j: int| i <= j < n ==> json::contents(#[trigger] items@[j]) == before[j],
    {
        densify_pair(&mut items[i]);
    }
    assert(json::list(items@) =~= before.map_values(|p: Json| dense::dense_pair(p)));
}

/// Puts the dropped fields of a parsed snapshot back.
pub fn densify_snapshot(v: &mut Value)
    ensures
        json::contents(*final(v)) == dense::dense_running_info(json::contents(*old(v))),
{
    let ghost before = json::contents(*v);
    obj_default(v, "dev_name", empty_string());
    obj_default(v, "events", empty_array());
    obj_default(v, "routes", empty_array());
    obj_default(v, "peers", empty_array());
    obj_default(v, "peer_route_pairs", empty_array());
    obj_default(v, "running", json::from_bool(false));
    proof {
        dense::lemma_names();
        assert(before is Object ==> json::contents(*v)->Object_0 =~= dense::with_defaults(
            before,
            dense::info_defaults(),
        )->Object_0);
    }
    if let Some(n) = json::get_mut(v, "my_node_info") {
        densify_node(n);
    }
    if let Some(routes) = json::get_mut(v, "routes") {
        if let Some(rs) = json::as_array_mut(routes) {
            densify_routes(rs);
        }
    }
    if let Some(peers) = json::get_mut(v, "peers") {
        if let Some(ps) = json::as_array_mut(peers) {
            densify_peers(ps);
        }
    }
    if let Some(pairs) = json::get_mut(v, "peer_route_pairs") {
        if let Some(prs) = json::as_array_mut(pairs) {
            densify_pairs(prs);
        }
    }
}

/// The text of a snapshot with every dropped field put back; a text that does not
/// parse stays as it is.
pub open spec fn densified(text: Seq<char>) -> Seq<char> {
    match json::parsed(text) {
        Some(t) => json::printed(dense::dense_running_info(t)),
        None => text,
    }
}

/// Each float of the snapshot is one of `floats`.
pub open spec fn has_floats(text: Seq<char>, floats: spec_fn(Seq<char>) -> bool) -> bool {
    json::parsed(text) matches Some(t) ==> t.nests_within(json::nesting(), floats)
}

/// The text of the snapshot with every dropped field put back parses as that
/// snapshot.
pub open spec fn reads_back(text: Seq<char>) -> bool {
    json::parsed(text) matches Some(t) ==> json::parsed(densified(text)) == Some(
        dense::dense_running_info(t),
    )
}

/// If the text of the snapshot with every dropped field put back parses, it parses
/// as a snapshot that is alike.
pub open spec fn stays_alike(text: Seq<char>) -> bool {
    json::parsed(text) is Some && json::parsed(densified(text)) is Some ==> json::parsed(
        densified(text),
    )->0.alike(dense::dense_running_info(json::parsed(text)->0))
}

/// The text of the snapshot with every dropped field put back parses, as a snapshot
/// that is alike.
pub open spec fn reads_alike(text: Seq<char>) -> bool {
    json::parsed(text) is Some ==> json::parsed(densified(text)) is Some && stays_alike(text)
}

/// `text` is what the snapshot's text `raw` is densified to. Where `raw` parses,
/// `text` is a C string, and parses again, if not for a float of 1e308 or more.
/// It parses as the very same snapshot where no float is but zero, and else as one
/// alike.
pub open spec fn densifies_to(raw: Seq<char>, text: Seq<char>) -> bool {
    &&& text == densified(raw)
    &&& json::parsed(raw) is Some ==> !text.contains('\0')
    &&& stays_alike(raw)
    &&& has_floats(raw, json::moderate_float()) ==> reads_alike(raw)
    &&& has_floats(raw, json::zero_float()) ==> reads_back(raw)
}

/// Puts the dropped fields of a snapshot's text back.
pub fn densify_running_info(s: &str) -> (r: String)
    ensures
        densifies_to(s@, r@),
        forall|t: Json| #[trigger]
            json::writes(s@, t) && t.integers_fit() && t.nests_within(
                json::nesting(),
                json::zero_float(),
            ) ==> r@ == json::printed(dense::dense_running_info(t)),
{
    let mut v = match json::from_str(s) {
        Ok(v) => v,
        Err(_) => return s.to_owned(),
    };
    let ghost t = json::contents(v);
    densify_snapshot(&mut v);
    proof {
        reveal_strlit("0.0");
        reveal_strlit("e+308");
        dense::law_dense_nests(t, json::nesting(), json::any_float());
        if t.nests_within(json::nesting(), json::zero_float()) {
            dense::law_dense_nests(t, json::nesting(), json::zero_float());
        }
        if t.nests_within(json::nesting(), json::moderate_float()) {
            dense::law_dense_nests(t, json::nesting(), json::moderate_float());
        }
    }
    match json::to_string(&v) {
        Ok(text) => text,
        Err(_) => s.to_owned(),
    }
}

/// The error message that a snapshot tells of: its text member `error_msg`.
pub open spec fn told_error(t: Json) -> Option<Seq<char>> {
    match t.member("error_msg"@) {
        Some(e) => e.text(),
        None => None,
    }
}

/// The error message that a parsed snapshot tells of.
pub fn error_msg(v: &Value) -> (r: Option<String>)
    ensures
        r.deep_view() == told_error(json::contents(*v)),
        r is Some <==> {
            &&& json::contents(*v) matches Json::Object(o)
            &&& o.contains_key("error_msg"@)
            &&& o["error_msg"@] is Text
        },
        r matches Some(m) ==> json::contents(*v)->Object_0["error_msg"@] == Json::Text(m@),
{
    match json::get(v, "error_msg") {
        Some(e) => match json::as_str(e) {
            Some(s) => Some(s.to_owned()),
            None => None,
        },
        None => None,
    }
}

/// The error message that the text of a snapshot tells of; none where it does not
/// parse.
pub open spec fn told_error_in(text: Seq<char>) -> Option<Seq<char>> {
    match json::parsed(text) {
        Some(t) => told_error(t),
        None => None,
    }
}

/// The error message that the text of a snapshot tells of.
pub fn latest_error(text: &str) -> (r: Option<String>)
    ensures
        r.deep_view() == told_error_in(text@),
        forall|t: Json| #[trigger]
            json::writes(text@, t) && t.integers_fit() && t.nests_within(
                json::nesting(),
                json::zero_float(),
            ) ==> r.deep_view() == told_error(t),
{
    match json::from_str(text) {
        Ok(v) => error_msg(&v),
        Err(_) => None,
    }
}

/// A document tells of the error `m` if and only if it is an object whose member
/// `error_msg` is the text `m`, whatever other members it has.
pub proof fn law_told_error_by_document(t: Json, m: Seq<char>)
    ensures
        told_error(t) == Some(m) <==> {
            &&& t matches Json::Object(o)
            &&& o.contains_key("error_msg"@)
            &&& o["error_msg"@] == Json::Text(m)
        },
{
}

/// A text tells of the error `m` if and only if it parses as an object whose member
/// `error_msg` is the text `m`, whatever other members that has.
pub proof fn law_told_error_by_member(text: Seq<char>, m: Seq<char>)
    ensures
        told_error_in(text) == Some(m) <==> {
            &&& json::parsed(text) matches Some(Json::Object(o))
            &&& o.contains_key("error_msg"@)
            &&& o["error_msg"@] == Json::Text(m)
        },
{
    if let Some(t) = json::parsed(text) {
        law_told_error_by_document(t, m);
    }
}

/// Members other than `error_msg` have no part in the error that is told.
pub proof fn law_only_error_msg_tells(o: Map<Seq<char>, Json>, key: Seq<char>, e: Json)
    requires
        key != "error_msg"@,
    ensures
        told_error(Json::Object(o.insert(key, e))) == told_error(Json::Object(o)),
        told_error(Json::Object(o.remove(key))) == told_error(Json::Object(o)),
{
}

/// A text that does not parse stays as it is.
pub proof fn law_unparsed_text_stays(text: Seq<char>)
    requires
        json::parsed(text) is None,
    ensures
        densified(text) == text,
{
}

/// Whatever stands in a snapshot stands in what its densified text parses as: every
/// member and every item where it was, texts, integers and truth values as they were,
/// and floats but for rounding.
pub proof fn law_densified_keeps_values(raw: Seq<char>, text: Seq<char>)
    requires
        densifies_to(raw, text),
        json::parsed(raw) is Some,
        json::parsed(text) is Some,
    ensures
        dense::keeps_values(json::parsed(text)->0, json::parsed(raw)->0),
{
    let t = json::parsed(raw)->0;
    dense::law_dense_extends(t);
    dense::lemma_alike_keeps_values(json::parsed(text)->0, dense::dense_running_info(t), t);
}

/// The loss rate of a connection is read back from a densified text as that float, to
/// within a rounding: it differs by at most a `10^15`th, or is under `1e-300` before and
/// after.
pub proof fn law_loss_rate_is_kept(raw: Seq<char>, text: Seq<char>, i: int, j: int)
    requires
        densifies_to(raw, text),
        json::parsed(raw) is Some,
        json::parsed(text) is Some,
        loss_rate_at(json::parsed(raw)->0, i, j) is Some,
    ensures
        ({
            let old = json::decimal(loss_rate_at(json::parsed(raw)->0, i, j)->0);
            let new = json::decimal(loss_rate_at(json::parsed(text)->0, i, j)->0);
            &&& loss_rate_at(json::parsed(text)->0, i, j) is Some
            &&& old >= 0 ==> new >= 0
            &&& old <= 0 ==> new <= 0
            &&& {
                ||| {
                    &&& (new - old) * 1_000_000_000_000_000 <= json::magnitude(old)
                    &&& (old - new) * 1_000_000_000_000_000 <= json::magnitude(old)
                }
                ||| {
                    &&& -power::pow(10, 100) < old < power::pow(10, 100)
                    &&& -power::pow(10, 100) < new < power::pow(10, 100)
                }
            }
        }),
{
    law_densified_keeps_values(raw, text);
    let t = json::parsed(raw)->0;
    let d = json::parsed(text)->0;
    assert(t->Object_0.contains_key("peers"@));
    let peers = t->Object_0["peers"@];
    assert(dense::keeps_values(d->Object_0["peers"@], peers));
    let peer = peers->Array_0[i];
    assert(dense::keeps_values(d->Object_0["peers"@]->Array_0[i], peer));
    assert(peer->Object_0.contains_key("conns"@));
    let conns = peer->Object_0["conns"@];
    let new_conns = d->Object_0["peers"@]->Array_0[i]->Object_0["conns"@];
    assert(dense::keeps_values(new_conns, conns));
    let conn = conns->Array_0[j];
    assert(dense::keeps_values(new_conns->Array_0[j], conn));
    assert(conn->Object_0.contains_key("loss_rate"@));
    assert(dense::keeps_values(
        new_conns->Array_0[j]->Object_0["loss_rate"@],
        conn->Object_0["loss_rate"@],
    ));
}

/// The float that is the loss rate of the connection `j` of the peer `i`, if there is
/// one.
pub open spec fn loss_rate_at(t: Json, i: int, j: int) -> Option<Seq<char>> {
    match t.member("peers"@) {
        Some(Json::Array(peers)) if 0 <= i < peers.len() => match peers[i].member("conns"@) {
            Some(Json::Array(conns)) if 0 <= j < conns.len() => match conns[j].member(
                "loss_rate"@,
            ) {
                Some(Json::Float(rate)) => Some(rate),
                _ => None,
            },
            _ => None,
        },
        _ => None,
    }
}

/// What reads back reads alike.
pub proof fn law_reading_back_is_reading_alike(text: Seq<char>)
    requires
        reads_back(text),
    ensures
        reads_alike(text),
{
    if let Some(t) = json::parsed(text) {
        json::lemma_alike_itself(dense::dense_running_info(t));
    }
}

/// No field is missing from whatever a densified text parses as, and a densified
/// text that parses is a C string.
pub proof fn law_densified_is_complete(raw: Seq<char>, text: Seq<char>)
    requires
        densifies_to(raw, text),
    ensures
        json::parsed(text) matches Some(t) ==> dense::complete_running_info(t),
        json::parsed(text) is Some ==> !text.contains('\0'),
{
    if let Some(t) = json::parsed(raw) {
        dense::law_dense_is_complete(t);
        if let Some(d) = json::parsed(text) {
            dense::law_floats_do_not_matter(d, dense::dense_running_info(t));
        }
    }
}

/// A densified text parses if and only if the text that it was made of does, where
/// no float of that is 1e308 or more.
pub proof fn law_densified_parses(raw: Seq<char>, text: Seq<char>)
    requires
        densifies_to(raw, text),
        has_floats(raw, json::moderate_float()),
    ensures
        json::parsed(text) is Some <==> json::parsed(raw) is Some,
{
}

/// To densify a text twice is to densify it once, where it reads back.
pub proof fn law_densified_is_idempotent(text: Seq<char>)
    requires
        reads_back(text),
    ensures
        densified(densified(text)) == densified(text),
{
    if let Some(t) = json::parsed(text) {
        dense::law_dense_is_idempotent(t);
    }
}

/// A densified text tells of the same error as the text that it was made of, if it
/// parses; and it does where no float of that is 1e308 or more.
pub proof fn law_told_error_survives(raw: Seq<char>, text: Seq<char>)
    requires
        densifies_to(raw, text),
    ensures
        json::parsed(text) is Some ==> told_error_in(text) == told_error_in(raw),
        has_floats(raw, json::moderate_float()) ==> told_error_in(text) == told_error_in(raw),
{
    if let (Some(t), Some(d)) = (json::parsed(raw), json::parsed(text)) {
        dense::law_error_msg_is_unchanged(t);
        json::lemma_alike_member(d, dense::dense_running_info(t), "error_msg"@);
    }
}

} // verus!
