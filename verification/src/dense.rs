//! What a running-info snapshot looks like with every dropped field put back.
//!
//! The protobuf JSON writer drops every field that equals its default (an empty
//! list, zero, an empty text, false). The functions here say which fields stand
//! where, and what a snapshot is with all of them present.

use vstd::prelude::*;

use crate::json;
use crate::json::Json;

verus! {

/// An object with each missing member of `defaults` added. What it has stays, and
/// any other document stays as it is.
pub open spec fn with_defaults(t: Json, defaults: Map<Seq<char>, Json>) -> Json {
    match t {
        Json::Object(m) => Json::Object(defaults.union_prefer_right(m)),
        _ => t,
    }
}

/// The document with `f` applied to its member `key`, where it has one.
pub open spec fn at(t: Json, key: Seq<char>, f: spec_fn(Json) -> Json) -> Json {
    match t.member(key) {
        Some(e) => Json::Object(t->Object_0.insert(key, f(e))),
        None => t,
    }
}

/// The document with `f` applied to each item, where it is an array.
pub open spec fn each(t: Json, f: spec_fn(Json) -> Json) -> Json {
    match t {
        Json::Array(items) => Json::Array(items.map_values(f)),
        _ => t,
    }
}

/// The integer zero.
pub open spec fn zero() -> Json {
    Json::Int(0)
}

/// The text without characters.
pub open spec fn empty_text() -> Json {
    Json::Text(Seq::empty())
}

/// The array without items.
pub open spec fn empty_list() -> Json {
    Json::Array(Seq::empty())
}

/// The fields of a STUN report, with their defaults.
pub open spec fn stun_defaults() -> Map<Seq<char>, Json> {
    map![
        "udp_nat_type"@ => zero(),
        "tcp_nat_type"@ => zero(),
        "last_update_time"@ => zero(),
        "public_ip"@ => empty_list(),
    ]
}

/// The fields of a node, with their defaults.
pub open spec fn node_defaults() -> Map<Seq<char>, Json> {
    map![
        "hostname"@ => empty_text(),
        "version"@ => empty_text(),
    ]
}

/// The fields of a route, with their defaults.
pub open spec fn route_defaults() -> Map<Seq<char>, Json> {
    map![
        "peer_id"@ => zero(),
        "next_hop_peer_id"@ => zero(),
        "cost"@ => zero(),
        "path_latency"@ => zero(),
        "proxy_cidrs"@ => empty_list(),
        "hostname"@ => empty_text(),
        "inst_id"@ => empty_text(),
        "version"@ => empty_text(),
    ]
}

/// The fields of a connection's statistics, with their defaults.
pub open spec fn stats_defaults() -> Map<Seq<char>, Json> {
    map![
        "rx_bytes"@ => zero(),
        "tx_bytes"@ => zero(),
        "rx_packets"@ => zero(),
        "tx_packets"@ => zero(),
        "latency_us"@ => zero(),
    ]
}

/// The fields of a connection, with their defaults.
pub open spec fn conn_defaults() -> Map<Seq<char>, Json> {
    map![
        "conn_id"@ => empty_text(),
        "my_peer_id"@ => zero(),
        "is_client"@ => Json::Bool(false),
        "peer_id"@ => zero(),
        "features"@ => empty_list(),
        "loss_rate"@ => Json::Float("0.0"@),
    ]
}

/// The fields of a peer, with their defaults.
pub open spec fn peer_defaults() -> Map<Seq<char>, Json> {
    map![
        "peer_id"@ => zero(),
        "conns"@ => empty_list(),
        "directly_connected_conns"@ => empty_list(),
    ]
}

/// The field of a peer-route pair that may not be missing.
pub open spec fn pair_defaults() -> Map<Seq<char>, Json> {
    map!["route"@ => Json::Object(Map::empty())]
}

/// The fields of a snapshot, with their defaults.
pub open spec fn info_defaults() -> Map<Seq<char>, Json> {
    map![
        "dev_name"@ => empty_text(),
        "events"@ => empty_list(),
        "routes"@ => empty_list(),
        "peers"@ => empty_list(),
        "peer_route_pairs"@ => empty_list(),
        "running"@ => Json::Bool(false),
    ]
}

/// A STUN report with its dropped fields put back.
pub open spec fn dense_stun(t: Json) -> Json {
    with_defaults(t, stun_defaults())
}

/// A node with its dropped fields, and those of its STUN report, put back.
pub open spec fn dense_node(t: Json) -> Json {
    at(with_defaults(t, node_defaults()), "stun_info"@, |s: Json| dense_stun(s))
}

/// A route with its dropped fields, and those of its STUN report, put back.
pub open spec fn dense_route(t: Json) -> Json {
    at(with_defaults(t, route_defaults()), "stun_info"@, |s: Json| dense_stun(s))
}

/// The statistics of a connection with their dropped fields put back.
pub open spec fn dense_stats(t: Json) -> Json {
    with_defaults(t, stats_defaults())
}

/// A connection with its dropped fields, and those of its statistics, put back.
pub open spec fn dense_conn(t: Json) -> Json {
    at(with_defaults(t, conn_defaults()), "stats"@, |s: Json| dense_stats(s))
}

/// Connections with their dropped fields put back.
pub open spec fn dense_conns(t: Json) -> Json {
    each(t, |c: Json| dense_conn(c))
}

/// A peer with its dropped fields, and those of its connections, put back.
pub open spec fn dense_peer(t: Json) -> Json {
    at(with_defaults(t, peer_defaults()), "conns"@, |c: Json| dense_conns(c))
}

/// A peer-route pair with the dropped fields of both put back; a missing route
/// is a route of defaults, and a missing peer stays missing.
pub open spec fn dense_pair(t: Json) -> Json {
    at(
        at(with_defaults(t, pair_defaults()), "route"@, |r: Json| dense_route(r)),
        "peer"@,
        |p: Json| dense_peer(p),
    )
}

/// Routes with their dropped fields put back.
pub open spec fn dense_routes(t: Json) -> Json {
    each(t, |r: Json| dense_route(r))
}

/// Peers with their dropped fields put back.
pub open spec fn dense_peers(t: Json) -> Json {
    each(t, |p: Json| dense_peer(p))
}

/// Peer-route pairs with their dropped fields put back.
pub open spec fn dense_pairs(t: Json) -> Json {
    each(t, |p: Json| dense_pair(p))
}

/// A snapshot with every dropped field put back.
pub open spec fn dense_running_info(t: Json) -> Json {
    let filled = with_defaults(t, info_defaults());
    let node = at(filled, "my_node_info"@, |n: Json| dense_node(n));
    let routes = at(node, "routes"@, |r: Json| dense_routes(r));
    let peers = at(routes, "peers"@, |p: Json| dense_peers(p));
    at(peers, "peer_route_pairs"@, |p: Json| dense_pairs(p))
}

/// An object with the missing member `key` added.
pub open spec fn with_default(t: Json, key: Seq<char>, default: Json) -> Json {
    with_defaults(t, map![key => default])
}

/// The lengths of the member names, and the first character of some that share a
/// length: enough to tell the names apart that stand in one object.
pub proof fn lemma_names()
    ensures
        "udp_nat_type"@.len() == 12,
        "tcp_nat_type"@.len() == 12,
        "last_update_time"@.len() == 16,
        "public_ip"@.len() == 9,
        "hostname"@.len() == 8,
        "version"@.len() == 7,
        "stun_info"@.len() == 9,
        "peer_id"@.len() == 7,
        "next_hop_peer_id"@.len() == 16,
        "cost"@.len() == 4,
        "path_latency"@.len() == 12,
        "proxy_cidrs"@.len() == 11,
        "inst_id"@.len() == 7,
        "rx_bytes"@.len() == 8,
        "tx_bytes"@.len() == 8,
        "rx_packets"@.len() == 10,
        "tx_packets"@.len() == 10,
        "latency_us"@.len() == 10,
        "conn_id"@.len() == 7,
        "my_peer_id"@.len() == 10,
        "is_client"@.len() == 9,
        "features"@.len() == 8,
        "loss_rate"@.len() == 9,
        "stats"@.len() == 5,
        "conns"@.len() == 5,
        "directly_connected_conns"@.len() == 24,
        "route"@.len() == 5,
        "peer"@.len() == 4,
        "dev_name"@.len() == 8,
        "events"@.len() == 6,
        "routes"@.len() == 6,
        "peers"@.len() == 5,
        "peer_route_pairs"@.len() == 16,
        "running"@.len() == 7,
        "my_node_info"@.len() == 12,
        "error_msg"@.len() == 9,
        "public_ip"@[0] == 'p',
        "version"@[0] == 'v',
        "stun_info"@[0] == 's',
        "peer_id"@[0] == 'p',
        "inst_id"@[0] == 'i',
        "conn_id"@[0] == 'c',
        "is_client"@[0] == 'i',
        "loss_rate"@[0] == 'l',
        "running"@[0] == 'r',
        "error_msg"@[0] == 'e',
{
    reveal_strlit("udp_nat_type");
    reveal_strlit("tcp_nat_type");
    reveal_strlit("last_update_time");
    reveal_strlit("public_ip");
    reveal_strlit("hostname");
    reveal_strlit("version");
    reveal_strlit("stun_info");
    reveal_strlit("peer_id");
    reveal_strlit("next_hop_peer_id");
    reveal_strlit("cost");
    reveal_strlit("path_latency");
    reveal_strlit("proxy_cidrs");
    reveal_strlit("inst_id");
    reveal_strlit("rx_bytes");
    reveal_strlit("tx_bytes");
    reveal_strlit("rx_packets");
    reveal_strlit("tx_packets");
    reveal_strlit("latency_us");
    reveal_strlit("conn_id");
    reveal_strlit("my_peer_id");
    reveal_strlit("is_client");
    reveal_strlit("features");
    reveal_strlit("loss_rate");
    reveal_strlit("stats");
    reveal_strlit("conns");
    reveal_strlit("directly_connected_conns");
    reveal_strlit("route");
    reveal_strlit("peer");
    reveal_strlit("dev_name");
    reveal_strlit("events");
    reveal_strlit("routes");
    reveal_strlit("peers");
    reveal_strlit("peer_route_pairs");
    reveal_strlit("running");
    reveal_strlit("my_node_info");
    reveal_strlit("error_msg");
}

/// The document has a member for each of the defaults, where it is an object.
pub open spec fn has_all(t: Json, defaults: Map<Seq<char>, Json>) -> bool {
    t matches Json::Object(m) ==> defaults.dom().subset_of(m.dom())
}

/// The member `key` meets `p`, where there is one.
pub open spec fn member_meets(t: Json, key: Seq<char>, p: spec_fn(Json) -> bool) -> bool {
    t.member(key) matches Some(e) ==> p(e)
}

/// Each item meets `p`, where the document is an array.
pub open spec fn items_meet(t: Json, p: spec_fn(Json) -> bool) -> bool {
    t matches Json::Array(items) ==> forall|i: int|
        0 <= i < items.len() ==> p(#[trigger] items[i])
}

/// A STUN report with no field missing.
pub open spec fn complete_stun(t: Json) -> bool {
    has_all(t, stun_defaults())
}

/// A node with no field missing, in its STUN report neither.
pub open spec fn complete_node(t: Json) -> bool {
    &&& has_all(t, node_defaults())
    &&& member_meets(t, "stun_info"@, |s: Json| complete_stun(s))
}

/// A route with no field missing, in its STUN report neither.
pub open spec fn complete_route(t: Json) -> bool {
    &&& has_all(t, route_defaults())
    &&& member_meets(t, "stun_info"@, |s: Json| complete_stun(s))
}

/// A connection with no field missing, in its statistics neither.
pub open spec fn complete_conn(t: Json) -> bool {
    &&& has_all(t, conn_defaults())
    &&& member_meets(t, "stats"@, |s: Json| has_all(s, stats_defaults()))
}

/// A peer with no field missing, in its connections neither.
pub open spec fn complete_peer(t: Json) -> bool {
    &&& has_all(t, peer_defaults())
    &&& member_meets(t, "conns"@, |cs: Json| items_meet(cs, |c: Json| complete_conn(c)))
}

/// A peer-route pair with a route, and no field missing in route and peer.
pub open spec fn complete_pair(t: Json) -> bool {
    &&& has_all(t, pair_defaults())
    &&& member_meets(t, "route"@, |r: Json| complete_route(r))
    &&& member_meets(t, "peer"@, |p: Json| complete_peer(p))
}

/// A snapshot with no field missing anywhere.
pub open spec fn complete_running_info(t: Json) -> bool {
    &&& has_all(t, info_defaults())
    &&& member_meets(t, "my_node_info"@, |n: Json| complete_node(n))
    &&& member_meets(t, "routes"@, |rs: Json| items_meet(rs, |r: Json| complete_route(r)))
    &&& member_meets(t, "peers"@, |ps: Json| items_meet(ps, |p: Json| complete_peer(p)))
    &&& member_meets(t, "peer_route_pairs"@, |ps: Json| items_meet(ps, |p: Json| complete_pair(p)))
}

proof fn lemma_dense_route_is_complete(t: Json)
    ensures
        complete_route(dense_route(t)),
{
}

proof fn lemma_dense_node_is_complete(t: Json)
    ensures
        complete_node(dense_node(t)),
{
}

proof fn lemma_dense_conn_is_complete(t: Json)
    ensures
        complete_conn(dense_conn(t)),
{
}

proof fn lemma_dense_peer_is_complete(t: Json)
    ensures
        complete_peer(dense_peer(t)),
{
    assert forall|c: Json| complete_conn(#[trigger] dense_conn(c)) by {
        lemma_dense_conn_is_complete(c);
    }
}

proof fn lemma_dense_pair_is_complete(t: Json)
    ensures
        complete_pair(dense_pair(t)),
{
    lemma_names();
    assert forall|r: Json| complete_route(#[trigger] dense_route(r)) by {
        lemma_dense_route_is_complete(r);
    }
    assert forall|p: Json| complete_peer(#[trigger] dense_peer(p)) by {
        lemma_dense_peer_is_complete(p);
    }
}

/// No field is missing from a snapshot once the dropped ones are put back.
pub proof fn law_dense_is_complete(t: Json)
    ensures
        complete_running_info(dense_running_info(t)),
{
    lemma_names();
    assert forall|n: Json| complete_node(#[trigger] dense_node(n)) by {
        lemma_dense_node_is_complete(n);
    }
    assert forall|r: Json| complete_route(#[trigger] dense_route(r)) by {
        lemma_dense_route_is_complete(r);
    }
    assert forall|p: Json| complete_peer(#[trigger] dense_peer(p)) by {
        lemma_dense_peer_is_complete(p);
    }
    assert forall|p: Json| complete_pair(#[trigger] dense_pair(p)) by {
        lemma_dense_pair_is_complete(p);
    }
}

/// Defaults change nothing where none is missing.
proof fn lemma_defaults_fixed(t: Json, defaults: Map<Seq<char>, Json>)
    requires
        has_all(t, defaults),
    ensures
        with_defaults(t, defaults) == t,
{
    if let Json::Object(m) = t {
        assert(defaults.union_prefer_right(m) =~= m);
    }
}

/// A member that `f` leaves alone changes nothing.
proof fn lemma_at_fixed(t: Json, key: Seq<char>, f: spec_fn(Json) -> Json)
    requires
        t.member(key) matches Some(e) ==> f(e) == e,
    ensures
        at(t, key, f) == t,
{
    if t.member(key) is Some {
        assert(t->Object_0.insert(key, t->Object_0[key]) =~= t->Object_0);
    }
}

/// Items that `f` leaves alone change nothing.
proof fn lemma_each_fixed(t: Json, f: spec_fn(Json) -> Json)
    requires
        t matches Json::Array(items) ==> forall|i: int|
            0 <= i < items.len() ==> f(#[trigger] items[i]) == items[i],
    ensures
        each(t, f) == t,
{
    if let Json::Array(items) = t {
        assert(items.map_values(f) =~= items);
    }
}

proof fn lemma_complete_node_is_unchanged(t: Json)
    requires
        complete_node(t),
    ensures
        dense_node(t) == t,
{
    lemma_defaults_fixed(t, node_defaults());
    if let Some(s) = t.member("stun_info"@) {
        lemma_defaults_fixed(s, stun_defaults());
    }
    lemma_at_fixed(t, "stun_info"@, |s: Json| dense_stun(s));
}

proof fn lemma_complete_route_is_unchanged(t: Json)
    requires
        complete_route(t),
    ensures
        dense_route(t) == t,
{
    lemma_defaults_fixed(t, route_defaults());
    if let Some(s) = t.member("stun_info"@) {
        lemma_defaults_fixed(s, stun_defaults());
    }
    lemma_at_fixed(t, "stun_info"@, |s: Json| dense_stun(s));
}

proof fn lemma_complete_conn_is_unchanged(t: Json)
    requires
        complete_conn(t),
    ensures
        dense_conn(t) == t,
{
    lemma_defaults_fixed(t, conn_defaults());
    if let Some(s) = t.member("stats"@) {
        lemma_defaults_fixed(s, stats_defaults());
    }
    lemma_at_fixed(t, "stats"@, |s: Json| dense_stats(s));
}

proof fn lemma_complete_peer_is_unchanged(t: Json)
    requires
        complete_peer(t),
    ensures
        dense_peer(t) == t,
{
    lemma_defaults_fixed(t, peer_defaults());
    if let Some(cs) = t.member("conns"@) {
        if let Json::Array(items) = cs {
            assert forall|i: int| 0 <= i < items.len() implies dense_conn(#[trigger] items[i])
                == items[i] by {
                lemma_complete_conn_is_unchanged(items[i]);
            }
        }
        lemma_each_fixed(cs, |c: Json| dense_conn(c));
    }
    lemma_at_fixed(t, "conns"@, |c: Json| dense_conns(c));
}

proof fn lemma_complete_pair_is_unchanged(t: Json)
    requires
        complete_pair(t),
    ensures
        dense_pair(t) == t,
{
    lemma_defaults_fixed(t, pair_defaults());
    if let Some(r) = t.member("route"@) {
        lemma_complete_route_is_unchanged(r);
    }
    lemma_at_fixed(t, "route"@, |r: Json| dense_route(r));
    if let Some(p) = t.member("peer"@) {
        lemma_complete_peer_is_unchanged(p);
    }
    lemma_at_fixed(t, "peer"@, |p: Json| dense_peer(p));
}

/// A snapshot from which no field is missing stays as it is.
pub proof fn law_complete_is_unchanged(t: Json)
    requires
        complete_running_info(t),
    ensures
        dense_running_info(t) == t,
{
    lemma_defaults_fixed(t, info_defaults());
    if let Some(n) = t.member("my_node_info"@) {
        lemma_complete_node_is_unchanged(n);
    }
    lemma_at_fixed(t, "my_node_info"@, |n: Json| dense_node(n));
    if let Some(rs) = t.member("routes"@) {
        if let Json::Array(items) = rs {
            assert forall|i: int| 0 <= i < items.len() implies dense_route(#[trigger] items[i])
                == items[i] by {
                lemma_complete_route_is_unchanged(items[i]);
            }
        }
        lemma_each_fixed(rs, |r: Json| dense_route(r));
    }
    lemma_at_fixed(t, "routes"@, |r: Json| dense_routes(r));
    if let Some(ps) = t.member("peers"@) {
        if let Json::Array(items) = ps {
            assert forall|i: int| 0 <= i < items.len() implies dense_peer(#[trigger] items[i])
                == items[i] by {
                lemma_complete_peer_is_unchanged(items[i]);
            }
        }
        lemma_each_fixed(ps, |p: Json| dense_peer(p));
    }
    lemma_at_fixed(t, "peers"@, |p: Json| dense_peers(p));
    if let Some(ps) = t.member("peer_route_pairs"@) {
        if let Json::Array(items) = ps {
            assert forall|i: int| 0 <= i < items.len() implies dense_pair(#[trigger] items[i])
                == items[i] by {
                lemma_complete_pair_is_unchanged(items[i]);
            }
        }
        lemma_each_fixed(ps, |p: Json| dense_pair(p));
    }
    lemma_at_fixed(t, "peer_route_pairs"@, |p: Json| dense_pairs(p));
}

/// To put the dropped fields back twice is to put them back once.
pub proof fn law_dense_is_idempotent(t: Json)
    ensures
        dense_running_info(dense_running_info(t)) == dense_running_info(t),
{
    law_dense_is_complete(t);
    law_complete_is_unchanged(dense_running_info(t));
}

/// `new` holds all that `old` holds: the same scalars, arrays of the same length,
/// objects with at least the same members, and so on inside.
pub open spec fn extends(new: Json, old: Json) -> bool
    decreases old,
{
    match old {
        Json::Object(m) => new is Object && forall|k: Seq<char>| #[trigger]
            m.contains_key(k) ==> new->Object_0.contains_key(k) && extends(new->Object_0[k], m[k]),
        Json::Array(items) => new is Array && new->Array_0.len() == items.len() && forall|i: int|
            0 <= i < items.len() ==> extends(new->Array_0[i], #[trigger] items[i]),
        _ => new == old,
    }
}

proof fn lemma_extends_itself(t: Json)
    ensures
        extends(t, t),
    decreases t,
{
    match t {
        Json::Object(m) => {
            assert forall|k: Seq<char>| #[trigger] m.contains_key(k) implies extends(
                m[k],
                m[k],
            ) by {
                lemma_extends_itself(m[k]);
            }
        },
        Json::Array(items) => {
            assert forall|i: int| 0 <= i < items.len() implies extends(
                items[i],
                #[trigger] items[i],
            ) by {
                lemma_extends_itself(items[i]);
            }
        },
        _ => {},
    }
}

/// Defaults leave what is there.
proof fn lemma_defaults_extend(t: Json, defaults: Map<Seq<char>, Json>)
    ensures
        extends(with_defaults(t, defaults), t),
{
    lemma_extends_itself(t);
}

/// Defaults, and a change of one member that leaves what is there, leave what is
/// there.
proof fn lemma_at_extends(
    t: Json,
    defaults: Map<Seq<char>, Json>,
    key: Seq<char>,
    f: spec_fn(Json) -> Json,
)
    requires
        t.member(key) matches Some(e) ==> extends(f(e), e),
    ensures
        extends(at(with_defaults(t, defaults), key, f), t),
{
    lemma_extends_itself(t);
}

/// A change of each item that leaves what is there leaves what is there.
proof fn lemma_each_extends(t: Json, f: spec_fn(Json) -> Json)
    requires
        t matches Json::Array(items) ==> forall|i: int|
            0 <= i < items.len() ==> extends(f(#[trigger] items[i]), items[i]),
    ensures
        extends(each(t, f), t),
{
    lemma_extends_itself(t);
}

proof fn lemma_dense_node_extends(t: Json)
    ensures
        extends(dense_node(t), t),
{
    if let Some(s) = t.member("stun_info"@) {
        lemma_defaults_extend(s, stun_defaults());
    }
    lemma_at_extends(t, node_defaults(), "stun_info"@, |s: Json| dense_stun(s));
}

proof fn lemma_dense_route_extends(t: Json)
    ensures
        extends(dense_route(t), t),
{
    if let Some(s) = t.member("stun_info"@) {
        lemma_defaults_extend(s, stun_defaults());
    }
    lemma_at_extends(t, route_defaults(), "stun_info"@, |s: Json| dense_stun(s));
}

proof fn lemma_dense_conn_extends(t: Json)
    ensures
        extends(dense_conn(t), t),
{
    if let Some(s) = t.member("stats"@) {
        lemma_defaults_extend(s, stats_defaults());
    }
    lemma_at_extends(t, conn_defaults(), "stats"@, |s: Json| dense_stats(s));
}

proof fn lemma_dense_peer_extends(t: Json)
    ensures
        extends(dense_peer(t), t),
{
    if let Some(cs) = t.member("conns"@) {
        if let Json::Array(items) = cs {
            assert forall|i: int| 0 <= i < items.len() implies extends(
                dense_conn(#[trigger] items[i]),
                items[i],
            ) by {
                lemma_dense_conn_extends(items[i]);
            }
        }
        lemma_each_extends(cs, |c: Json| dense_conn(c));
    }
    lemma_at_extends(t, peer_defaults(), "conns"@, |c: Json| dense_conns(c));
}

proof fn lemma_dense_pair_extends(t: Json)
    ensures
        extends(dense_pair(t), t),
{
    lemma_names();
    lemma_extends_itself(t);
    if let Some(r) = t.member("route"@) {
        lemma_dense_route_extends(r);
    }
    if let Some(p) = t.member("peer"@) {
        lemma_dense_peer_extends(p);
    }
}

/// Putting the dropped fields back removes nothing and overwrites nothing.
pub proof fn law_dense_extends(t: Json)
    ensures
        extends(dense_running_info(t), t),
{
    lemma_names();
    lemma_extends_itself(t);
    if let Some(n) = t.member("my_node_info"@) {
        lemma_dense_node_extends(n);
    }
    if let Some(rs) = t.member("routes"@) {
        if let Json::Array(items) = rs {
            assert forall|i: int| 0 <= i < items.len() implies extends(
                dense_route(#[trigger] items[i]),
                items[i],
            ) by {
                lemma_dense_route_extends(items[i]);
            }
        }
        lemma_each_extends(rs, |r: Json| dense_route(r));
    }
    if let Some(ps) = t.member("peers"@) {
        if let Json::Array(items) = ps {
            assert forall|i: int| 0 <= i < items.len() implies extends(
                dense_peer(#[trigger] items[i]),
                items[i],
            ) by {
                lemma_dense_peer_extends(items[i]);
            }
        }
        lemma_each_extends(ps, |p: Json| dense_peer(p));
    }
    if let Some(ps) = t.member("peer_route_pairs"@) {
        if let Json::Array(items) = ps {
            assert forall|i: int| 0 <= i < items.len() implies extends(
                dense_pair(#[trigger] items[i]),
                items[i],
            ) by {
                lemma_dense_pair_extends(items[i]);
            }
        }
        lemma_each_extends(ps, |p: Json| dense_pair(p));
    }
}

/// `new` holds all that `old` holds, up to the rounding of floats: the same truth
/// values, integers and texts, floats that are close, arrays of the same length,
/// objects with at least the same members, and so on inside.
pub open spec fn keeps_values(new: Json, old: Json) -> bool
    decreases old,
{
    match old {
        Json::Object(m) => new is Object && forall|k: Seq<char>| #[trigger]
            m.contains_key(k) ==> new->Object_0.contains_key(k) && keeps_values(
                new->Object_0[k],
                m[k],
            ),
        Json::Array(items) => new is Array && new->Array_0.len() == items.len() && forall|i: int|
            0 <= i < items.len() ==> keeps_values(new->Array_0[i], #[trigger] items[i]),
        Json::Float(f) => new is Float && json::close(new->Float_0, f),
        _ => new == old,
    }
}

/// What is alike to a document that holds all of another holds all of it too.
pub proof fn lemma_alike_keeps_values(d: Json, new: Json, old: Json)
    requires
        d.alike(new),
        extends(new, old),
    ensures
        keeps_values(d, old),
    decreases old,
{
    match old {
        Json::Object(m) => {
            assert forall|k: Seq<char>| #[trigger] m.contains_key(k) implies
                d->Object_0.contains_key(k) && keeps_values(d->Object_0[k], m[k]) by {
                assert(extends(new->Object_0[k], m[k]));
                json::lemma_alike_member(d, new, k);
                lemma_alike_keeps_values(d->Object_0[k], new->Object_0[k], m[k]);
            }
        },
        Json::Array(items) => {
            assert forall|i: int| 0 <= i < items.len() implies keeps_values(
                d->Array_0[i],
                #[trigger] items[i],
            ) by {
                assert(extends(new->Array_0[i], items[i]));
                assert(d->Array_0[i].alike(new->Array_0[i]));
                lemma_alike_keeps_values(d->Array_0[i], new->Array_0[i], items[i]);
            }
        },
        _ => {},
    }
}

/// A document that is no object stays as it is.
pub proof fn law_only_objects_change(t: Json)
    requires
        !(t is Object),
    ensures
        dense_running_info(t) == t,
{
}

/// The error message of a snapshot stays as it is, a missing one too.
pub proof fn law_error_msg_is_unchanged(t: Json)
    ensures
        dense_running_info(t).member("error_msg"@) == t.member("error_msg"@),
{
    lemma_names();
}

/// Shallow defaults do not deepen a document.
proof fn lemma_defaults_nest(
    t: Json,
    defaults: Map<Seq<char>, Json>,
    depth: nat,
    floats: spec_fn(Seq<char>) -> bool,
)
    requires
        t.nests_within(depth, floats),
        depth > 1,
        forall|k: Seq<char>|
            defaults.contains_key(k) ==> (#[trigger] defaults[k]).nests_within(
                (depth - 1) as nat,
                floats,
            ),
    ensures
        with_defaults(t, defaults).nests_within(depth, floats),
{
}

proof fn lemma_at_nests(
    t: Json,
    key: Seq<char>,
    f: spec_fn(Json) -> Json,
    depth: nat,
    floats: spec_fn(Seq<char>) -> bool,
)
    requires
        t.nests_within(depth, floats),
        t.member(key) matches Some(e) ==> f(e).nests_within((depth - 1) as nat, floats),
    ensures
        at(t, key, f).nests_within(depth, floats),
{
}

proof fn lemma_each_nests(
    t: Json,
    f: spec_fn(Json) -> Json,
    depth: nat,
    floats: spec_fn(Seq<char>) -> bool,
)
    requires
        t.nests_within(depth, floats),
        t matches Json::Array(items) ==> forall|i: int|
            0 <= i < items.len() ==> f(#[trigger] items[i]).nests_within(
                (depth - 1) as nat,
                floats,
            ),
    ensures
        each(t, f).nests_within(depth, floats),
{
}

proof fn lemma_dense_stun_nests(t: Json, depth: nat, floats: spec_fn(Seq<char>) -> bool)
    requires
        t.nests_within(depth, floats),
        depth >= 2,
    ensures
        dense_stun(t).nests_within(depth, floats),
{
    lemma_defaults_nest(t, stun_defaults(), depth, floats);
}

proof fn lemma_dense_node_nests(t: Json, depth: nat, floats: spec_fn(Seq<char>) -> bool)
    requires
        t.nests_within(depth, floats),
        depth >= 3,
    ensures
        dense_node(t).nests_within(depth, floats),
{
    let filled = with_defaults(t, node_defaults());
    lemma_defaults_nest(t, node_defaults(), depth, floats);
    if let Some(s) = filled.member("stun_info"@) {
        lemma_dense_stun_nests(s, (depth - 1) as nat, floats);
    }
    lemma_at_nests(filled, "stun_info"@, |s: Json| dense_stun(s), depth, floats);
}

proof fn lemma_dense_route_nests(t: Json, depth: nat, floats: spec_fn(Seq<char>) -> bool)
    requires
        t.nests_within(depth, floats),
        depth >= 3,
    ensures
        dense_route(t).nests_within(depth, floats),
{
    let filled = with_defaults(t, route_defaults());
    lemma_defaults_nest(t, route_defaults(), depth, floats);
    if let Some(s) = filled.member("stun_info"@) {
        lemma_dense_stun_nests(s, (depth - 1) as nat, floats);
    }
    lemma_at_nests(filled, "stun_info"@, |s: Json| dense_stun(s), depth, floats);
}

proof fn lemma_dense_conn_nests(t: Json, depth: nat, floats: spec_fn(Seq<char>) -> bool)
    requires
        t.nests_within(depth, floats),
        depth >= 3,
        floats("0.0"@),
    ensures
        dense_conn(t).nests_within(depth, floats),
{
    let filled = with_defaults(t, conn_defaults());
    lemma_defaults_nest(t, conn_defaults(), depth, floats);
    if let Some(s) = filled.member("stats"@) {
        lemma_defaults_nest(s, stats_defaults(), (depth - 1) as nat, floats);
    }
    lemma_at_nests(filled, "stats"@, |s: Json| dense_stats(s), depth, floats);
}

proof fn lemma_dense_peer_nests(t: Json, depth: nat, floats: spec_fn(Seq<char>) -> bool)
    requires
        t.nests_within(depth, floats),
        depth >= 5,
        floats("0.0"@),
    ensures
        dense_peer(t).nests_within(depth, floats),
{
    let filled = with_defaults(t, peer_defaults());
    lemma_defaults_nest(t, peer_defaults(), depth, floats);
    if let Some(cs) = filled.member("conns"@) {
        assert(cs.nests_within((depth - 1) as nat, floats));
        if let Json::Array(items) = cs {
            assert forall|i: int| 0 <= i < items.len() implies dense_conn(
                #[trigger] items[i],
            ).nests_within((depth - 2) as nat, floats) by {
                lemma_dense_conn_nests(items[i], (depth - 2) as nat, floats);
            }
        }
        lemma_each_nests(cs, |c: Json| dense_conn(c), (depth - 1) as nat, floats);
    }
    lemma_at_nests(filled, "conns"@, |c: Json| dense_conns(c), depth, floats);
}

proof fn lemma_dense_pair_nests(t: Json, depth: nat, floats: spec_fn(Seq<char>) -> bool)
    requires
        t.nests_within(depth, floats),
        depth >= 6,
        floats("0.0"@),
    ensures
        dense_pair(t).nests_within(depth, floats),
{
    let filled = with_defaults(t, pair_defaults());
    lemma_defaults_nest(t, pair_defaults(), depth, floats);
    if let Some(r) = filled.member("route"@) {
        lemma_dense_route_nests(r, (depth - 1) as nat, floats);
    }
    lemma_at_nests(filled, "route"@, |r: Json| dense_route(r), depth, floats);
    let routed = at(filled, "route"@, |r: Json| dense_route(r));
    if let Some(p) = routed.member("peer"@) {
        lemma_dense_peer_nests(p, (depth - 1) as nat, floats);
    }
    lemma_at_nests(routed, "peer"@, |p: Json| dense_peer(p), depth, floats);
}

/// Putting the dropped fields back deepens no document that may nest at least
/// eight deep, and brings in no float but zero.
pub proof fn law_dense_nests(t: Json, depth: nat, floats: spec_fn(Seq<char>) -> bool)
    requires
        t.nests_within(depth, floats),
        depth >= 8,
        floats("0.0"@),
    ensures
        dense_running_info(t).nests_within(depth, floats),
{
    let below = (depth - 1) as nat;
    let item = (depth - 2) as nat;
    let filled = with_defaults(t, info_defaults());
    lemma_defaults_nest(t, info_defaults(), depth, floats);
    if let Some(n) = filled.member("my_node_info"@) {
        lemma_dense_node_nests(n, below, floats);
    }
    lemma_at_nests(filled, "my_node_info"@, |n: Json| dense_node(n), depth, floats);
    let node = at(filled, "my_node_info"@, |n: Json| dense_node(n));
    if let Some(rs) = node.member("routes"@) {
        assert(rs.nests_within(below, floats));
        if let Json::Array(items) = rs {
            assert forall|i: int| 0 <= i < items.len() implies dense_route(
                #[trigger] items[i],
            ).nests_within(item, floats) by {
                lemma_dense_route_nests(items[i], item, floats);
            }
        }
        lemma_each_nests(rs, |r: Json| dense_route(r), below, floats);
    }
    lemma_at_nests(node, "routes"@, |r: Json| dense_routes(r), depth, floats);
    let routes = at(node, "routes"@, |r: Json| dense_routes(r));
    if let Some(ps) = routes.member("peers"@) {
        assert(ps.nests_within(below, floats));
        if let Json::Array(items) = ps {
            assert forall|i: int| 0 <= i < items.len() implies dense_peer(
                #[trigger] items[i],
            ).nests_within(item, floats) by {
                lemma_dense_peer_nests(items[i], item, floats);
            }
        }
        lemma_each_nests(ps, |p: Json| dense_peer(p), below, floats);
    }
    lemma_at_nests(routes, "peers"@, |p: Json| dense_peers(p), depth, floats);
    let peers = at(routes, "peers"@, |p: Json| dense_peers(p));
    if let Some(ps) = peers.member("peer_route_pairs"@) {
        assert(ps.nests_within(below, floats));
        if let Json::Array(items) = ps {
            assert forall|i: int| 0 <= i < items.len() implies dense_pair(
                #[trigger] items[i],
            ).nests_within(item, floats) by {
                lemma_dense_pair_nests(items[i], item, floats);
            }
        }
        lemma_each_nests(ps, |p: Json| dense_pair(p), below, floats);
    }
    lemma_at_nests(peers, "peer_route_pairs"@, |p: Json| dense_pairs(p), depth, floats);
}


proof fn lemma_alike_has_all(a: Json, b: Json, defaults: Map<Seq<char>, Json>)
    requires
        a.alike(b),
        has_all(b, defaults),
    ensures
        has_all(a, defaults),
{
}

proof fn lemma_alike_route(a: Json, b: Json)
    requires
        a.alike(b),
        complete_route(b),
    ensures
        complete_route(a),
{
    json::lemma_alike_member(a, b, "stun_info"@);
    if let Some(s) = a.member("stun_info"@) {
        lemma_alike_has_all(s, b.member("stun_info"@)->0, stun_defaults());
    }
}

proof fn lemma_alike_node(a: Json, b: Json)
    requires
        a.alike(b),
        complete_node(b),
    ensures
        complete_node(a),
{
    json::lemma_alike_member(a, b, "stun_info"@);
    if let Some(s) = a.member("stun_info"@) {
        lemma_alike_has_all(s, b.member("stun_info"@)->0, stun_defaults());
    }
}

proof fn lemma_alike_conn(a: Json, b: Json)
    requires
        a.alike(b),
        complete_conn(b),
    ensures
        complete_conn(a),
{
    json::lemma_alike_member(a, b, "stats"@);
    if let Some(s) = a.member("stats"@) {
        lemma_alike_has_all(s, b.member("stats"@)->0, stats_defaults());
    }
}

proof fn lemma_alike_items(a: Json, b: Json, p: spec_fn(Json) -> bool)
    requires
        a.alike(b),
        items_meet(b, p),
        forall|x: Json, y: Json| #[trigger] x.alike(y) && p(y) ==> p(x),
    ensures
        items_meet(a, p),
{
    if let Json::Array(items) = a {
        assert forall|i: int| 0 <= i < items.len() implies p(#[trigger] items[i]) by {
            assert(items[i].alike(b->Array_0[i]));
        }
    }
}

proof fn lemma_alike_peer(a: Json, b: Json)
    requires
        a.alike(b),
        complete_peer(b),
    ensures
        complete_peer(a),
{
    json::lemma_alike_member(a, b, "conns"@);
    if let Some(cs) = a.member("conns"@) {
        let p = |c: Json| complete_conn(c);
        assert forall|x: Json, y: Json| #[trigger] x.alike(y) && p(y) implies p(x) by {
            lemma_alike_conn(x, y);
        }
        lemma_alike_items(cs, b.member("conns"@)->0, p);
    }
}

proof fn lemma_alike_pair(a: Json, b: Json)
    requires
        a.alike(b),
        complete_pair(b),
    ensures
        complete_pair(a),
{
    json::lemma_alike_member(a, b, "route"@);
    json::lemma_alike_member(a, b, "peer"@);
    if let Some(r) = a.member("route"@) {
        lemma_alike_route(r, b.member("route"@)->0);
    }
    if let Some(p) = a.member("peer"@) {
        lemma_alike_peer(p, b.member("peer"@)->0);
    }
}

/// Whether a field is missing does not depend on what the floats are.
pub proof fn law_floats_do_not_matter(a: Json, b: Json)
    requires
        a.alike(b),
        complete_running_info(b),
    ensures
        complete_running_info(a),
{
    json::lemma_alike_member(a, b, "my_node_info"@);
    json::lemma_alike_member(a, b, "routes"@);
    json::lemma_alike_member(a, b, "peers"@);
    json::lemma_alike_member(a, b, "peer_route_pairs"@);
    if let Some(n) = a.member("my_node_info"@) {
        lemma_alike_node(n, b.member("my_node_info"@)->0);
    }
    if let Some(rs) = a.member("routes"@) {
        let p = |r: Json| complete_route(r);
        assert forall|x: Json, y: Json| #[trigger] x.alike(y) && p(y) implies p(x) by {
            lemma_alike_route(x, y);
        }
        lemma_alike_items(rs, b.member("routes"@)->0, p);
    }
    if let Some(ps) = a.member("peers"@) {
        let p = |q: Json| complete_peer(q);
        assert forall|x: Json, y: Json| #[trigger] x.alike(y) && p(y) implies p(x) by {
            lemma_alike_peer(x, y);
        }
        lemma_alike_items(ps, b.member("peers"@)->0, p);
    }
    if let Some(ps) = a.member("peer_route_pairs"@) {
        let p = |q: Json| complete_pair(q);
        assert forall|x: Json, y: Json| #[trigger] x.alike(y) && p(y) implies p(x) by {
            lemma_alike_pair(x, y);
        }
        lemma_alike_items(ps, b.member("peer_route_pairs"@)->0, p);
    }
}

} // verus!
