//! What putting the dropped fields back does to each kind of object, field by field.
//!
//! Each law here names the fields that are put back and what each is put back as. A
//! field that is there stays; no other field is added; and where a field holds an
//! object, or a list of objects, that is filled in turn.

use vstd::prelude::*;

use crate::dense;
use crate::json::Json;

verus! {

/// The member `key` is there: as it was, or, where it was missing, as `default`.
pub open spec fn stays_or_is(
    new: Map<Seq<char>, Json>,
    old: Map<Seq<char>, Json>,
    key: Seq<char>,
    default: Json,
) -> bool {
    &&& new.contains_key(key)
    &&& old.contains_key(key) ==> new[key] == old[key]
    &&& !old.contains_key(key) ==> new[key] == default
}

/// Every item of a list was filled by `f`; what is no list stayed as it was.
pub open spec fn each_filled(new: Json, old: Json, f: spec_fn(Json) -> Json) -> bool {
    match old {
        Json::Array(items) => {
            &&& new is Array
            &&& new->Array_0.len() == items.len()
            &&& forall|i: int| 0 <= i < items.len() ==> #[trigger] new->Array_0[i] == f(items[i])
        },
        _ => new == old,
    }
}

/// The fields of a STUN report.
pub proof fn law_stun_by_field(m: Map<Seq<char>, Json>)
    ensures
        dense::dense_stun(Json::Object(m)) is Object,
        ({
            let n = dense::dense_stun(Json::Object(m))->Object_0;
            &&& stays_or_is(n, m, "udp_nat_type"@, Json::Int(0))
            &&& stays_or_is(n, m, "tcp_nat_type"@, Json::Int(0))
            &&& stays_or_is(n, m, "last_update_time"@, Json::Int(0))
            &&& stays_or_is(n, m, "public_ip"@, Json::Array(Seq::empty()))
            &&& forall|k: Seq<char>|
                m.contains_key(k) ==> #[trigger] n.contains_key(k) && n[k] == m[k]
            &&& forall|k: Seq<char>|
                #[trigger] n.contains_key(k) ==> m.contains_key(k)
                    || k == "udp_nat_type"@
                    || k == "tcp_nat_type"@
                    || k == "last_update_time"@
                    || k == "public_ip"@
        }),
{
    dense::lemma_names();
}

/// The fields of a connection's statistics.
pub proof fn law_stats_by_field(m: Map<Seq<char>, Json>)
    ensures
        dense::dense_stats(Json::Object(m)) is Object,
        ({
            let n = dense::dense_stats(Json::Object(m))->Object_0;
            &&& stays_or_is(n, m, "rx_bytes"@, Json::Int(0))
            &&& stays_or_is(n, m, "tx_bytes"@, Json::Int(0))
            &&& stays_or_is(n, m, "rx_packets"@, Json::Int(0))
            &&& stays_or_is(n, m, "tx_packets"@, Json::Int(0))
            &&& stays_or_is(n, m, "latency_us"@, Json::Int(0))
            &&& forall|k: Seq<char>|
                m.contains_key(k) ==> #[trigger] n.contains_key(k) && n[k] == m[k]
            &&& forall|k: Seq<char>|
                #[trigger] n.contains_key(k) ==> m.contains_key(k)
                    || k == "rx_bytes"@
                    || k == "tx_bytes"@
                    || k == "rx_packets"@
                    || k == "tx_packets"@
                    || k == "latency_us"@
        }),
{
    dense::lemma_names();
}

/// The fields of a node.
pub proof fn law_node_by_field(m: Map<Seq<char>, Json>)
    ensures
        dense::dense_node(Json::Object(m)) is Object,
        ({
            let n = dense::dense_node(Json::Object(m))->Object_0;
            &&& stays_or_is(n, m, "hostname"@, Json::Text(Seq::empty()))
            &&& stays_or_is(n, m, "version"@, Json::Text(Seq::empty()))
            &&& n.contains_key("stun_info"@) == m.contains_key("stun_info"@)
            &&& m.contains_key("stun_info"@) ==> n["stun_info"@] == dense::dense_stun(
                m["stun_info"@],
            )
            &&& forall|k: Seq<char>|
                m.contains_key(k)
                    && k != "stun_info"@ ==> #[trigger] n.contains_key(k) && n[k] == m[k]
            &&& forall|k: Seq<char>|
                #[trigger] n.contains_key(k) ==> m.contains_key(k)
                    || k == "hostname"@
                    || k == "version"@
        }),
{
    dense::lemma_names();
}

/// The fields of a route.
pub proof fn law_route_by_field(m: Map<Seq<char>, Json>)
    ensures
        dense::dense_route(Json::Object(m)) is Object,
        ({
            let n = dense::dense_route(Json::Object(m))->Object_0;
            &&& stays_or_is(n, m, "peer_id"@, Json::Int(0))
            &&& stays_or_is(n, m, "next_hop_peer_id"@, Json::Int(0))
            &&& stays_or_is(n, m, "cost"@, Json::Int(0))
            &&& stays_or_is(n, m, "path_latency"@, Json::Int(0))
            &&& stays_or_is(n, m, "proxy_cidrs"@, Json::Array(Seq::empty()))
            &&& stays_or_is(n, m, "hostname"@, Json::Text(Seq::empty()))
            &&& stays_or_is(n, m, "inst_id"@, Json::Text(Seq::empty()))
            &&& stays_or_is(n, m, "version"@, Json::Text(Seq::empty()))
            &&& n.contains_key("stun_info"@) == m.contains_key("stun_info"@)
            &&& m.contains_key("stun_info"@) ==> n["stun_info"@] == dense::dense_stun(
                m["stun_info"@],
            )
            &&& forall|k: Seq<char>|
                m.contains_key(k)
                    && k != "stun_info"@ ==> #[trigger] n.contains_key(k) && n[k] == m[k]
            &&& forall|k: Seq<char>|
                #[trigger] n.contains_key(k) ==> m.contains_key(k)
                    || k == "peer_id"@
                    || k == "next_hop_peer_id"@
                    || k == "cost"@
                    || k == "path_latency"@
                    || k == "proxy_cidrs"@
                    || k == "hostname"@
                    || k == "inst_id"@
                    || k == "version"@
        }),
{
    dense::lemma_names();
}

/// The fields of a connection.
pub proof fn law_conn_by_field(m: Map<Seq<char>, Json>)
    ensures
        dense::dense_conn(Json::Object(m)) is Object,
        ({
            let n = dense::dense_conn(Json::Object(m))->Object_0;
            &&& stays_or_is(n, m, "conn_id"@, Json::Text(Seq::empty()))
            &&& stays_or_is(n, m, "my_peer_id"@, Json::Int(0))
            &&& stays_or_is(n, m, "is_client"@, Json::Bool(false))
            &&& stays_or_is(n, m, "peer_id"@, Json::Int(0))
            &&& stays_or_is(n, m, "features"@, Json::Array(Seq::empty()))
            &&& stays_or_is(n, m, "loss_rate"@, Json::Float("0.0"@))
            &&& n.contains_key("stats"@) == m.contains_key("stats"@)
            &&& m.contains_key("stats"@) ==> n["stats"@] == dense::dense_stats(m["stats"@])
            &&& forall|k: Seq<char>|
                m.contains_key(k)
                    && k != "stats"@ ==> #[trigger] n.contains_key(k) && n[k] == m[k]
            &&& forall|k: Seq<char>|
                #[trigger] n.contains_key(k) ==> m.contains_key(k)
                    || k == "conn_id"@
                    || k == "my_peer_id"@
                    || k == "is_client"@
                    || k == "peer_id"@
                    || k == "features"@
                    || k == "loss_rate"@
        }),
{
    dense::lemma_names();
}

/// The fields of a peer.
pub proof fn law_peer_by_field(m: Map<Seq<char>, Json>)
    ensures
        dense::dense_peer(Json::Object(m)) is Object,
        ({
            let n = dense::dense_peer(Json::Object(m))->Object_0;
            &&& stays_or_is(n, m, "peer_id"@, Json::Int(0))
            &&& stays_or_is(n, m, "directly_connected_conns"@, Json::Array(Seq::empty()))
            &&& n.contains_key("conns"@)
            &&& !m.contains_key("conns"@) ==> n["conns"@] == Json::Array(Seq::empty())
            &&& m.contains_key("conns"@) ==> each_filled(
                n["conns"@],
                m["conns"@],
                |e: Json| dense::dense_conn(e),
            )
            &&& forall|k: Seq<char>|
                m.contains_key(k)
                    && k != "conns"@ ==> #[trigger] n.contains_key(k) && n[k] == m[k]
            &&& forall|k: Seq<char>|
                #[trigger] n.contains_key(k) ==> m.contains_key(k)
                    || k == "peer_id"@
                    || k == "conns"@
                    || k == "directly_connected_conns"@
        }),
{
    dense::lemma_names();
    assert(Seq::<Json>::empty().map_values(|e: Json| dense::dense_conn(e)) =~= Seq::empty());
}

/// The fields of a peer-route pair.
pub proof fn law_pair_by_field(m: Map<Seq<char>, Json>)
    ensures
        dense::dense_pair(Json::Object(m)) is Object,
        ({
            let n = dense::dense_pair(Json::Object(m))->Object_0;
            &&& n.contains_key("route"@)
            &&& !m.contains_key("route"@) ==> n["route"@] == dense::dense_route(
                Json::Object(Map::empty()),
            )
            &&& m.contains_key("route"@) ==> n["route"@] == dense::dense_route(m["route"@])
            &&& n.contains_key("peer"@) == m.contains_key("peer"@)
            &&& m.contains_key("peer"@) ==> n["peer"@] == dense::dense_peer(m["peer"@])
            &&& forall|k: Seq<char>|
                m.contains_key(k)
                    && k != "route"@
                    && k != "peer"@ ==> #[trigger] n.contains_key(k) && n[k] == m[k]
            &&& forall|k: Seq<char>|
                #[trigger] n.contains_key(k) ==> m.contains_key(k)
                    || k == "route"@
        }),
{
    dense::lemma_names();
}

/// The fields of a snapshot.
pub proof fn law_running_info_by_field(m: Map<Seq<char>, Json>)
    ensures
        dense::dense_running_info(Json::Object(m)) is Object,
        ({
            let n = dense::dense_running_info(Json::Object(m))->Object_0;
            &&& stays_or_is(n, m, "dev_name"@, Json::Text(Seq::empty()))
            &&& stays_or_is(n, m, "events"@, Json::Array(Seq::empty()))
            &&& stays_or_is(n, m, "running"@, Json::Bool(false))
            &&& n.contains_key("my_node_info"@) == m.contains_key("my_node_info"@)
            &&& m.contains_key("my_node_info"@) ==> n["my_node_info"@] == dense::dense_node(
                m["my_node_info"@],
            )
            &&& n.contains_key("routes"@)
            &&& !m.contains_key("routes"@) ==> n["routes"@] == Json::Array(Seq::empty())
            &&& m.contains_key("routes"@) ==> each_filled(
                n["routes"@],
                m["routes"@],
                |e: Json| dense::dense_route(e),
            )
            &&& n.contains_key("peers"@)
            &&& !m.contains_key("peers"@) ==> n["peers"@] == Json::Array(Seq::empty())
            &&& m.contains_key("peers"@) ==> each_filled(
                n["peers"@],
                m["peers"@],
                |e: Json| dense::dense_peer(e),
            )
            &&& n.contains_key("peer_route_pairs"@)
            &&& !m.contains_key("peer_route_pairs"@) ==> n["peer_route_pairs"@] == Json::Array(
                Seq::empty(),
            )
            &&& m.contains_key("peer_route_pairs"@) ==> each_filled(
                n["peer_route_pairs"@],
                m["peer_route_pairs"@],
                |e: Json| dense::dense_pair(e),
            )
            &&& forall|k: Seq<char>|
                m.contains_key(k)
                    && k != "my_node_info"@
                    && k != "routes"@
                    && k != "peers"@
                    && k != "peer_route_pairs"@ ==> #[trigger] n.contains_key(k) && n[k] == m[k]
            &&& forall|k: Seq<char>|
                #[trigger] n.contains_key(k) ==> m.contains_key(k)
                    || k == "dev_name"@
                    || k == "events"@
                    || k == "routes"@
                    || k == "peers"@
                    || k == "peer_route_pairs"@
                    || k == "running"@
        }),
{
    dense::lemma_names();
    reveal_strlit("events");
    reveal_strlit("routes");
    assert("events"@[0] == 'e' && "routes"@[0] == 'r');
    let filled = dense::info_defaults().union_prefer_right(m);
    let n = dense::dense_running_info(Json::Object(m))->Object_0;
    assert(n.dom() =~= filled.dom());
    assert(n["routes"@] == dense::dense_routes(filled["routes"@]));
    assert(n["peers"@] == dense::dense_peers(filled["peers"@]));
    assert(n["peer_route_pairs"@] == dense::dense_pairs(filled["peer_route_pairs"@]));
    assert(dense::dense_routes(dense::empty_list())->Array_0 =~= Seq::empty());
    assert(dense::dense_peers(dense::empty_list())->Array_0 =~= Seq::empty());
    assert(dense::dense_pairs(dense::empty_list())->Array_0 =~= Seq::empty());
}

/// What is no object stays as it is, wherever an object with fields is looked for.
pub proof fn law_only_objects_are_filled(t: Json)
    requires
        !(t is Object),
    ensures
        dense::dense_stun(t) == t,
        dense::dense_stats(t) == t,
        dense::dense_node(t) == t,
        dense::dense_route(t) == t,
        dense::dense_conn(t) == t,
        dense::dense_peer(t) == t,
        dense::dense_pair(t) == t,
        dense::dense_running_info(t) == t,
{
}

/// One missing member is added with the given value. A member that is there stays,
/// every other member stays, and what is no object stays.
pub proof fn law_default_by_member(t: Json, key: Seq<char>, default: Json)
    ensures
        !(t is Object) ==> dense::with_default(t, key, default) == t,
        t matches Json::Object(m) ==> {
            let n = dense::with_default(t, key, default)->Object_0;
            &&& dense::with_default(t, key, default) is Object
            &&& stays_or_is(n, m, key, default)
            &&& forall|k: Seq<char>| k != key ==> n.contains_key(k) == m.contains_key(k)
            &&& forall|k: Seq<char>| #[trigger] m.contains_key(k) ==> n[k] == m[k]
        },
{
}

} // verus!
