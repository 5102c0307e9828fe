//! What a snapshot loses when it is written, and that nothing is lost for good.
//!
//! A relation of this module holds of a written document `s` and the full one `t`
//! where `s` differs from `t` only in members that were left out because they equal
//! their defaults. The writer may leave out all of them, some, or none.

use vstd::prelude::*;

use crate::dense;
use crate::json;
use crate::json::Json;
use crate::running_info;

verus! {

/// An object lost some members: what is left meets `kept` with what was there, and
/// what is gone met `gone`. Any other document is written as it is.
pub open spec fn dropped(
    s: Json,
    t: Json,
    kept: spec_fn(Seq<char>, Json, Json) -> bool,
    gone: spec_fn(Seq<char>, Json) -> bool,
) -> bool {
    match (s, t) {
        (Json::Object(a), Json::Object(b)) => {
            &&& a.dom().subset_of(b.dom())
            &&& forall|k: Seq<char>| #[trigger]
                b.contains_key(k) ==> if a.contains_key(k) {
                    kept(k, a[k], b[k])
                } else {
                    gone(k, b[k])
                }
        },
        _ => s == t,
    }
}

/// The member `key` equals its default.
pub open spec fn is_default(defaults: Map<Seq<char>, Json>, key: Seq<char>, e: Json) -> bool {
    defaults.contains_key(key) && e == defaults[key]
}

/// Each item was written as `one` says.
pub open spec fn each_dropped(s: Json, t: Json, one: spec_fn(Json, Json) -> bool) -> bool {
    match (s, t) {
        (Json::Array(a), Json::Array(b)) => {
            &&& a.len() == b.len()
            &&& forall|i: int|
                #![trigger a[i]]
                #![trigger b[i]]
                0 <= i < a.len() ==> one(a[i], b[i])
        },
        _ => s == t,
    }
}

/// A STUN report as it is written.
pub open spec fn dropped_stun(s: Json, t: Json) -> bool {
    dropped(
        s,
        t,
        |k: Seq<char>, x: Json, y: Json| x == y,
        |k: Seq<char>, y: Json| is_default(dense::stun_defaults(), k, y),
    )
}

/// A node as it is written.
pub open spec fn dropped_node(s: Json, t: Json) -> bool {
    dropped(
        s,
        t,
        |k: Seq<char>, x: Json, y: Json|
            if k == "stun_info"@ {
                dropped_stun(x, y)
            } else {
                x == y
            },
        |k: Seq<char>, y: Json| is_default(dense::node_defaults(), k, y),
    )
}

/// A route as it is written.
pub open spec fn dropped_route(s: Json, t: Json) -> bool {
    dropped(
        s,
        t,
        |k: Seq<char>, x: Json, y: Json|
            if k == "stun_info"@ {
                dropped_stun(x, y)
            } else {
                x == y
            },
        |k: Seq<char>, y: Json| is_default(dense::route_defaults(), k, y),
    )
}

/// A connection's statistics as they are written.
pub open spec fn dropped_stats(s: Json, t: Json) -> bool {
    dropped(
        s,
        t,
        |k: Seq<char>, x: Json, y: Json| x == y,
        |k: Seq<char>, y: Json| is_default(dense::stats_defaults(), k, y),
    )
}

/// A connection as it is written.
pub open spec fn dropped_conn(s: Json, t: Json) -> bool {
    dropped(
        s,
        t,
        |k: Seq<char>, x: Json, y: Json|
            if k == "stats"@ {
                dropped_stats(x, y)
            } else {
                x == y
            },
        |k: Seq<char>, y: Json| is_default(dense::conn_defaults(), k, y),
    )
}

/// A peer as it is written.
pub open spec fn dropped_peer(s: Json, t: Json) -> bool {
    dropped(
        s,
        t,
        |k: Seq<char>, x: Json, y: Json|
            if k == "conns"@ {
                each_dropped(x, y, |c: Json, d: Json| dropped_conn(c, d))
            } else {
                x == y
            },
        |k: Seq<char>, y: Json| is_default(dense::peer_defaults(), k, y),
    )
}

/// A peer-route pair as it is written. A route that lost all its members may be gone
/// from it.
pub open spec fn dropped_pair(s: Json, t: Json) -> bool {
    dropped(
        s,
        t,
        |k: Seq<char>, x: Json, y: Json|
            if k == "route"@ {
                dropped_route(x, y)
            } else if k == "peer"@ {
                dropped_peer(x, y)
            } else {
                x == y
            },
        |k: Seq<char>, y: Json| k == "route"@ && dropped_route(Json::Object(Map::empty()), y),
    )
}

/// A snapshot as it is written.
pub open spec fn dropped_running_info(s: Json, t: Json) -> bool {
    dropped(
        s,
        t,
        |k: Seq<char>, x: Json, y: Json|
            if k == "my_node_info"@ {
                dropped_node(x, y)
            } else if k == "routes"@ {
                each_dropped(x, y, |r: Json, q: Json| dropped_route(r, q))
            } else if k == "peers"@ {
                each_dropped(x, y, |p: Json, q: Json| dropped_peer(p, q))
            } else if k == "peer_route_pairs"@ {
                each_dropped(x, y, |p: Json, q: Json| dropped_pair(p, q))
            } else {
                x == y
            },
        |k: Seq<char>, y: Json| is_default(dense::info_defaults(), k, y),
    )
}

proof fn lemma_stun_comes_back(s: Json, t: Json)
    requires
        dropped_stun(s, t),
    ensures
        dense::dense_stun(s) == dense::dense_stun(t),
{
    if t is Object {
        assert(dense::dense_stun(s)->Object_0 =~= dense::dense_stun(t)->Object_0);
    }
}

proof fn lemma_node_comes_back(s: Json, t: Json)
    requires
        dropped_node(s, t),
    ensures
        dense::dense_node(s) == dense::dense_node(t),
{
    dense::lemma_names();
    if t is Object {
        if let Some(x) = s.member("stun_info"@) {
            assert(t->Object_0.contains_key("stun_info"@));
            lemma_stun_comes_back(x, t->Object_0["stun_info"@]);
        }
        assert(dense::dense_node(s)->Object_0 =~= dense::dense_node(t)->Object_0);
    }
}

proof fn lemma_route_comes_back(s: Json, t: Json)
    requires
        dropped_route(s, t),
    ensures
        dense::dense_route(s) == dense::dense_route(t),
{
    dense::lemma_names();
    if t is Object {
        if let Some(x) = s.member("stun_info"@) {
            assert(t->Object_0.contains_key("stun_info"@));
            lemma_stun_comes_back(x, t->Object_0["stun_info"@]);
        }
        assert(dense::dense_route(s)->Object_0 =~= dense::dense_route(t)->Object_0);
    }
}

proof fn lemma_stats_come_back(s: Json, t: Json)
    requires
        dropped_stats(s, t),
    ensures
        dense::dense_stats(s) == dense::dense_stats(t),
{
    if t is Object {
        assert(dense::dense_stats(s)->Object_0 =~= dense::dense_stats(t)->Object_0);
    }
}

proof fn lemma_conn_comes_back(s: Json, t: Json)
    requires
        dropped_conn(s, t),
    ensures
        dense::dense_conn(s) == dense::dense_conn(t),
{
    dense::lemma_names();
    if t is Object {
        if let Some(x) = s.member("stats"@) {
            assert(t->Object_0.contains_key("stats"@));
            lemma_stats_come_back(x, t->Object_0["stats"@]);
        }
        assert(dense::dense_conn(s)->Object_0 =~= dense::dense_conn(t)->Object_0);
    }
}

/// Items that `f` takes to the same come to the same.
proof fn lemma_each_comes_back(
    s: Json,
    t: Json,
    one: spec_fn(Json, Json) -> bool,
    f: spec_fn(Json) -> Json,
)
    requires
        each_dropped(s, t, one),
        forall|x: Json, y: Json| #[trigger] one(x, y) ==> f(x) == f(y),
    ensures
        dense::each(s, f) == dense::each(t, f),
{
    if let (Json::Array(a), Json::Array(b)) = (s, t) {
        assert forall|i: int| 0 <= i < a.len() implies f(#[trigger] a[i]) == f(b[i]) by {
            assert(one(a[i], b[i]));
        }
        assert(a.map_values(f) =~= b.map_values(f));
    }
}

proof fn lemma_peer_comes_back(s: Json, t: Json)
    requires
        dropped_peer(s, t),
    ensures
        dense::dense_peer(s) == dense::dense_peer(t),
{
    dense::lemma_names();
    if t is Object {
        if let Some(x) = s.member("conns"@) {
            assert(t->Object_0.contains_key("conns"@));
            let y = t->Object_0["conns"@];
            let one = |c: Json, d: Json| dropped_conn(c, d);
            assert forall|c: Json, d: Json| #[trigger] one(c, d) implies dense::dense_conn(c)
                == dense::dense_conn(d) by {
                lemma_conn_comes_back(c, d);
            }
            lemma_each_comes_back(x, y, one, |c: Json| dense::dense_conn(c));
        }
        assert(dense::dense_peer(s)->Object_0 =~= dense::dense_peer(t)->Object_0);
    }
}

proof fn lemma_pair_comes_back(s: Json, t: Json)
    requires
        dropped_pair(s, t),
    ensures
        dense::dense_pair(s) == dense::dense_pair(t),
{
    dense::lemma_names();
    if t is Object {
        let b = t->Object_0;
        if let Some(x) = s.member("route"@) {
            assert(b.contains_key("route"@));
            lemma_route_comes_back(x, b["route"@]);
        } else if b.contains_key("route"@) {
            lemma_route_comes_back(Json::Object(Map::empty()), b["route"@]);
        }
        if let Some(x) = s.member("peer"@) {
            assert(b.contains_key("peer"@));
            lemma_peer_comes_back(x, b["peer"@]);
        }
        assert(dense::dense_pair(s)->Object_0 =~= dense::dense_pair(t)->Object_0);
    }
}

/// Whatever default-valued fields the writer left out of a snapshot, putting the
/// dropped fields back gives the same as if it had left out none.
pub proof fn law_dropping_is_undone(s: Json, t: Json)
    requires
        dropped_running_info(s, t),
    ensures
        dense::dense_running_info(s) == dense::dense_running_info(t),
{
    dense::lemma_names();
    if t is Object {
        let b = t->Object_0;
        if let Some(x) = s.member("my_node_info"@) {
            assert(b.contains_key("my_node_info"@));
            lemma_node_comes_back(x, b["my_node_info"@]);
        }
        if let Some(x) = s.member("routes"@) {
            assert(b.contains_key("routes"@));
            let one = |r: Json, q: Json| dropped_route(r, q);
            assert forall|r: Json, q: Json| #[trigger] one(r, q) implies dense::dense_route(r)
                == dense::dense_route(q) by {
                lemma_route_comes_back(r, q);
            }
            lemma_each_comes_back(x, b["routes"@], one, |r: Json| dense::dense_route(r));
        }
        if let Some(x) = s.member("peers"@) {
            assert(b.contains_key("peers"@));
            let one = |p: Json, q: Json| dropped_peer(p, q);
            assert forall|p: Json, q: Json| #[trigger] one(p, q) implies dense::dense_peer(p)
                == dense::dense_peer(q) by {
                lemma_peer_comes_back(p, q);
            }
            lemma_each_comes_back(x, b["peers"@], one, |p: Json| dense::dense_peer(p));
        }
        if let Some(x) = s.member("peer_route_pairs"@) {
            assert(b.contains_key("peer_route_pairs"@));
            let one = |p: Json, q: Json| dropped_pair(p, q);
            assert forall|p: Json, q: Json| #[trigger] one(p, q) implies dense::dense_pair(p)
                == dense::dense_pair(q) by {
                lemma_pair_comes_back(p, q);
            }
            lemma_each_comes_back(x, b["peer_route_pairs"@], one, |p: Json| dense::dense_pair(p));
        }
        assert(dense::dense_running_info(s)->Object_0 =~= dense::dense_running_info(t)->Object_0);
    }
}

/// A snapshot with no field missing comes back whole from however it was written.
pub proof fn law_full_snapshot_comes_back(s: Json, t: Json)
    requires
        dropped_running_info(s, t),
        dense::complete_running_info(t),
    ensures
        dense::dense_running_info(s) == t,
{
    law_dropping_is_undone(s, t);
    dense::law_complete_is_unchanged(t);
}

/// The text of a snapshot, however much of its defaults the writer left out, is
/// densified to the text of the full snapshot.
pub proof fn law_written_text_is_refilled(raw: Seq<char>, s: Json, t: Json)
    requires
        json::parsed(raw) == Some(s),
        dropped_running_info(s, t),
        dense::complete_running_info(t),
    ensures
        running_info::densified(raw) == json::printed(t),
{
    law_full_snapshot_comes_back(s, t);
}

proof fn lemma_only_defaults_in_node(t: Json)
    ensures
        dropped_node(t, dense::dense_node(t)),
{
    dense::lemma_names();
}

proof fn lemma_only_defaults_in_route(t: Json)
    ensures
        dropped_route(t, dense::dense_route(t)),
{
    dense::lemma_names();
}

proof fn lemma_only_defaults_in_conn(t: Json)
    ensures
        dropped_conn(t, dense::dense_conn(t)),
{
    dense::lemma_names();
}

/// Items that each lost only what `f` adds.
proof fn lemma_only_defaults_in_each(
    t: Json,
    one: spec_fn(Json, Json) -> bool,
    f: spec_fn(Json) -> Json,
)
    requires
        forall|x: Json| one(x, #[trigger] f(x)),
    ensures
        each_dropped(t, dense::each(t, f), one),
{
    if let Json::Array(items) = t {
        assert forall|i: int| 0 <= i < items.len() implies one(
            #[trigger] items[i],
            items.map_values(f)[i],
        ) by {
            assert(one(items[i], f(items[i])));
        }
    }
}

proof fn lemma_empty_list_stays(f: spec_fn(Json) -> Json)
    ensures
        dense::each(dense::empty_list(), f) == dense::empty_list(),
{
    assert(Seq::<Json>::empty().map_values(f) =~= Seq::empty());
}

proof fn lemma_only_defaults_in_peer(t: Json)
    ensures
        dropped_peer(t, dense::dense_peer(t)),
{
    dense::lemma_names();
    let one = |c: Json, d: Json| dropped_conn(c, d);
    let f = |c: Json| dense::dense_conn(c);
    assert forall|c: Json| one(c, #[trigger] f(c)) by {
        lemma_only_defaults_in_conn(c);
    }
    lemma_empty_list_stays(f);
    if let Some(x) = t.member("conns"@) {
        lemma_only_defaults_in_each(x, one, f);
    }
}

proof fn lemma_only_defaults_in_pair(t: Json)
    ensures
        dropped_pair(t, dense::dense_pair(t)),
{
    dense::lemma_names();
    lemma_only_defaults_in_route(Json::Object(Map::empty()));
    if let Some(r) = t.member("route"@) {
        lemma_only_defaults_in_route(r);
    }
    if let Some(p) = t.member("peer"@) {
        lemma_only_defaults_in_peer(p);
    }
}

/// Nothing but members with their default values is put back.
pub proof fn law_only_defaults_are_added(t: Json)
    ensures
        dropped_running_info(t, dense::dense_running_info(t)),
{
    dense::lemma_names();
    let route = |r: Json, q: Json| dropped_route(r, q);
    let dense_route = |r: Json| dense::dense_route(r);
    assert forall|r: Json| route(r, #[trigger] dense_route(r)) by {
        lemma_only_defaults_in_route(r);
    }
    lemma_empty_list_stays(dense_route);
    let peer = |p: Json, q: Json| dropped_peer(p, q);
    let dense_peer = |p: Json| dense::dense_peer(p);
    assert forall|p: Json| peer(p, #[trigger] dense_peer(p)) by {
        lemma_only_defaults_in_peer(p);
    }
    lemma_empty_list_stays(dense_peer);
    let pair = |p: Json, q: Json| dropped_pair(p, q);
    let dense_pair = |p: Json| dense::dense_pair(p);
    assert forall|p: Json| pair(p, #[trigger] dense_pair(p)) by {
        lemma_only_defaults_in_pair(p);
    }
    lemma_empty_list_stays(dense_pair);
    if let Some(n) = t.member("my_node_info"@) {
        lemma_only_defaults_in_node(n);
    }
    if let Some(x) = t.member("routes"@) {
        lemma_only_defaults_in_each(x, route, dense_route);
    }
    if let Some(x) = t.member("peers"@) {
        lemma_only_defaults_in_each(x, peer, dense_peer);
    }
    if let Some(x) = t.member("peer_route_pairs"@) {
        lemma_only_defaults_in_each(x, pair, dense_pair);
    }
}

} // verus!
