use easytier_ios::running_info::{
    densify_conn, densify_node, densify_peer, densify_route, densify_running_info,
    densify_snapshot, densify_stun, error_msg, latest_error, obj_default,
};
use serde_json::Value;

fn value(text: &str) -> Value {
    serde_json::from_str(text).unwrap()
}

const EMPTY: &str = "{\"dev_name\":\"\",\"events\":[],\"peer_route_pairs\":[],\"peers\":[],\
                     \"routes\":[],\"running\":false}";

const ROUTE: &str = "{\"cost\":0,\"hostname\":\"\",\"inst_id\":\"\",\"next_hop_peer_id\":0,\
                     \"path_latency\":0,\"peer_id\":0,\"proxy_cidrs\":[],\"version\":\"\"}";

const PEER: &str = "{\"conns\":[],\"directly_connected_conns\":[],\"peer_id\":0}";

const CONN: &str = "{\"conn_id\":\"\",\"features\":[],\"is_client\":false,\"loss_rate\":0.0,\
                    \"my_peer_id\":0,\"peer_id\":0}";

const STUN: &str = "{\"last_update_time\":0,\"public_ip\":[],\"tcp_nat_type\":0,\
                    \"udp_nat_type\":0}";

#[test]
fn default_is_added_to_an_object() {
    let mut v = value("{\"a\":1}");
    obj_default(&mut v, "b", Value::from("x"));
    assert_eq!(v, value("{\"a\":1,\"b\":\"x\"}"));
}

#[test]
fn default_overwrites_nothing() {
    let mut v = value("{\"a\":null}");
    obj_default(&mut v, "a", Value::from(5));
    assert_eq!(v, value("{\"a\":null}"));
}

#[test]
fn default_changes_only_objects() {
    for text in ["null", "true", "7", "1.5", "\"s\"", "[{}]"] {
        let mut v = value(text);
        obj_default(&mut v, "a", Value::from(5));
        assert_eq!(v, value(text));
    }
}

#[test]
fn stun_fields_are_put_back() {
    let mut v = value("{}");
    densify_stun(&mut v);
    assert_eq!(v.to_string(), STUN);
    let mut v = value("{\"udp_nat_type\":4,\"public_ip\":[\"1.2.3.4\"],\"other\":1}");
    densify_stun(&mut v);
    assert_eq!(
        v,
        value(
            "{\"udp_nat_type\":4,\"tcp_nat_type\":0,\"last_update_time\":0,\
             \"public_ip\":[\"1.2.3.4\"],\"other\":1}"
        )
    );
}

#[test]
fn node_fields_are_put_back() {
    let mut v = value("{}");
    densify_node(&mut v);
    assert_eq!(v, value("{\"hostname\":\"\",\"version\":\"\"}"));
    let mut v = value("{\"hostname\":\"h\",\"stun_info\":{}}");
    densify_node(&mut v);
    assert_eq!(v["hostname"], Value::from("h"));
    assert_eq!(v["version"], Value::from(""));
    assert_eq!(v["stun_info"].to_string(), STUN);
}

#[test]
fn route_fields_are_put_back() {
    let mut v = value("{}");
    densify_route(&mut v);
    assert_eq!(v.to_string(), ROUTE);
    let mut v = value("{\"cost\":2,\"stun_info\":{\"tcp_nat_type\":3}}");
    densify_route(&mut v);
    assert_eq!(v["cost"], Value::from(2));
    assert_eq!(v["peer_id"], Value::from(0));
    assert_eq!(v["stun_info"]["tcp_nat_type"], Value::from(3));
    assert_eq!(v["stun_info"]["udp_nat_type"], Value::from(0));
}

#[test]
fn conn_fields_are_put_back() {
    let mut v = value("{}");
    densify_conn(&mut v);
    assert_eq!(v.to_string(), CONN);
    let mut v = value("{\"loss_rate\":0.25,\"stats\":{\"rx_bytes\":9}}");
    densify_conn(&mut v);
    assert_eq!(v["loss_rate"], Value::from(0.25));
    assert_eq!(
        v["stats"],
        value(
            "{\"rx_bytes\":9,\"tx_bytes\":0,\"rx_packets\":0,\"tx_packets\":0,\"latency_us\":0}"
        )
    );
}

#[test]
fn default_loss_rate_is_a_float() {
    let mut v = value("{}");
    densify_conn(&mut v);
    assert!(v["loss_rate"].is_f64());
    assert_eq!(v["loss_rate"], Value::from(0.0));
    assert!(v["peer_id"].is_u64());
}

#[test]
fn peer_fields_are_put_back() {
    let mut v = value("{}");
    densify_peer(&mut v);
    assert_eq!(v.to_string(), PEER);
    let mut v = value("{\"conns\":[{},{\"conn_id\":\"c\"},5]}");
    densify_peer(&mut v);
    assert_eq!(v["conns"][0].to_string(), CONN);
    assert_eq!(v["conns"][1]["conn_id"], Value::from("c"));
    assert_eq!(v["conns"][1]["is_client"], Value::from(false));
    assert_eq!(v["conns"][2], Value::from(5));
}

#[test]
fn peer_with_odd_conns_keeps_them() {
    let mut v = value("{\"conns\":\"none\"}");
    densify_peer(&mut v);
    assert_eq!(v["conns"], Value::from("none"));
}

#[test]
fn empty_snapshot_is_filled() {
    assert_eq!(densify_running_info("{}"), EMPTY);
}

#[test]
fn snapshot_fields_are_put_back_everywhere() {
    let text = "{\"my_node_info\":{\"stun_info\":{}},\"routes\":[{}],\"peers\":[{\"conns\":[{}]}],\
                \"peer_route_pairs\":[{\"route\":{},\"peer\":{}}],\"running\":true}";
    let v = value(&densify_running_info(text));
    assert_eq!(v["my_node_info"]["hostname"], Value::from(""));
    assert_eq!(v["my_node_info"]["stun_info"].to_string(), STUN);
    assert_eq!(v["routes"][0].to_string(), ROUTE);
    assert_eq!(v["peers"][0]["peer_id"], Value::from(0));
    assert_eq!(v["peers"][0]["conns"][0].to_string(), CONN);
    assert_eq!(v["peer_route_pairs"][0]["route"].to_string(), ROUTE);
    assert_eq!(v["peer_route_pairs"][0]["peer"].to_string(), PEER);
    assert_eq!(v["running"], Value::from(true));
    assert_eq!(v["dev_name"], Value::from(""));
    assert_eq!(v["events"], value("[]"));
}

#[test]
fn missing_route_of_a_pair_is_a_route_of_defaults() {
    let v = value(&densify_running_info("{\"peer_route_pairs\":[{}]}"));
    assert_eq!(v["peer_route_pairs"][0]["route"].to_string(), ROUTE);
    assert!(v["peer_route_pairs"][0].get("peer").is_none());
}

#[test]
fn odd_members_stay() {
    let text = "{\"routes\":{},\"peers\":null,\"peer_route_pairs\":[7,{\"route\":null}],\
                \"my_node_info\":[],\"x\":{\"y\":[1]}}";
    let v = value(&densify_running_info(text));
    assert_eq!(v["routes"], value("{}"));
    assert_eq!(v["peers"], Value::Null);
    assert_eq!(v["peer_route_pairs"], value("[7,{\"route\":null}]"));
    assert_eq!(v["my_node_info"], value("[]"));
    assert_eq!(v["x"], value("{\"y\":[1]}"));
}

#[test]
fn parsed_snapshot_is_filled_as_its_text() {
    let mut v = value("{\"routes\":[{}]}");
    densify_snapshot(&mut v);
    assert_eq!(v.to_string(), densify_running_info("{\"routes\":[{}]}"));
}

#[test]
fn text_that_does_not_parse_is_unchanged() {
    for text in ["", "not json", "{", "{\"a\":1} x", "{'a':1}"] {
        assert_eq!(densify_running_info(text), text);
    }
}

#[test]
fn snapshot_that_is_no_object_is_printed_as_it_is() {
    assert_eq!(densify_running_info(" [ 1, {} ] "), "[1,{}]");
    assert_eq!(densify_running_info("null"), "null");
    assert_eq!(densify_running_info("\"a\""), "\"a\"");
}

#[test]
fn nesting_is_bounded() {
    let deepest = "[".repeat(127) + &"]".repeat(127);
    assert_eq!(densify_running_info(&(" ".to_owned() + &deepest)), deepest);
    let too_deep = " ".to_owned() + &"[".repeat(128) + &"]".repeat(128);
    assert_eq!(densify_running_info(&too_deep), too_deep);
}

#[test]
fn filling_twice_is_filling_once() {
    let once = densify_running_info("{\"peers\":[{\"conns\":[{\"stats\":{}}]}],\"routes\":[{}]}");
    assert_eq!(densify_running_info(&once), once);
}

#[test]
fn complete_snapshot_is_unchanged() {
    assert_eq!(densify_running_info(EMPTY), EMPTY);
}

#[test]
fn filled_text_holds_no_nul() {
    let r = densify_running_info("{\"dev_name\":\"a\\u0000b\"}");
    assert!(!r.contains('\0'));
    assert_eq!(value(&r)["dev_name"], Value::from("a\0b"));
}

#[test]
fn extreme_integers_survive() {
    let text = "{\"a\":18446744073709551615,\"b\":-9223372036854775808}";
    let v = value(&densify_running_info(text));
    assert_eq!(v["a"], Value::from(u64::MAX));
    assert_eq!(v["b"], Value::from(i64::MIN));
}

#[test]
fn floats_stay_floats() {
    let raw = "{\"error_msg\":\"boom\",\"peers\":[{\"conns\":[{\"loss_rate\":\
               31.245270191439438},{\"loss_rate\":-0.0},{\"loss_rate\":1000000000000000.0},\
               {\"loss_rate\":0.00001}]}]}";
    let filled = densify_running_info(raw);
    let conns = &value(&filled)["peers"][0]["conns"];
    assert!((0..4).all(|i| conns[i]["loss_rate"].is_f64()));
    assert_eq!(conns[2]["loss_rate"], Value::from(1000000000000000.0));
    assert_eq!(conns[0]["is_client"], Value::from(false));
    assert_eq!(latest_error(&filled), Some("boom".to_owned()));
}

#[test]
fn floats_with_exponents_are_read_again() {
    for rate in ["1e-7", "5e-324", "-2.5e-300", "1e16", "9.999999999999999e307", "-1e307"] {
        let raw = "{\"error_msg\":\"boom\",\"peers\":[{\"conns\":[{\"loss_rate\":".to_owned()
            + rate
            + "}]}]}";
        let filled = densify_running_info(&raw);
        let conn = &value(&filled)["peers"][0]["conns"][0];
        assert!(conn["loss_rate"].is_f64());
        assert_eq!(conn["is_client"], Value::from(false));
        assert_eq!(latest_error(&filled), Some("boom".to_owned()));
    }
}

#[test]
fn zero_of_either_sign_comes_back() {
    let once = densify_running_info("{\"peers\":[{\"conns\":[{\"loss_rate\":-0.0}]}]}");
    assert!(once.contains("\"loss_rate\":-0.0"));
    assert_eq!(densify_running_info(&once), once);
}

#[test]
fn error_message_is_read() {
    assert_eq!(error_msg(&value("{\"error_msg\":\"boom\"}")), Some("boom".to_owned()));
    assert_eq!(error_msg(&value("{\"error_msg\":\"\"}")), Some("".to_owned()));
    assert_eq!(error_msg(&value("{\"error_msg\":null}")), None);
    assert_eq!(error_msg(&value("{\"error_msg\":3}")), None);
    assert_eq!(error_msg(&value("{}")), None);
    assert_eq!(error_msg(&value("[\"error_msg\"]")), None);
    assert_eq!(latest_error("{\"error_msg\":\"boom\"}"), Some("boom".to_owned()));
    assert_eq!(latest_error("boom"), None);
}

#[test]
fn error_message_survives_the_filling() {
    let raw = "{\"error_msg\":\"no \\\"route\\\"\"}";
    let filled = densify_running_info(raw);
    assert_eq!(latest_error(&filled), latest_error(raw));
    assert_eq!(latest_error(&filled), Some("no \"route\"".to_owned()));
    assert_eq!(latest_error(&densify_running_info("{}")), None);
}

#[test]
fn full_snapshot_comes_back_from_what_was_written() {
    let full = densify_running_info(
        "{\"my_node_info\":{\"stun_info\":{}},\"peers\":[{\"conns\":[{\"stats\":{}}]}],\
         \"peer_route_pairs\":[{\"peer\":{}}],\"routes\":[{\"cost\":1}],\"running\":true}",
    );
    let mut written = value(&full);
    for key in ["dev_name", "events"] {
        assert!(written.as_object_mut().unwrap().remove(key).is_some());
    }
    for key in ["peer_id", "version"] {
        assert!(written["routes"][0].as_object_mut().unwrap().remove(key).is_some());
    }
    for key in ["loss_rate", "is_client"] {
        assert!(written["peers"][0]["conns"][0].as_object_mut().unwrap().remove(key).is_some());
    }
    assert!(written["peer_route_pairs"][0].as_object_mut().unwrap().remove("route").is_some());
    assert!(written.to_string() != full);
    assert_eq!(densify_running_info(&written.to_string()), full);
}

#[test]
fn nothing_but_defaults_is_added() {
    let v = value(&densify_running_info("{\"events\":[1],\"other\":2}"));
    assert_eq!(v.as_object().unwrap().len(), 7);
    assert_eq!(v["events"], value("[1]"));
    assert_eq!(v["other"], Value::from(2));
    assert_eq!(v["routes"], value("[]"));
}
