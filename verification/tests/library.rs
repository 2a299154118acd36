use gv2ray::config::{
    running_config, v2core_config, v2core_path, ConfigError, STORAGE_DEFAULT, V2CORE_DEFAULT,
};
use gv2ray::display::{find_node, fresh_tree, node_details};
use gv2ray::link::{
    ascii_to_char, ascii_to_string, get_the_url, link_is_readable, try_get_the_url, type_of_url,
    vmess_node_of, Tcp,
};
use gv2ray::node::{AllUrls, Urls};
use gv2ray::selection::{initial, step, Action, Active, ButtonLabel, Event};
use gv2ray::storage::{
    count_live, read_entry, read_group, read_storage, refresh_from_links, StorageError,
    UnreadableLink,
};
use gv2ray::text::{is_strippable, remove_quotation};

const VMESS_FULL: &str = "vmess://eyJhZGQiOiIxLjIuMy40IiwiYWlkIjoiMCIsImhvc3QiOiIiLCJpZCI6ImEtYiIsIm5ldCI6IndzIiwicGF0aCI6Ii9wIiwicG9ydCI6IjQ0MyIsInBzIjoibm9kZTEiLCJ0bHMiOiJ0bHMiLCJ0eXBlIjoibm9uZSJ9";
const VMESS_PARTIAL: &str = "vmess://eyJhZGQiOiJoLmV4YW1wbGUiLCJwb3J0Ijo4MDgwLCJwcyI6Im4yIn0=";

fn unknown() -> String {
    "\"unknown\"".to_string()
}

#[test]
fn link_kind_by_first_s_or_v() {
    assert_eq!(type_of_url("vmess://abc"), Tcp::V2);
    assert_eq!(type_of_url("ss://abc"), Tcp::Ss);
    assert_eq!(type_of_url("trojan://x"), Tcp::Ss);
    assert_eq!(type_of_url(""), Tcp::Ss);
    assert_eq!(type_of_url("abv"), Tcp::V2);
    assert_eq!(type_of_url("asv"), Tcp::Ss);
}

#[test]
fn bytes_become_chars_one_each() {
    assert_eq!(ascii_to_char(65), 'A');
    assert_eq!(ascii_to_char(0xe9), 'é');
    assert_eq!(ascii_to_string(&vec![104, 105]), "hi");
    assert_eq!(ascii_to_string(&vec![0xc3, 0xa9]), "Ã©");
    assert_eq!(ascii_to_string(&vec![]), "");
}

#[test]
fn shadowsocks_link_keeps_only_the_link() {
    let u = get_the_url("ss://YWVzOnBhc3M@host:1".to_string());
    assert_eq!(u.urls, "ss://YWVzOnBhc3M@host:1");
    assert_eq!(u.func, "\"ss\"");
    for f in [&u.add, &u.aid, &u.host, &u.id, &u.net, &u.path, &u.port, &u.ps, &u.tls, &u.typpe] {
        assert_eq!(*f, unknown());
    }
}

#[test]
fn vmess_link_gives_json_members() {
    let u = get_the_url(VMESS_FULL.to_string());
    assert_eq!(u.urls, VMESS_FULL);
    assert_eq!(u.func, "\"vmess\"");
    assert_eq!(u.add, "\"1.2.3.4\"");
    assert_eq!(u.aid, "\"0\"");
    assert_eq!(u.host, "\"\"");
    assert_eq!(u.id, "\"a-b\"");
    assert_eq!(u.net, "\"ws\"");
    assert_eq!(u.path, "\"/p\"");
    assert_eq!(u.port, "\"443\"");
    assert_eq!(u.ps, "\"node1\"");
    assert_eq!(u.tls, "\"tls\"");
    assert_eq!(u.typpe, "\"none\"");
}

#[test]
fn vmess_link_missing_members_are_null() {
    let u = get_the_url(VMESS_PARTIAL.to_string());
    assert_eq!(u.add, "\"h.example\"");
    assert_eq!(u.port, "8080");
    assert_eq!(u.ps, "\"n2\"");
    assert_eq!(u.aid, "null");
    assert_eq!(u.typpe, "null");
}

#[test]
fn vmess_link_without_json_is_unknown() {
    let u = get_the_url("vmess://aGVsbG8=".to_string());
    assert_eq!(u.func, "\"vmess\"");
    assert_eq!(u.add, unknown());
    assert_eq!(u.ps, unknown());
}

#[test]
fn unreadable_links() {
    assert!(!link_is_readable(&"vmess://###".to_string()));
    assert!(try_get_the_url("vmess://###".to_string()).is_none());
    assert!(!link_is_readable(&"vmess".to_string()));
    assert!(try_get_the_url("vmess:/".to_string()).is_none());
    assert!(link_is_readable(&"ss://x".to_string()));
    assert_eq!(try_get_the_url("ss://x".to_string()).unwrap().urls, "ss://x");
}

fn entry(u: &Urls) -> String {
    format!(
        "   {{
        \"func\":{},
        \"url\":\"{}\",
        \"add\":{},
        \"aid\":{},
        \"host\":{},
        \"id\":{},
        \"net\":{},
        \"path\":{},
        \"port\":{},
        \"ps\":{},
        \"tls\":{},
        \"type\":{}
    }},\n",
        u.func, u.urls, u.add, u.aid, u.host, u.id, u.net, u.path, u.port, u.ps, u.tls, u.typpe
    )
}

#[test]
fn storage_text_for_one_group() {
    let links = vec![vec!["ss://a".to_string(), VMESS_FULL.to_string()]];
    let r = refresh_from_links(&links).unwrap();
    let a = get_the_url("ss://a".to_string());
    let b = get_the_url(VMESS_FULL.to_string());
    let mut expected = String::from("[\n{\n    \"name\":\"test\",\n    \"urls\":[");
    expected.push_str(&entry(&a));
    expected.push_str(&entry(&b));
    expected.pop();
    expected.pop();
    expected.push_str("\n   ]\n},\n");
    expected.pop();
    expected.pop();
    expected.push_str("\n]");
    assert_eq!(r.text, expected);
    assert!(r.store);
    assert_eq!(r.groups.len(), 1);
    assert_eq!(r.groups[0].name, "test");
    assert_eq!(r.groups[0].content.len(), 2);
    assert_eq!(r.groups[0].content[1].ps, "\"node1\"");
}

#[test]
fn no_groups_is_not_stored() {
    let r = refresh_from_links(&vec![]).unwrap();
    assert_eq!(r.text, "\n]");
    assert!(!r.store);
    assert!(r.groups.is_empty());
}

#[test]
fn first_unreadable_link_is_reported() {
    let links = vec![
        vec!["ss://a".to_string()],
        vec!["ss://b".to_string(), "vmess://!!".to_string(), "vmess://??".to_string()],
    ];
    match refresh_from_links(&links) {
        Err(e) => assert_eq!(e, UnreadableLink { group: 1, index: 1 }),
        Ok(_) => panic!("expected an error"),
    }
}

#[test]
fn stored_groups_read_back() {
    let links = vec![
        vec!["ss://a".to_string(), VMESS_FULL.to_string()],
        vec![VMESS_PARTIAL.to_string()],
    ];
    let r = refresh_from_links(&links).unwrap();
    let st = read_storage(&r.text).unwrap();
    assert_eq!(st.groups.len(), 2);
    for (g, h) in st.groups.iter().zip(r.groups.iter()) {
        assert_eq!(g.name, "test");
        assert_eq!(g.content.len(), h.content.len());
        for (x, y) in g.content.iter().zip(h.content.iter()) {
            assert_eq!(x.urls, y.urls);
            assert_eq!(x.func, y.func);
            assert_eq!(x.add, y.add);
            assert_eq!(x.aid, y.aid);
            assert_eq!(x.host, y.host);
            assert_eq!(x.id, y.id);
            assert_eq!(x.net, y.net);
            assert_eq!(x.path, y.path);
            assert_eq!(x.port, y.port);
            assert_eq!(x.ps, y.ps);
            assert_eq!(x.tls, y.tls);
            assert_eq!(x.typpe, y.typpe);
        }
    }
    assert_eq!(st.tree.len(), 2);
    assert_eq!(st.tree[0].title, "test");
    assert_eq!(st.tree[0].rows, vec!["unknown".to_string(), "node1".to_string()]);
    assert_eq!(st.tree[1].rows, vec!["n2".to_string()]);
}

#[test]
fn empty_storage_reads_as_no_groups() {
    let st = read_storage(STORAGE_DEFAULT).unwrap();
    assert!(st.groups.is_empty());
    assert!(st.tree.is_empty());
}

#[test]
fn storage_walk_stops_at_null() {
    let doc = "[{\"name\":\"g\",\"urls\":[{\"url\":\"u1\",\"ps\":\"p\"},null,{\"url\":\"u2\",\"ps\":\"q\"}]},null,{\"name\":\"h\",\"urls\":[]}]";
    let st = read_storage(doc).unwrap();
    assert_eq!(st.groups.len(), 1);
    assert_eq!(st.groups[0].content.len(), 1);
    assert_eq!(st.groups[0].content[0].urls, "u1");
    assert_eq!(st.groups[0].content[0].func, "null");
    assert_eq!(st.tree[0].title, "g");
    assert_eq!(st.tree[0].rows, vec!["p".to_string()]);
}

#[test]
fn storage_errors() {
    assert_eq!(read_storage("not json").err(), Some(StorageError::NotJson));
    let short = "[{\"name\":\"g\",\"urls\":[{\"url\":5,\"ps\":\"p\"}]}]";
    assert_eq!(read_storage(short).err(), Some(StorageError::ShortText));
    let short_name = "[{\"name\":1,\"urls\":[]}]";
    assert_eq!(read_storage(short_name).err(), Some(StorageError::ShortText));
}

#[test]
fn group_without_links_makes_text_that_is_no_json() {
    let r = refresh_from_links(&vec![vec![]]).unwrap();
    assert!(r.store);
    assert_eq!(read_storage(&r.text).err(), Some(StorageError::NotJson));
}

#[test]
fn running_config_text() {
    let u = get_the_url(VMESS_FULL.to_string());
    let cfg = running_config(&u);
    let expected = format!(
        "{{
    \"inbounds\":[{{
        \"port\":8889,
        \"listen\":\"127.0.0.1\",
        \"protocol\":\"http\",
        \"settings\":{{
            \"udp\": true
        }}
    }}],
    \"outbounds\":[{{
        \"protocol\":{},
        \"sendThrough\": \"0.0.0.0\",
        \"settings\":{{
            \"vnext\": [{{
                \"address\": {},
                \"port\":{},
                \"users\":[{{
                    \"alterId\": {},
                    \"id\":{}
                }}]
            }}]
        }},
        \"streamSettings\":{{
            \"dsSettings\": {{
                \"path\": {}
            }},
            \"httpSettings\":{{
                \"host\": [
                ],
                \"path\":{}
            }},
            \"kcpSettings\": {{
                \"congestion\": false,
                \"downlinkCapacity\":20,
                \"header\": {{
                    \"type\": \"none\"
                }},
                \"mtu\": 1350,
                \"readBufferSize\": 1,
                \"tti\": 20,
                \"uplinkCapacity\": 5,
                \"writeBufferSize\": 1
            }},
            \"network\": {},
            \"quicSettings\":{{
                \"header\": {{
                    \"type\":\"none\"
                }},
                \"key\": \"\",
                \"security\":\"\"
            }},
            \"security\":\"none\",
            \"sockopt\":{{
                \"mark\": 255,
                \"tcpFastOpen\": false,
                \"tproxy\": \"off\"
            }},
            \"tcpSettings\": {{
                \"header\": {{
                    \"request\" :{{
                        \"headers\":{{
                        }},
                        \"method\": \"GET\",
                        \"path\":[
                        ],
                        \"version\":\"1.1\"
                    }},
                    \"type\": \"none\"
                }}
            }},
            \"tlsSettings\": {{
                \"allowInsecure\": true,
                \"allowInsecureCiphers\": true,
                \"alpn\":[
                ],
                \"certificates\":[
                ],
                \"disableSessionResumption\":true,
                \"disableSystemRoot\":true,
                \"serveName\": \"\"
            }},
            \"wsSettings\" :{{
                \"headers\" :{{
                }},
                \"path\":{}
            }},
            \"xtlsSettings\":{{
                \"allowInsecure\":true,
                \"allowInsecureCiphers\":true,
                \"alpn\":[
                ],
                \"certificates\":[
                ],
                \"disableSessionResumption\": false,
                \"disableSystemRoot\": true,
                \"serveName\":\"\"
            }},
            \"tag\":\"outBound_PROXY\"
        }}
    }},
    {{
        \"protocol\":\"freedom\",
        \"tag\": \"direct\",
        \"settings\":{{}}
    }}],
    \"routing\": {{
        \"domainStrategy\": \"IPOnDemand\",
        \"rules\":[{{
            \"type\":\"field\",
            \"ip\":[\"geoip:private\"],
            \"outboundTag\": \"direct\"
        }}]
    }}
}}",
        "\"vmess\"", "\"1.2.3.4\"", "443", "0", "\"a-b\"", "\"/p\"", "\"/p\"", "\"ws\"", "\"/p\""
    );
    assert_eq!(cfg, expected);
    let v: serde_json::Value = serde_json::from_str(&cfg).unwrap();
    assert_eq!(v["outbounds"][0]["settings"]["vnext"][0]["port"], 443);
}

#[test]
fn core_path_file() {
    assert_eq!(v2core_config(""), None);
    assert_eq!(
        v2core_config("/opt/v2ray").unwrap(),
        "{\n    \"v2core\":\"/opt/v2ray\"\n}"
    );
    assert_eq!(v2core_path(V2CORE_DEFAULT).unwrap(), "/usr/bin/v2ray");
    assert_eq!(v2core_path(&v2core_config("/opt/v2ray").unwrap()).unwrap(), "/opt/v2ray");
    assert_eq!(v2core_path("{}").unwrap(), "ul");
    assert_eq!(v2core_path("nope").err(), Some(ConfigError::NotJson));
    assert_eq!(v2core_path("{\"v2core\":1}").err(), Some(ConfigError::ShortText));
}

#[test]
fn quotation_marks() {
    assert_eq!(remove_quotation("\"abc\""), "abc");
    assert_eq!(remove_quotation("ab"), "");
    assert!(is_strippable("\"x\""));
    assert!(!is_strippable("1"));
    assert!(!is_strippable("é1"));
    assert!(!is_strippable("1é"));
    assert!(is_strippable("1é1"));
}

#[test]
fn run_button_and_tree_selection() {
    let s0 = initial();
    assert_eq!(s0, Active { is_running: (0, -1), local: (0, 0) });
    let (s1, l1, a1) = step(s0, Event::RunClicked);
    assert_eq!((s1.is_running, s1.local, l1, a1), ((0, 0), (0, 0), ButtonLabel::Stop, Action::Run(0, 0)));
    let (s2, l2, a2) = step(s1, Event::RunClicked);
    assert_eq!((s2.is_running, s2.local, l2, a2), ((0, -1), (0, 0), ButtonLabel::Start, Action::Kill));
    let (s3, l3, a3) = step(s2, Event::RowActivated(1, 2));
    assert_eq!((s3.is_running, s3.local, l3, a3), ((1, 2), (1, 2), ButtonLabel::Stop, Action::Run(1, 2)));
    let (s4, l4, a4) = step(s3, Event::CursorMoved(0, 3));
    assert_eq!((s4.is_running, s4.local, l4, a4), ((1, 2), (0, 3), ButtonLabel::Start, Action::Nothing));
    let (s5, l5, _) = step(s4, Event::CursorMoved(1, 2));
    assert_eq!((s5.is_running, l5), ((1, 2), ButtonLabel::Stop));
    let (s6, l6, a6) = step(s4, Event::RunClicked);
    assert_eq!((s6.is_running, s6.local, l6, a6), ((0, 3), (0, 3), ButtonLabel::Stop, Action::Run(0, 3)));
}

#[test]
fn run_button_twice_restores_state() {
    let s = Active { is_running: (2, 1), local: (2, 1) };
    let (t, _, _) = step(s, Event::RunClicked);
    let (u, _, _) = step(t, Event::RunClicked);
    assert_eq!(u, s);
    let s = Active { is_running: (2, 1), local: (0, 0) };
    let (t, _, _) = step(s, Event::RunClicked);
    let (u, label, action) = step(t, Event::RunClicked);
    assert_eq!(u.local, (0, 0));
    assert_ne!(u.is_running, u.local);
    assert_eq!((label, action), (ButtonLabel::Start, Action::Kill));
}

#[test]
fn tree_rows_and_details() {
    let a = get_the_url("ss://a".to_string());
    let b = get_the_url(VMESS_FULL.to_string());
    let groups = vec![AllUrls { name: "test".to_string(), content: vec![a, b] }];
    let tree = fresh_tree(&groups).unwrap();
    assert_eq!(tree.len(), 1);
    assert_eq!(tree[0].title, "test");
    assert_eq!(tree[0].rows, vec!["unknown".to_string(), "node1".to_string()]);
    assert_eq!(find_node(&groups, 0, 1).unwrap().ps, "\"node1\"");
    assert!(find_node(&groups, 0, 2).is_none());
    assert!(find_node(&groups, -1, 0).is_none());
    assert!(find_node(&groups, 1, 0).is_none());
    let (f, ad, p) = node_details(find_node(&groups, 0, 1).unwrap());
    assert_eq!((f.as_str(), ad.as_str(), p.as_str()), ("func: vmess", "add: 1.2.3.4", "port: 443"));
    let short = get_the_url(VMESS_PARTIAL.to_string());
    let mut odd = short.clone();
    odd.ps = "7".to_string();
    let groups = vec![AllUrls { name: "test".to_string(), content: vec![short, odd] }];
    assert!(fresh_tree(&groups).is_none());
}

#[test]
fn vmess_payload_starts_at_the_eighth_byte() {
    assert!(!link_is_readable(&"vmess:/é".to_string()));
    let odd = "vééé".to_string() + "xaGVsbG8=";
    assert!(link_is_readable(&odd));
    let u = get_the_url(odd.clone());
    assert_eq!(u.urls, odd);
    assert_eq!(u.func, "\"vmess\"");
    assert_eq!(u.add, unknown());
}

#[test]
fn vmess_node_from_decoded_json() {
    let u = vmess_node_of("vmess://x".to_string(), "{\"add\":\"a.b\",\"port\":443,\"ps\":\"p\"}");
    assert_eq!(u.urls, "vmess://x");
    assert_eq!(u.func, "\"vmess\"");
    assert_eq!(u.add, "\"a.b\"");
    assert_eq!(u.port, "443");
    assert_eq!(u.ps, "\"p\"");
    assert_eq!(u.id, "null");
    let v = vmess_node_of("vmess://y".to_string(), "not json");
    assert_eq!(v.func, "\"vmess\"");
    assert_eq!(v.add, unknown());
}

#[test]
fn stored_parts_read_one_by_one() {
    assert_eq!(count_live("[1,2,null,3]"), 2);
    assert_eq!(count_live("[]"), 0);
    assert_eq!(count_live("{\"a\":1}"), 0);
    assert_eq!(count_live("[1,2]"), 2);
    let (u, row) = read_entry("{\"url\":\"ss://a\",\"ps\":\"name\",\"add\":\"h\"}").unwrap();
    assert_eq!(u.urls, "ss://a");
    assert_eq!(u.add, "\"h\"");
    assert_eq!(u.func, "null");
    assert_eq!(row, "name");
    assert!(read_entry("{\"url\":\"ss://a\",\"ps\":3}").is_none());
    let doc = "[{\"name\":\"a\",\"urls\":[]},{\"name\":\"g\",\"urls\":[{\"url\":\"u\",\"ps\":\"p\"}]}]";
    let (g, t) = read_group(doc, 1).unwrap();
    assert_eq!(g.name, "test");
    assert_eq!(g.content.len(), 1);
    assert_eq!(g.content[0].urls, "u");
    assert_eq!(t.title, "g");
    assert_eq!(t.rows, vec!["p".to_string()]);
    assert!(read_group("[{\"name\":7,\"urls\":[]}]", 0).is_none());
}

#[test]
fn states_reached_from_the_start_keep_the_label_right() {
    let events = [
        Event::CursorMoved(1, 0),
        Event::RunClicked,
        Event::CursorMoved(0, 2),
        Event::RowActivated(2, 2),
        Event::RunClicked,
        Event::RunClicked,
        Event::CursorMoved(2, 2),
        Event::CursorMoved(0, 0),
    ];
    let mut s = initial();
    for e in events {
        let (next, label, _) = step(s, e);
        s = next;
        assert!(s.local.0 >= 0 && s.local.1 >= 0);
        assert_eq!(label == ButtonLabel::Stop, s.is_running == s.local);
    }
    assert_eq!(s, Active { is_running: (2, 2), local: (0, 0) });
}
