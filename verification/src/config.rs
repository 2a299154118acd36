//! The configuration files of the proxy core: the one that starts the core
//! for a chosen node, and the one that tells where the core is installed.
use vstd::prelude::*;
use crate::codec::{json_accepts, json_member, json_member_text, json_parses};
use crate::node::{Urls, UrlsModel};
use crate::text::{
    follows_key, is_strippable, lemma_follows_key_at, lemma_follows_key_extend, lemma_regroup,
    remove_quotation, strippable, stripped,
};

verus! {

broadcast use vstd::string::group_string_axioms;

/// The start of the core configuration, up to the outbound protocol.
pub const CONFIG_HEAD: &'static str = "{\n    \"inbounds\":[{\n        \"port\":8889,\n        \"listen\":\"127.0.0.1\",\n        \"protocol\":\"http\",\n        \"settings\":{\n            \"udp\": true\n        }\n    }],\n    \"outbounds\":[{\n        \"protocol\":";

/// Between the outbound protocol and the server address.
pub const CONFIG_AFTER_PROTOCOL: &'static str = ",\n        \"sendThrough\": \"0.0.0.0\",\n        \"settings\":{\n            \"vnext\": [{\n                \"address\": ";

/// Between the server address and the server port.
pub const CONFIG_AFTER_ADDRESS: &'static str = ",\n                \"port\":";

/// Between the server port and the alter id.
pub const CONFIG_AFTER_PORT: &'static str = ",\n                \"users\":[{\n                    \"alterId\": ";

/// Between the alter id and the user id.
pub const CONFIG_AFTER_ALTER_ID: &'static str = ",\n                    \"id\":";

/// Between the user id and the path of the `dsSettings`.
pub const CONFIG_AFTER_ID: &'static str = "\n                }]\n            }]\n        },\n        \"streamSettings\":{\n            \"dsSettings\": {\n                \"path\": ";

/// Between the `dsSettings` path and the `httpSettings` path.
pub const CONFIG_AFTER_DS_PATH: &'static str = "\n            },\n            \"httpSettings\":{\n                \"host\": [\n                ],\n                \"path\":";

/// Between the `httpSettings` path and the network.
pub const CONFIG_AFTER_HTTP_PATH: &'static str = "\n            },\n            \"kcpSettings\": {\n                \"congestion\": false,\n                \"downlinkCapacity\":20,\n                \"header\": {\n                    \"type\": \"none\"\n                },\n                \"mtu\": 1350,\n                \"readBufferSize\": 1,\n                \"tti\": 20,\n                \"uplinkCapacity\": 5,\n                \"writeBufferSize\": 1\n            },\n            \"network\": ";

/// Between the network and the `wsSettings` path.
pub const CONFIG_AFTER_NETWORK: &'static str = ",\n            \"quicSettings\":{\n                \"header\": {\n                    \"type\":\"none\"\n                },\n                \"key\": \"\",\n                \"security\":\"\"\n            },\n            \"security\":\"none\",\n            \"sockopt\":{\n                \"mark\": 255,\n                \"tcpFastOpen\": false,\n                \"tproxy\": \"off\"\n            },\n            \"tcpSettings\": {\n                \"header\": {\n                    \"request\" :{\n                        \"headers\":{\n                        },\n                        \"method\": \"GET\",\n                        \"path\":[\n                        ],\n                        \"version\":\"1.1\"\n                    },\n                    \"type\": \"none\"\n                }\n            },\n            \"tlsSettings\": {\n                \"allowInsecure\": true,\n                \"allowInsecureCiphers\": true,\n                \"alpn\":[\n                ],\n                \"certificates\":[\n                ],\n                \"disableSessionResumption\":true,\n                \"disableSystemRoot\":true,\n                \"serveName\": \"\"\n            },\n            \"wsSettings\" :{\n                \"headers\" :{\n                },\n                \"path\":";

/// The end of the core configuration, after the `wsSettings` path.
pub const CONFIG_TAIL: &'static str = "\n            },\n            \"xtlsSettings\":{\n                \"allowInsecure\":true,\n                \"allowInsecureCiphers\":true,\n                \"alpn\":[\n                ],\n                \"certificates\":[\n                ],\n                \"disableSessionResumption\": false,\n                \"disableSystemRoot\": true,\n                \"serveName\":\"\"\n            },\n            \"tag\":\"outBound_PROXY\"\n        }\n    },\n    {\n        \"protocol\":\"freedom\",\n        \"tag\": \"direct\",\n        \"settings\":{}\n    }],\n    \"routing\": {\n        \"domainStrategy\": \"IPOnDemand\",\n        \"rules\":[{\n            \"type\":\"field\",\n            \"ip\":[\"geoip:private\"],\n            \"outboundTag\": \"direct\"\n        }]\n    }\n}";

/// The configuration that starts the core with the given outbound
/// protocol, server address, port, alter id, user id, path and network.
pub open spec fn running_config_text(
    func: Seq<char>,
    add: Seq<char>,
    port: Seq<char>,
    aid: Seq<char>,
    id: Seq<char>,
    path: Seq<char>,
    net: Seq<char>,
) -> Seq<char> {
    CONFIG_HEAD@ + func + CONFIG_AFTER_PROTOCOL@ + add + CONFIG_AFTER_ADDRESS@ + port
        + CONFIG_AFTER_PORT@ + aid + CONFIG_AFTER_ALTER_ID@ + id + CONFIG_AFTER_ID@ + path
        + CONFIG_AFTER_DS_PATH@ + path + CONFIG_AFTER_HTTP_PATH@ + net + CONFIG_AFTER_NETWORK@
        + path + CONFIG_TAIL@
}

/// Whether a node can be started: its port and alter id texts can lose
/// their quotation marks.
pub open spec fn runnable(u: UrlsModel) -> bool {
    strippable(u.port) && strippable(u.aid)
}

/// The configuration that starts the core for the node `u`: the JSON texts
/// of its fields, but port and alter id without their quotation marks.
pub open spec fn node_config(u: UrlsModel) -> Seq<char> {
    running_config_text(u.func, u.add, stripped(u.port), stripped(u.aid), u.id, u.path, u.net)
}

/// The configuration text that starts the core for the node `name`.
pub fn running_config(name: &Urls) -> (r: String)
    requires
        runnable(name@),
    ensures
        r@ == node_config(name@),
{
    let port = remove_quotation(name.port.as_str());
    let aid = remove_quotation(name.aid.as_str());
    let mut json = String::new();
    json.append(CONFIG_HEAD);
    json.append(name.func.as_str());
    json.append(CONFIG_AFTER_PROTOCOL);
    json.append(name.add.as_str());
    json.append(CONFIG_AFTER_ADDRESS);
    json.append(port.as_str());
    json.append(CONFIG_AFTER_PORT);
    json.append(aid.as_str());
    json.append(CONFIG_AFTER_ALTER_ID);
    json.append(name.id.as_str());
    json.append(CONFIG_AFTER_ID);
    json.append(name.path.as_str());
    json.append(CONFIG_AFTER_DS_PATH);
    json.append(name.path.as_str());
    json.append(CONFIG_AFTER_HTTP_PATH);
    json.append(name.net.as_str());
    json.append(CONFIG_AFTER_NETWORK);
    json.append(name.path.as_str());
    json.append(CONFIG_TAIL);
    assert(json@ =~= node_config(name@));
    json
}

/// The text of the file that tells where the core is, written the first
/// time the core is started.
pub const V2CORE_DEFAULT: &'static str = "{\n\"v2core\":\"/usr/bin/v2ray\"\n}";

/// The text of an empty storage file.
pub const STORAGE_DEFAULT: &'static str = "[]";

/// The start of the file that tells where the core is, up to the path.
pub const V2CORE_HEAD: &'static str = "{\n    \"v2core\":\"";

/// The end of the file that tells where the core is, after the path.
pub const V2CORE_TAIL: &'static str = "\"\n}";

/// The file text that tells that the core is at `core`; `None` when no
/// path was typed in, for then nothing is written.
pub fn v2core_config(core: &str) -> (r: Option<String>)
    ensures
        r is None <==> core@.len() == 0,
        r matches Some(t) ==> t@ == V2CORE_HEAD@ + core@ + V2CORE_TAIL@,
{
    if core.is_empty() {
        return None;
    }
    let mut t = String::new();
    t.append(V2CORE_HEAD);
    t.append(core);
    t.append(V2CORE_TAIL);
    Some(t)
}

/// Why the file that tells where the core is cannot be read.
#[derive(Debug, Clone, Copy, PartialEq, Eq)]
pub enum ConfigError {
    /// The text is no JSON.
    NotJson,
    /// The JSON text of its member `v2core` is too short to lose its
    /// quotation marks.
    ShortText,
}

/// Reads where the core is from the text of its file: the JSON text of the
/// member `v2core` without its quotation marks.
pub fn v2core_path(doc: &str) -> (r: Result<String, ConfigError>)
    ensures
        r == Err::<String, ConfigError>(ConfigError::NotJson) <==> !json_accepts(doc@),
        r == Err::<String, ConfigError>(ConfigError::ShortText) <==> json_accepts(doc@)
            && !strippable(json_member_text(doc@, "v2core"@)),
        r matches Ok(p) ==> p@ == stripped(json_member_text(doc@, "v2core"@)),
{
    if !json_parses(doc) {
        return Err(ConfigError::NotJson);
    }
    let text = json_member(doc, "v2core");
    if !is_strippable(text.as_str()) {
        return Err(ConfigError::ShortText);
    }
    Ok(remove_quotation(text.as_str()))
}

/// The configuration does not depend on a node's link, host, name, TLS
/// setting or header type: two nodes that agree on protocol, address,
/// port, alter id, user id, path and network start the core the same way.
pub proof fn lemma_config_ignores_other_fields(u: UrlsModel, v: UrlsModel)
    requires
        u.func == v.func,
        u.add == v.add,
        u.port == v.port,
        u.aid == v.aid,
        u.id == v.id,
        u.path == v.path,
        u.net == v.net,
    ensures
        node_config(u) == node_config(v),
{
}

/// In the configuration each value stands right after the text that
/// introduces it: the protocol after `"protocol":`, the address (`add`)
/// after `"address": `, the port and the alter id (both without quotation
/// marks) after `"port":` and `"alterId": `, the user id after `"id":`, the
/// path after each `"path":`, and the network after `"network": `.
pub proof fn lemma_config_fields(u: UrlsModel)
    ensures
        follows_key(node_config(u), CONFIG_HEAD@, u.func),
        follows_key(node_config(u), CONFIG_AFTER_PROTOCOL@, u.add),
        follows_key(node_config(u), CONFIG_AFTER_ADDRESS@, stripped(u.port)),
        follows_key(node_config(u), CONFIG_AFTER_PORT@, stripped(u.aid)),
        follows_key(node_config(u), CONFIG_AFTER_ALTER_ID@, u.id),
        follows_key(node_config(u), CONFIG_AFTER_ID@, u.path),
        follows_key(node_config(u), CONFIG_AFTER_DS_PATH@, u.path),
        follows_key(node_config(u), CONFIG_AFTER_HTTP_PATH@, u.net),
        follows_key(node_config(u), CONFIG_AFTER_NETWORK@, u.path),
{
    let s0 = Seq::<char>::empty();
    let s1 = s0 + CONFIG_HEAD@ + u.func;
    let s2 = s1 + CONFIG_AFTER_PROTOCOL@ + u.add;
    let s3 = s2 + CONFIG_AFTER_ADDRESS@ + stripped(u.port);
    let s4 = s3 + CONFIG_AFTER_PORT@ + stripped(u.aid);
    let s5 = s4 + CONFIG_AFTER_ALTER_ID@ + u.id;
    let s6 = s5 + CONFIG_AFTER_ID@ + u.path;
    let s7 = s6 + CONFIG_AFTER_DS_PATH@ + u.path;
    let s8 = s7 + CONFIG_AFTER_HTTP_PATH@ + u.net;
    let s9 = s8 + CONFIG_AFTER_NETWORK@ + u.path;
    let r9 = CONFIG_TAIL@;
    let r8 = CONFIG_AFTER_NETWORK@ + u.path + r9;
    let r7 = CONFIG_AFTER_HTTP_PATH@ + u.net + r8;
    let r6 = CONFIG_AFTER_DS_PATH@ + u.path + r7;
    let r5 = CONFIG_AFTER_ID@ + u.path + r6;
    let r4 = CONFIG_AFTER_ALTER_ID@ + u.id + r5;
    let r3 = CONFIG_AFTER_PORT@ + stripped(u.aid) + r4;
    let r2 = CONFIG_AFTER_ADDRESS@ + stripped(u.port) + r3;
    let r1 = CONFIG_AFTER_PROTOCOL@ + u.add + r2;
    assert(node_config(u) == s9 + r9);
    lemma_follows_key_at(s0, CONFIG_HEAD@, u.func);
    lemma_regroup(s1, CONFIG_AFTER_PROTOCOL@, u.add, r2);
    lemma_follows_key_extend(s1, r1, CONFIG_HEAD@, u.func);
    lemma_follows_key_at(s1, CONFIG_AFTER_PROTOCOL@, u.add);
    lemma_regroup(s2, CONFIG_AFTER_ADDRESS@, stripped(u.port), r3);
    lemma_follows_key_extend(s2, r2, CONFIG_AFTER_PROTOCOL@, u.add);
    lemma_follows_key_at(s2, CONFIG_AFTER_ADDRESS@, stripped(u.port));
    lemma_regroup(s3, CONFIG_AFTER_PORT@, stripped(u.aid), r4);
    lemma_follows_key_extend(s3, r3, CONFIG_AFTER_ADDRESS@, stripped(u.port));
    lemma_follows_key_at(s3, CONFIG_AFTER_PORT@, stripped(u.aid));
    lemma_regroup(s4, CONFIG_AFTER_ALTER_ID@, u.id, r5);
    lemma_follows_key_extend(s4, r4, CONFIG_AFTER_PORT@, stripped(u.aid));
    lemma_follows_key_at(s4, CONFIG_AFTER_ALTER_ID@, u.id);
    lemma_regroup(s5, CONFIG_AFTER_ID@, u.path, r6);
    lemma_follows_key_extend(s5, r5, CONFIG_AFTER_ALTER_ID@, u.id);
    lemma_follows_key_at(s5, CONFIG_AFTER_ID@, u.path);
    lemma_regroup(s6, CONFIG_AFTER_DS_PATH@, u.path, r7);
    lemma_follows_key_extend(s6, r6, CONFIG_AFTER_ID@, u.path);
    lemma_follows_key_at(s6, CONFIG_AFTER_DS_PATH@, u.path);
    lemma_regroup(s7, CONFIG_AFTER_HTTP_PATH@, u.net, r8);
    lemma_follows_key_extend(s7, r7, CONFIG_AFTER_DS_PATH@, u.path);
    lemma_follows_key_at(s7, CONFIG_AFTER_HTTP_PATH@, u.net);
    lemma_regroup(s8, CONFIG_AFTER_NETWORK@, u.path, r9);
    lemma_follows_key_extend(s8, r8, CONFIG_AFTER_HTTP_PATH@, u.net);
    lemma_follows_key_at(s8, CONFIG_AFTER_NETWORK@, u.path);
    lemma_follows_key_extend(s9, r9, CONFIG_AFTER_NETWORK@, u.path);
}

/// The configuration opens with its fixed head, the node's protocol, the
/// text before the address, and then the node's address (`add`) itself,
/// followed by the text before the port and the port without quotation
/// marks.
pub proof fn lemma_config_address(u: UrlsModel)
    ensures
        node_config(u).take(
            (CONFIG_HEAD@.len() + u.func.len() + CONFIG_AFTER_PROTOCOL@.len() + u.add.len()
                + CONFIG_AFTER_ADDRESS@.len() + stripped(u.port).len()) as int,
        ) == CONFIG_HEAD@ + u.func + CONFIG_AFTER_PROTOCOL@ + u.add + CONFIG_AFTER_ADDRESS@
            + stripped(u.port),
{
    let p = CONFIG_HEAD@ + u.func + CONFIG_AFTER_PROTOCOL@ + u.add + CONFIG_AFTER_ADDRESS@
        + stripped(u.port);
    assert(node_config(u).take(p.len() as int) =~= p);
}

} // verus!
