//! Reading one subscription link (`ss://...` or `vmess://<base64 JSON>`)
//! into a [`Urls`] record.
use vstd::prelude::*;
use vstd::utf8::*;
use vstd::string::StringSliceAdditionalSpecFns;
use crate::codec::{
    base64_decode, base64_decoding, json_accepts, json_member, json_member_text, json_parses,
};
use crate::node::{Urls, UrlsModel};
use crate::text::push_char;

verus! {

broadcast use vstd::string::group_string_axioms;

/// The kind of a link.
#[derive(Debug, Clone, Copy, PartialEq, Eq)]
pub enum Tcp {
    Ss,
    V2,
}

/// The kind of a link: decided by whichever of `s` and `v` comes first in
/// it; a link with neither is taken for shadowsocks.
pub open spec fn link_kind(s: Seq<char>) -> Tcp
    decreases s.len(),
{
    if s.len() == 0 {
        Tcp::Ss
    } else if s[0] == 's' {
        Tcp::Ss
    } else if s[0] == 'v' {
        Tcp::V2
    } else {
        link_kind(s.drop_first())
    }
}

/// A link that starts with `vmess://` is a vmess link, and one that starts
/// with `ss://` a shadowsocks link, whatever follows.
pub proof fn lemma_scheme_decides_kind(rest: Seq<char>)
    ensures
        link_kind("vmess://"@ + rest) == Tcp::V2,
        link_kind("ss://"@ + rest) == Tcp::Ss,
{
    reveal_strlit("vmess://");
    reveal_strlit("ss://");
    assert(("vmess://"@ + rest)[0] == 'v');
    assert(("ss://"@ + rest)[0] == 's');
}

/// The kind of a link is decided by its first `s` or `v`: whatever comes
/// before it holds neither letter, and whatever follows it does not matter.
pub proof fn lemma_first_s_or_v_decides(before: Seq<char>, c: char, after: Seq<char>)
    requires
        forall|k: int| 0 <= k < before.len() ==> before[k] != 's' && before[k] != 'v',
        c == 's' || c == 'v',
    ensures
        link_kind(before + seq![c] + after) == (if c == 's' {
            Tcp::Ss
        } else {
            Tcp::V2
        }),
    decreases before.len(),
{
    let s = before + seq![c] + after;
    if before.len() == 0 {
        assert(s[0] == c);
    } else {
        assert(s[0] == before[0]);
        let rest = before.drop_first();
        assert forall|k: int| 0 <= k < rest.len() implies rest[k] != 's' && rest[k] != 'v' by {
            assert(rest[k] == before[k + 1]);
        }
        lemma_first_s_or_v_decides(rest, c, after);
        assert(s.drop_first() =~= rest + seq![c] + after);
    }
}

/// A link without `s` and `v` is taken for shadowsocks.
pub proof fn lemma_no_s_or_v(s: Seq<char>)
    ensures
        (forall|k: int| 0 <= k < s.len() ==> s[k] != 's' && s[k] != 'v') ==> link_kind(s)
            == Tcp::Ss,
    decreases s.len(),
{
    if s.len() > 0 && (forall|k: int| 0 <= k < s.len() ==> s[k] != 's' && s[k] != 'v') {
        let rest = s.drop_first();
        assert(s[0] != 's' && s[0] != 'v');
        assert forall|k: int| 0 <= k < rest.len() implies rest[k] != 's' && rest[k] != 'v' by {
            assert(rest[k] == s[k + 1]);
        }
        lemma_no_s_or_v(rest);
    }
}

/// The kind of the link `url`.
pub fn type_of_url(url: &str) -> (t: Tcp)
    ensures
        t == link_kind(url@),
{
    let len = url.unicode_len();
    let mut i: usize = 0;
    assert(url@.skip(0) =~= url@);
    while i < len
        invariant
            len == url@.len(),
            i <= len,
            link_kind(url@) == link_kind(url@.skip(i as int)),
        decreases len - i,
    {
        let c = url.get_char(i);
        assert(url@.skip(i as int)[0] == c);
        if c == 's' {
            return Tcp::Ss;
        }
        if c == 'v' {
            return Tcp::V2;
        }
        assert(url@.skip(i as int).drop_first() =~= url@.skip(i + 1));
        i = i + 1;
    }
    Tcp::Ss
}

/// The character whose code is the byte `code`.
pub fn ascii_to_char(code: u8) -> (c: char)
    ensures
        c == code as char,
{
    code as char
}

/// The characters of `code`, one per byte, each the character whose code
/// is the byte.
pub open spec fn chars_of_bytes(code: Seq<u8>) -> Seq<char> {
    code.map_values(|b: u8| b as char)
}

/// The string with one character per byte of `code` ([`ascii_to_char`]).
pub fn ascii_to_string(code: &Vec<u8>) -> (r: String)
    ensures
        r@ == chars_of_bytes(code@),
{
    let mut output = String::new();
    for i in 0..code.len()
        invariant
            output@ == chars_of_bytes(code@.take(i as int)),
    {
        push_char(&mut output, ascii_to_char(code[i]));
        assert(chars_of_bytes(code@.take(i + 1)) =~= chars_of_bytes(code@.take(i as int)).push(
            code@[i as int] as char,
        ));
    }
    assert(code@.take(code@.len() as int) =~= code@);
    output
}

/// The JSON text of the string `unknown`.
pub open spec fn unknown_text() -> Seq<char> {
    "\"unknown\""@
}

/// A node of which nothing but the link and the protocol is known.
pub open spec fn unknown_node(url: Seq<char>, func: Seq<char>) -> UrlsModel {
    UrlsModel {
        urls: url,
        func: func,
        add: unknown_text(),
        aid: unknown_text(),
        host: unknown_text(),
        id: unknown_text(),
        net: unknown_text(),
        path: unknown_text(),
        port: unknown_text(),
        ps: unknown_text(),
        tls: unknown_text(),
        typpe: unknown_text(),
    }
}

/// The UTF-8 bytes of a vmess link after its first 8 bytes (`vmess://`).
pub open spec fn vmess_payload(url: Seq<char>) -> Seq<u8> {
    encode_utf8(url).subrange(8, encode_utf8(url).len() as int)
}

/// Whether a link can be read: a shadowsocks link always; a vmess link
/// when its 8th byte starts a character and the rest is Base64.
pub open spec fn link_readable(url: Seq<char>) -> bool {
    link_kind(url) == Tcp::V2 ==> {
        &&& is_char_boundary(encode_utf8(url), 8)
        &&& base64_decoding(vmess_payload(url)) is Some
    }
}

/// The JSON text that a readable vmess link carries: its decoded payload,
/// one character per byte.
pub open spec fn vmess_json(url: Seq<char>) -> Seq<char> {
    chars_of_bytes(base64_decoding(vmess_payload(url))->0)
}

/// The node described by the JSON document `json` of a vmess link.
pub open spec fn vmess_node(url: Seq<char>, json: Seq<char>) -> UrlsModel {
    UrlsModel {
        urls: url,
        func: "\"vmess\""@,
        add: json_member_text(json, "add"@),
        aid: json_member_text(json, "aid"@),
        host: json_member_text(json, "host"@),
        id: json_member_text(json, "id"@),
        net: json_member_text(json, "net"@),
        path: json_member_text(json, "path"@),
        port: json_member_text(json, "port"@),
        ps: json_member_text(json, "ps"@),
        tls: json_member_text(json, "tls"@),
        typpe: json_member_text(json, "type"@),
    }
}

/// The node of the vmess link `url` whose payload reads as the text
/// `json`: the members of the JSON document, or unknown fields when `json`
/// is no JSON.
pub open spec fn vmess_result(url: Seq<char>, json: Seq<char>) -> UrlsModel {
    if json_accepts(json) {
        vmess_node(url, json)
    } else {
        unknown_node(url, "\"vmess\""@)
    }
}

/// The node that a readable link describes.
pub open spec fn link_node(url: Seq<char>) -> UrlsModel {
    if link_kind(url) == Tcp::Ss {
        unknown_node(url, "\"ss\""@)
    } else {
        vmess_result(url, vmess_json(url))
    }
}

/// Whether a link can be read ([`link_readable`]): tells a vmess link
/// whose 8th byte is inside a character, or whose payload is no Base64.
pub fn link_is_readable(url: &String) -> (ok: bool)
    requires
        encode_utf8(url@).len() + 7 <= usize::MAX,
    ensures
        ok == link_readable(url@),
{
    match type_of_url(url.as_str()) {
        Tcp::Ss => true,
        Tcp::V2 => {
            let whole = url.as_str();
            assert(whole.spec_bytes() == encode_utf8(url@));
            proof {
                encode_utf8_valid_utf8(url@);
            }
            if !whole.is_char_boundary(8) {
                return false;
            }
            let (_, newurl) = whole.split_at(8);
            let payload = newurl.as_bytes();
            assert(payload@ == vmess_payload(url@));
            base64_decode(payload).is_some()
        },
    }
}

/// Reads a link into a node, or `None` where the link cannot be read
/// ([`link_readable`]).
pub fn try_get_the_url(url: String) -> (u: Option<Urls>)
    requires
        encode_utf8(url@).len() + 7 <= usize::MAX,
    ensures
        u is Some <==> link_readable(url@),
        u matches Some(node) ==> node@ == link_node(url@),
{
    if link_is_readable(&url) {
        Some(get_the_url(url))
    } else {
        None
    }
}

/// A node of which nothing but the link and the protocol is known.
fn unknown_urls(url: String, func: &str) -> (u: Urls)
    ensures
        u@ == unknown_node(url@, func@),
{
    Urls {
        urls: url,
        func: String::from_str(func),
        add: String::from_str("\"unknown\""),
        aid: String::from_str("\"unknown\""),
        host: String::from_str("\"unknown\""),
        id: String::from_str("\"unknown\""),
        net: String::from_str("\"unknown\""),
        path: String::from_str("\"unknown\""),
        port: String::from_str("\"unknown\""),
        ps: String::from_str("\"unknown\""),
        tls: String::from_str("\"unknown\""),
        typpe: String::from_str("\"unknown\""),
    }
}

/// The node of the vmess link `url` whose decoded payload is `json`
/// ([`vmess_result`]): each field is the JSON text of the member of that
/// name (`null` when missing), or `"unknown"` when `json` is no JSON.
pub fn vmess_node_of(url: String, json: &str) -> (u: Urls)
    ensures
        u@ == vmess_result(url@, json@),
{
    if json_parses(json) {
        Urls {
            urls: url,
            func: String::from_str("\"vmess\""),
            add: json_member(json, "add"),
            aid: json_member(json, "aid"),
            host: json_member(json, "host"),
            id: json_member(json, "id"),
            net: json_member(json, "net"),
            path: json_member(json, "path"),
            port: json_member(json, "port"),
            ps: json_member(json, "ps"),
            tls: json_member(json, "tls"),
            typpe: json_member(json, "type"),
        }
    } else {
        unknown_urls(url, "\"vmess\"")
    }
}

/// Reads a subscription link into a node. A shadowsocks link keeps only the
/// link; a vmess link is Base64 JSON, whose members give the fields (each
/// as JSON text, `null` when missing); when the payload is no JSON, the
/// fields are `"unknown"`.
pub fn get_the_url(url: String) -> (u: Urls)
    requires
        link_readable(url@),
        encode_utf8(url@).len() + 7 <= usize::MAX,
    ensures
        u@ == link_node(url@),
        u.urls@ == url@,
{
    match type_of_url(url.as_str()) {
        Tcp::Ss => unknown_urls(url, "\"ss\""),
        Tcp::V2 => {
            let json = {
                let whole = url.as_str();
                assert(whole.spec_bytes() == encode_utf8(url@));
                proof {
                    encode_utf8_valid_utf8(url@);
                }
                assert(8 <= encode_utf8(url@).len());
                let (_, newurl) = whole.split_at(8);
                let payload = newurl.as_bytes();
                assert(payload@ == vmess_payload(url@));
                let decoded = base64_decode(payload);
                match decoded {
                    Some(bytes) => ascii_to_string(&bytes),
                    None => {
                        assert(false);
                        String::new()
                    },
                }
            };
            vmess_node_of(url, json.as_str())
        },
    }
}

/// Each field of the node that a vmess payload describes is the member of
/// its own name in the payload's JSON, whatever other members the JSON
/// has; the link is kept, and the protocol is `vmess`. A payload that is no
/// JSON leaves every field but the link and the protocol `"unknown"`.
pub proof fn lemma_vmess_fields(url: Seq<char>, json: Seq<char>)
    ensures
        vmess_result(url, json).urls == url,
        vmess_result(url, json).func == "\"vmess\""@,
        json_accepts(json) ==> {
            &&& vmess_result(url, json).add == json_member_text(json, "add"@)
            &&& vmess_result(url, json).aid == json_member_text(json, "aid"@)
            &&& vmess_result(url, json).host == json_member_text(json, "host"@)
            &&& vmess_result(url, json).id == json_member_text(json, "id"@)
            &&& vmess_result(url, json).net == json_member_text(json, "net"@)
            &&& vmess_result(url, json).path == json_member_text(json, "path"@)
            &&& vmess_result(url, json).port == json_member_text(json, "port"@)
            &&& vmess_result(url, json).ps == json_member_text(json, "ps"@)
            &&& vmess_result(url, json).tls == json_member_text(json, "tls"@)
            &&& vmess_result(url, json).typpe == json_member_text(json, "type"@)
        },
        !json_accepts(json) ==> {
            &&& vmess_result(url, json).add == unknown_text()
            &&& vmess_result(url, json).aid == unknown_text()
            &&& vmess_result(url, json).host == unknown_text()
            &&& vmess_result(url, json).id == unknown_text()
            &&& vmess_result(url, json).net == unknown_text()
            &&& vmess_result(url, json).path == unknown_text()
            &&& vmess_result(url, json).port == unknown_text()
            &&& vmess_result(url, json).ps == unknown_text()
            &&& vmess_result(url, json).tls == unknown_text()
            &&& vmess_result(url, json).typpe == unknown_text()
        },
{
}

/// A readable vmess link gives the node of its decoded payload; a
/// shadowsocks link keeps only the link, every other field but the
/// protocol `"unknown"`.
pub proof fn lemma_link_node_by_kind(url: Seq<char>)
    ensures
        link_kind(url) == Tcp::V2 ==> link_node(url) == vmess_result(url, vmess_json(url)),
        link_kind(url) == Tcp::Ss ==> {
            &&& link_node(url).urls == url
            &&& link_node(url).func == "\"ss\""@
            &&& link_node(url).add == unknown_text()
            &&& link_node(url).ps == unknown_text()
            &&& link_node(url).port == unknown_text()
        },
{
}

} // verus!
