//! The storage file: the JSON text that keeps the groups of nodes between
//! runs, how it is written from freshly read links, and how it is read back.
use vstd::prelude::*;
use vstd::utf8::encode_utf8;
use crate::codec::{
    json_accepts, json_array_len, json_element, json_element_text, json_len, json_member,
    json_member_text, json_parses,
};
use crate::link::{get_the_url, link_is_readable, link_node, link_readable};
use crate::node::{AllUrls, TreeGroup, Urls, UrlsModel, group_model, tree_group_model};
use crate::text::{
    byte_len, drop_two, follows_key, is_strippable, lemma_follows_key_at, lemma_follows_key_extend,
    lemma_regroup, lemma_drop_two_append, pop_two, remove_quotation,
    strippable, stripped,
};

verus! {

broadcast use vstd::string::group_string_axioms;

/// The start of a stored node, up to its protocol.
pub const ENTRY_HEAD: &'static str = "   {\n        \"func\":";

/// Between the protocol and the link (which is quoted here).
pub const ENTRY_URL: &'static str = ",\n        \"url\":\"";

/// Between the link and the address.
pub const ENTRY_ADD: &'static str = "\",\n        \"add\":";

/// Before the alter id.
pub const ENTRY_AID: &'static str = ",\n        \"aid\":";

/// Before the host.
pub const ENTRY_HOST: &'static str = ",\n        \"host\":";

/// Before the user id.
pub const ENTRY_ID: &'static str = ",\n        \"id\":";

/// Before the network.
pub const ENTRY_NET: &'static str = ",\n        \"net\":";

/// Before the path.
pub const ENTRY_PATH: &'static str = ",\n        \"path\":";

/// Before the port.
pub const ENTRY_PORT: &'static str = ",\n        \"port\":";

/// Before the node name.
pub const ENTRY_PS: &'static str = ",\n        \"ps\":";

/// Before the TLS setting.
pub const ENTRY_TLS: &'static str = ",\n        \"tls\":";

/// Before the header type.
pub const ENTRY_TYPE: &'static str = ",\n        \"type\":";

/// The end of a stored node, with the separator after it.
pub const ENTRY_TAIL: &'static str = "\n    },\n";

/// The start of a stored group, up to its first node.
pub const GROUP_HEAD: &'static str = "{\n    \"name\":\"test\",\n    \"urls\":[";

/// The end of a stored group, with the separator after it.
pub const GROUP_TAIL: &'static str = "\n   ]\n},\n";

/// The start of the storage text.
pub const STORAGE_HEAD: &'static str = "[\n";

/// The end of the storage text.
pub const STORAGE_TAIL: &'static str = "\n]";

/// The text that the storage file holds for one node.
pub open spec fn entry_text(u: UrlsModel) -> Seq<char> {
    ENTRY_HEAD@ + u.func
        + ENTRY_URL@ + u.urls
        + ENTRY_ADD@ + u.add
        + ENTRY_AID@ + u.aid
        + ENTRY_HOST@ + u.host
        + ENTRY_ID@ + u.id
        + ENTRY_NET@ + u.net
        + ENTRY_PATH@ + u.path
        + ENTRY_PORT@ + u.port
        + ENTRY_PS@ + u.ps
        + ENTRY_TLS@ + u.tls
        + ENTRY_TYPE@ + u.typpe
        + ENTRY_TAIL@
}

/// The texts of the nodes `us`, one after the other.
pub open spec fn entries_text(us: Seq<UrlsModel>) -> Seq<char>
    decreases us.len(),
{
    if us.len() == 0 {
        Seq::empty()
    } else {
        entries_text(us.drop_last()) + entry_text(us.last())
    }
}

/// The text that the storage file holds for one group: its header, its
/// nodes, then the closing lines; the last two characters before the
/// closing lines (the separator after the last node) are dropped.
pub open spec fn group_text(us: Seq<UrlsModel>) -> Seq<char> {
    drop_two(GROUP_HEAD@ + entries_text(us)) + GROUP_TAIL@
}

/// The text of a group is longer than 30 characters.
proof fn lemma_group_text_len(us: Seq<UrlsModel>)
    ensures
        group_text(us).len() > 30,
{
    reveal_strlit("{\n    \"name\":\"test\",\n    \"urls\":[");
    reveal_strlit("\n   ]\n},\n");
}

/// The texts of the groups `gs`, one after the other.
pub open spec fn groups_text(gs: Seq<Seq<UrlsModel>>) -> Seq<char>
    decreases gs.len(),
{
    if gs.len() == 0 {
        Seq::empty()
    } else {
        groups_text(gs.drop_last()) + group_text(gs.last())
    }
}

/// The whole storage text for the groups `gs`: an array of the groups,
/// the separator after the last group dropped.
pub open spec fn storage_text(gs: Seq<Seq<UrlsModel>>) -> Seq<char> {
    drop_two(STORAGE_HEAD@ + groups_text(gs)) + STORAGE_TAIL@
}

/// Appends the storage text of one node.
fn push_entry(s: &mut String, u: &Urls)
    ensures
        final(s)@ == old(s)@ + entry_text(u@),
{
    s.append(ENTRY_HEAD);
    s.append(u.func.as_str());
    s.append(ENTRY_URL);
    s.append(u.urls.as_str());
    s.append(ENTRY_ADD);
    s.append(u.add.as_str());
    s.append(ENTRY_AID);
    s.append(u.aid.as_str());
    s.append(ENTRY_HOST);
    s.append(u.host.as_str());
    s.append(ENTRY_ID);
    s.append(u.id.as_str());
    s.append(ENTRY_NET);
    s.append(u.net.as_str());
    s.append(ENTRY_PATH);
    s.append(u.path.as_str());
    s.append(ENTRY_PORT);
    s.append(u.port.as_str());
    s.append(ENTRY_PS);
    s.append(u.ps.as_str());
    s.append(ENTRY_TLS);
    s.append(u.tls.as_str());
    s.append(ENTRY_TYPE);
    s.append(u.typpe.as_str());
    s.append(ENTRY_TAIL);
    assert(s@ =~= old(s)@ + entry_text(u@));
}

/// The nodes that the links of each group describe.
pub open spec fn link_nodes(links: Seq<Seq<Seq<char>>>) -> Seq<Seq<UrlsModel>> {
    links.map_values(|g: Seq<Seq<char>>| g.map_values(|l: Seq<char>| link_node(l)))
}

/// Whether the link at (`group`, `index`) exists in `links`.
pub open spec fn has_link(links: Seq<Seq<Seq<char>>>, group: int, index: int) -> bool {
    0 <= group < links.len() && 0 <= index < links[group].len()
}

/// Whether every link before (`group`, `index`), in reading order, can be
/// read.
pub open spec fn readable_before(links: Seq<Seq<Seq<char>>>, group: int, index: int) -> bool {
    &&& forall|a: int, b: int|
        0 <= a < group && 0 <= b < links[a].len() ==> #[trigger] link_readable(links[a][b])
    &&& forall|b: int| 0 <= b < index ==> #[trigger] link_readable(links[group][b])
}

/// Whether every link of `links` can be read.
pub open spec fn all_readable(links: Seq<Seq<Seq<char>>>) -> bool {
    forall|a: int, b: int| has_link(links, a, b) ==> #[trigger] link_readable(links[a][b])
}

/// Whether every link of `links` is short enough for Base64 decoding to
/// count its chunks without overflow.
pub open spec fn links_fit(links: Seq<Seq<Seq<char>>>) -> bool {
    forall|a: int, b: int|
        has_link(links, a, b) ==> encode_utf8(#[trigger] links[a][b]).len() + 7 <= usize::MAX
}

/// A link that cannot be read: the `index`-th link of the `group`-th group.
#[derive(Debug, Clone, Copy, PartialEq, Eq)]
pub struct UnreadableLink {
    pub group: usize,
    pub index: usize,
}

/// What reading freshly fetched links gives: the storage text for them,
/// whether it is worth writing (it is longer than 10 bytes, which only an
/// empty list of groups fails), and the groups of nodes.
pub struct Refresh {
    pub text: String,
    pub store: bool,
    pub groups: Vec<AllUrls>,
}

/// Whether the groups `gs` hold the nodes `nodes`, each group named `test`.
pub open spec fn groups_hold(gs: Seq<AllUrls>, nodes: Seq<Seq<UrlsModel>>) -> bool {
    &&& gs.len() == nodes.len()
    &&& forall|k: int| 0 <= k < gs.len() ==> #[trigger] group_model(gs[k]) == nodes[k]
    &&& forall|k: int| 0 <= k < gs.len() ==> #[trigger] gs[k].name@ == "test"@
}

/// Reads fresh subscription links, given group by group: each link becomes
/// a node ([`get_the_url`]), each group of links a group named `test`, and
/// the storage text for all of them is built. Fails on the first link, in
/// reading order, that cannot be read.
pub fn refresh_from_links(links: &Vec<Vec<String>>) -> (r: Result<Refresh, UnreadableLink>)
    requires
        links_fit(links.deep_view()),
    ensures
        r is Ok <==> all_readable(links.deep_view()),
        r matches Err(e) ==> {
            &&& has_link(links.deep_view(), e.group as int, e.index as int)
            &&& !link_readable(links.deep_view()[e.group as int][e.index as int])
            &&& readable_before(links.deep_view(), e.group as int, e.index as int)
        },
        r matches Ok(rf) ==> {
            &&& rf.text@ == storage_text(link_nodes(links.deep_view()))
            &&& rf.store == (byte_len(rf.text@) > 10)
            &&& links@.len() == 0 ==> !rf.store
            &&& links@.len() > 0 ==> rf.text@.len() > 10
            &&& groups_hold(rf.groups@, link_nodes(links.deep_view()))
        },
{
    let ghost all = links.deep_view();
    let ghost nodes = link_nodes(all);
    let mut text = String::new();
    text.append(STORAGE_HEAD);
    let mut groups: Vec<AllUrls> = Vec::new();
    let mut i: usize = 0;
    while i < links.len()
        invariant
            all == links.deep_view(),
            nodes == link_nodes(all),
            links_fit(all),
            i <= links.len(),
            text@ == STORAGE_HEAD@ + groups_text(nodes.take(i as int)),
            groups_hold(groups@, nodes.take(i as int)),
            readable_before(all, i as int, 0),
        decreases links.len() - i,
    {
        let group = &links[i];
        assert(group.deep_view() == all[i as int]);
        let ghost before = text@;
        text.append(GROUP_HEAD);
        let mut content: Vec<Urls> = Vec::new();
        let mut j: usize = 0;
        while j < group.len()
            invariant
                all == links.deep_view(),
                nodes == link_nodes(all),
                links_fit(all),
                i < links.len(),
                group == &links[i as int],
                group.deep_view() == all[i as int],
                j <= group.len(),
                text@ == before + GROUP_HEAD@ + entries_text(
                    nodes[i as int].take(j as int),
                ),
                content@.map_values(|u: Urls| u@) == nodes[i as int].take(j as int),
                readable_before(all, i as int, j as int),
            decreases group.len() - j,
        {
            let link = group[j].clone();
            assert(link@ == all[i as int][j as int]);
            assert(has_link(all, i as int, j as int));
            if !link_is_readable(&link) {
                return Err(UnreadableLink { group: i, index: j });
            }
            let node = get_the_url(link);
            push_entry(&mut text, &node);
            content.push(node);
            proof {
                let ns = nodes[i as int];
                assert(ns.take(j + 1).drop_last() =~= ns.take(j as int));
                assert(content@.map_values(|u: Urls| u@) =~= ns.take(j + 1));
            }
            j = j + 1;
        }
        assert(nodes[i as int].take(j as int) =~= nodes[i as int]);
        proof {
            reveal_strlit("{\n    \"name\":\"test\",\n    \"urls\":[");
            lemma_drop_two_append(
                before,
                GROUP_HEAD@ + entries_text(nodes[i as int]),
            );
        }
        pop_two(&mut text);
        text.append(GROUP_TAIL);
        proof {
            assert(nodes.take(i + 1).last() == nodes[i as int]);
            assert(nodes.take(i + 1).drop_last() =~= nodes.take(i as int));
            assert(text@ =~= STORAGE_HEAD@ + groups_text(nodes.take(i + 1)));
        }
        let g = AllUrls { name: String::from_str("test"), content: content };
        groups.push(g);
        proof {
            assert(groups_hold(groups@, nodes.take(i + 1)));
        }
        i = i + 1;
    }
    assert(nodes.take(i as int) =~= nodes);
    pop_two(&mut text);
    text.append(STORAGE_TAIL);
    let store = text.as_str().as_bytes().len() > 10;
    assert(text@ == storage_text(nodes));
    assert(groups_hold(groups@, nodes));
    assert(store == (byte_len(text@) > 10));
    proof {
        reveal_strlit("[\n");
        reveal_strlit("\n]");
        if links@.len() == 0 {
            assert(text@ =~= STORAGE_TAIL@);
            assert(vstd::utf8::is_ascii_chars(text@));
            vstd::utf8::is_ascii_chars_encode_utf8(text@);
        } else {
            lemma_group_text_len(nodes.last());
            assert(groups_text(nodes) == groups_text(nodes.drop_last()) + group_text(nodes.last()));
        }
    }
    Ok(Refresh { text, store, groups })
}

/// The position of the first `null` element of the array in `doc` at or
/// after `k`, or its length when there is none.
pub open spec fn live_from(doc: Seq<char>, k: nat) -> nat
    decreases json_array_len(doc) - k,
{
    if k >= json_array_len(doc) || json_element_text(doc, k) == "null"@ {
        k
    } else {
        live_from(doc, k + 1)
    }
}

/// How many elements of the array in `doc` come before its first `null`
/// element: the elements that a reader walking the array until it meets
/// `null` sees.
pub open spec fn live_len(doc: Seq<char>) -> nat {
    live_from(doc, 0)
}

/// Counts the elements of the array in `doc` before its first `null`
/// ([`live_len`]).
pub fn count_live(doc: &str) -> (n: usize)
    requires
        json_accepts(doc@),
    ensures
        n as nat == live_len(doc@),
{
    let len = json_len(doc);
    let mut k: usize = 0;
    let null_text = String::from_str("null");
    while k < len
        invariant
            len as nat == json_array_len(doc@),
            json_accepts(doc@),
            null_text@ == "null"@,
            k <= len,
            live_from(doc@, 0) == live_from(doc@, k as nat),
        decreases len - k,
    {
        let e = json_element(doc, k);
        if e == null_text {
            return k;
        }
        k = k + 1;
    }
    k
}

/// The JSON text of the `i`-th group of the storage text `doc`.
pub open spec fn group_doc(doc: Seq<char>, i: int) -> Seq<char> {
    json_element_text(doc, i as nat)
}

/// The JSON text of the node list of the `i`-th group.
pub open spec fn urls_doc(doc: Seq<char>, i: int) -> Seq<char> {
    json_member_text(group_doc(doc, i), "urls"@)
}

/// The JSON text of the `j`-th node of the `i`-th group.
pub open spec fn entry_doc(doc: Seq<char>, i: int, j: int) -> Seq<char> {
    json_element_text(urls_doc(doc, i), j as nat)
}

/// The node that a stored entry describes: the link without its quotation
/// marks, every other field the JSON text of the member of that name.
pub open spec fn stored_node(entry: Seq<char>) -> UrlsModel {
    UrlsModel {
        urls: stripped(json_member_text(entry, "url"@)),
        func: json_member_text(entry, "func"@),
        add: json_member_text(entry, "add"@),
        aid: json_member_text(entry, "aid"@),
        host: json_member_text(entry, "host"@),
        id: json_member_text(entry, "id"@),
        net: json_member_text(entry, "net"@),
        path: json_member_text(entry, "path"@),
        port: json_member_text(entry, "port"@),
        ps: json_member_text(entry, "ps"@),
        tls: json_member_text(entry, "tls"@),
        typpe: json_member_text(entry, "type"@),
    }
}

/// Whether the texts of an entry that lose their quotation marks (the link
/// and the name shown in the tree) can lose them.
pub open spec fn entry_readable(entry: Seq<char>) -> bool {
    &&& strippable(json_member_text(entry, "url"@))
    &&& strippable(json_member_text(entry, "ps"@))
}

/// Whether the `i`-th group can be read: its name and all its entries.
pub open spec fn group_readable(doc: Seq<char>, i: int) -> bool {
    &&& strippable(json_member_text(group_doc(doc, i), "name"@))
    &&& forall|j: int|
        0 <= j < live_len(urls_doc(doc, i)) ==> #[trigger] entry_readable(entry_doc(doc, i, j))
}

/// Whether every group of the storage text `doc` can be read.
pub open spec fn storage_readable(doc: Seq<char>) -> bool {
    forall|i: int| 0 <= i < live_len(doc) ==> #[trigger] group_readable(doc, i)
}

/// The nodes of the `i`-th group.
pub open spec fn stored_group(doc: Seq<char>, i: int) -> Seq<UrlsModel> {
    Seq::new(live_len(urls_doc(doc, i)), |j: int| stored_node(entry_doc(doc, i, j)))
}

/// The nodes of every group of the storage text `doc`.
pub open spec fn stored_groups(doc: Seq<char>) -> Seq<Seq<UrlsModel>> {
    Seq::new(live_len(doc), |i: int| stored_group(doc, i))
}

/// The tree rows of the `i`-th group: its name and the names of its nodes,
/// without quotation marks.
pub open spec fn stored_tree_group(doc: Seq<char>, i: int) -> (Seq<char>, Seq<Seq<char>>) {
    (
        stripped(json_member_text(group_doc(doc, i), "name"@)),
        Seq::new(
            live_len(urls_doc(doc, i)),
            |j: int| stripped(json_member_text(entry_doc(doc, i, j), "ps"@)),
        ),
    )
}

/// Why the storage text cannot be read.
#[derive(Debug, Clone, Copy, PartialEq, Eq)]
pub enum StorageError {
    /// The text is no JSON.
    NotJson,
    /// A group name, a link or a node name is too short to lose its
    /// quotation marks.
    ShortText,
}

/// What the storage text holds: the groups of nodes, and the rows of the
/// node tree.
pub struct Stored {
    pub groups: Vec<AllUrls>,
    pub tree: Vec<TreeGroup>,
}

/// Whether the tree groups `tree` show the rows of the storage text `doc`.
pub open spec fn tree_holds(tree: Seq<TreeGroup>, doc: Seq<char>) -> bool {
    &&& tree.len() == live_len(doc)
    &&& forall|k: int|
        0 <= k < tree.len() ==> #[trigger] tree_group_model(tree[k]) == stored_tree_group(doc, k)
}

/// Reads one stored entry (the JSON text of one node) into a node and its
/// tree row; `None` when its link or its name is too short to lose its
/// quotation marks.
pub fn read_entry(entry: &str) -> (r: Option<(Urls, String)>)
    requires
        json_accepts(entry@),
    ensures
        r is Some <==> entry_readable(entry@),
        r matches Some((u, row)) ==> u@ == stored_node(entry@) && row@ == stripped(
            json_member_text(entry@, "ps"@),
        ),
{
    let url_text = json_member(entry, "url");
    if !is_strippable(url_text.as_str()) {
        return None;
    }
    let node = Urls {
        urls: remove_quotation(url_text.as_str()),
        func: json_member(entry, "func"),
        add: json_member(entry, "add"),
        aid: json_member(entry, "aid"),
        host: json_member(entry, "host"),
        id: json_member(entry, "id"),
        net: json_member(entry, "net"),
        path: json_member(entry, "path"),
        port: json_member(entry, "port"),
        ps: json_member(entry, "ps"),
        tls: json_member(entry, "tls"),
        typpe: json_member(entry, "type"),
    };
    if !is_strippable(node.ps.as_str()) {
        return None;
    }
    let row = remove_quotation(node.ps.as_str());
    Some((node, row))
}

/// Reads the `i`-th group of the storage text `doc` into a group named
/// `test` and its tree rows; `None` when its name, or a link or name of one
/// of its nodes, is too short to lose its quotation marks.
pub fn read_group(doc: &str, i: usize) -> (r: Option<(AllUrls, TreeGroup)>)
    requires
        json_accepts(doc@),
    ensures
        r is Some <==> group_readable(doc@, i as int),
        r matches Some((g, t)) ==> {
            &&& group_model(g) == stored_group(doc@, i as int)
            &&& g.name@ == "test"@
            &&& tree_group_model(t) == stored_tree_group(doc@, i as int)
        },
{
    let group = json_element(doc, i);
    let name = json_member(group.as_str(), "name");
    if !is_strippable(name.as_str()) {
        return None;
    }
    let title = remove_quotation(name.as_str());
    let list = json_member(group.as_str(), "urls");
    let n = count_live(list.as_str());
    let ghost ld = list@;
    let mut content: Vec<Urls> = Vec::new();
    let mut rows: Vec<String> = Vec::new();
    for j in 0..n
        invariant
            ld == urls_doc(doc@, i as int),
            ld == list@,
            json_accepts(ld),
            n as nat == live_len(ld),
            content@.len() == j,
            rows@.len() == j,
            forall|k: int|
                0 <= k < j ==> #[trigger] entry_readable(entry_doc(doc@, i as int, k)),
            forall|k: int|
                0 <= k < j ==> #[trigger] content@[k]@ == stored_node(
                    entry_doc(doc@, i as int, k),
                ),
            forall|k: int|
                0 <= k < j ==> #[trigger] rows@[k]@ == stripped(
                    json_member_text(entry_doc(doc@, i as int, k), "ps"@),
                ),
    {
        let entry = json_element(list.as_str(), j);
        assert(entry@ == entry_doc(doc@, i as int, j as int));
        match read_entry(entry.as_str()) {
            Some((node, row)) => {
                content.push(node);
                rows.push(row);
            },
            None => {
                assert(!entry_readable(entry_doc(doc@, i as int, j as int)));
                return None;
            },
        }
    }
    let g = AllUrls { name: String::from_str("test"), content };
    let t = TreeGroup { title, rows };
    assert(group_model(g) =~= stored_group(doc@, i as int));
    assert(tree_group_model(t).1 =~= stored_tree_group(doc@, i as int).1);
    Some((g, t))
}

/// Reads the storage text: walks the array of groups until its end or a
/// `null` element, and in each group the array `urls` the same way. Each
/// entry becomes a node whose link loses its quotation marks and whose
/// other fields are the JSON texts of the members; each group is named
/// `test`. The tree shows each group's `name` and each node's `ps`,
/// without quotation marks. Fails when the text is no JSON, or when one of
/// the texts that lose their quotation marks is too short for it.
pub fn read_storage(doc: &str) -> (r: Result<Stored, StorageError>)
    ensures
        r == Err::<Stored, StorageError>(StorageError::NotJson) <==> !json_accepts(doc@),
        r == Err::<Stored, StorageError>(StorageError::ShortText) <==> json_accepts(doc@)
            && !storage_readable(doc@),
        r matches Ok(st) ==> {
            &&& groups_hold(st.groups@, stored_groups(doc@))
            &&& tree_holds(st.tree@, doc@)
        },
{
    if !json_parses(doc) {
        return Err(StorageError::NotJson);
    }
    let n = count_live(doc);
    let mut groups: Vec<AllUrls> = Vec::new();
    let mut tree: Vec<TreeGroup> = Vec::new();
    for i in 0..n
        invariant
            json_accepts(doc@),
            n as nat == live_len(doc@),
            groups@.len() == i,
            tree@.len() == i,
            forall|k: int| 0 <= k < i ==> #[trigger] group_readable(doc@, k),
            forall|k: int| 0 <= k < i ==> #[trigger] group_model(groups@[k]) == stored_group(doc@, k),
            forall|k: int| 0 <= k < i ==> #[trigger] groups@[k].name@ == "test"@,
            forall|k: int|
                0 <= k < i ==> #[trigger] tree_group_model(tree@[k]) == stored_tree_group(doc@, k),
    {
        match read_group(doc, i) {
            Some((g, t)) => {
                groups.push(g);
                tree.push(t);
            },
            None => {
                return Err(StorageError::ShortText);
            },
        }
    }
    let ghost sg = stored_groups(doc@);
    assert(groups_hold(groups@, sg));
    Ok(Stored { groups, tree })
}

/// The text of a node ends with the separator `,\n` that follows it.
proof fn lemma_entry_ends_with_separator(u: UrlsModel)
    ensures
        entry_text(u).len() >= 2,
        entry_text(u) == drop_two(entry_text(u)) + ",\n"@,
{
    reveal_strlit("\n    },\n");
    reveal_strlit(",\n");
    let body = ENTRY_HEAD@ + u.func + ENTRY_URL@ + u.urls + ENTRY_ADD@ + u.add + ENTRY_AID@ + u.aid
        + ENTRY_HOST@ + u.host + ENTRY_ID@ + u.id + ENTRY_NET@ + u.net + ENTRY_PATH@ + u.path
        + ENTRY_PORT@ + u.port + ENTRY_PS@ + u.ps + ENTRY_TLS@ + u.tls + ENTRY_TYPE@ + u.typpe;
    assert(entry_text(u) == body + ENTRY_TAIL@);
    assert(drop_two(entry_text(u)) =~= body + "\n    }"@) by {
        reveal_strlit("\n    }");
    }
    assert(entry_text(u) =~= drop_two(entry_text(u)) + ",\n"@) by {
        reveal_strlit("\n    }");
    }
}

/// The storage text of a group of one node: the group header, the node's
/// text without its separator, the group's closing lines.
pub proof fn lemma_group_of_one(u: UrlsModel)
    ensures
        group_text(seq![u]) == GROUP_HEAD@ + drop_two(entry_text(u)) + GROUP_TAIL@,
{
    lemma_entry_ends_with_separator(u);
    assert(seq![u].drop_last() =~= Seq::<UrlsModel>::empty());
    assert(entries_text(Seq::<UrlsModel>::empty()) =~= Seq::<char>::empty());
    assert(seq![u].last() == u);
    assert(entries_text(seq![u]) =~= entry_text(u));
    lemma_drop_two_append(GROUP_HEAD@, entry_text(u));
}

/// Adding a node at the end of a group adds its text, in place, at the end
/// of the group's storage text: the text before the closing lines stays,
/// followed by the separator `,\n`, the new node's text without its own
/// separator, and the closing lines. So the storage text of a group of `n`
/// nodes holds the texts of all `n` nodes, in their order.
pub proof fn lemma_group_push(us: Seq<UrlsModel>, u: UrlsModel)
    requires
        us.len() > 0,
    ensures
        group_text(us.push(u)) == group_text(us).take(group_text(us).len() - GROUP_TAIL@.len())
            + ",\n"@ + drop_two(entry_text(u)) + GROUP_TAIL@,
{
    lemma_entry_ends_with_separator(u);
    lemma_entry_ends_with_separator(us.last());
    assert(us.push(u).drop_last() =~= us);
    let e = entries_text(us);
    assert(entries_text(us.push(u)) == e + entry_text(u));
    assert(e == entries_text(us.drop_last()) + entry_text(us.last()));
    let h = GROUP_HEAD@ + e;
    lemma_drop_two_append(h, entry_text(u));
    assert(GROUP_HEAD@ + (e + entry_text(u)) =~= h + entry_text(u));
    lemma_drop_two_append(GROUP_HEAD@ + entries_text(us.drop_last()), entry_text(us.last()));
    assert(h =~= (GROUP_HEAD@ + entries_text(us.drop_last())) + entry_text(us.last()));
    assert(h =~= drop_two(h) + ",\n"@);
    assert(group_text(us).take(group_text(us).len() - GROUP_TAIL@.len()) =~= drop_two(h));
    assert(group_text(us.push(u)) =~= drop_two(h) + ",\n"@ + drop_two(entry_text(u)) + GROUP_TAIL@);
}

/// The text of a group ends with the separator `,\n` that follows it.
proof fn lemma_group_ends_with_separator(us: Seq<UrlsModel>)
    ensures
        group_text(us).len() >= 2,
        group_text(us) == drop_two(group_text(us)) + ",\n"@,
{
    reveal_strlit("\n   ]\n},\n");
    reveal_strlit("\n   ]\n}");
    reveal_strlit(",\n");
    let h = drop_two(GROUP_HEAD@ + entries_text(us));
    assert(drop_two(group_text(us)) =~= h + "\n   ]\n}"@);
    assert(group_text(us) =~= drop_two(group_text(us)) + ",\n"@);
}

/// The storage text of no groups is `\n]`; of one group, the array opening,
/// the group's text without its separator, and the array closing.
pub proof fn lemma_storage_of_few(us: Seq<UrlsModel>)
    ensures
        storage_text(Seq::empty()) == "\n]"@,
        storage_text(seq![us]) == STORAGE_HEAD@ + drop_two(group_text(us)) + STORAGE_TAIL@,
{
    reveal_strlit("[\n");
    reveal_strlit("\n]");
    assert(drop_two(STORAGE_HEAD@ + groups_text(Seq::<Seq<UrlsModel>>::empty())) =~= Seq::<
        char,
    >::empty());
    assert(storage_text(Seq::empty()) =~= "\n]"@);
    lemma_group_ends_with_separator(us);
    assert(seq![us].drop_last() =~= Seq::<Seq<UrlsModel>>::empty());
    assert(groups_text(Seq::<Seq<UrlsModel>>::empty()) =~= Seq::<char>::empty());
    assert(seq![us].last() == us);
    assert(groups_text(seq![us]) =~= group_text(us));
    lemma_drop_two_append(STORAGE_HEAD@, group_text(us));
}

/// Adding a group at the end adds its text, in place, at the end of the
/// storage text: the text before the array closing stays, followed by the
/// separator `,\n`, the new group's text without its own separator, and the
/// array closing. So the storage text of `n` groups holds all `n` groups,
/// in their order.
pub proof fn lemma_storage_push(gs: Seq<Seq<UrlsModel>>, us: Seq<UrlsModel>)
    requires
        gs.len() > 0,
    ensures
        storage_text(gs.push(us)) == storage_text(gs).take(
            storage_text(gs).len() - STORAGE_TAIL@.len(),
        ) + ",\n"@ + drop_two(group_text(us)) + STORAGE_TAIL@,
{
    lemma_group_ends_with_separator(us);
    lemma_group_ends_with_separator(gs.last());
    assert(gs.push(us).drop_last() =~= gs);
    let g = groups_text(gs);
    assert(groups_text(gs.push(us)) == g + group_text(us));
    assert(g == groups_text(gs.drop_last()) + group_text(gs.last()));
    let h = STORAGE_HEAD@ + g;
    lemma_drop_two_append(h, group_text(us));
    assert(STORAGE_HEAD@ + (g + group_text(us)) =~= h + group_text(us));
    lemma_drop_two_append(STORAGE_HEAD@ + groups_text(gs.drop_last()), group_text(gs.last()));
    assert(h =~= (STORAGE_HEAD@ + groups_text(gs.drop_last())) + group_text(gs.last()));
    assert(h =~= drop_two(h) + ",\n"@);
    assert(storage_text(gs).take(storage_text(gs).len() - STORAGE_TAIL@.len()) =~= drop_two(h));
    assert(storage_text(gs.push(us)) =~= drop_two(h) + ",\n"@ + drop_two(group_text(us))
        + STORAGE_TAIL@);
}

/// In the stored text of a node, each field stands right after the key of
/// its own name: the protocol after `"func":`, the link after `"url":"`,
/// the address after `"add":`, and so on to the header type after
/// `"type":`.
pub proof fn lemma_entry_fields(u: UrlsModel)
    ensures
        follows_key(entry_text(u), ENTRY_HEAD@, u.func),
        follows_key(entry_text(u), ENTRY_URL@, u.urls),
        follows_key(entry_text(u), ENTRY_ADD@, u.add),
        follows_key(entry_text(u), ENTRY_AID@, u.aid),
        follows_key(entry_text(u), ENTRY_HOST@, u.host),
        follows_key(entry_text(u), ENTRY_ID@, u.id),
        follows_key(entry_text(u), ENTRY_NET@, u.net),
        follows_key(entry_text(u), ENTRY_PATH@, u.path),
        follows_key(entry_text(u), ENTRY_PORT@, u.port),
        follows_key(entry_text(u), ENTRY_PS@, u.ps),
        follows_key(entry_text(u), ENTRY_TLS@, u.tls),
        follows_key(entry_text(u), ENTRY_TYPE@, u.typpe),
{
    let s0 = Seq::<char>::empty();
    let s1 = s0 + ENTRY_HEAD@ + u.func;
    let s2 = s1 + ENTRY_URL@ + u.urls;
    let s3 = s2 + ENTRY_ADD@ + u.add;
    let s4 = s3 + ENTRY_AID@ + u.aid;
    let s5 = s4 + ENTRY_HOST@ + u.host;
    let s6 = s5 + ENTRY_ID@ + u.id;
    let s7 = s6 + ENTRY_NET@ + u.net;
    let s8 = s7 + ENTRY_PATH@ + u.path;
    let s9 = s8 + ENTRY_PORT@ + u.port;
    let s10 = s9 + ENTRY_PS@ + u.ps;
    let s11 = s10 + ENTRY_TLS@ + u.tls;
    let s12 = s11 + ENTRY_TYPE@ + u.typpe;
    let r12 = ENTRY_TAIL@;
    let r11 = ENTRY_TYPE@ + u.typpe + r12;
    let r10 = ENTRY_TLS@ + u.tls + r11;
    let r9 = ENTRY_PS@ + u.ps + r10;
    let r8 = ENTRY_PORT@ + u.port + r9;
    let r7 = ENTRY_PATH@ + u.path + r8;
    let r6 = ENTRY_NET@ + u.net + r7;
    let r5 = ENTRY_ID@ + u.id + r6;
    let r4 = ENTRY_HOST@ + u.host + r5;
    let r3 = ENTRY_AID@ + u.aid + r4;
    let r2 = ENTRY_ADD@ + u.add + r3;
    let r1 = ENTRY_URL@ + u.urls + r2;
    assert(entry_text(u) == s12 + r12);
    lemma_follows_key_at(s0, ENTRY_HEAD@, u.func);
    lemma_regroup(s1, ENTRY_URL@, u.urls, r2);
    lemma_follows_key_extend(s1, r1, ENTRY_HEAD@, u.func);
    lemma_follows_key_at(s1, ENTRY_URL@, u.urls);
    lemma_regroup(s2, ENTRY_ADD@, u.add, r3);
    lemma_follows_key_extend(s2, r2, ENTRY_URL@, u.urls);
    lemma_follows_key_at(s2, ENTRY_ADD@, u.add);
    lemma_regroup(s3, ENTRY_AID@, u.aid, r4);
    lemma_follows_key_extend(s3, r3, ENTRY_ADD@, u.add);
    lemma_follows_key_at(s3, ENTRY_AID@, u.aid);
    lemma_regroup(s4, ENTRY_HOST@, u.host, r5);
    lemma_follows_key_extend(s4, r4, ENTRY_AID@, u.aid);
    lemma_follows_key_at(s4, ENTRY_HOST@, u.host);
    lemma_regroup(s5, ENTRY_ID@, u.id, r6);
    lemma_follows_key_extend(s5, r5, ENTRY_HOST@, u.host);
    lemma_follows_key_at(s5, ENTRY_ID@, u.id);
    lemma_regroup(s6, ENTRY_NET@, u.net, r7);
    lemma_follows_key_extend(s6, r6, ENTRY_ID@, u.id);
    lemma_follows_key_at(s6, ENTRY_NET@, u.net);
    lemma_regroup(s7, ENTRY_PATH@, u.path, r8);
    lemma_follows_key_extend(s7, r7, ENTRY_NET@, u.net);
    lemma_follows_key_at(s7, ENTRY_PATH@, u.path);
    lemma_regroup(s8, ENTRY_PORT@, u.port, r9);
    lemma_follows_key_extend(s8, r8, ENTRY_PATH@, u.path);
    lemma_follows_key_at(s8, ENTRY_PORT@, u.port);
    lemma_regroup(s9, ENTRY_PS@, u.ps, r10);
    lemma_follows_key_extend(s9, r9, ENTRY_PORT@, u.port);
    lemma_follows_key_at(s9, ENTRY_PS@, u.ps);
    lemma_regroup(s10, ENTRY_TLS@, u.tls, r11);
    lemma_follows_key_extend(s10, r10, ENTRY_PS@, u.ps);
    lemma_follows_key_at(s10, ENTRY_TLS@, u.tls);
    lemma_regroup(s11, ENTRY_TYPE@, u.typpe, r12);
    lemma_follows_key_extend(s11, r11, ENTRY_TLS@, u.tls);
    lemma_follows_key_at(s11, ENTRY_TYPE@, u.typpe);
    lemma_follows_key_extend(s12, r12, ENTRY_TYPE@, u.typpe);
}

/// Each field of a node read back from storage is the member of its own
/// name in the stored entry; the link loses its quotation marks.
pub proof fn lemma_stored_fields(entry: Seq<char>)
    ensures
        stored_node(entry).urls == stripped(json_member_text(entry, "url"@)),
        stored_node(entry).func == json_member_text(entry, "func"@),
        stored_node(entry).add == json_member_text(entry, "add"@),
        stored_node(entry).aid == json_member_text(entry, "aid"@),
        stored_node(entry).host == json_member_text(entry, "host"@),
        stored_node(entry).id == json_member_text(entry, "id"@),
        stored_node(entry).net == json_member_text(entry, "net"@),
        stored_node(entry).path == json_member_text(entry, "path"@),
        stored_node(entry).port == json_member_text(entry, "port"@),
        stored_node(entry).ps == json_member_text(entry, "ps"@),
        stored_node(entry).tls == json_member_text(entry, "tls"@),
        stored_node(entry).typpe == json_member_text(entry, "type"@),
{
}

/// The tree rows of a stored group match its nodes one for one: as many
/// rows as nodes, each row the name (`ps`) of its node without quotation
/// marks; the group's row is its `name` member without quotation marks.
pub proof fn lemma_stored_tree_matches_nodes(doc: Seq<char>, i: int)
    ensures
        stored_tree_group(doc, i).1.len() == stored_group(doc, i).len(),
        forall|j: int|
            0 <= j < stored_group(doc, i).len() ==> #[trigger] stored_tree_group(doc, i).1[j]
                == stripped(stored_group(doc, i)[j].ps),
        stored_tree_group(doc, i).0 == stripped(json_member_text(group_doc(doc, i), "name"@)),
        stored_groups(doc).len() == live_len(doc),
        stored_group(doc, i).len() == live_len(urls_doc(doc, i)),
{
}

/// Where the walk over an array stops: before the first `null` element,
/// and at the end at the latest.
proof fn lemma_live_from(doc: Seq<char>, k: nat)
    ensures
        k <= json_array_len(doc) ==> k <= live_from(doc, k) <= json_array_len(doc),
        k > json_array_len(doc) ==> live_from(doc, k) == k,
        forall|m: nat| k <= m < live_from(doc, k) ==> json_element_text(doc, m) != "null"@,
        live_from(doc, k) < json_array_len(doc) ==> json_element_text(doc, live_from(doc, k))
            == "null"@,
    decreases json_array_len(doc) - k,
{
    if k >= json_array_len(doc) || json_element_text(doc, k) == "null"@ {
    } else {
        lemma_live_from(doc, k + 1);
    }
}

/// The walk over an array sees every element before the first `null` one
/// and no other: it stops at the first `null` element or at the end of the
/// array, never earlier. In particular, an array without `null` elements is
/// walked to its end.
pub proof fn lemma_live_len(doc: Seq<char>, n: nat)
    ensures
        live_len(doc) <= json_array_len(doc),
        forall|m: nat| m < live_len(doc) ==> json_element_text(doc, m) != "null"@,
        live_len(doc) < json_array_len(doc) ==> json_element_text(doc, live_len(doc)) == "null"@,
        n <= json_array_len(doc) && (forall|m: nat| m < n ==> json_element_text(doc, m) != "null"@)
            ==> n <= live_len(doc),
{
    lemma_live_from(doc, 0);
    if n <= json_array_len(doc) && (forall|m: nat| m < n ==> json_element_text(doc, m) != "null"@) {
        if live_len(doc) < n {
            assert(json_element_text(doc, live_len(doc)) != "null"@);
        }
    }
}

} // verus!
