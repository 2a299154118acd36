//! What the window shows of the groups: the rows of the node tree and the
//! details of the selected node.
use vstd::prelude::*;
use crate::node::{AllUrls, TreeGroup, Urls, UrlsModel, group_model, tree_group_model};
use crate::storage::{groups_hold, link_nodes};
use crate::text::{is_strippable, remove_quotation, strippable, stripped};

verus! {

broadcast use vstd::string::group_string_axioms;

/// Whether every node of `groups` has a name that can lose its quotation
/// marks.
pub open spec fn names_strippable(groups: Seq<AllUrls>) -> bool {
    forall|i: int, j: int|
        0 <= i < groups.len() && 0 <= j < groups[i].content@.len() ==> strippable(
            #[trigger] groups[i].content@[j].ps@,
        )
}

/// The tree rows of freshly read groups: every group titled `test`, every
/// node shown by its name without quotation marks.
pub open spec fn fresh_tree_holds(tree: Seq<TreeGroup>, groups: Seq<AllUrls>) -> bool {
    &&& tree.len() == groups.len()
    &&& forall|i: int|
        0 <= i < tree.len() ==> #[trigger] tree_group_model(tree[i]) == (
            "test"@,
            groups[i].content@.map_values(|u: Urls| stripped(u.ps@)),
        )
}

/// The rows of the node tree for freshly read groups; `None` when a node
/// name is too short to lose its quotation marks.
pub fn fresh_tree(groups: &Vec<AllUrls>) -> (r: Option<Vec<TreeGroup>>)
    ensures
        r is Some <==> names_strippable(groups@),
        r matches Some(tree) ==> fresh_tree_holds(tree@, groups@),
{
    let mut tree: Vec<TreeGroup> = Vec::new();
    for i in 0..groups.len()
        invariant
            tree@.len() == i,
            forall|a: int, b: int|
                0 <= a < i && 0 <= b < groups@[a].content@.len() ==> strippable(
                    #[trigger] groups@[a].content@[b].ps@,
                ),
            forall|a: int|
                0 <= a < i ==> #[trigger] tree_group_model(tree@[a]) == (
                    "test"@,
                    groups@[a].content@.map_values(|u: Urls| stripped(u.ps@)),
                ),
    {
        let content = &groups[i].content;
        let mut rows: Vec<String> = Vec::new();
        for j in 0..content.len()
            invariant
                i < groups@.len(),
                content == &groups@[i as int].content,
                rows@.len() == j,
                forall|b: int| 0 <= b < j ==> strippable(#[trigger] content@[b].ps@),
                forall|b: int| 0 <= b < j ==> #[trigger] rows@[b]@ == stripped(content@[b].ps@),
        {
            if !is_strippable(content[j].ps.as_str()) {
                assert(!strippable(groups@[i as int].content@[j as int].ps@));
                return None;
            }
            rows.push(remove_quotation(content[j].ps.as_str()));
        }
        let t = TreeGroup { title: String::from_str("test"), rows };
        assert(tree_group_model(t).1 =~= content@.map_values(|u: Urls| stripped(u.ps@)));
        tree.push(t);
    }
    Some(tree)
}

/// The node at a position of the tree, if there is one.
pub fn find_node(groups: &Vec<AllUrls>, i: i32, j: i32) -> (r: Option<&Urls>)
    ensures
        r is Some <==> 0 <= i < groups@.len() && 0 <= j < groups@[i as int].content@.len(),
        r matches Some(u) ==> *u == groups@[i as int].content@[j as int],
{
    if i < 0 || j < 0 {
        return None;
    }
    let gi = i as usize;
    if gi >= groups.len() {
        return None;
    }
    let content = &groups[gi].content;
    let nj = j as usize;
    if nj >= content.len() {
        return None;
    }
    Some(&content[nj])
}

/// Whether the details of a node can be shown: protocol, address and
/// port can lose their quotation marks.
pub open spec fn details_shown(u: UrlsModel) -> bool {
    strippable(u.func) && strippable(u.add) && strippable(u.port)
}

/// The labels that show the selected node: its protocol, address and port,
/// without quotation marks.
pub fn node_details(u: &Urls) -> (r: (String, String, String))
    requires
        details_shown(u@),
    ensures
        r.0@ == "func: "@ + stripped(u.func@),
        r.1@ == "add: "@ + stripped(u.add@),
        r.2@ == "port: "@ + stripped(u.port@),
{
    let mut func = String::from_str("func: ");
    func.append(remove_quotation(u.func.as_str()).as_str());
    let mut add = String::from_str("add: ");
    add.append(remove_quotation(u.add.as_str()).as_str());
    let mut port = String::from_str("port: ");
    port.append(remove_quotation(u.port.as_str()).as_str());
    (func, add, port)
}

/// The tree built from freshly read links has one row per group of links,
/// titled `test`, and under it one row per link of the group; so every
/// position of the tree names a node of the groups.
pub proof fn lemma_fresh_tree_shape(
    links: Seq<Seq<Seq<char>>>,
    groups: Seq<AllUrls>,
    tree: Seq<TreeGroup>,
)
    requires
        groups_hold(groups, link_nodes(links)),
        fresh_tree_holds(tree, groups),
    ensures
        tree.len() == links.len(),
        forall|i: int| 0 <= i < tree.len() ==> #[trigger] tree[i].title@ == "test"@,
        forall|i: int|
            0 <= i < tree.len() ==> #[trigger] tree[i].rows@.len() == links[i].len()
                && groups[i].content@.len() == links[i].len(),
{
    assert forall|i: int| 0 <= i < tree.len() implies #[trigger] tree[i].rows@.len() == links[i].len()
        && groups[i].content@.len() == links[i].len() by {
        assert(tree_group_model(tree[i]) == (
            "test"@,
            groups[i].content@.map_values(|u: Urls| stripped(u.ps@)),
        ));
        assert(group_model(groups[i]) == link_nodes(links)[i]);
        assert(tree_group_model(tree[i]).1.len() == tree[i].rows@.len());
        assert(group_model(groups[i]).len() == groups[i].content@.len());
    }
    assert forall|i: int| 0 <= i < tree.len() implies #[trigger] tree[i].title@ == "test"@ by {
        assert(tree_group_model(tree[i]).0 == tree[i].title@);
    }
}

} // verus!
