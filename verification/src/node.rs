//! The records that describe one proxy node and the groups of nodes.
use vstd::prelude::*;

verus! {

/// One proxy node, as read from a subscription link. Every field but
/// `urls` holds the JSON text of a value (a string value keeps its
/// quotation marks); `urls` holds the link itself.
#[derive(Debug, Clone)]
pub struct Urls {
    pub urls: String,
    pub func: String,
    pub add: String,
    pub aid: String,
    pub host: String,
    pub id: String,
    pub net: String,
    pub path: String,
    pub port: String,
    pub ps: String,
    pub tls: String,
    pub typpe: String,
}

/// The characters of each field of a [`Urls`].
pub struct UrlsModel {
    pub urls: Seq<char>,
    pub func: Seq<char>,
    pub add: Seq<char>,
    pub aid: Seq<char>,
    pub host: Seq<char>,
    pub id: Seq<char>,
    pub net: Seq<char>,
    pub path: Seq<char>,
    pub port: Seq<char>,
    pub ps: Seq<char>,
    pub tls: Seq<char>,
    pub typpe: Seq<char>,
}

impl View for Urls {
    type V = UrlsModel;

    open spec fn view(&self) -> UrlsModel {
        UrlsModel {
            urls: self.urls@,
            func: self.func@,
            add: self.add@,
            aid: self.aid@,
            host: self.host@,
            id: self.id@,
            net: self.net@,
            path: self.path@,
            port: self.port@,
            ps: self.ps@,
            tls: self.tls@,
            typpe: self.typpe@,
        }
    }
}

/// A group of nodes, as one subscription gives them.
#[derive(Debug, Clone)]
pub struct AllUrls {
    pub name: String,
    pub content: Vec<Urls>,
}

/// The nodes of a group, each by its model.
pub open spec fn group_model(g: AllUrls) -> Seq<UrlsModel> {
    g.content@.map_values(|u: Urls| u@)
}

/// The rows that the node tree shows for one group: a title, and one
/// line per node.
#[derive(Debug, Clone)]
pub struct TreeGroup {
    pub title: String,
    pub rows: Vec<String>,
}

/// The characters of the title and of each row of a [`TreeGroup`].
pub open spec fn tree_group_model(g: TreeGroup) -> (Seq<char>, Seq<Seq<char>>) {
    (g.title@, g.rows@.map_values(|r: String| r@))
}

} // verus!
