//! The messages of the protocol, as far as the client reads and writes them.
use crate::table::Table;
use crate::text::{insert_all, text_values, texts};
use vstd::prelude::*;

verus! {

/// A payload with the name of its type.
#[derive(Clone, Debug, PartialEq, Eq)]
pub struct Any {
    pub type_url: String,
    pub value: Vec<u8>,
}

/// A named resource as the server sends it.
#[derive(Clone, Debug, PartialEq, Eq)]
pub struct Resource {
    pub name: String,
    pub aliases: Vec<String>,
    pub version: String,
    pub resource: Option<Any>,
}

/// What the server sends: resources to add or replace, and names to remove.
#[derive(Clone, Debug, PartialEq, Eq)]
pub struct DeltaDiscoveryResponse {
    pub system_version_info: String,
    pub resources: Vec<Resource>,
    pub type_url: String,
    pub removed_resources: Vec<String>,
    pub nonce: String,
}

/// Who the client is.
pub struct NodeView {
    pub id: Seq<char>,
    pub metadata: Option<Map<Seq<char>, Seq<char>>>,
}

/// Who the client is. Each value of the metadata is a string value.
pub struct Node {
    pub id: String,
    pub metadata: Option<Table<String, String>>,
}

impl View for Node {
    type V = NodeView;

    open spec fn view(&self) -> NodeView {
        NodeView {
            id: self.id@,
            metadata: match self.metadata {
                Some(m) => Some(text_values(m@)),
                None => None,
            },
        }
    }
}

impl Clone for Node {
    fn clone(&self) -> (copy: Self)
        ensures
            copy@ == self@,
    {
        let metadata = match &self.metadata {
            Some(m) => {
                let mut table: Table<String, String> = Table::new();
                insert_all(&mut table, m.entries());
                assert(Map::<Seq<char>, String>::empty().union_prefer_right(m@) =~= m@);
                Some(table)
            },
            None => None,
        };
        Node { id: self.id.clone(), metadata }
    }
}

/// A status in the form that remote procedure calls use.
#[derive(Clone, Debug, PartialEq, Eq)]
pub struct Status {
    pub code: i32,
    pub message: String,
}

/// A status in the form that remote procedure calls use.
pub struct StatusView {
    pub code: int,
    pub message: Seq<char>,
}

impl View for Status {
    type V = StatusView;

    open spec fn view(&self) -> StatusView {
        StatusView { code: self.code as int, message: self.message@ }
    }
}

/// What the client sends.
pub struct RequestView {
    pub node: Option<NodeView>,
    pub type_url: Seq<char>,
    pub resource_names_subscribe: Seq<Seq<char>>,
    pub resource_names_unsubscribe: Seq<Seq<char>>,
    pub initial_resource_versions: Map<Seq<char>, Seq<char>>,
    pub response_nonce: Seq<char>,
    pub error_detail: Option<StatusView>,
}

impl RequestView {
    /// A request in which nothing is set.
    pub open spec fn empty() -> RequestView {
        RequestView {
            node: None,
            type_url: Seq::empty(),
            resource_names_subscribe: Seq::empty(),
            resource_names_unsubscribe: Seq::empty(),
            initial_resource_versions: Map::empty(),
            response_nonce: Seq::empty(),
            error_detail: None,
        }
    }
}

/// What the client sends: a subscription, or the answer to a response.
pub struct DeltaDiscoveryRequest {
    pub node: Option<Node>,
    pub type_url: String,
    pub resource_names_subscribe: Vec<String>,
    pub resource_names_unsubscribe: Vec<String>,
    pub initial_resource_versions: Table<String, String>,
    pub response_nonce: String,
    pub error_detail: Option<Status>,
}

impl View for DeltaDiscoveryRequest {
    type V = RequestView;

    open spec fn view(&self) -> RequestView {
        RequestView {
            node: match self.node {
                Some(n) => Some(n@),
                None => None,
            },
            type_url: self.type_url@,
            resource_names_subscribe: texts(self.resource_names_subscribe@),
            resource_names_unsubscribe: texts(self.resource_names_unsubscribe@),
            initial_resource_versions: text_values(self.initial_resource_versions@),
            response_nonce: self.response_nonce@,
            error_detail: match self.error_detail {
                Some(s) => Some(s@),
                None => None,
            },
        }
    }
}

impl Default for DeltaDiscoveryRequest {
    fn default() -> (request: Self)
        ensures
            request@ == RequestView::empty(),
    {
        let request = DeltaDiscoveryRequest {
            node: None,
            type_url: String::new(),
            resource_names_subscribe: Vec::new(),
            resource_names_unsubscribe: Vec::new(),
            initial_resource_versions: Table::new(),
            response_nonce: String::new(),
            error_detail: None,
        };
        assert(request@.resource_names_subscribe =~= Seq::empty());
        assert(request@.resource_names_unsubscribe =~= Seq::empty());
        assert(request@.initial_resource_versions =~= Map::empty());
        request
    }
}

/// A request stands for all of its fields, each in full.
pub proof fn law_request_is_all_of_its_fields(
    request: DeltaDiscoveryRequest,
    i: int,
    name: Seq<char>,
)
    ensures
        request@.type_url == request.type_url@,
        request@.response_nonce == request.response_nonce@,
        request@.resource_names_subscribe.len() == request.resource_names_subscribe@.len(),
        0 <= i < request.resource_names_subscribe@.len() ==> request@.resource_names_subscribe[i]
            == request.resource_names_subscribe@[i]@,
        request@.resource_names_unsubscribe.len() == request.resource_names_unsubscribe@.len(),
        0 <= i < request.resource_names_unsubscribe@.len()
            ==> request@.resource_names_unsubscribe[i] == request.resource_names_unsubscribe@[i]@,
        request@.initial_resource_versions.contains_key(name)
            <==> request.initial_resource_versions@.contains_key(name),
        request.initial_resource_versions@.contains_key(name)
            ==> request@.initial_resource_versions[name]
            == request.initial_resource_versions@[name]@,
        request@.node is Some <==> request.node is Some,
        request.node matches Some(node) ==> request@.node->0 == node@,
        request@.error_detail is Some <==> request.error_detail is Some,
        request.error_detail matches Some(status) ==> request@.error_detail->0.code == status.code
            && request@.error_detail->0.message == status.message@,
{
}

/// A node stands for its identity and for all of its metadata.
pub proof fn law_node_is_identity_and_metadata(node: Node, key: Seq<char>)
    ensures
        node@.id == node.id@,
        node@.metadata is Some <==> node.metadata is Some,
        node.metadata matches Some(m) ==> (node@.metadata->0.contains_key(key)
            <==> m@.contains_key(key)) && (m@.contains_key(key) ==> node@.metadata->0[key]
            == m@[key]@),
{
}

/// A request in which nothing is set names nobody, asks for nothing and answers nothing.
pub proof fn law_empty_request_says_nothing(name: Seq<char>)
    ensures
        RequestView::empty().node is None,
        RequestView::empty().type_url.len() == 0,
        RequestView::empty().resource_names_subscribe.len() == 0,
        RequestView::empty().resource_names_unsubscribe.len() == 0,
        !RequestView::empty().initial_resource_versions.contains_key(name),
        RequestView::empty().response_nonce.len() == 0,
        RequestView::empty().error_detail is None,
{
}

} // verus!
