//! How the client names itself to the server.
use crate::message::{Node, NodeView};
use crate::table::{Table, pairs_map};
use crate::text::{insert_all, text_values};
use vstd::prelude::*;

verus! {

/// The variable with the address of the instance.
pub const INSTANCE_IP: &'static str = "INSTANCE_IP";

/// The metadata key of the address of the instance.
pub const INSTANCE_IPS: &'static str = "INSTANCE_IPS";

/// The address of an instance that does not know its own.
pub const DEFAULT_IP: &'static str = "1.1.1.1";

/// The variable with the name of the pod.
pub const POD_NAME: &'static str = "POD_NAME";

/// The variable with the namespace of the pod.
pub const POD_NAMESPACE: &'static str = "POD_NAMESPACE";

/// The variable with the name of the machine, and its metadata key.
pub const NODE_NAME: &'static str = "NODE_NAME";

/// The metadata key of the name of the pod.
pub const NAME: &'static str = "NAME";

/// The metadata key of the namespace of the pod.
pub const NAMESPACE: &'static str = "NAMESPACE";

/// What the environment says of the client. A variable that is not set, or is no text, is
/// missing here.
#[derive(Debug, PartialEq, Eq)]
pub struct NodeEnvironment {
    pub instance_ip: Option<String>,
    pub pod_name: Option<String>,
    pub pod_namespace: Option<String>,
    pub node_name: Option<String>,
}

/// The text, or a default where it is missing.
pub open spec fn text_or(text: Option<String>, default: Seq<char>) -> Seq<char> {
    match text {
        Some(t) => t@,
        None => default,
    }
}

impl NodeEnvironment {
    /// The address of the instance.
    pub open spec fn ip(self) -> Seq<char> {
        text_or(self.instance_ip, DEFAULT_IP@)
    }

    /// The name of the pod.
    pub open spec fn pod(self) -> Seq<char> {
        text_or(self.pod_name, Seq::empty())
    }

    /// The namespace of the pod.
    pub open spec fn namespace(self) -> Seq<char> {
        text_or(self.pod_namespace, Seq::empty())
    }

    /// The name of the machine.
    pub open spec fn machine(self) -> Seq<char> {
        text_or(self.node_name, Seq::empty())
    }

    /// The identity of the node.
    pub open spec fn node_id(self) -> Seq<char> {
        "ztunnel~"@ + self.ip() + "~"@ + self.pod() + "."@ + self.namespace() + "~"@
            + self.namespace() + ".svc.cluster.local"@
    }

    /// What the environment puts into the metadata of the node.
    pub open spec fn own_metadata(self) -> Map<Seq<char>, Seq<char>> {
        Map::empty().insert(NAME@, self.pod()).insert(NAMESPACE@, self.namespace()).insert(
            INSTANCE_IPS@,
            self.ip(),
        ).insert(NODE_NAME@, self.machine())
    }

    /// The node, with what the proxy adds to its metadata. What the proxy adds goes before what
    /// the environment says.
    pub open spec fn node(self, proxy_metadata: Map<Seq<char>, Seq<char>>) -> NodeView {
        NodeView {
            id: self.node_id(),
            metadata: Some(self.own_metadata().union_prefer_right(proxy_metadata)),
        }
    }
}

/// Copies a text, or a default where it is missing.
fn copy_or(text: &Option<String>, default: &str) -> (copy: String)
    ensures
        copy@ == text_or(*text, default@),
{
    match text {
        Some(t) => t.clone(),
        None => default.to_owned(),
    }
}

/// Makes metadata of pairs of a key and a value. Of two pairs with one key, the later counts.
pub fn build_struct(pairs: &Vec<(String, String)>) -> (fields: Table<String, String>)
    ensures
        fields@ == pairs_map(pairs@),
{
    let mut fields: Table<String, String> = Table::new();
    insert_all(&mut fields, pairs);
    assert(Map::<Seq<char>, String>::empty().union_prefer_right(pairs_map(pairs@)) =~= pairs_map(
        pairs@,
    ));
    fields
}

/// Makes the node from the environment and from what the proxy adds to its metadata.
pub fn build_node(
    environment: &NodeEnvironment,
    proxy_metadata: &Table<String, String>,
) -> (node: Node)
    ensures
        node@ == environment.node(text_values(proxy_metadata@)),
{
    let ip = copy_or(&environment.instance_ip, DEFAULT_IP);
    let pod_name = copy_or(&environment.pod_name, "");
    let ns = copy_or(&environment.pod_namespace, "");
    let node_name = copy_or(&environment.node_name, "");
    proof {
        reveal_strlit("");
        assert(""@ =~= Seq::empty());
    }
    let id = "ztunnel~".to_owned().concat(ip.as_str()).concat("~").concat(
        pod_name.as_str(),
    ).concat(".").concat(ns.as_str()).concat("~").concat(ns.as_str()).concat(".svc.cluster.local");
    let mut pairs: Vec<(String, String)> = Vec::new();
    pairs.push((NAME.to_owned(), pod_name));
    pairs.push((NAMESPACE.to_owned(), ns));
    pairs.push((INSTANCE_IPS.to_owned(), ip));
    pairs.push((NODE_NAME.to_owned(), node_name));
    let mut metadata = build_struct(&pairs);
    proof {
        reveal_with_fuel(pairs_map, 5);
        assert(text_values(metadata@) =~= environment.own_metadata());
    }
    insert_all(&mut metadata, proxy_metadata.entries());
    assert(text_values(metadata@) =~= environment.own_metadata().union_prefer_right(
        text_values(proxy_metadata@),
    ));
    Node { id, metadata: Some(metadata) }
}

/// What the proxy adds to the metadata stands there as the proxy has it, also under the keys that
/// the environment fills.
pub proof fn law_proxy_metadata_wins(
    environment: NodeEnvironment,
    proxy_metadata: Map<Seq<char>, Seq<char>>,
    key: Seq<char>,
)
    requires
        proxy_metadata.contains_key(key),
    ensures
        environment.node(proxy_metadata).metadata matches Some(m) && m.contains_key(key) && m[key]
            == proxy_metadata[key],
{
}

/// Where the proxy adds nothing under a key, the metadata holds what the environment says under
/// it, and nothing if it says nothing.
pub proof fn law_environment_fills_the_rest(
    environment: NodeEnvironment,
    proxy_metadata: Map<Seq<char>, Seq<char>>,
    key: Seq<char>,
)
    requires
        !proxy_metadata.contains_key(key),
    ensures
        environment.node(proxy_metadata).metadata matches Some(m) && (m.contains_key(key)
            <==> key == NAME@ || key == NAMESPACE@ || key == INSTANCE_IPS@ || key == NODE_NAME@)
            && (key == NAME@ ==> m[key] == environment.pod()) && (key == NAMESPACE@ ==> m[key]
            == environment.namespace()) && (key == INSTANCE_IPS@ ==> m[key] == environment.ip())
            && (key == NODE_NAME@ ==> m[key] == environment.machine()),
{
    reveal_strlit("NAME");
    reveal_strlit("NAMESPACE");
    reveal_strlit("INSTANCE_IPS");
    reveal_strlit("NODE_NAME");
    assert(NAME@.len() == 4 && NAMESPACE@.len() == 9 && INSTANCE_IPS@.len() == 12
        && NODE_NAME@.len() == 9);
    assert(NAMESPACE@[1] == 'A' && NODE_NAME@[1] == 'O');
}

/// The identity of the node is made of its address, its pod and twice its namespace. An address
/// that is missing is `1.1.1.1`, and other texts that are missing are empty.
pub proof fn law_node_is_identified(
    environment: NodeEnvironment,
    proxy_metadata: Map<Seq<char>, Seq<char>>,
)
    ensures
        ({
            let ip = match environment.instance_ip {
                Some(text) => text@,
                None => "1.1.1.1"@,
            };
            let pod = match environment.pod_name {
                Some(text) => text@,
                None => Seq::empty(),
            };
            let namespace = match environment.pod_namespace {
                Some(text) => text@,
                None => Seq::empty(),
            };
            environment.node(proxy_metadata).id == "ztunnel~"@ + ip + "~"@ + pod + "."@ + namespace
                + "~"@ + namespace + ".svc.cluster.local"@
        }),
{
}

/// The metadata holds what the proxy adds, and under `NAME`, `NAMESPACE`, `INSTANCE_IPS` and
/// `NODE_NAME` what the environment says where the proxy adds nothing there, and nothing else.
pub proof fn law_node_metadata_is_complete(
    environment: NodeEnvironment,
    proxy_metadata: Map<Seq<char>, Seq<char>>,
    key: Seq<char>,
)
    ensures
        environment.node(proxy_metadata).metadata is Some,
        ({
            let m = environment.node(proxy_metadata).metadata->0;
            let own = !proxy_metadata.contains_key(key);
            &&& m.contains_key(key) <==> proxy_metadata.contains_key(key) || key == "NAME"@ || key
                == "NAMESPACE"@ || key == "INSTANCE_IPS"@ || key == "NODE_NAME"@
            &&& !own ==> m[key] == proxy_metadata[key]
            &&& own && key == "NAME"@ ==> m[key] == match environment.pod_name {
                Some(text) => text@,
                None => Seq::empty(),
            }
            &&& own && key == "NAMESPACE"@ ==> m[key] == match environment.pod_namespace {
                Some(text) => text@,
                None => Seq::empty(),
            }
            &&& own && key == "INSTANCE_IPS"@ ==> m[key] == match environment.instance_ip {
                Some(text) => text@,
                None => "1.1.1.1"@,
            }
            &&& own && key == "NODE_NAME"@ ==> m[key] == match environment.node_name {
                Some(text) => text@,
                None => Seq::empty(),
            }
        }),
{
    if proxy_metadata.contains_key(key) {
        law_proxy_metadata_wins(environment, proxy_metadata, key);
    } else {
        law_environment_fills_the_rest(environment, proxy_metadata, key);
    }
}

/// The variables from which the environment is read.
pub proof fn law_variables_have_their_names()
    ensures
        INSTANCE_IP@ == "INSTANCE_IP"@,
        POD_NAME@ == "POD_NAME"@,
        POD_NAMESPACE@ == "POD_NAMESPACE"@,
        NODE_NAME@ == "NODE_NAME"@,
{
}

} // verus!
