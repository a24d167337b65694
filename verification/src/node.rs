use vstd::prelude::*;
use vstd::string::StringExecFns;

verus! {

/// A broker node as the cluster knows it.
#[derive(Debug, PartialEq, Eq)]
pub struct BrokerNode {
    pub node_id: u64,
    pub node_ip: String,
}

/// A broker node as a reply carries it.
#[derive(Debug, PartialEq, Eq)]
pub struct BrokerNodeRaw {
    pub node_id: u64,
    pub node_ip: String,
}

impl Clone for BrokerNode {
    fn clone(&self) -> (out: Self)
        ensures
            out == *self,
    {
        BrokerNode { node_id: self.node_id, node_ip: self.node_ip.clone() }
    }
}

impl From<BrokerNode> for BrokerNodeRaw {
    fn from(node: BrokerNode) -> (raw: BrokerNodeRaw) {
        BrokerNodeRaw { node_id: node.node_id, node_ip: node.node_ip }
    }
}

impl vstd::std_specs::convert::FromSpecImpl<BrokerNode> for BrokerNodeRaw {
    open spec fn obeys_from_spec() -> bool {
        true
    }

    open spec fn from_spec(node: BrokerNode) -> BrokerNodeRaw {
        BrokerNodeRaw { node_id: node.node_id, node_ip: node.node_ip }
    }
}

/// The reply's form of a node.
pub open spec fn raw_of(node: BrokerNode) -> BrokerNodeRaw {
    BrokerNodeRaw { node_id: node.node_id, node_ip: node.node_ip }
}

/// The reply's form of each node, in order.
pub open spec fn raws_of(nodes: Seq<BrokerNode>) -> Seq<BrokerNodeRaw> {
    Seq::new(nodes.len(), |i: int| raw_of(nodes[i]))
}

/// Converts each node into the reply's form.
pub fn to_raw_nodes(nodes: &Vec<BrokerNode>) -> (out: Vec<BrokerNodeRaw>)
    ensures
        out@ == raws_of(nodes@),
{
    let mut out: Vec<BrokerNodeRaw> = Vec::new();
    let mut i: usize = 0;
    while i < nodes.len()
        invariant
            i <= nodes.len(),
            out@ == raws_of(nodes@).subrange(0, i as int),
        decreases nodes.len() - i,
    {
        let raw = BrokerNodeRaw::from(nodes[i].clone());
        out.push(raw);
        assert(out@ =~= raws_of(nodes@).subrange(0, i + 1));
        i = i + 1;
    }
    assert(raws_of(nodes@).subrange(0, i as int) =~= raws_of(nodes@));
    out
}

/// The text of one decimal digit.
pub open spec fn digit_text(d: nat) -> Seq<char> {
    if d == 0 {
        "0"@
    } else if d == 1 {
        "1"@
    } else if d == 2 {
        "2"@
    } else if d == 3 {
        "3"@
    } else if d == 4 {
        "4"@
    } else if d == 5 {
        "5"@
    } else if d == 6 {
        "6"@
    } else if d == 7 {
        "7"@
    } else if d == 8 {
        "8"@
    } else {
        "9"@
    }
}

/// The decimal text of a number, without leading zeros.
pub open spec fn decimal_text(n: nat) -> Seq<char>
    decreases n,
{
    if n < 10 {
        digit_text(n)
    } else {
        decimal_text(n / 10) + digit_text(n % 10)
    }
}

/// The label under which a node is shown: its address, `@`, and its identifier in
/// decimal.
pub open spec fn label_text(node: BrokerNode) -> Seq<char> {
    node.node_ip@ + "@"@ + decimal_text(node.node_id as nat)
}

/// The labels of the nodes, in order.
pub open spec fn labels_of(nodes: Seq<BrokerNode>) -> Seq<Seq<char>> {
    Seq::new(nodes.len(), |i: int| label_text(nodes[i]))
}

/// The texts of the strings of a vector, in order.
pub open spec fn texts_of(strings: Seq<String>) -> Seq<Seq<char>> {
    Seq::new(strings.len(), |i: int| strings[i]@)
}

fn digit(d: u64) -> (s: &'static str)
    requires
        d < 10,
    ensures
        s@ == digit_text(d as nat),
{
    if d == 0 {
        "0"
    } else if d == 1 {
        "1"
    } else if d == 2 {
        "2"
    } else if d == 3 {
        "3"
    } else if d == 4 {
        "4"
    } else if d == 5 {
        "5"
    } else if d == 6 {
        "6"
    } else if d == 7 {
        "7"
    } else if d == 8 {
        "8"
    } else {
        "9"
    }
}

/// The decimal text of `n`.
pub fn decimal(n: u64) -> (s: String)
    ensures
        s@ == decimal_text(n as nat),
    decreases n,
{
    if n < 10 {
        String::from_str(digit(n))
    } else {
        let mut s = decimal(n / 10);
        s.append(digit(n % 10));
        s
    }
}

impl BrokerNode {
    /// The label under which the node is shown.
    pub fn label(&self) -> (s: String)
        ensures
            s@ == label_text(*self),
    {
        let mut s = self.node_ip.clone();
        s.append("@");
        let id = decimal(self.node_id);
        s.append(id.as_str());
        s
    }
}

/// The labels under which the nodes are shown, in order.
pub fn broker_node_labels(nodes: &Vec<BrokerNode>) -> (labels: Vec<String>)
    ensures
        texts_of(labels@) == labels_of(nodes@),
{
    let mut labels: Vec<String> = Vec::new();
    let mut i: usize = 0;
    while i < nodes.len()
        invariant
            i <= nodes.len(),
            texts_of(labels@) == labels_of(nodes@).subrange(0, i as int),
        decreases nodes.len() - i,
    {
        let label = nodes[i].label();
        let ghost earlier = labels@;
        labels.push(label);
        assert(texts_of(labels@) =~= texts_of(earlier).push(label@));
        assert(texts_of(labels@) =~= labels_of(nodes@).subrange(0, i + 1));
        i = i + 1;
    }
    assert(labels_of(nodes@).subrange(0, i as int) =~= labels_of(nodes@));
    labels
}

} // verus!
