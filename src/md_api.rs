//! The walk over a node hierarchy that writes it in a markup syntax:
//! breadth first, one line per connection.
use crate::markdown::opt_text;
use crate::objects::{conns_view, ConnV, Connection, Node, NodeV};
use crate::shapes::{extra_count, FlowDirection};
use crate::syntax::CoreSyntaxFunctions;
use vstd::prelude::*;

verus! {

/// A piece of the hierarchy that can write itself into a schema.
pub trait DiagramObject<T: CoreSyntaxFunctions> {
    /// The markup the object writes, under an optional identifier and
    /// lengthened by `extra` glyphs.
    spec fn object_markup(&self, id: Option<Seq<char>>, extra: nat) -> Seq<char>;

    fn add_object_to_schema(&self, schema: &mut T, id: Option<&str>, extra_length_num: Option<u8>)
        ensures
            final(schema).markup() == old(schema).markup() + self.object_markup(
                opt_text(id),
                extra_count(extra_length_num),
            ),
    ;
}

impl<T: CoreSyntaxFunctions> DiagramObject<T> for Node {
    open spec fn object_markup(&self, id: Option<Seq<char>>, extra: nat) -> Seq<char> {
        T::node_markup(
            match id {
                Some(i) => i,
                None => self.name@,
            },
            self@,
        )
    }

    fn add_object_to_schema(&self, schema: &mut T, id: Option<&str>, extra_length_num: Option<u8>) {
        let config = schema.build_node_config(self, id);
        schema.add_node(config);
    }
}

impl<T: CoreSyntaxFunctions> DiagramObject<T> for Connection {
    open spec fn object_markup(&self, id: Option<Seq<char>>, extra: nat) -> Seq<char> {
        T::connection_markup(self.connection_type, extra)
    }

    fn add_object_to_schema(&self, schema: &mut T, id: Option<&str>, extra_length_num: Option<u8>) {
        let config = schema.build_connection_config(self, extra_length_num);
        schema.add_connection(config);
    }
}

/// The line written for one connection of a node: the node, the
/// connection, its target and a line break.
pub open spec fn connection_line<T: CoreSyntaxFunctions>(n: NodeV, c: ConnV) -> Seq<char> {
    T::node_markup(n.name, n) + T::connection_markup(c.connection_type, 0) + T::node_markup(
        c.node.name,
        c.node,
    ) + T::linebreak_markup(1)
}

/// The lines written for the connections `cs` of node `n`, in order.
pub open spec fn connection_lines<T: CoreSyntaxFunctions>(n: NodeV, cs: Seq<ConnV>) -> Seq<char>
    decreases cs.len(),
{
    if cs.len() == 0 {
        Seq::empty()
    } else {
        connection_lines::<T>(n, cs.drop_last()) + connection_line::<T>(n, cs.last())
    }
}

/// The lines written for one node: one per connection.
pub open spec fn node_lines<T: CoreSyntaxFunctions>(n: NodeV) -> Seq<char> {
    connection_lines::<T>(n, n.connections)
}

/// The targets of the connections of a node, in order.
pub open spec fn children(n: NodeV) -> Seq<NodeV> {
    n.connections.map_values(|c: ConnV| c.node)
}

/// The number of nodes in a tree.
pub open spec fn tree_size(n: NodeV) -> nat
    decreases n,
{
    1 + conns_size(n.connections)
}

/// The number of nodes under a sequence of connections.
pub open spec fn conns_size(cs: Seq<ConnV>) -> nat
    decreases cs,
{
    if cs.len() == 0 {
        0
    } else {
        tree_size(cs[0].node) + conns_size(cs.subrange(1, cs.len() as int))
    }
}

/// The number of nodes in the trees of a queue.
pub open spec fn queue_size(q: Seq<NodeV>) -> nat
    decreases q.len(),
{
    if q.len() == 0 {
        0
    } else {
        tree_size(q[0]) + queue_size(q.subrange(1, q.len() as int))
    }
}

pub proof fn lemma_queue_size_append(a: Seq<NodeV>, b: Seq<NodeV>)
    ensures
        queue_size(a + b) == queue_size(a) + queue_size(b),
    decreases a.len(),
{
    if a.len() > 0 {
        assert((a + b).subrange(1, (a + b).len() as int) =~= a.subrange(1, a.len() as int) + b);
        lemma_queue_size_append(a.subrange(1, a.len() as int), b);
    } else {
        assert(a + b =~= b);
    }
}

pub proof fn lemma_queue_size_children(cs: Seq<ConnV>)
    ensures
        queue_size(cs.map_values(|c: ConnV| c.node)) == conns_size(cs),
    decreases cs.len(),
{
    if cs.len() > 0 {
        let rest = cs.subrange(1, cs.len() as int);
        let m = cs.map_values(|c: ConnV| c.node);
        assert(m.subrange(1, m.len() as int) =~= rest.map_values(|c: ConnV| c.node));
        lemma_queue_size_children(rest);
    }
}

/// Taking the first node off a queue and adding its children leaves one
/// node fewer in the queue's trees.
pub proof fn lemma_queue_step(q: Seq<NodeV>)
    requires
        q.len() > 0,
    ensures
        queue_size(q.subrange(1, q.len() as int) + children(q[0])) + 1 == queue_size(q),
{
    lemma_queue_size_append(q.subrange(1, q.len() as int), children(q[0]));
    lemma_queue_size_children(q[0].connections);
}

#[via_fn]
proof fn bfs_lines_decreases<T: CoreSyntaxFunctions>(queue: Seq<NodeV>) {
    if queue.len() > 0 {
        lemma_queue_step(queue);
    }
}

/// The lines written for a queue of nodes taken breadth first: the first
/// node's lines, then those of the rest of the queue with its children
/// added at the back.
pub open spec fn bfs_lines<T: CoreSyntaxFunctions>(queue: Seq<NodeV>) -> Seq<char>
    decreases queue_size(queue),
    via bfs_lines_decreases::<T>
{
    if queue.len() == 0 {
        Seq::empty()
    } else {
        node_lines::<T>(queue[0]) + bfs_lines::<T>(
            queue.subrange(1, queue.len() as int) + children(queue[0]),
        )
    }
}

/// The markup written for a whole hierarchy.
pub open spec fn hierarchy_lines<T: CoreSyntaxFunctions>(root: NodeV) -> Seq<char> {
    bfs_lines::<T>(seq![root])
}

/// The values of a queue of nodes.
pub open spec fn views(q: Seq<&Node>) -> Seq<NodeV> {
    q.map_values(|n: &Node| n@)
}

pub proof fn lemma_conns_view(cs: Seq<Connection>)
    ensures
        conns_view(cs).len() == cs.len(),
        forall|i: int| 0 <= i < cs.len() ==> #[trigger] conns_view(cs)[i] == cs[i]@,
    decreases cs.len(),
{
    if cs.len() > 0 {
        lemma_conns_view(cs.subrange(1, cs.len() as int));
    }
}

impl Node {
    /// Writes one line per connection of this node.
    pub fn parse_node<T: CoreSyntaxFunctions>(&self, schema: &mut T)
        ensures
            final(schema).markup() == old(schema).markup() + node_lines::<T>(self@),
    {
        proof {
            lemma_conns_view(self.connections@);
        }
        let ghost n = self@;
        let mut i: usize = 0;
        while i < self.connections.len()
            invariant
                i <= self.connections.len(),
                n == self@,
                n.connections.len() == self.connections.len(),
                forall|k: int|
                    0 <= k < self.connections.len() ==> #[trigger] n.connections[k]
                        == self.connections@[k]@,
                schema.markup() == old(schema).markup() + connection_lines::<T>(
                    n,
                    n.connections.take(i as int),
                ),
            decreases self.connections.len() - i,
        {
            let connection = &self.connections[i];
            self.add_object_to_schema(schema, None, None);
            connection.add_object_to_schema(schema, None, None);
            connection.node.add_object_to_schema(schema, None, None);
            schema.add_linebreak(None);
            assert(n.connections.take(i + 1).drop_last() =~= n.connections.take(i as int));
            i = i + 1;
        }
        assert(n.connections.take(i as int) =~= n.connections);
    }

    /// Writes the lines of every node of this hierarchy, breadth first.
    pub fn traverse<T: CoreSyntaxFunctions>(&self, schema: &mut T)
        ensures
            final(schema).markup() == old(schema).markup() + hierarchy_lines::<T>(self@),
    {
        let mut queue: Vec<&Node> = Vec::new();
        queue.push(self);
        let mut head: usize = 0;
        assert(views(queue@.subrange(0, 1)) =~= seq![self@]);
        while head < queue.len()
            invariant
                head <= queue.len(),
                old(schema).markup() + hierarchy_lines::<T>(self@) == schema.markup() + bfs_lines::<
                    T,
                >(views(queue@.subrange(head as int, queue.len() as int))),
            decreases queue_size(views(queue@.subrange(head as int, queue.len() as int))),
        {
            let ghost before = schema.markup();
            let ghost q = views(queue@.subrange(head as int, queue.len() as int));
            let ghost old_queue = queue@;
            let node: &Node = queue[head];
            assert(q[0] == node@);
            node.parse_node(schema);
            proof {
                lemma_conns_view(node.connections@);
            }
            let mut j: usize = 0;
            while j < node.connections.len()
                invariant
                    j <= node.connections.len(),
                    head < old_queue.len(),
                    queue@ == old_queue + node.connections@.take(j as int).map_values(
                        |c: Connection| &c.node,
                    ),
                decreases node.connections.len() - j,
            {
                queue.push(&node.connections[j].node);
                j = j + 1;
                assert(queue@ =~= old_queue + node.connections@.take(j as int).map_values(
                    |c: Connection| &c.node,
                ));
            }
            head = head + 1;
            proof {
                let rest = views(queue@.subrange(head as int, queue.len() as int));
                assert(node.connections@.take(j as int) =~= node.connections@);
                assert(rest =~= q.subrange(1, q.len() as int) + children(q[0]));
                lemma_queue_step(q);
                assert(before + bfs_lines::<T>(q) =~= before + node_lines::<T>(q[0]) + bfs_lines::<
                    T,
                >(rest));
            }
        }
    }
}

/// A hierarchy and the schema it is written into.
pub struct MdAPI<T: CoreSyntaxFunctions> {
    schema: T,
    hierarchy_root: Node,
}

impl<T: CoreSyntaxFunctions> MdAPI<T> {
    /// The markup written so far.
    pub closed spec fn written(&self) -> Seq<char> {
        self.schema.markup()
    }

    /// The hierarchy to be written.
    pub closed spec fn root(&self) -> NodeV {
        self.hierarchy_root@
    }

    pub fn new(flow_direction: FlowDirection, hierarchy_root: Node) -> (r: Self)
        ensures
            r.written() == T::header(flow_direction),
            r.root() == hierarchy_root@,
    {
        MdAPI { schema: T::new(flow_direction), hierarchy_root }
    }

    /// Writes the hierarchy after what was written so far and returns the whole markup.
    pub fn parse_hierarchy(&mut self) -> (r: String)
        ensures
            r@ == old(self).written() + hierarchy_lines::<T>(old(self).root()),
            final(self).written() == r@,
            final(self).root() == old(self).root(),
    {
        self.hierarchy_root.traverse(&mut self.schema);
        self.schema.return_schema()
    }
}

} // verus!
