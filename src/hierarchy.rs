//! Assembly of the node hierarchy: each function is expanded into its
//! resolved calls, level by level, and a function already on the path from
//! the root is never expanded again.
use crate::calls::strings_view;
use crate::classify::contains_text;
use crate::contract_descriptor::{
    calls_view, copy_strings, inner_calls_of, resolve_calls, ContractDescriptorMeta, FunctionCalls,
};
use crate::function_info::{
    action_of, connection_type_of, infos_view, scope_of, FunctionInfo, FunctionInfoV,
};
use crate::md_api::lemma_conns_view;
use crate::objects::{conns_view, ActionType, ConnV, Connection, Node, NodeV, ScopeType};
use vstd::prelude::*;
use vstd::seq_lib::seq_to_set_is_finite;

verus! {

/// The names of the known functions.
pub open spec fn known_names(table: Seq<FunctionInfoV>) -> Set<Seq<char>> {
    table.map_values(|f: FunctionInfoV| f.name).to_set()
}

/// How many known names are not yet on the path.
pub open spec fn unexpanded(table: Seq<FunctionInfoV>, path: Set<Seq<char>>) -> nat {
    known_names(table).difference(path).len()
}

/// Whether a function is expanded into its calls: it is known and not
/// already on the path.
pub open spec fn expands(f: FunctionInfoV, table: Seq<FunctionInfoV>, path: Set<Seq<char>>) -> bool {
    known_names(table).contains(f.name) && !path.contains(f.name)
}

pub proof fn lemma_expansion_shrinks(
    f: FunctionInfoV,
    table: Seq<FunctionInfoV>,
    path: Set<Seq<char>>,
)
    requires
        expands(f, table, path),
    ensures
        unexpanded(table, path.insert(f.name)) < unexpanded(table, path),
{
    let names = known_names(table);
    seq_to_set_is_finite(table.map_values(|g: FunctionInfoV| g.name));
    let rest = names.difference(path);
    assert(names.difference(path.insert(f.name)) =~= rest.remove(f.name));
    assert(rest.contains(f.name));
    vstd::set::axiom_set_difference_finite(names, path);
    vstd::set::axiom_set_remove_len(rest, f.name);
}

#[via_fn]
proof fn node_of_decreases(
    f: FunctionInfoV,
    table: Seq<FunctionInfoV>,
    cs: Seq<(Seq<char>, Seq<Seq<char>>)>,
    path: Set<Seq<char>>,
) {
    if expands(f, table, path) {
        lemma_expansion_shrinks(f, table, path);
    }
}

/// The node of function `f` below the functions on `path`.
pub open spec fn node_of(
    f: FunctionInfoV,
    table: Seq<FunctionInfoV>,
    cs: Seq<(Seq<char>, Seq<Seq<char>>)>,
    path: Set<Seq<char>>,
) -> NodeV
    decreases unexpanded(table, path), 0nat,
    via node_of_decreases
{
    NodeV {
        name: f.name,
        scope: scope_of(f),
        action: action_of(f),
        connections: if expands(f, table, path) {
            conns_of(inner_calls_of(f.name, cs, table), table, cs, path.insert(f.name))
        } else {
            Seq::empty()
        },
    }
}

/// One connection per callee, in order, each to the callee's node.
pub open spec fn conns_of(
    callees: Seq<FunctionInfoV>,
    table: Seq<FunctionInfoV>,
    cs: Seq<(Seq<char>, Seq<Seq<char>>)>,
    path: Set<Seq<char>>,
) -> Seq<ConnV>
    decreases unexpanded(table, path), callees.len(),
{
    if callees.len() == 0 {
        Seq::empty()
    } else {
        conns_of(callees.drop_last(), table, cs, path) + seq![
            ConnV {
                connection_type: connection_type_of(callees.last()),
                node: node_of(callees.last(), table, cs, path),
            },
        ]
    }
}

/// The length of the longest root-to-leaf path of a tree.
pub open spec fn depth(n: NodeV) -> nat
    decreases n,
{
    1 + conns_depth(n.connections)
}

/// The greatest depth among the targets of some connections.
pub open spec fn conns_depth(cs: Seq<ConnV>) -> nat
    decreases cs,
{
    if cs.len() == 0 {
        0
    } else {
        let a = conns_depth(cs.drop_last());
        let b = depth(cs.last().node);
        if a >= b {
            a
        } else {
            b
        }
    }
}

/// A node is never deeper than one more than the number of known functions
/// not yet on its path: a call cycle is cut where it comes back to a
/// function on the path, so the hierarchy is finite.
pub proof fn lemma_node_depth_bounded(
    f: FunctionInfoV,
    table: Seq<FunctionInfoV>,
    cs: Seq<(Seq<char>, Seq<Seq<char>>)>,
    path: Set<Seq<char>>,
)
    ensures
        depth(node_of(f, table, cs, path)) <= unexpanded(table, path) + 1,
    decreases unexpanded(table, path), 0nat,
{
    if expands(f, table, path) {
        lemma_expansion_shrinks(f, table, path);
        lemma_conns_depth_bounded(inner_calls_of(f.name, cs, table), table, cs, path.insert(f.name));
    }
}

/// The targets of the connections built below a path are never deeper than
/// one more than the number of known functions not yet on the path.
pub proof fn lemma_conns_depth_bounded(
    callees: Seq<FunctionInfoV>,
    table: Seq<FunctionInfoV>,
    cs: Seq<(Seq<char>, Seq<Seq<char>>)>,
    path: Set<Seq<char>>,
)
    ensures
        conns_depth(conns_of(callees, table, cs, path)) <= unexpanded(table, path) + 1,
    decreases unexpanded(table, path), callees.len(),
{
    if callees.len() > 0 {
        let prefix = conns_of(callees.drop_last(), table, cs, path);
        let all = conns_of(callees, table, cs, path);
        lemma_conns_depth_bounded(callees.drop_last(), table, cs, path);
        lemma_node_depth_bounded(callees.last(), table, cs, path);
        assert(all.drop_last() =~= prefix);
    }
}

/// Each connection holds a node of its own, built for its callee below
/// the same path: a callee called from several places is materialized
/// once per call, as a separate subtree, never shared.
pub proof fn lemma_each_call_has_its_own_node(
    callees: Seq<FunctionInfoV>,
    table: Seq<FunctionInfoV>,
    cs: Seq<(Seq<char>, Seq<Seq<char>>)>,
    path: Set<Seq<char>>,
)
    ensures
        conns_of(callees, table, cs, path).len() == callees.len(),
        forall|i: int|
            0 <= i < callees.len() ==> #[trigger] conns_of(callees, table, cs, path)[i] == (ConnV {
                connection_type: connection_type_of(callees[i]),
                node: node_of(callees[i], table, cs, path),
            }),
    decreases callees.len(),
{
    if callees.len() > 0 {
        lemma_each_call_has_its_own_node(callees.drop_last(), table, cs, path);
        assert forall|i: int| 0 <= i < callees.len() - 1 implies callees.drop_last()[i]
            == callees[i] by {}
    }
}

/// The names on a path, as a set.
pub open spec fn path_set(path: Seq<String>) -> Set<Seq<char>> {
    strings_view(path).to_set()
}

/// Whether a function of that name is known.
pub fn is_known(name: &String, table: &Vec<FunctionInfo>) -> (r: bool)
    ensures
        r == known_names(infos_view(table@)).contains(name@),
{
    let ghost names = infos_view(table@).map_values(|g: FunctionInfoV| g.name);
    let mut i: usize = 0;
    while i < table.len()
        invariant
            i <= table.len(),
            names == infos_view(table@).map_values(|g: FunctionInfoV| g.name),
            forall|k: int| 0 <= k < i ==> names[k] != name@,
        decreases table.len() - i,
    {
        if table[i].name == *name {
            assert(names[i as int] == name@);
            return true;
        }
        i = i + 1;
    }
    false
}

/// Builds the node of `f` below the functions named on `path`.
pub fn build_node(
    f: &FunctionInfo,
    table: &Vec<FunctionInfo>,
    calls: &Vec<FunctionCalls>,
    path: &mut Vec<String>,
) -> (r: Node)
    ensures
        r@ == node_of(f@, infos_view(table@), calls_view(calls@), path_set(old(path)@)),
        final(path)@ == old(path)@,
    decreases unexpanded(infos_view(table@), path_set(path@)), 0nat,
{
    let ghost t = infos_view(table@);
    let ghost cs = calls_view(calls@);
    let ghost p = path_set(path@);
    let scope = f.scope_type();
    let action = f.action_type();
    let mut connections: Vec<Connection> = Vec::new();
    let expand = is_known(&f.name, table) && !contains_text(path, f.name.as_str());
    assert(expand == expands(f@, t, p));
    if expand {
        let callees = resolve_calls(&f.name, calls, table);
        path.push(f.name.clone());
        assert(strings_view(path@) =~= strings_view(old(path)@) + seq![f.name@]);
        proof {
            Seq::<Seq<char>>::lemma_to_set_insert_commutes(strings_view(old(path)@), f.name@);
        }
        assert(path_set(path@) =~= p.insert(f.name@));
        proof {
            lemma_expansion_shrinks(f@, t, p);
        }
        connections = build_connections(&callees, table, calls, path);
        path.pop();
        assert(path@ =~= old(path)@);
    }
    proof {
        lemma_conns_view(connections@);
    }
    Node { name: f.name.clone(), scope, action, connections }
}

/// Builds one connection per callee below the functions named on `path`.
pub fn build_connections(
    callees: &Vec<FunctionInfo>,
    table: &Vec<FunctionInfo>,
    calls: &Vec<FunctionCalls>,
    path: &mut Vec<String>,
) -> (r: Vec<Connection>)
    ensures
        conns_view(r@) == conns_of(
            infos_view(callees@),
            infos_view(table@),
            calls_view(calls@),
            path_set(old(path)@),
        ),
        final(path)@ == old(path)@,
    decreases unexpanded(infos_view(table@), path_set(path@)), callees.len(),
{
    let ghost t = infos_view(table@);
    let ghost cs = calls_view(calls@);
    let ghost p = path_set(path@);
    let ghost cv = infos_view(callees@);
    let mut result: Vec<Connection> = Vec::new();
    let mut i: usize = 0;
    while i < callees.len()
        invariant
            i <= callees.len(),
            path@ == old(path)@,
            p == path_set(path@),
            t == infos_view(table@),
            cs == calls_view(calls@),
            cv == infos_view(callees@),
            result.len() == i,
            conns_view(result@) == conns_of(cv.take(i as int), t, cs, p),
        decreases callees.len() - i,
    {
        let node = build_node(&callees[i], table, calls, path);
        let ghost before = result@;
        result.push(Connection { connection_type: callees[i].connection_type(), node });
        proof {
            lemma_conns_view(before);
            lemma_conns_view(result@);
            let prefix = cv.take(i + 1);
            assert(prefix.drop_last() =~= cv.take(i as int));
            assert(prefix.last() == callees@[i as int]@);
            assert forall|k: int| 0 <= k < i implies conns_view(result@)[k] == conns_view(
                before,
            )[k] by {
                assert(result@[k] == before[k]);
            }
            assert(conns_view(result@) =~= conns_of(prefix, t, cs, p));
        }
        i = i + 1;
    }
    assert(cv.take(i as int) =~= cv);
    result
}

/// The functions that appear at the top of the hierarchy: those declared
/// in an exposed block, in order.
pub open spec fn top_level(table: Seq<FunctionInfoV>) -> Seq<FunctionInfoV>
    decreases table.len(),
{
    if table.len() == 0 {
        Seq::empty()
    } else {
        top_level(table.drop_last()) + if table.last().is_out_of_contract_scope {
            Seq::empty()
        } else {
            seq![table.last()]
        }
    }
}

/// The root of the hierarchy of a table of known functions.
pub open spec fn hierarchy_of(table: Seq<FunctionInfoV>, cs: Seq<(Seq<char>, Seq<Seq<char>>)>) -> NodeV {
    NodeV {
        name: "Contract"@,
        scope: ScopeType::Contract,
        action: ActionType::NoAction,
        connections: conns_of(top_level(table), table, cs, Set::empty()),
    }
}

/// Builds the hierarchy of a table of known functions: a synthetic root
/// with one connection per function declared in an exposed block.
pub fn build_hierarchy(table: &Vec<FunctionInfo>, calls: &Vec<FunctionCalls>) -> (r: Node)
    ensures
        r@ == hierarchy_of(infos_view(table@), calls_view(calls@)),
{
    let ghost t = infos_view(table@);
    let mut roots: Vec<FunctionInfo> = Vec::new();
    let mut i: usize = 0;
    while i < table.len()
        invariant
            i <= table.len(),
            t == infos_view(table@),
            infos_view(roots@) == top_level(t.take(i as int)),
        decreases table.len() - i,
    {
        assert(t.take(i + 1).drop_last() =~= t.take(i as int));
        if !table[i].is_out_of_contract_scope {
            roots.push(table[i].flat_copy());
        }
        assert(infos_view(roots@) =~= top_level(t.take(i + 1)));
        i = i + 1;
    }
    assert(t.take(i as int) =~= t);
    let mut path: Vec<String> = Vec::new();
    assert(path_set(path@) =~= Set::<Seq<char>>::empty());
    let connections = build_connections(&roots, table, calls, &mut path);
    let name = String::from_str("Contract");
    Node { name, scope: ScopeType::Contract, action: ActionType::NoAction, connections }
}

/// The table of every known function: the functions of each file, file
/// after file.
pub open spec fn table_of(metas: Seq<ContractDescriptorMeta>) -> Seq<FunctionInfoV>
    decreases metas.len(),
{
    if metas.len() == 0 {
        Seq::empty()
    } else {
        table_of(metas.drop_last()) + infos_view(metas.last().fns@)
    }
}

/// The raw calls of every function, file after file.
pub open spec fn calls_table_of(metas: Seq<ContractDescriptorMeta>) -> Seq<
    (Seq<char>, Seq<Seq<char>>),
>
    decreases metas.len(),
{
    if metas.len() == 0 {
        Seq::empty()
    } else {
        calls_table_of(metas.drop_last()) + calls_view(metas.last().connections@)
    }
}

/// Gathers the functions and the raw calls of every file into one table each.
pub fn gather_tables(metas: &Vec<ContractDescriptorMeta>) -> (r: (
    Vec<FunctionInfo>,
    Vec<FunctionCalls>,
))
    ensures
        infos_view(r.0@) == table_of(metas@),
        calls_view(r.1@) == calls_table_of(metas@),
{
    let mut table: Vec<FunctionInfo> = Vec::new();
    let mut calls: Vec<FunctionCalls> = Vec::new();
    let mut i: usize = 0;
    while i < metas.len()
        invariant
            i <= metas.len(),
            infos_view(table@) == table_of(metas@.take(i as int)),
            calls_view(calls@) == calls_table_of(metas@.take(i as int)),
        decreases metas.len() - i,
    {
        let meta = &metas[i];
        assert(metas@.take(i + 1).drop_last() =~= metas@.take(i as int));
        let ghost table_before = infos_view(table@);
        assert(table.len() == table_before.len());
        let mut j: usize = 0;
        while j < meta.fns.len()
            invariant
                j <= meta.fns.len(),
                table.len() == table_before.len() + j,
                infos_view(table@) == table_before + infos_view(meta.fns@).take(j as int),
            decreases meta.fns.len() - j,
        {
            let ghost prev = table@;
            let copy = meta.fns[j].flat_copy();
            let ghost copy_view = copy@;
            table.push(copy);
            let ghost rhs = table_before + infos_view(meta.fns@).take(j + 1);
            assert forall|n: int| 0 <= n < table.len() implies infos_view(table@)[n] == rhs[n] by {
                if n < table.len() - 1 {
                    assert(table@[n] == prev[n]);
                    assert(infos_view(prev)[n] == (table_before + infos_view(meta.fns@).take(
                        j as int,
                    ))[n]);
                } else {
                    assert(table@[n]@ == copy_view);
                    assert(copy_view == infos_view(meta.fns@)[j as int]);
                }
            }
            assert(infos_view(table@) =~= rhs);
            j = j + 1;
        }
        assert(infos_view(meta.fns@).take(j as int) =~= infos_view(meta.fns@));
        let ghost calls_before = calls_view(calls@);
        assert(calls.len() == calls_before.len());
        let mut k: usize = 0;
        while k < meta.connections.len()
            invariant
                k <= meta.connections.len(),
                calls.len() == calls_before.len() + k,
                calls_view(calls@) == calls_before + calls_view(meta.connections@).take(k as int),
            decreases meta.connections.len() - k,
        {
            let c = &meta.connections[k];
            let ghost prev = calls@;
            let entry = FunctionCalls { name: c.name.clone(), calls: copy_strings(&c.calls) };
            let ghost entry_view = (entry.name@, strings_view(entry.calls@));
            calls.push(entry);
            let ghost rhs = calls_before + calls_view(meta.connections@).take(k + 1);
            assert forall|n: int| 0 <= n < calls.len() implies calls_view(calls@)[n] == rhs[n] by {
                if n < calls.len() - 1 {
                    assert(calls@[n] == prev[n]);
                    assert(calls_view(prev)[n] == (calls_before + calls_view(
                        meta.connections@,
                    ).take(k as int))[n]);
                } else {
                    assert(calls@[n] == calls@.last());
                    assert(entry_view == calls_view(meta.connections@)[k as int]);
                }
            }
            assert(calls_view(calls@) =~= rhs);
            k = k + 1;
        }
        assert(calls_view(meta.connections@).take(k as int) =~= calls_view(meta.connections@));
        i = i + 1;
    }
    assert(metas@.take(i as int) =~= metas@);
    (table, calls)
}

} // verus!
