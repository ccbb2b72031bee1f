//! The source scanner's records and the call resolver: raw call names are
//! matched by exact name against the table of known functions.
use crate::calls::{calls_in_body, calls_of_all, strings_view, Expr};
use crate::classify::{fn_info, metadata_fn_struct, method_info, ImplItemMethodInfo, ItemFnInfo};
use crate::function_info::{infos_view, inner_calls_view, FunctionInfo, FunctionInfoV};
use crate::hierarchy::{gather_tables, table_of};
use vstd::prelude::*;

verus! {

/// The raw, unresolved call names found in the body of one function.
#[derive(Debug)]
pub struct FunctionCalls {
    pub name: String,
    pub calls: Vec<String>,
}

/// The value of a list of raw call lists: each function name with its calls.
pub open spec fn calls_view(cs: Seq<FunctionCalls>) -> Seq<(Seq<char>, Seq<Seq<char>>)> {
    cs.map_values(|c: FunctionCalls| (c.name@, strings_view(c.calls@)))
}

/// What the scan of one file found.
#[derive(Debug)]
pub struct ContractDescriptorMeta {
    /// The record of every function, in declaration order
    pub fns: Vec<FunctionInfo>,
    /// The raw calls of every function, in declaration order
    pub connections: Vec<FunctionCalls>,
}

/// What the scan of every file found, with calls resolved.
#[derive(Debug)]
pub struct ContractInfo {
    pub contract_metadata: Vec<ContractDescriptorMeta>,
}

/// A function declared in a file, with its body.
#[derive(Debug)]
pub enum Declaration {
    /// A method of an `impl` block
    Method(ImplItemMethodInfo, Vec<Expr>),
    /// A free function
    Function(ItemFnInfo, Vec<Expr>),
}

pub open spec fn decl_info(d: Declaration) -> FunctionInfoV {
    match d {
        Declaration::Method(m, _) => method_info(m),
        Declaration::Function(f, _) => fn_info(f),
    }
}

pub open spec fn decl_calls(d: Declaration) -> (Seq<char>, Seq<Seq<char>>) {
    match d {
        Declaration::Method(m, body) => (m.attr_signature_info.ident@, calls_of_all(body@)),
        Declaration::Function(f, body) => (f.attr_signature_info.ident@, calls_of_all(body@)),
    }
}

/// The raw calls recorded for the first function of that name; none when
/// no function of that name was scanned.
pub open spec fn raw_calls_of(name: Seq<char>, cs: Seq<(Seq<char>, Seq<Seq<char>>)>) -> Seq<
    Seq<char>,
>
    decreases cs.len(),
{
    if cs.len() == 0 {
        Seq::empty()
    } else if cs[0].0 == name {
        cs[0].1
    } else {
        raw_calls_of(name, cs.subrange(1, cs.len() as int))
    }
}

/// Whether a call by `name` may target `f`: the names are equal and `f`
/// neither accepts a value nor initializes.
pub open spec fn can_target(f: FunctionInfoV, name: Seq<char>) -> bool {
    f.name == name && !f.is_payable && !f.is_init
}

/// The first known function that a call by `name` may target.
pub open spec fn find_callee(name: Seq<char>, table: Seq<FunctionInfoV>) -> Option<FunctionInfoV>
    decreases table.len(),
{
    if table.len() == 0 {
        None
    } else if can_target(table[0], name) {
        Some(table[0])
    } else {
        find_callee(name, table.subrange(1, table.len() as int))
    }
}

/// The known functions that a list of call names reaches, in call order;
/// names without a target are dropped.
pub open spec fn resolve_names(names: Seq<Seq<char>>, table: Seq<FunctionInfoV>) -> Seq<
    FunctionInfoV,
>
    decreases names.len(),
{
    if names.len() == 0 {
        Seq::empty()
    } else {
        resolve_names(names.drop_last(), table) + match find_callee(names.last(), table) {
            Some(f) => seq![f],
            None => Seq::empty(),
        }
    }
}

/// The resolved calls of the function called `name`.
pub open spec fn inner_calls_of(
    name: Seq<char>,
    cs: Seq<(Seq<char>, Seq<Seq<char>>)>,
    table: Seq<FunctionInfoV>,
) -> Seq<FunctionInfoV> {
    resolve_names(raw_calls_of(name, cs), table)
}

/// The resolved calls as the record keeps them: none when empty.
pub open spec fn inner_calls_opt(
    name: Seq<char>,
    cs: Seq<(Seq<char>, Seq<Seq<char>>)>,
    table: Seq<FunctionInfoV>,
) -> Option<Seq<FunctionInfoV>> {
    let r = inner_calls_of(name, cs, table);
    if r.len() > 0 {
        Some(r)
    } else {
        None
    }
}

pub proof fn lemma_find_callee(name: Seq<char>, table: Seq<FunctionInfoV>)
    ensures
        find_callee(name, table) matches Some(f) ==> table.contains(f) && can_target(f, name),
        find_callee(name, table) is None ==> forall|j: int|
            0 <= j < table.len() ==> !can_target(#[trigger] table[j], name),
    decreases table.len(),
{
    if table.len() > 0 {
        let rest = table.subrange(1, table.len() as int);
        lemma_find_callee(name, rest);
        if !can_target(table[0], name) {
            if let Some(f) = find_callee(name, rest) {
                let k = choose|k: int| 0 <= k < rest.len() && rest[k] == f;
                assert(table[k + 1] == f);
            } else {
                assert forall|j: int| 0 <= j < table.len() implies !can_target(
                    #[trigger] table[j],
                    name,
                ) by {
                    if j > 0 {
                        assert(table[j] == rest[j - 1]);
                    }
                }
            }
        }
    }
}

/// Every resolved call is a known function, called by its own name, that
/// neither accepts a value nor initializes.
pub proof fn lemma_resolved_calls(names: Seq<Seq<char>>, table: Seq<FunctionInfoV>)
    ensures
        forall|i: int|
            0 <= i < resolve_names(names, table).len() ==> {
                let f = #[trigger] resolve_names(names, table)[i];
                &&& table.contains(f)
                &&& names.contains(f.name)
                &&& !f.is_payable
                &&& !f.is_init
            },
    decreases names.len(),
{
    if names.len() > 0 {
        let prefix = names.drop_last();
        lemma_resolved_calls(prefix, table);
        lemma_find_callee(names.last(), table);
        let r = resolve_names(names, table);
        assert forall|i: int| 0 <= i < r.len() implies {
            let f = #[trigger] r[i];
            &&& table.contains(f)
            &&& names.contains(f.name)
            &&& !f.is_payable
            &&& !f.is_init
        } by {
            let p = resolve_names(prefix, table);
            if i < p.len() {
                assert(r[i] == p[i]);
                let k = choose|k: int| 0 <= k < prefix.len() && prefix[k] == r[i].name;
                assert(names[k] == prefix[k]);
            } else {
                assert(names[names.len() - 1] == names.last());
            }
        }
    }
}

/// A call name that matches no known function produces no resolved call.
pub proof fn lemma_unmatched_name_dropped(
    names: Seq<Seq<char>>,
    table: Seq<FunctionInfoV>,
    name: Seq<char>,
)
    requires
        forall|j: int| 0 <= j < table.len() ==> #[trigger] table[j].name != name,
    ensures
        forall|i: int|
            0 <= i < resolve_names(names, table).len() ==> #[trigger] resolve_names(
                names,
                table,
            )[i].name != name,
        resolve_names(names.push(name), table) == resolve_names(names, table),
{
    lemma_resolved_calls(names, table);
    lemma_find_callee(name, table);
    assert(names.push(name).drop_last() =~= names);
    assert(resolve_names(names.push(name), table) =~= resolve_names(names, table));
}

/// No resolved call targets a function that accepts a value or initializes.
pub proof fn lemma_no_payable_or_init_target(names: Seq<Seq<char>>, table: Seq<FunctionInfoV>)
    ensures
        forall|i: int|
            0 <= i < resolve_names(names, table).len() ==> !(#[trigger] resolve_names(
                names,
                table,
            )[i]).is_payable && !resolve_names(names, table)[i].is_init,
{
    lemma_resolved_calls(names, table);
}

/// The position of the raw calls of the first function called `name`.
fn find_raw_calls(name: &String, connections: &Vec<FunctionCalls>) -> (r: Option<usize>)
    ensures
        match r {
            Some(i) => i < connections.len() && raw_calls_of(name@, calls_view(connections@))
                == strings_view(connections@[i as int].calls@),
            None => raw_calls_of(name@, calls_view(connections@)) == Seq::<Seq<char>>::empty(),
        },
{
    let ghost cv = calls_view(connections@);
    let mut i: usize = 0;
    assert(cv.subrange(0, cv.len() as int) =~= cv);
    while i < connections.len()
        invariant
            i <= connections.len(),
            cv == calls_view(connections@),
            raw_calls_of(name@, cv) == raw_calls_of(name@, cv.subrange(i as int, cv.len() as int)),
        decreases connections.len() - i,
    {
        let ghost rest = cv.subrange(i as int, cv.len() as int);
        if connections[i].name == *name {
            assert(rest[0] == cv[i as int]);
            return Some(i);
        }
        assert(rest.subrange(1, rest.len() as int) =~= cv.subrange(i + 1, cv.len() as int));
        i = i + 1;
    }
    None
}

/// The position of the first known function that a call by `name` may target.
fn find_target(name: &String, fns: &Vec<FunctionInfo>) -> (r: Option<usize>)
    ensures
        match r {
            Some(j) => j < fns.len() && find_callee(name@, infos_view(fns@)) == Some(
                fns@[j as int]@,
            ),
            None => find_callee(name@, infos_view(fns@)) is None,
        },
{
    let ghost t = infos_view(fns@);
    let mut j: usize = 0;
    assert(t.subrange(0, t.len() as int) =~= t);
    while j < fns.len()
        invariant
            j <= fns.len(),
            t == infos_view(fns@),
            find_callee(name@, t) == find_callee(name@, t.subrange(j as int, t.len() as int)),
        decreases fns.len() - j,
    {
        let ghost rest = t.subrange(j as int, t.len() as int);
        let f = &fns[j];
        if f.name == *name && !f.is_payable && !f.is_init {
            assert(rest[0] == t[j as int]);
            return Some(j);
        }
        assert(rest.subrange(1, rest.len() as int) =~= t.subrange(j + 1, t.len() as int));
        j = j + 1;
    }
    None
}

/// The known functions that the function called `fn_name` calls, in call order.
pub fn resolve_calls(fn_name: &String, connections: &Vec<FunctionCalls>, fns: &Vec<FunctionInfo>) -> (r:
    Vec<FunctionInfo>)
    ensures
        infos_view(r@) == inner_calls_of(fn_name@, calls_view(connections@), infos_view(fns@)),
        forall|i: int| 0 <= i < r.len() ==> (#[trigger] r@[i]).inner_calls is None,
{
    let ghost t = infos_view(fns@);
    let mut result: Vec<FunctionInfo> = Vec::new();
    match find_raw_calls(fn_name, connections) {
        Some(c) => {
            let names = &connections[c].calls;
            let ghost ns = strings_view(names@);
            let mut i: usize = 0;
            while i < names.len()
                invariant
                    i <= names.len(),
                    ns == strings_view(names@),
                    t == infos_view(fns@),
                    infos_view(result@) == resolve_names(ns.take(i as int), t),
                    forall|k: int| 0 <= k < result.len() ==> (#[trigger] result@[k]).inner_calls is None,
                decreases names.len() - i,
            {
                assert(ns.take(i + 1).drop_last() =~= ns.take(i as int));
                assert(ns.take(i + 1).last() == names@[i as int]@);
                match find_target(&names[i], fns) {
                    Some(j) => {
                        result.push(fns[j].flat_copy());
                    },
                    None => {},
                }
                assert(infos_view(result@) =~= resolve_names(ns.take(i + 1), t));
                i = i + 1;
            }
            assert(ns.take(i as int) =~= ns);
        },
        None => {
            assert(infos_view(result@) =~= resolve_names(Seq::empty(), t));
        },
    }
    result
}

/// Scans the declarations of one file: the record of each function and
/// its raw calls, both in declaration order.
pub fn scan_declarations(decls: &Vec<Declaration>) -> (r: ContractDescriptorMeta)
    ensures
        infos_view(r.fns@) == decls@.map_values(|d: Declaration| decl_info(d)),
        calls_view(r.connections@) == decls@.map_values(|d: Declaration| decl_calls(d)),
        forall|i: int| 0 <= i < r.fns.len() ==> (#[trigger] r.fns@[i]).inner_calls is None,
{
    let mut fns: Vec<FunctionInfo> = Vec::new();
    let mut connections: Vec<FunctionCalls> = Vec::new();
    let mut i: usize = 0;
    while i < decls.len()
        invariant
            i <= decls.len(),
            fns.len() == i,
            connections.len() == i,
            infos_view(fns@) == decls@.take(i as int).map_values(|d: Declaration| decl_info(d)),
            calls_view(connections@) == decls@.take(i as int).map_values(
                |d: Declaration| decl_calls(d),
            ),
            forall|k: int| 0 <= k < fns.len() ==> (#[trigger] fns@[k]).inner_calls is None,
        decreases decls.len() - i,
    {
        match &decls[i] {
            Declaration::Method(m, body) => {
                fns.push(m.metadata_struct());
                connections.push(
                    FunctionCalls {
                        name: m.attr_signature_info.ident.clone(),
                        calls: calls_in_body(body),
                    },
                );
            },
            Declaration::Function(f, body) => {
                fns.push(metadata_fn_struct(f));
                connections.push(
                    FunctionCalls {
                        name: f.attr_signature_info.ident.clone(),
                        calls: calls_in_body(body),
                    },
                );
            },
        }
        assert(fns@[i as int]@ == decl_info(decls@[i as int]));
        assert(calls_view(connections@)[i as int] == decl_calls(decls@[i as int]));
        assert(infos_view(fns@) =~= decls@.take(i + 1).map_values(|d: Declaration| decl_info(d))) by {
            assert forall|k: int| 0 <= k < i implies infos_view(fns@)[k] == decl_info(decls@[k]) by {
                assert(decls@.take(i as int).map_values(|d: Declaration| decl_info(d))[k]
                    == decl_info(decls@[k]));
            }
        }
        assert(calls_view(connections@) =~= decls@.take(i + 1).map_values(
            |d: Declaration| decl_calls(d),
        )) by {
            assert forall|k: int| 0 <= k < i implies calls_view(connections@)[k] == decl_calls(
                decls@[k],
            ) by {
                assert(decls@.take(i as int).map_values(|d: Declaration| decl_calls(d))[k]
                    == decl_calls(decls@[k]));
            }
        }
        i = i + 1;
    }
    assert(decls@.take(i as int) =~= decls@);
    ContractDescriptorMeta { fns, connections }
}

/// A copy of a list of strings.
pub fn copy_strings(v: &Vec<String>) -> (r: Vec<String>)
    ensures
        r@ == v@,
{
    let mut r: Vec<String> = Vec::new();
    let mut i: usize = 0;
    while i < v.len()
        invariant
            i <= v.len(),
            r@ == v@.take(i as int),
        decreases v.len() - i,
    {
        r.push(v[i].clone());
        assert(r@ =~= v@.take(i + 1));
        i = i + 1;
    }
    assert(v@.take(i as int) =~= v@);
    r
}

/// A copy of a list of raw call lists.
pub fn copy_calls(v: &Vec<FunctionCalls>) -> (r: Vec<FunctionCalls>)
    ensures
        calls_view(r@) == calls_view(v@),
{
    let mut r: Vec<FunctionCalls> = Vec::new();
    let mut i: usize = 0;
    while i < v.len()
        invariant
            i <= v.len(),
            r.len() == i,
            calls_view(r@) == calls_view(v@).take(i as int),
        decreases v.len() - i,
    {
        let ghost prev = r@;
        let entry = FunctionCalls { name: v[i].name.clone(), calls: copy_strings(&v[i].calls) };
        let ghost entry_view = (entry.name@, strings_view(entry.calls@));
        r.push(entry);
        assert forall|n: int| 0 <= n < r.len() implies calls_view(r@)[n] == calls_view(v@).take(
            i + 1,
        )[n] by {
            if n < i {
                assert(r@[n] == prev[n]);
                assert(calls_view(prev)[n] == calls_view(v@).take(i as int)[n]);
            } else {
                assert(calls_view(r@)[n] == entry_view);
            }
        }
        assert(calls_view(r@) =~= calls_view(v@).take(i + 1));
        i = i + 1;
    }
    assert(calls_view(v@).take(i as int) =~= calls_view(v@));
    r
}

/// The scanner and resolver of contract sources.
pub struct DefaultContractDescriptor;

impl DefaultContractDescriptor {
    pub fn new() -> (r: Self) {
        DefaultContractDescriptor
    }

    /// Scans the declarations of one file.
    pub fn metadata(&self, decls: &Vec<Declaration>) -> (r: ContractDescriptorMeta)
        ensures
            infos_view(r.fns@) == decls@.map_values(|d: Declaration| decl_info(d)),
            calls_view(r.connections@) == decls@.map_values(|d: Declaration| decl_calls(d)),
    {
        scan_declarations(decls)
    }

    /// The resolved calls of the function called `fn_name`; none when it
    /// reaches no known function.
    pub fn get_inner_calls(
        &self,
        fn_name: &String,
        connections: &Vec<FunctionCalls>,
        fns: &Vec<FunctionInfo>,
    ) -> (r: Option<Vec<FunctionInfo>>)
        ensures
            match r {
                Some(v) => Some(infos_view(v@)) == inner_calls_opt(
                    fn_name@,
                    calls_view(connections@),
                    infos_view(fns@),
                ),
                None => inner_calls_opt(fn_name@, calls_view(connections@), infos_view(fns@))
                    is None,
            },
    {
        let inner_calls = resolve_calls(fn_name, connections, fns);
        if inner_calls.len() > 0 {
            Some(inner_calls)
        } else {
            None
        }
    }

    /// Gives each function of a file its resolved calls, against the table
    /// of every known function.
    pub fn resolve_call_hierarchy(
        &self,
        metadata: &ContractDescriptorMeta,
        fns: &Vec<FunctionInfo>,
    ) -> (r: ContractDescriptorMeta)
        ensures
            infos_view(r.fns@) == infos_view(metadata.fns@),
            forall|i: int|
                0 <= i < r.fns.len() ==> inner_calls_view(#[trigger] r.fns@[i]) == inner_calls_opt(
                    metadata.fns@[i].name@,
                    calls_view(metadata.connections@),
                    infos_view(fns@),
                ),
            calls_view(r.connections@) == calls_view(metadata.connections@),
    {
        let mut result: Vec<FunctionInfo> = Vec::new();
        let mut i: usize = 0;
        while i < metadata.fns.len()
            invariant
                i <= metadata.fns.len(),
                result.len() == i,
                infos_view(result@) == infos_view(metadata.fns@).take(i as int),
                forall|k: int|
                    0 <= k < result.len() ==> inner_calls_view(#[trigger] result@[k])
                        == inner_calls_opt(
                        metadata.fns@[k].name@,
                        calls_view(metadata.connections@),
                        infos_view(fns@),
                    ),
            decreases metadata.fns.len() - i,
        {
            let f = &metadata.fns[i];
            let mut info = f.flat_copy();
            info.inner_calls = self.get_inner_calls(&f.name, &metadata.connections, fns);
            result.push(info);
            assert(infos_view(result@) =~= infos_view(metadata.fns@).take(i + 1)) by {
                assert forall|k: int| 0 <= k < i implies infos_view(result@)[k] == infos_view(
                    metadata.fns@,
                )[k] by {
                    assert(infos_view(metadata.fns@).take(i as int)[k] == infos_view(
                        metadata.fns@,
                    )[k]);
                }
            }
            i = i + 1;
        }
        assert(infos_view(metadata.fns@).take(i as int) =~= infos_view(metadata.fns@));
        ContractDescriptorMeta { fns: result, connections: copy_calls(&metadata.connections) }
    }

    /// Resolves the calls of every scanned file against the table of every
    /// function of every file.
    pub fn get_contract_info(&self, files: &Vec<ContractDescriptorMeta>) -> (r: ContractInfo)
        ensures
            r.contract_metadata.len() == files.len(),
            forall|i: int|
                0 <= i < files.len() ==> {
                    let m = #[trigger] r.contract_metadata@[i];
                    &&& infos_view(m.fns@) == infos_view(files@[i].fns@)
                    &&& calls_view(m.connections@) == calls_view(files@[i].connections@)
                    &&& forall|k: int|
                        0 <= k < m.fns.len() ==> inner_calls_view(#[trigger] m.fns@[k])
                            == inner_calls_opt(
                            files@[i].fns@[k].name@,
                            calls_view(files@[i].connections@),
                            table_of(files@),
                        )
                },
    {
        let (table, _calls) = gather_tables(files);
        let mut contract_metadata: Vec<ContractDescriptorMeta> = Vec::new();
        let mut i: usize = 0;
        while i < files.len()
            invariant
                i <= files.len(),
                contract_metadata.len() == i,
                infos_view(table@) == table_of(files@),
                forall|j: int|
                    0 <= j < i ==> {
                        let m = #[trigger] contract_metadata@[j];
                        &&& infos_view(m.fns@) == infos_view(files@[j].fns@)
                        &&& calls_view(m.connections@) == calls_view(files@[j].connections@)
                        &&& forall|k: int|
                            0 <= k < m.fns.len() ==> inner_calls_view(#[trigger] m.fns@[k])
                                == inner_calls_opt(
                                files@[j].fns@[k].name@,
                                calls_view(files@[j].connections@),
                                table_of(files@),
                            )
                    },
            decreases files.len() - i,
        {
            let resolved = self.resolve_call_hierarchy(&files[i], &table);
            contract_metadata.push(resolved);
            i = i + 1;
        }
        ContractInfo { contract_metadata }
    }
}

} // verus!
