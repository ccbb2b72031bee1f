//! The pipeline facade: from the scanned contract to the finished markup,
//! followed by one style class definition per (scope, action) pair.
use crate::contract_descriptor::{calls_view, ContractInfo};
use crate::function_info::infos_view;
use crate::hierarchy::{build_hierarchy, calls_table_of, gather_tables, hierarchy_of, table_of};
use crate::md_api::{hierarchy_lines, MdAPI};
use crate::objects::{ActionType, ScopeType};
use crate::shapes::{header_text, FlowDirection};
use crate::syntax::{class_name, class_of, shape_of, FlowChart};
use vstd::prelude::*;

verus! {

/// The number of style class definitions.
pub const STYLED_PAIRS: usize = 26;

/// Where the pairs of a scope start in the list of styled pairs.
pub open spec fn scope_base(s: ScopeType) -> int {
    match s {
        ScopeType::Private => 0,
        ScopeType::Public => 5,
        ScopeType::Trait => 10,
        ScopeType::Payable => 15,
        ScopeType::Initializer => 20,
        ScopeType::Contract => 25,
    }
}

/// The position of an action among the pairs of one scope.
pub open spec fn action_offset(a: ActionType) -> int {
    match a {
        ActionType::Mutation => 0,
        ActionType::View => 1,
        ActionType::Process => 2,
        ActionType::Event => 3,
        ActionType::NoAction => 4,
    }
}

pub open spec fn action_at(k: int) -> ActionType {
    if k == 0 {
        ActionType::Mutation
    } else if k == 1 {
        ActionType::View
    } else if k == 2 {
        ActionType::Process
    } else if k == 3 {
        ActionType::Event
    } else {
        ActionType::NoAction
    }
}

pub open spec fn scope_at(i: int) -> ScopeType {
    if i < 5 {
        ScopeType::Private
    } else if i < 10 {
        ScopeType::Public
    } else if i < 15 {
        ScopeType::Trait
    } else if i < 20 {
        ScopeType::Payable
    } else if i < 25 {
        ScopeType::Initializer
    } else {
        ScopeType::Contract
    }
}

/// The `i`th pair that gets a style class: every action under each
/// function scope, then the root's `Contract-None`.
pub open spec fn styled_pair(i: int) -> (ScopeType, ActionType) {
    let s = scope_at(i);
    if s == ScopeType::Contract {
        (s, ActionType::NoAction)
    } else {
        (s, action_at(i - scope_base(s)))
    }
}

/// The position of a pair in the list of styled pairs.
pub open spec fn pair_index(s: ScopeType, a: ActionType) -> int {
    if s == ScopeType::Contract {
        scope_base(s)
    } else {
        scope_base(s) + action_offset(a)
    }
}

/// The fill color of a pair.
pub open spec fn fill_of(s: ScopeType, a: ActionType) -> Seq<char> {
    if a == ActionType::Event {
        "#FFDF80"@
    } else {
        match s {
            ScopeType::Private => "#858585"@,
            ScopeType::Public => "#12A5F1"@,
            ScopeType::Trait => "#8E7CC3"@,
            ScopeType::Payable => "#6AA84F"@,
            ScopeType::Initializer => "#FFA080"@,
            ScopeType::Contract => "#C2D5E3"@,
        }
    }
}

/// The stroke of a pair: thin for private functions, dashed for events.
pub open spec fn stroke_of(s: ScopeType, a: ActionType) -> Seq<char> {
    (if s == ScopeType::Private {
        "1px"@
    } else {
        "2px"@
    }) + if a == ActionType::Event {
        ",stroke-dasharray: 4 4"@
    } else {
        Seq::empty()
    }
}

/// The style class definition of a pair, on a line of its own.
pub open spec fn class_line(s: ScopeType, a: ActionType) -> Seq<char> {
    "\n\rclassDef "@ + class_name(s, a) + " fill:"@ + fill_of(s, a) + ",stroke:#333,stroke-width:"@
        + stroke_of(s, a)
}

/// The definitions of the first `n` styled pairs.
pub open spec fn class_lines(n: nat) -> Seq<char>
    decreases n,
{
    if n == 0 {
        Seq::empty()
    } else {
        class_lines((n - 1) as nat) + class_line(
            styled_pair(n - 1).0,
            styled_pair(n - 1).1,
        )
    }
}

/// The block of style class definitions that ends every diagram.
pub open spec fn class_block() -> Seq<char> {
    class_lines(STYLED_PAIRS as nat)
}

/// Every pair the hierarchy can hold gets a shape and a style class: each
/// function scope with each action, and the root's scope with no action.
pub proof fn lemma_every_pair_styled(s: ScopeType, a: ActionType)
    requires
        s != ScopeType::Contract || a == ActionType::NoAction,
    ensures
        0 <= pair_index(s, a) < STYLED_PAIRS,
        styled_pair(pair_index(s, a)) == (s, a),
        shape_of(a) == shape_of(styled_pair(pair_index(s, a)).1),
{
}

fn fill_str(s: ScopeType, a: ActionType) -> (r: &'static str)
    ensures
        r@ == fill_of(s, a),
{
    match a {
        ActionType::Event => "#FFDF80",
        _ => match s {
            ScopeType::Private => "#858585",
            ScopeType::Public => "#12A5F1",
            ScopeType::Trait => "#8E7CC3",
            ScopeType::Payable => "#6AA84F",
            ScopeType::Initializer => "#FFA080",
            ScopeType::Contract => "#C2D5E3",
        },
    }
}

fn styled_pair_at(i: usize) -> (r: (ScopeType, ActionType))
    requires
        i < STYLED_PAIRS,
    ensures
        r == styled_pair(i as int),
{
    let (s, base): (ScopeType, usize) = if i < 5 {
        (ScopeType::Private, 0)
    } else if i < 10 {
        (ScopeType::Public, 5)
    } else if i < 15 {
        (ScopeType::Trait, 10)
    } else if i < 20 {
        (ScopeType::Payable, 15)
    } else if i < 25 {
        (ScopeType::Initializer, 20)
    } else {
        (ScopeType::Contract, 25)
    };
    let k = i - base;
    let a = if i >= 25 {
        ActionType::NoAction
    } else if k == 0 {
        ActionType::Mutation
    } else if k == 1 {
        ActionType::View
    } else if k == 2 {
        ActionType::Process
    } else if k == 3 {
        ActionType::Event
    } else {
        ActionType::NoAction
    };
    (s, a)
}

/// Appends the style class definition of a pair.
fn append_class_line(out: &mut String, s: ScopeType, a: ActionType)
    ensures
        final(out)@ == old(out)@ + class_line(s, a),
{
    out.append("\n\rclassDef ");
    let class = class_of(s, a);
    out.append(class.as_str());
    out.append(" fill:");
    out.append(fill_str(s, a));
    out.append(",stroke:#333,stroke-width:");
    match s {
        ScopeType::Private => out.append("1px"),
        _ => out.append("2px"),
    }
    match a {
        ActionType::Event => out.append(",stroke-dasharray: 4 4"),
        _ => {},
    }
    assert(out@ =~= old(out)@ + class_line(s, a));
}

/// Appends the block of style class definitions.
pub fn append_class_block(out: &mut String)
    ensures
        final(out)@ == old(out)@ + class_block(),
{
    let mut i: usize = 0;
    while i < STYLED_PAIRS
        invariant
            i <= STYLED_PAIRS,
            out@ == old(out)@ + class_lines(i as nat),
        decreases STYLED_PAIRS - i,
    {
        let (s, a) = styled_pair_at(i);
        append_class_line(out, s, a);
        assert(out@ =~= old(out)@ + class_lines((i + 1) as nat));
        i = i + 1;
    }
}

/// The markup of a scanned contract: the header, one line per connection
/// of the hierarchy taken breadth first, then the style class block.
pub open spec fn contract_markup(contract: ContractInfo, direction: FlowDirection) -> Seq<char> {
    let metas = contract.contract_metadata@;
    header_text(direction) + hierarchy_lines::<FlowChart>(
        hierarchy_of(table_of(metas), calls_table_of(metas)),
    ) + class_block()
}

/// The finished markup of a contract.
pub struct ScannerPipeline {
    pub content: String,
}

impl ScannerPipeline {
    pub fn from(contract: &ContractInfo, flow_direction: FlowDirection) -> (r: ScannerPipeline)
        ensures
            r.content@ == contract_markup(*contract, flow_direction),
    {
        let (table, calls) = gather_tables(&contract.contract_metadata);
        let root = build_hierarchy(&table, &calls);
        let mut api = MdAPI::<FlowChart>::new(flow_direction, root);
        let mut result = api.parse_hierarchy();
        append_class_block(&mut result);
        ScannerPipeline { content: result }
    }
}

/// The markup depends on the scanned contract alone: equal scans give
/// equal markup.
pub proof fn lemma_markup_deterministic(
    a: ContractInfo,
    b: ContractInfo,
    direction: FlowDirection,
)
    requires
        a.contract_metadata@.len() == b.contract_metadata@.len(),
        forall|i: int|
            0 <= i < a.contract_metadata@.len() ==> infos_view(
                #[trigger] a.contract_metadata@[i].fns@,
            ) == infos_view(b.contract_metadata@[i].fns@) && calls_view(
                a.contract_metadata@[i].connections@,
            ) == calls_view(b.contract_metadata@[i].connections@),
    ensures
        contract_markup(a, direction) == contract_markup(b, direction),
{
    lemma_tables_agree(a.contract_metadata@, b.contract_metadata@);
}

proof fn lemma_tables_agree(
    a: Seq<crate::contract_descriptor::ContractDescriptorMeta>,
    b: Seq<crate::contract_descriptor::ContractDescriptorMeta>,
)
    requires
        a.len() == b.len(),
        forall|i: int|
            0 <= i < a.len() ==> infos_view(#[trigger] a[i].fns@) == infos_view(b[i].fns@)
                && calls_view(a[i].connections@) == calls_view(b[i].connections@),
    ensures
        table_of(a) == table_of(b),
        calls_table_of(a) == calls_table_of(b),
    decreases a.len(),
{
    if a.len() > 0 {
        lemma_tables_agree(a.drop_last(), b.drop_last());
        assert(a.last() == a[a.len() - 1]);
        assert(b.last() == b[b.len() - 1]);
    }
}

} // verus!
