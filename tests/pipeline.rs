use contract_diagram::calls::{calls_in_body, Expr};
use contract_diagram::classify::{
    has_bindgen_attr, metadata_fn_struct, path_is_event, type_is_event, AttrSigInfo,
    ImplItemMethodInfo, ItemFnInfo, MethodType, Receiver, TypeInfo,
};
use contract_diagram::contract_descriptor::{
    ContractDescriptorMeta, Declaration, DefaultContractDescriptor, FunctionCalls,
};
use contract_diagram::function_info::FunctionInfo;
use contract_diagram::md_api::MdAPI;
use contract_diagram::objects::{ActionType, Connection, ConnectionType, Node, ScopeType};
use contract_diagram::scanner_pipeline::ScannerPipeline;
use contract_diagram::shapes::FlowDirection;
use contract_diagram::syntax::FlowChart;

const SELF_REF: Option<Receiver> = Some(Receiver { reference: true, mutability: false });
const SELF_MUT: Option<Receiver> = Some(Receiver { reference: true, mutability: true });

fn strings(names: &[&str]) -> Vec<String> {
    names.iter().map(|s| s.to_string()).collect()
}

fn owner(name: &str) -> TypeInfo {
    TypeInfo::Path(false, false, strings(&[name]))
}

/// A method of an exposed `impl Hello` block.
fn exposed(
    name: &str,
    is_public: bool,
    attributes: &[&str],
    receiver: Option<Receiver>,
    returns_value: bool,
    body: Vec<Expr>,
) -> Declaration {
    let sig = AttrSigInfo::new(name.to_string(), &strings(attributes), receiver, returns_value);
    Declaration::Method(
        ImplItemMethodInfo::new(sig, is_public, false, true, owner("Hello")),
        body,
    )
}

/// A method of an `impl NearEvent` block.
fn event_method(name: &str, body: Vec<Expr>) -> Declaration {
    let sig = AttrSigInfo::new(name.to_string(), &Vec::new(), None, false);
    Declaration::Method(
        ImplItemMethodInfo::new(sig, true, false, false, owner("NearEvent")),
        body,
    )
}

/// `name()`
fn call(name: &str) -> Expr {
    Expr::Call(Box::new(Expr::Path(strings(&[name]))), Vec::new())
}

/// `self.name()`
fn method_call(name: &str) -> Expr {
    Expr::MethodCall(Box::new(Expr::Path(strings(&["self"]))), name.to_string(), Vec::new())
}

fn render(files: Vec<Vec<Declaration>>) -> String {
    let descriptor = DefaultContractDescriptor::new();
    let scanned: Vec<ContractDescriptorMeta> =
        files.iter().map(|decls| descriptor.metadata(decls)).collect();
    let info = descriptor.get_contract_info(&scanned);
    ScannerPipeline::from(&info, FlowDirection::TD).content
}

fn leaf(name: &str, scope: ScopeType, action: ActionType) -> Node {
    Node { name: name.to_string(), scope, action, connections: vec![] }
}

#[test]
fn it_works() {
    let hierarchy_tree_root = Node {
        name: "function_a".to_string(),
        scope: ScopeType::Public,
        action: ActionType::Mutation,
        connections: vec![
            Connection {
                connection_type: ConnectionType::Emission,
                node: leaf("function_a_event", ScopeType::Public, ActionType::Event),
            },
            Connection {
                connection_type: ConnectionType::DirectConnection,
                node: leaf("function_b_private", ScopeType::Private, ActionType::Mutation),
            },
        ],
    };

    let mut api = MdAPI::<FlowChart>::new(FlowDirection::TD, hierarchy_tree_root);

    let result = api.parse_hierarchy();

    let expected_string = "flowchart TD
\tfunction_a{{function_a}}:::Public-Mutation --> function_a_event>function_a_event]:::Public-Event
\tfunction_a{{function_a}}:::Public-Mutation --> function_b_private{{function_b_private}}:::Private-Mutation
\t";

    assert_eq!(result, expected_string);
}

#[test]
fn hierarchy_is_written_breadth_first() {
    let root = Node {
        name: "r".to_string(),
        scope: ScopeType::Contract,
        action: ActionType::NoAction,
        connections: vec![
            Connection {
                connection_type: ConnectionType::DirectConnection,
                node: Node {
                    name: "a".to_string(),
                    scope: ScopeType::Public,
                    action: ActionType::View,
                    connections: vec![Connection {
                        connection_type: ConnectionType::CrossContractConnection,
                        node: leaf("c", ScopeType::Trait, ActionType::Process),
                    }],
                },
            },
            Connection {
                connection_type: ConnectionType::DirectConnection,
                node: leaf("b", ScopeType::Payable, ActionType::NoAction),
            },
        ],
    };
    let mut api = MdAPI::<FlowChart>::new(FlowDirection::LR, root);
    assert_eq!(
        api.parse_hierarchy(),
        "flowchart LR
\tr[r]:::Contract-None --> a((a)):::Public-View
\tr[r]:::Contract-None --> b[b]:::Payable-None
\ta((a)):::Public-View -..-> c[c]:::Trait-Process
\t"
    );
}

#[test]
fn single_view_function_renders_as_circle() {
    let content = render(vec![vec![exposed("f1", true, &[], SELF_REF, true, vec![])]]);
    assert!(content.starts_with("flowchart TD\n\t"));
    assert!(content.contains("Contract[Contract]:::Contract-None --> f1((f1)):::Public-View\n\t"));
    assert_eq!(content.matches("f1((f1))").count(), 1);
}

#[test]
fn public_mutator_calling_private_mutator() {
    let content = render(vec![vec![
        exposed("a", true, &[], SELF_MUT, false, vec![method_call("b")]),
        exposed("b", false, &[], SELF_MUT, false, vec![]),
    ]]);
    assert!(content.contains("a{{a}}:::Public-Mutation --> b{{b}}:::Private-Mutation"));
}

#[test]
fn event_reached_through_emission() {
    let body = vec![Expr::Call(
        Box::new(Expr::Path(strings(&["NearEvent", "log_nft_mint"]))),
        vec![Expr::Compound(vec![])],
    )];
    let content = render(vec![
        vec![exposed("a", true, &[], SELF_MUT, false, body)],
        vec![event_method("log_nft_mint", vec![])],
    ]);
    assert!(content.contains("a{{a}}:::Public-Mutation --> log_nft_mint>log_nft_mint]:::Public-Event"));
}

#[test]
fn unmatched_call_makes_no_connection() {
    let content = render(vec![vec![exposed(
        "a",
        true,
        &[],
        SELF_MUT,
        false,
        vec![call("external_helper"), method_call("push")],
    )]]);
    assert!(!content.contains("external_helper"));
    assert!(!content.contains("push"));
    assert_eq!(content.matches("-->").count(), 1);
}

#[test]
fn call_cycle_is_cut() {
    let content = render(vec![vec![
        exposed("a", true, &[], SELF_MUT, false, vec![method_call("b")]),
        exposed("b", true, &[], SELF_MUT, false, vec![method_call("a")]),
    ]]);
    let lines: Vec<&str> = content.lines().collect();
    let edges: Vec<&str> = lines.iter().filter(|l| l.contains("-->")).cloned().collect();
    assert_eq!(
        edges,
        vec![
            "\tContract[Contract]:::Contract-None --> a{{a}}:::Public-Mutation",
            "\tContract[Contract]:::Contract-None --> b{{b}}:::Public-Mutation",
            "\ta{{a}}:::Public-Mutation --> b{{b}}:::Public-Mutation",
            "\tb{{b}}:::Public-Mutation --> a{{a}}:::Public-Mutation",
            "\tb{{b}}:::Public-Mutation --> a{{a}}:::Public-Mutation",
            "\ta{{a}}:::Public-Mutation --> b{{b}}:::Public-Mutation",
        ]
    );
}

#[test]
fn duplicated_callee_is_drawn_for_each_caller() {
    let content = render(vec![vec![
        exposed("a", true, &[], SELF_MUT, false, vec![method_call("c")]),
        exposed("b", true, &[], SELF_MUT, false, vec![method_call("c")]),
        exposed("c", false, &[], SELF_REF, true, vec![]),
    ]]);
    assert!(content.contains("\ta{{a}}:::Public-Mutation --> c((c)):::Private-View"));
    assert!(content.contains("\tb{{b}}:::Public-Mutation --> c((c)):::Private-View"));
}

#[test]
fn same_files_give_same_markup() {
    let files = || {
        vec![vec![
            exposed("a", true, &[], SELF_MUT, false, vec![method_call("b"), call("c")]),
            exposed("b", false, &["payable"], SELF_MUT, false, vec![]),
            exposed("c", true, &[], SELF_REF, true, vec![]),
        ]]
    };
    assert_eq!(render(files()), render(files()));
}

#[test]
fn payable_and_initializer_are_not_targets() {
    let content = render(vec![vec![
        exposed("a", true, &[], SELF_MUT, false, vec![method_call("pay"), call("new")]),
        exposed("pay", true, &["payable"], SELF_MUT, false, vec![]),
        exposed("new", true, &["init"], None, true, vec![]),
    ]]);
    assert!(!content.contains("a{{a}}:::Public-Mutation --> pay"));
    assert!(!content.contains("a{{a}}:::Public-Mutation --> new"));
    assert!(content.contains("--> pay{{pay}}:::Payable-Mutation"));
    assert!(content.contains("--> new[new]:::Initializer-None"));
}

#[test]
fn out_of_scope_functions_are_not_top_level() {
    let helper = ItemFnInfo::new(AttrSigInfo::new("helper".to_string(), &Vec::new(), None, true), false);
    let content = render(vec![vec![
        exposed("a", true, &[], SELF_MUT, false, vec![call("helper")]),
        Declaration::Function(helper, vec![]),
    ]]);
    assert!(!content.contains("Contract-None --> helper"));
    assert!(content.contains("a{{a}}:::Public-Mutation --> helper[helper]:::Private-None"));
}

#[test]
fn every_pair_has_a_style_class() {
    let content = render(vec![]);
    assert_eq!(content.matches("classDef ").count(), 26);
    for scope in ["Private", "Public", "Trait", "Payable", "Initializer"] {
        for action in ["Mutation", "View", "Process", "Event", "None"] {
            assert!(content.contains(&format!("\n\rclassDef {}-{} fill:", scope, action)));
        }
    }
    assert!(content.contains(
        "\n\rclassDef Contract-None fill:#C2D5E3,stroke:#333,stroke-width:2px"
    ));
    assert!(content.contains(
        "\n\rclassDef Private-Event fill:#FFDF80,stroke:#333,stroke-width:1px,stroke-dasharray: 4 4"
    ));
}

#[test]
fn empty_contract_renders_header_and_classes_only() {
    let content = render(vec![]);
    assert!(content.starts_with("flowchart TD\n\t\n\rclassDef Private-Mutation fill:#858585,stroke:#333,stroke-width:1px"));
}

#[test]
fn classification_of_methods() {
    let view = ImplItemMethodInfo::new(
        AttrSigInfo::new("f1".to_string(), &Vec::new(), SELF_REF, false),
        true,
        false,
        true,
        owner("Hello"),
    )
    .metadata_struct();
    assert!(view.is_public && view.is_view && view.is_process && !view.is_mutable);
    assert!(!view.is_out_of_contract_scope && !view.is_event);

    let trait_method = ImplItemMethodInfo::new(
        AttrSigInfo::new("f3".to_string(), &Vec::new(), SELF_MUT, true),
        false,
        true,
        true,
        owner("Hello"),
    )
    .metadata_struct();
    assert!(trait_method.is_public && trait_method.is_trait_impl && trait_method.is_mutable);
    assert!(!trait_method.is_view && !trait_method.is_process);
    assert_eq!(trait_method.connection_type(), ConnectionType::CrossContractConnection);

    let outside = ImplItemMethodInfo::new(
        AttrSigInfo::new("g".to_string(), &strings(&["payable"]), SELF_MUT, false),
        true,
        false,
        false,
        owner("Other"),
    )
    .metadata_struct();
    assert!(outside.is_out_of_contract_scope && outside.is_process);
    assert!(!outside.is_public && !outside.is_payable && !outside.is_mutable);

    let init = AttrSigInfo::new("new".to_string(), &strings(&["init", "private"]), None, true);
    assert_eq!(init.method_type, MethodType::Init);
    assert!(init.is_private && !init.is_payable);
    let by_value = AttrSigInfo::new("show".to_string(), &Vec::new(), Some(Receiver { reference: false, mutability: false }), true);
    assert_eq!(by_value.method_type, MethodType::View);
    let static_fn = AttrSigInfo::new("s".to_string(), &Vec::new(), None, true);
    assert_eq!(static_fn.method_type, MethodType::Regular);
}

#[test]
fn classifying_twice_gives_the_same_record() {
    let make = || {
        ImplItemMethodInfo::new(
            AttrSigInfo::new("a".to_string(), &strings(&["payable"]), SELF_MUT, false),
            true,
            false,
            true,
            owner("Hello"),
        )
    };
    let m = make();
    let first = format!("{:?}", m.metadata_struct());
    let second = format!("{:?}", m.metadata_struct());
    assert_eq!(first, second);
    assert_eq!(first, format!("{:?}", make().metadata_struct()));
}

#[test]
fn free_function_classification() {
    let f = ItemFnInfo::new(AttrSigInfo::new("bar".to_string(), &Vec::new(), None, false), true);
    let info = metadata_fn_struct(&f);
    assert!(info.is_public && info.is_process && info.is_out_of_contract_scope);
    assert_eq!(info.scope_type(), ScopeType::Public);
    assert_eq!(info.action_type(), ActionType::Process);
}

#[test]
fn event_marker_type() {
    assert!(path_is_event(false, &strings(&["NearEvent"])));
    assert!(!path_is_event(true, &strings(&["NearEvent"])));
    assert!(!path_is_event(false, &strings(&["events", "NearEvent"])));
    assert!(type_is_event(&owner("NearEvent")));
    assert!(!type_is_event(&TypeInfo::Path(true, false, strings(&["NearEvent"]))));
    assert!(!type_is_event(&TypeInfo::Other));
    assert!(has_bindgen_attr(&strings(&["derive", "near_bindgen"])));
    assert!(!has_bindgen_attr(&strings(&["derive"])));
}

#[test]
fn calls_are_listed_outer_first_in_source_order() {
    // a(b(), x.c(d())); e::f();
    let body = vec![
        Expr::Call(
            Box::new(Expr::Path(strings(&["a"]))),
            vec![
                call("b"),
                Expr::MethodCall(
                    Box::new(Expr::Path(strings(&["x"]))),
                    "c".to_string(),
                    vec![call("d")],
                ),
            ],
        ),
        Expr::Compound(vec![Expr::Call(Box::new(Expr::Path(strings(&["e", "f"]))), vec![])]),
        Expr::Call(Box::new(Expr::Compound(vec![call("g")])), vec![]),
    ];
    assert_eq!(calls_in_body(&body), strings(&["a", "b", "c", "d", "f", "g"]));
}

#[test]
fn inner_calls_resolve_by_exact_name() {
    let descriptor = DefaultContractDescriptor::new();
    let mut known = FunctionInfo::named("b".to_string());
    known.is_view = true;
    let mut payable = FunctionInfo::named("p".to_string());
    payable.is_payable = true;
    let fns = vec![known, payable, FunctionInfo::named("c".to_string())];
    let connections = vec![FunctionCalls { name: "a".to_string(), calls: strings(&["x", "b", "p", "B", "c", "b"]) }];
    let resolved = descriptor.get_inner_calls(&"a".to_string(), &connections, &fns).unwrap();
    let names: Vec<&str> = resolved.iter().map(|f| f.name.as_str()).collect();
    assert_eq!(names, vec!["b", "c", "b"]);
    assert!(resolved[0].is_view);
    assert!(descriptor.get_inner_calls(&"z".to_string(), &connections, &fns).is_none());
}
