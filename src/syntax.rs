//! The diagram syntax engine: a narrow interface that a markup syntax
//! implements, and the flowchart syntax that implements it.
use crate::markdown;
use crate::markdown::opt_text;
use crate::objects::{ActionType, Connection, ConnectionType, Node, NodeV, ScopeType};
use crate::shapes::{
    connection_text, extra_count, header_text, indent_count, linebreak_text, node_text,
    ArrowDirection, ArrowType, FlowDirection, LineType, Shape,
};
use vstd::prelude::*;

verus! {

/// The attributes of one node block.
#[derive(Debug)]
pub struct NodeConfig<'a> {
    /// The identifier of the node
    pub id: &'a str,
    /// An optional style class
    pub class: Option<String>,
    /// The shape of the node
    pub shape: Shape,
    /// The label shown within the node
    pub inner_text: &'a str,
}

/// The attributes of one connection.
#[derive(Debug)]
pub struct ConnectionConfig {
    pub line_type: LineType,
    pub arrow_type: ArrowType,
    pub arrow_direction: ArrowDirection,
    /// An optional number of glyphs that lengthen the line
    pub extra_length_num: Option<u8>,
}

/// Either a node or a connection of a flowchart.
#[derive(Debug)]
pub enum ObjectConfig<'a> {
    NodeConfig(NodeConfig<'a>),
    ConnectionConfig(ConnectionConfig),
}

/// A configuration in one of the available syntaxes.
#[derive(Debug)]
pub enum SyntaxConfigFile<'a> {
    FlowChart(ObjectConfig<'a>),
}

impl<'a> SyntaxConfigFile<'a> {
    pub open spec fn is_node_config(self) -> bool {
        match self {
            SyntaxConfigFile::FlowChart(ObjectConfig::NodeConfig(_)) => true,
            _ => false,
        }
    }

    pub open spec fn is_connection_config(self) -> bool {
        match self {
            SyntaxConfigFile::FlowChart(ObjectConfig::ConnectionConfig(_)) => true,
            _ => false,
        }
    }
}

/// The style class of a node: its scope and its action, joined by a dash.
pub open spec fn class_name(scope: ScopeType, action: ActionType) -> Seq<char> {
    scope.name() + "-"@ + action.name()
}

/// The shape that stands for an action.
pub open spec fn shape_of(action: ActionType) -> Shape {
    match action {
        ActionType::Mutation => Shape::Hexagon,
        ActionType::View => Shape::Circle,
        ActionType::Process => Shape::Rectangle,
        ActionType::Event => Shape::Flag,
        ActionType::NoAction => Shape::Rectangle,
    }
}

/// The line, arrow head and arrow direction that stand for a connection type.
pub open spec fn style_of(connection_type: ConnectionType) -> (LineType, ArrowType, ArrowDirection) {
    match connection_type {
        ConnectionType::DirectConnection => (
            LineType::Solid,
            ArrowType::Standard,
            ArrowDirection::Right,
        ),
        ConnectionType::CrossContractConnection => (
            LineType::Dashed,
            ArrowType::Standard,
            ArrowDirection::Right,
        ),
        ConnectionType::Emission => (LineType::Solid, ArrowType::Standard, ArrowDirection::Right),
    }
}

/// What a markup syntax offers to the hierarchy walk.
pub trait CoreSyntaxFunctions: Sized {
    /// The markup written so far.
    spec fn markup(&self) -> Seq<char>;

    /// The markup of a fresh diagram.
    spec fn header(direction: FlowDirection) -> Seq<char>;

    /// The markup that a configuration adds.
    spec fn config_markup(config: SyntaxConfigFile) -> Seq<char>;

    /// The markup of a node under a given identifier.
    spec fn node_markup(id: Seq<char>, node: NodeV) -> Seq<char>;

    /// The markup of a connection of a type, lengthened by `extra` glyphs.
    spec fn connection_markup(connection_type: ConnectionType, extra: nat) -> Seq<char>;

    /// The markup of a line break with `n` indents.
    spec fn linebreak_markup(n: nat) -> Seq<char>;

    fn new(direction: FlowDirection) -> (r: Self)
        ensures
            r.markup() == Self::header(direction),
    ;

    fn add_node(&mut self, node_config: SyntaxConfigFile)
        requires
            node_config.is_node_config(),
        ensures
            final(self).markup() == old(self).markup() + Self::config_markup(node_config),
    ;

    fn add_connection(&mut self, connection_config: SyntaxConfigFile)
        requires
            connection_config.is_connection_config(),
        ensures
            final(self).markup() == old(self).markup() + Self::config_markup(connection_config),
    ;

    fn add_linebreak(&mut self, num_of_indents: Option<u8>)
        ensures
            final(self).markup() == old(self).markup() + Self::linebreak_markup(
                indent_count(num_of_indents),
            ),
    ;

    fn build_node_config<'a>(&self, node: &'a Node, id: Option<&'a str>) -> (r: SyntaxConfigFile<
        'a,
    >)
        ensures
            r.is_node_config(),
            Self::config_markup(r) == Self::node_markup(
                match id {
                    Some(i) => i@,
                    None => node.name@,
                },
                node@,
            ),
    ;

    fn build_connection_config<'a>(
        &self,
        connection: &'a Connection,
        extra_length_num: Option<u8>,
    ) -> (r: SyntaxConfigFile<'a>)
        ensures
            r.is_connection_config(),
            Self::config_markup(r) == Self::connection_markup(
                connection.connection_type,
                extra_count(extra_length_num),
            ),
    ;

    fn return_schema(&self) -> (r: String)
        ensures
            r@ == self.markup(),
    ;
}

/// The flowchart syntax.
pub struct FlowChart {
    chart: markdown::FlowChart,
}

impl View for FlowChart {
    type V = Seq<char>;

    closed spec fn view(&self) -> Seq<char> {
        self.chart@
    }
}

impl FlowChart {
    /// Determines the shape of a node from its action.
    fn get_shape_from_node(&self, node: &Node) -> (r: Shape)
        ensures
            r == shape_of(node.action),
    {
        match node.action {
            ActionType::Mutation => Shape::Hexagon,
            ActionType::View => Shape::Circle,
            ActionType::Process => Shape::Rectangle,
            ActionType::Event => Shape::Flag,
            ActionType::NoAction => Shape::Rectangle,
        }
    }

    /// Determines the line and the arrow of a connection from its type.
    fn get_line_and_arrow_type_from_connection(&self, connection: &Connection) -> (r: (
        LineType,
        ArrowType,
        ArrowDirection,
    ))
        ensures
            r == style_of(connection.connection_type),
    {
        match connection.connection_type {
            ConnectionType::DirectConnection => (
                LineType::Solid,
                ArrowType::Standard,
                ArrowDirection::Right,
            ),
            ConnectionType::CrossContractConnection => (
                LineType::Dashed,
                ArrowType::Standard,
                ArrowDirection::Right,
            ),
            ConnectionType::Emission => (
                LineType::Solid,
                ArrowType::Standard,
                ArrowDirection::Right,
            ),
        }
    }
}

/// The style class of a node, as a string.
pub fn class_of(scope: ScopeType, action: ActionType) -> (r: String)
    ensures
        r@ == class_name(scope, action),
{
    let mut class = String::from_str(scope.as_str());
    class.append("-");
    class.append(action.as_str());
    class
}

impl CoreSyntaxFunctions for FlowChart {
    closed spec fn markup(&self) -> Seq<char> {
        self@
    }

    open spec fn header(direction: FlowDirection) -> Seq<char> {
        header_text(direction)
    }

    open spec fn config_markup(config: SyntaxConfigFile) -> Seq<char> {
        match config {
            SyntaxConfigFile::FlowChart(ObjectConfig::NodeConfig(nc)) => node_text(
                nc.id@,
                match nc.class {
                    Some(c) => Some(c@),
                    None => None,
                },
                nc.shape,
                nc.inner_text@,
            ),
            SyntaxConfigFile::FlowChart(ObjectConfig::ConnectionConfig(cc)) => connection_text(
                cc.line_type,
                cc.arrow_type,
                cc.arrow_direction,
                extra_count(cc.extra_length_num),
            ),
        }
    }

    open spec fn node_markup(id: Seq<char>, node: NodeV) -> Seq<char> {
        node_text(id, Some(class_name(node.scope, node.action)), shape_of(node.action), node.name)
    }

    open spec fn connection_markup(connection_type: ConnectionType, extra: nat) -> Seq<char> {
        let (line_type, arrow_type, arrow_direction) = style_of(connection_type);
        connection_text(line_type, arrow_type, arrow_direction, extra)
    }

    open spec fn linebreak_markup(n: nat) -> Seq<char> {
        linebreak_text(n)
    }

    fn new(direction: FlowDirection) -> (r: Self) {
        FlowChart { chart: markdown::FlowChart::new(direction) }
    }

    fn add_node(&mut self, node_config: SyntaxConfigFile) {
        match node_config {
            SyntaxConfigFile::FlowChart(ObjectConfig::NodeConfig(nc)) => {
                let class: Option<&str> = match &nc.class {
                    Some(c) => Some(c.as_str()),
                    None => None,
                };
                assert(opt_text(class) == match nc.class {
                    Some(c) => Some(c@),
                    None => None::<Seq<char>>,
                });
                self.chart.add_node(nc.id, class, nc.shape, nc.inner_text);
            },
            _ => {},
        }
    }

    fn add_connection(&mut self, connection_config: SyntaxConfigFile) {
        match connection_config {
            SyntaxConfigFile::FlowChart(ObjectConfig::ConnectionConfig(cc)) => {
                self.chart.add_connection(
                    cc.line_type,
                    cc.arrow_type,
                    cc.arrow_direction,
                    cc.extra_length_num,
                );
            },
            _ => {},
        }
    }

    fn add_linebreak(&mut self, num_of_indents: Option<u8>) {
        self.chart.add_linebreak(num_of_indents);
    }

    fn build_node_config<'a>(&self, node: &'a Node, id: Option<&'a str>) -> (r: SyntaxConfigFile<
        'a,
    >) {
        let id: &'a str = match id {
            Some(id) => id,
            None => node.name.as_str(),
        };
        SyntaxConfigFile::FlowChart(
            ObjectConfig::NodeConfig(
                NodeConfig {
                    id,
                    class: Some(class_of(node.scope, node.action)),
                    shape: self.get_shape_from_node(node),
                    inner_text: node.name.as_str(),
                },
            ),
        )
    }

    fn build_connection_config<'a>(
        &self,
        connection: &'a Connection,
        extra_length_num: Option<u8>,
    ) -> (r: SyntaxConfigFile<'a>) {
        let (line_type, arrow_type, arrow_direction) =
            self.get_line_and_arrow_type_from_connection(connection);
        SyntaxConfigFile::FlowChart(
            ObjectConfig::ConnectionConfig(
                ConnectionConfig { line_type, arrow_type, arrow_direction, extra_length_num },
            ),
        )
    }

    fn return_schema(&self) -> (r: String) {
        self.chart.return_schema()
    }
}

} // verus!
