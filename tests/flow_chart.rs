use contract_diagram::markdown;
use contract_diagram::shapes::{ArrowDirection, ArrowType, FlowDirection, LineType, Shape};
use contract_diagram::syntax::{
    ConnectionConfig, CoreSyntaxFunctions, FlowChart, NodeConfig, ObjectConfig, SyntaxConfigFile,
};

fn node_config<'a>(id: &'a str, shape: Shape) -> SyntaxConfigFile<'a> {
    SyntaxConfigFile::FlowChart(ObjectConfig::NodeConfig(NodeConfig {
        id,
        class: None,
        shape,
        inner_text: "inner text",
    }))
}

/// Writes one node with both writers and checks both against `expected`.
fn check_node(shape: Shape, expected: &str) {
    let mut flow_chart = FlowChart::new(FlowDirection::TD);
    flow_chart.add_node(node_config("A", shape));
    assert_eq!(flow_chart.return_schema(), expected);

    let mut direct = markdown::FlowChart::new(FlowDirection::TD);
    direct.add_node("A", None, shape, "inner text");
    assert_eq!(direct.return_schema(), expected);
}

/// Writes two flag nodes joined by a connection with both writers and
/// checks both against `expected`.
fn check_connection(
    line_type: LineType,
    arrow_type: ArrowType,
    arrow_direction: ArrowDirection,
    extra_length_num: Option<u8>,
    expected: &str,
) {
    let mut flow_chart = FlowChart::new(FlowDirection::TD);
    flow_chart.add_node(node_config("A", Shape::Flag));
    flow_chart.add_connection(SyntaxConfigFile::FlowChart(ObjectConfig::ConnectionConfig(
        ConnectionConfig {
            line_type,
            arrow_type,
            arrow_direction,
            extra_length_num,
        },
    )));
    flow_chart.add_node(node_config("B", Shape::Flag));
    assert_eq!(flow_chart.return_schema(), expected);

    let mut direct = markdown::FlowChart::new(FlowDirection::TD);
    direct.add_node("A", None, Shape::Flag, "inner text");
    direct.add_connection(line_type, arrow_type, arrow_direction, extra_length_num);
    direct.add_node("B", None, Shape::Flag, "inner text");
    assert_eq!(direct.return_schema(), expected);
}

#[test]
fn flow_chart_it_creates_a_circle() {
    check_node(Shape::Circle, "flowchart TD\n\tA((inner text))");
}

#[test]
fn flow_chart_it_creates_a_rectangle() {
    check_node(Shape::Rectangle, "flowchart TD\n\tA[inner text]");
}

#[test]
fn flow_chart_it_creates_a_hexagon() {
    check_node(Shape::Hexagon, "flowchart TD\n\tA{{inner text}}");
}

#[test]
fn flow_chart_it_creates_a_flag() {
    check_node(Shape::Flag, "flowchart TD\n\tA>inner text]");
}

#[test]
fn flow_chart_it_adds_a_dashed_line_with_right_arrow() {
    check_connection(
        LineType::Dashed,
        ArrowType::Standard,
        ArrowDirection::Right,
        None,
        "flowchart TD\n\tA>inner text] -..-> B>inner text]",
    );
}

#[test]
fn it_adds_a_dashed_line_with_no_arrow() {
    check_connection(
        LineType::Dashed,
        ArrowType::Standard,
        ArrowDirection::Neither,
        None,
        "flowchart TD\n\tA>inner text] -..- B>inner text]",
    );
}

#[test]
fn flow_chart_it_adds_a_dashed_line_with_left_arrow() {
    check_connection(
        LineType::Dashed,
        ArrowType::Standard,
        ArrowDirection::Left,
        None,
        "flowchart TD\n\tA>inner text] <-..- B>inner text]",
    );
}

#[test]
fn flow_chart_it_adds_a_dashed_line_with_bidirectional_arrow() {
    check_connection(
        LineType::Dashed,
        ArrowType::Standard,
        ArrowDirection::BiDirectional,
        None,
        "flowchart TD\n\tA>inner text] <-..-> B>inner text]",
    );
}

#[test]
fn flow_chart_it_adds_a_dashed_line_with_right_o_arrow() {
    check_connection(
        LineType::Dashed,
        ArrowType::O,
        ArrowDirection::Right,
        None,
        "flowchart TD\n\tA>inner text] -..-o B>inner text]",
    );
}

#[test]
fn flow_chart_it_adds_a_dashed_line_with_left_o_arrow() {
    check_connection(
        LineType::Dashed,
        ArrowType::O,
        ArrowDirection::Left,
        None,
        "flowchart TD\n\tA>inner text] o-..- B>inner text]",
    );
}

#[test]
fn flow_chart_it_adds_a_dashed_line_with_bidirectional_o_arrow() {
    check_connection(
        LineType::Dashed,
        ArrowType::O,
        ArrowDirection::BiDirectional,
        None,
        "flowchart TD\n\tA>inner text] o-..-o B>inner text]",
    );
}

#[test]
fn flow_chart_it_adds_a_dashed_line_with_right_x_arrow() {
    check_connection(
        LineType::Dashed,
        ArrowType::X,
        ArrowDirection::Right,
        None,
        "flowchart TD\n\tA>inner text] -..-x B>inner text]",
    );
}

#[test]
fn flow_chart_it_adds_a_dashed_line_with_left_x_arrow() {
    check_connection(
        LineType::Dashed,
        ArrowType::X,
        ArrowDirection::Left,
        None,
        "flowchart TD\n\tA>inner text] x-..- B>inner text]",
    );
}

#[test]
fn flow_chart_it_adds_a_dashed_line_with_bidirectional_x_arrow() {
    check_connection(
        LineType::Dashed,
        ArrowType::X,
        ArrowDirection::BiDirectional,
        None,
        "flowchart TD\n\tA>inner text] x-..-x B>inner text]",
    );
}

#[test]
fn flow_chart_it_adds_a_dashed_line_with_bidirectional_x_arrow_and_extra_length() {
    check_connection(
        LineType::Dashed,
        ArrowType::X,
        ArrowDirection::BiDirectional,
        Some(1),
        "flowchart TD\n\tA>inner text] x-...-x B>inner text]",
    );
}

#[test]
fn it_creates_a_circle_with_soldline_arrow() {
    let mut flow_chart = markdown::FlowChart::new(FlowDirection::TD);
    flow_chart.add_node("A", None, Shape::Circle, "inner text");
    flow_chart.add_connection(LineType::Solid, ArrowType::Standard, ArrowDirection::Right, None);
    flow_chart.add_node("B", None, Shape::Circle, "inner text");
    println!("{}", flow_chart.return_schema());
}

#[test]
fn it_creates_a_rectangle_with_dashedline_circle() {
    let mut flow_chart = markdown::FlowChart::new(FlowDirection::TD);
    flow_chart.add_node("A", None, Shape::Rectangle, "inner text");
    flow_chart.add_connection(LineType::Dashed, ArrowType::O, ArrowDirection::Right, None);
    flow_chart.add_node("B", None, Shape::Rectangle, "inner text");
    println!("{}", flow_chart.return_schema());
}

#[test]
fn it_creates_a_hexagon_with_dashedline_x() {
    let mut flow_chart = markdown::FlowChart::new(FlowDirection::TD);
    flow_chart.add_node("A", None, Shape::Hexagon, "inner text");
    flow_chart.add_connection(LineType::Dashed, ArrowType::X, ArrowDirection::Right, None);
    flow_chart.add_node("B", None, Shape::Hexagon, "inner text");
    println!("{}", flow_chart.return_schema());
}

#[test]
fn solid_line_with_extra_length_and_class() {
    let mut flow_chart = markdown::FlowChart::new(FlowDirection::LR);
    flow_chart.add_node("A", Some("Public-View"), Shape::Circle, "a");
    flow_chart.add_connection(LineType::Solid, ArrowType::Standard, ArrowDirection::Right, Some(2));
    flow_chart.add_node("B", None, Shape::Rectangle, "b");
    flow_chart.add_linebreak(Some(2));
    assert_eq!(
        flow_chart.return_schema(),
        "flowchart LR\n\tA((a)):::Public-View ----> B[b]\n\t\t"
    );
}

#[test]
fn linebreak_with_no_indent() {
    let mut flow_chart = markdown::FlowChart::new(FlowDirection::BT);
    flow_chart.add_linebreak(Some(0));
    assert_eq!(flow_chart.return_schema(), "flowchart BT\n\t\n");
}
