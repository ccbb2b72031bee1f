//! A flowchart writer driven by direct arguments: each call appends one
//! piece of markup to the text built so far.
use crate::shapes::{
    connection_text, extra_count, header_text, indent_count, line_text, linebreak_text, node_text,
    repeat, ArrowDirection, ArrowType, FlowDirection, LineType, Shape,
};
use vstd::prelude::*;

verus! {

/// The text of an optional string.
pub open spec fn opt_text(o: Option<&str>) -> Option<Seq<char>> {
    match o {
        Some(s) => Some(s@),
        None => None,
    }
}

/// The markup text of one flowchart, built piece by piece.
pub struct FlowChart {
    data: String,
}

impl View for FlowChart {
    type V = Seq<char>;

    closed spec fn view(&self) -> Seq<char> {
        self.data@
    }
}

impl FlowChart {
    /// Starts a chart with its header line.
    pub fn new(direction: FlowDirection) -> (r: FlowChart)
        ensures
            r@ == header_text(direction),
    {
        let mut data = String::from_str("flowchart ");
        data.append(direction.as_str());
        let mut result = FlowChart { data };
        result.add_linebreak(None);
        result
    }

    /// Appends a newline and a number of tabs (one by default).
    pub fn add_linebreak(&mut self, num_of_indents: Option<u8>)
        ensures
            final(self)@ == old(self)@ + linebreak_text(indent_count(num_of_indents)),
    {
        let number_of_indents: u8 = match num_of_indents {
            Some(n) => n,
            None => 1,
        };
        self.data.append("\n");
        let mut i: u8 = 0;
        while i < number_of_indents
            invariant
                i <= number_of_indents,
                number_of_indents as nat == indent_count(num_of_indents),
                self.data@ == old(self).data@ + "\n"@ + repeat("\t"@, i as nat),
            decreases number_of_indents - i,
        {
            self.data.append("\t");
            i = i + 1;
        }
        assert(self.data@ =~= old(self).data@ + linebreak_text(i as nat));
    }

    /// Appends a node block: identifier, shape, label and optional class.
    pub fn add_node(&mut self, id: &str, class: Option<&str>, shape: Shape, inner_text: &str)
        ensures
            final(self)@ == old(self)@ + node_text(id@, opt_text(class), shape, inner_text@),
    {
        self.data.append(id);
        self.data.append(shape.left_str());
        self.data.append(inner_text);
        self.data.append(shape.right_str());
        match class {
            Some(c) => {
                self.data.append(":::");
                self.data.append(c);
            },
            None => {},
        }
        assert(self.data@ =~= old(self).data@ + node_text(id@, opt_text(class), shape, inner_text@));
    }

    /// Appends a connection: a line with its arrow heads, between single spaces.
    pub fn add_connection(
        &mut self,
        line_type: LineType,
        arrow_type: ArrowType,
        arrow_direction: ArrowDirection,
        extra_length_num: Option<u8>,
    )
        ensures
            final(self)@ == old(self)@ + connection_text(
                line_type,
                arrow_type,
                arrow_direction,
                extra_count(extra_length_num),
            ),
    {
        let ghost line = line_text(line_type, extra_count(extra_length_num));
        self.data.append(" ");
        match arrow_direction {
            ArrowDirection::BiDirectional => {
                self.add_arrow(arrow_type, ArrowDirection::Left);
                self.add_line(line_type, extra_length_num);
                self.add_arrow(arrow_type, ArrowDirection::Right);
                assert(self.data@ =~= old(self).data@ + " "@ + (arrow_type.left_head() + line
                    + arrow_type.right_head()));
            },
            ArrowDirection::Left => {
                self.add_arrow(arrow_type, ArrowDirection::Left);
                self.add_line(line_type, extra_length_num);
                assert(self.data@ =~= old(self).data@ + " "@ + (arrow_type.left_head() + line));
            },
            ArrowDirection::Right => {
                self.add_line(line_type, extra_length_num);
                self.add_arrow(arrow_type, ArrowDirection::Right);
                assert(self.data@ =~= old(self).data@ + " "@ + (line + arrow_type.right_head()));
            },
            ArrowDirection::Neither => {
                self.add_line(line_type, extra_length_num);
            },
        }
        self.data.append(" ");
        assert(self.data@ =~= old(self).data@ + connection_text(
            line_type,
            arrow_type,
            arrow_direction,
            extra_count(extra_length_num),
        ));
    }

    /// Returns the markup written so far.
    pub fn return_schema(&self) -> (r: String)
        ensures
            r@ == self@,
    {
        self.data.clone()
    }

    fn add_dashed_line(&mut self, extra_length_num: Option<u8>)
        ensures
            final(self).data@ == old(self).data@ + line_text(
                LineType::Dashed,
                extra_count(extra_length_num),
            ),
    {
        self.data.append("-.");
        let n: u8 = match extra_length_num {
            Some(n) => n,
            None => 0,
        };
        let mut i: u8 = 0;
        while i < n
            invariant
                i <= n,
                n as nat == extra_count(extra_length_num),
                self.data@ == old(self).data@ + "-."@ + repeat("."@, i as nat),
            decreases n - i,
        {
            self.data.append(".");
            i = i + 1;
        }
        self.data.append(".-");
        assert(self.data@ =~= old(self).data@ + line_text(LineType::Dashed, n as nat));
    }

    fn add_solid_line(&mut self, extra_length_num: Option<u8>)
        ensures
            final(self).data@ == old(self).data@ + line_text(
                LineType::Solid,
                extra_count(extra_length_num),
            ),
    {
        self.data.append("--");
        let n: u8 = match extra_length_num {
            Some(n) => n,
            None => 0,
        };
        let mut i: u8 = 0;
        while i < n
            invariant
                i <= n,
                n as nat == extra_count(extra_length_num),
                self.data@ == old(self).data@ + "--"@ + repeat("-"@, i as nat),
            decreases n - i,
        {
            self.data.append("-");
            i = i + 1;
        }
        assert(self.data@ =~= old(self).data@ + line_text(LineType::Solid, n as nat));
    }

    fn add_line(&mut self, line_type: LineType, extra_length_num: Option<u8>)
        ensures
            final(self).data@ == old(self).data@ + line_text(
                line_type,
                extra_count(extra_length_num),
            ),
    {
        match line_type {
            LineType::Solid => self.add_solid_line(extra_length_num),
            LineType::Dashed => self.add_dashed_line(extra_length_num),
        }
    }

    fn add_arrow(&mut self, arrow_type: ArrowType, arrow_direction: ArrowDirection)
        requires
            arrow_direction == ArrowDirection::Left || arrow_direction == ArrowDirection::Right,
        ensures
            final(self).data@ == old(self).data@ + if arrow_direction == ArrowDirection::Left {
                arrow_type.left_head()
            } else {
                arrow_type.right_head()
            },
    {
        match arrow_direction {
            ArrowDirection::Left => self.data.append(arrow_type.left_head_str()),
            _ => self.data.append(arrow_type.right_head_str()),
        }
    }
}

} // verus!
