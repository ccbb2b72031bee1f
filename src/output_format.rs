//! The image formats a rendered diagram can be written in.
use vstd::prelude::*;

verus! {

/// The format of the rendered diagram.
#[derive(Debug, Clone, Copy, PartialEq, Eq)]
pub enum OutputFormat {
    Svg,
    Png,
    Pdf,
    Jpg,
}

/// The format a name selects: `Jpg`, `Pdf`, `Png` or `Svg`, and `Svg` for
/// any other name.
pub open spec fn format_named(name: Seq<char>) -> OutputFormat {
    if name == "Jpg"@ {
        OutputFormat::Jpg
    } else if name == "Pdf"@ {
        OutputFormat::Pdf
    } else if name == "Png"@ {
        OutputFormat::Png
    } else {
        OutputFormat::Svg
    }
}

/// Whether two strings hold the same text.
pub fn same_text(a: &str, b: &str) -> (r: bool)
    ensures
        r == (a@ == b@),
{
    String::from_str(a) == String::from_str(b)
}

impl OutputFormat {
    pub fn from_name(input: &str) -> (r: OutputFormat)
        ensures
            r == format_named(input@),
    {
        if same_text(input, "Jpg") {
            OutputFormat::Jpg
        } else if same_text(input, "Pdf") {
            OutputFormat::Pdf
        } else if same_text(input, "Png") {
            OutputFormat::Png
        } else {
            OutputFormat::Svg
        }
    }
}

impl std::str::FromStr for OutputFormat {
    type Err = ();

    fn from_str(input: &str) -> Result<OutputFormat, ()> {
        Ok(OutputFormat::from_name(input))
    }
}

} // verus!
