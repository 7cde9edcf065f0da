//! The choice of the format in which a document is written out.

use crate::text::chars_of;
use vstd::prelude::*;

verus! {

/// A format in which a document can be written out.
#[derive(Clone, Copy, Debug, PartialEq, Eq, Structural)]
pub enum OutputFormat {
    Json,
    Yaml,
}

/// The format that a file name's extension asks for: `json` for JSON,
/// `yaml` or `yml` for YAML, and none for any other.
pub open spec fn format_of(extension: Seq<char>) -> Option<OutputFormat> {
    if extension == seq!['j', 's', 'o', 'n'] {
        Some(OutputFormat::Json)
    } else if extension == seq!['y', 'a', 'm', 'l'] || extension == seq!['y', 'm', 'l'] {
        Some(OutputFormat::Yaml)
    } else {
        None
    }
}

/// Tells the format that a file name's extension asks for.
pub fn output_format(extension: &str) -> (format: Option<OutputFormat>)
    ensures
        format == format_of(extension@),
{
    let e = chars_of(extension);
    proof {
        let json = seq!['j', 's', 'o', 'n'];
        let yaml = seq!['y', 'a', 'm', 'l'];
        let yml = seq!['y', 'm', 'l'];
        assert(json.len() == 4 && json[0] == 'j' && json[1] == 's' && json[2] == 'o' && json[3]
            == 'n');
        assert(yaml.len() == 4 && yaml[0] == 'y' && yaml[1] == 'a' && yaml[2] == 'm' && yaml[3]
            == 'l');
        assert(yml.len() == 3 && yml[0] == 'y' && yml[1] == 'm' && yml[2] == 'l');
    }
    if e.len() == 4 && e[0] == 'j' && e[1] == 's' && e[2] == 'o' && e[3] == 'n' {
        assert(e@ =~= seq!['j', 's', 'o', 'n']);
        Some(OutputFormat::Json)
    } else if e.len() == 4 && e[0] == 'y' && e[1] == 'a' && e[2] == 'm' && e[3] == 'l' {
        assert(e@ =~= seq!['y', 'a', 'm', 'l']);
        Some(OutputFormat::Yaml)
    } else if e.len() == 3 && e[0] == 'y' && e[1] == 'm' && e[2] == 'l' {
        assert(e@ =~= seq!['y', 'm', 'l']);
        Some(OutputFormat::Yaml)
    } else {
        None
    }
}

} // verus!
