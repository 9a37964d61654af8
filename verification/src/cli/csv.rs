use std::str::FromStr;
use vstd::prelude::*;

use crate::errors::RcliError;
use crate::utils::bytes_eq;
use vstd::string::StringSliceAdditionalSpecFns;

verus! {

/// The output formats of the CSV conversion.
#[derive(Debug, Clone, Copy, PartialEq, Eq, Structural)]
pub enum OutputFormat {
    Json,
    Yaml,
}

/// Options for the CSV conversion: input file, output file, format,
/// whether the first row is a header, and the field delimiter.
#[derive(Debug)]
pub struct CsvOpts {
    pub input: String,
    pub output: Option<String>,
    pub format: OutputFormat,
    pub header: bool,
    pub delimiter: char,
}

/// Parses an output-format identifier. Exactly `"json"` and `"yaml"` are
/// recognized; anything else is `UnsupportedFormat`.
pub fn parse_format(format: &str) -> (r: Result<OutputFormat, RcliError>)
    ensures
        match r {
            Ok(f) => (f == OutputFormat::Json && format.spec_bytes() == "json".spec_bytes())
                || (f == OutputFormat::Yaml && format.spec_bytes() == "yaml".spec_bytes()),
            Err(e) => e == RcliError::UnsupportedFormat
                && format.spec_bytes() != "json".spec_bytes()
                && format.spec_bytes() != "yaml".spec_bytes(),
        },
{
    if bytes_eq(format.as_bytes(), "json".as_bytes()) {
        Ok(OutputFormat::Json)
    } else if bytes_eq(format.as_bytes(), "yaml".as_bytes()) {
        Ok(OutputFormat::Yaml)
    } else {
        Err(RcliError::UnsupportedFormat)
    }
}

impl FromStr for OutputFormat {
    type Err = RcliError;

    fn from_str(s: &str) -> Result<Self, Self::Err> {
        parse_format(s)
    }
}

impl OutputFormat {
    /// The identifier under which the format is selected, and the file
    /// extension the tool derives from it.
    pub fn as_str(&self) -> (r: &'static str)
        ensures
            r@ == (match *self {
                OutputFormat::Json => "json"@,
                OutputFormat::Yaml => "yaml"@,
            }),
    {
        match self {
            OutputFormat::Json => "json",
            OutputFormat::Yaml => "yaml",
        }
    }
}

} // verus!
