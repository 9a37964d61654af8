pub mod base64;
pub mod csv;
pub mod genpass;
pub mod http;
pub mod text;

use vstd::prelude::*;

pub use self::base64::{Base64Format, Base64SubCommand};
pub use self::csv::OutputFormat;
pub use self::http::HttpSubCommand;
pub use self::text::{TextSignFormat, TextSubCommand};

verus! {

/// The command line of the tool: one subcommand per run.
#[derive(Debug)]
pub struct Opts {
    pub cmd: SubCommand,
}

/// The subcommands the tool offers.
#[derive(Debug)]
pub enum SubCommand {
    Csv(crate::cli::csv::CsvOpts),
    GenPass(crate::cli::genpass::GenpassOpts),
    Base64(Base64SubCommand),
    Text(TextSubCommand),
    Http(HttpSubCommand),
}

} // verus!
