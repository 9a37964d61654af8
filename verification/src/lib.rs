pub mod cli;
pub mod errors;
pub mod process;
pub mod utils;

pub use cli::{
    Base64Format, Base64SubCommand, HttpSubCommand, Opts, OutputFormat, SubCommand, TextSignFormat,
    TextSubCommand,
};
pub use errors::RcliError;
pub use process::{
    process_decode, process_encode, process_generate, process_genpass, process_sign,
    process_verify,
};
pub use utils::bytes_eq;
