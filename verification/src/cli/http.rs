use vstd::prelude::*;

verus! {

/// The HTTP subcommands.
#[derive(Debug)]
pub enum HttpSubCommand {
    Serve(HttpServeOpts),
}

/// Options for serving a directory over HTTP.
#[derive(Debug)]
pub struct HttpServeOpts {
    pub port: u16,
    pub dir: String,
    pub list: bool,
}

} // verus!
