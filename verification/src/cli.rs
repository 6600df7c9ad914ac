//! The commands of the `douban-rs` command line.
use vstd::prelude::*;

verus! {

/// The name the command line shows for itself.
pub const COMMAND_NAME: &'static str = "douban-web";

/// The name of the command line's binary.
pub const BIN_NAME: &'static str = "douban-rs";

/// A command of the command line.
#[derive(Clone, Debug)]
pub enum DoubanWeb {
    /// Deploy douban services locally.
    Deploy(Deploy),
    /// Update the deployed services.
    Update(Update),
}

/// Deploy douban services locally: into a directory, when one is given,
/// the services named (at least one).
#[derive(Clone, Debug)]
pub struct Deploy {
    pub path: Option<String>,
    pub service: Vec<String>,
}

/// Update the deployed services.
#[derive(Clone, Copy, Debug, PartialEq, Eq, Structural)]
pub struct Update {}

impl Deploy {
    /// A deployment of the services named into the directory given, if any;
    /// `None` when no service is named, as the command line requires one.
    pub fn new(path: Option<String>, service: Vec<String>) -> (r: Option<Deploy>)
        ensures
            r is Some <==> service@.len() > 0,
            r matches Some(d) ==> d.path == path && d.service@ == service@,
    {
        if service.len() == 0 {
            None
        } else {
            Some(Deploy { path, service })
        }
    }
}

} // verus!
