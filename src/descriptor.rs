use vstd::prelude::*;
use crate::arguments::Arguments;
use crate::library::Library;

verus! {

/// The client artifact of a base descriptor.
#[derive(Debug)]
pub struct Client {
    pub url: String,
    pub size: u32,
}

/// The downloads of a base descriptor.
#[derive(Debug)]
pub struct Downloads {
    pub client: Client,
}

/// Where a base descriptor's asset index is found.
#[derive(Debug)]
pub struct AssetIndex {
    pub id: String,
    pub url: String,
}

/// The descriptor of a base version.
#[derive(Debug)]
pub struct BaseDescriptor {
    pub id: String,
    pub downloads: Downloads,
    pub asset_index: AssetIndex,
    pub arguments: Arguments,
    /// The legacy argument string; empty when absent.
    pub minecraft_arguments: String,
    pub libraries: Vec<Library>,
    pub main_class: String,
}

/// The descriptor of an overlay version, which inherits from a base version.
#[derive(Debug)]
pub struct OverlayDescriptor {
    pub id: String,
    pub main_class: String,
    pub inherits_from: String,
    pub arguments: Arguments,
    /// The legacy argument string; empty when absent.
    pub minecraft_arguments: String,
    pub libraries: Vec<Library>,
}

} // verus!
