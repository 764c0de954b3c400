use vstd::prelude::*;

verus! {

/// What the command line supplies: the accessions to fetch and the directory
/// that receives one file per accession.
#[derive(Debug, Clone)]
pub struct App {
    pub accession: Vec<String>,
    pub outdir: String,
}

} // verus!
