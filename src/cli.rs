use std::path::PathBuf;
use vstd::prelude::*;

verus! {

/// A filesystem path, carried through unchanged.
#[verifier::external_type_specification]
#[verifier::external_body]
pub struct ExPathBuf(PathBuf);

/// The command-line arguments of the simulation program: the parameter
/// document, the daily forcing data, and the file that receives the flows.
pub struct Cli {
    pub parameters: PathBuf,
    pub data: PathBuf,
    pub output_path: PathBuf,
}

impl Cli {
    pub fn new(parameters: PathBuf, data: PathBuf, output_path: PathBuf) -> (r: Cli)
        ensures
            r.parameters == parameters,
            r.data == data,
            r.output_path == output_path,
    {
        Cli { parameters, data, output_path }
    }
}

} // verus!
