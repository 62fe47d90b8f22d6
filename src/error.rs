use vstd::prelude::*;

verus! {

/// What went wrong, by kind: reading or writing a file, encoding a value,
/// the execution engine itself, or a call the contract rejected.
#[derive(Debug, Clone, Copy, PartialEq, Eq, Structural)]
pub enum ErrorKind {
    Io,
    Serialization,
    Engine,
    Logical,
}

} // verus!
