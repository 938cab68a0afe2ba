use vstd::prelude::*;

verus! {

/// The kinds of failure while assembling a binary image.
#[derive(Clone, Copy, Debug, PartialEq, Eq, Structural)]
pub enum BinaryErrorType {
    /// The destination already exists
    FileExists,
    /// The data could not be added to the binary
    DataError,
    /// The binary could not be written to its destination
    FileError,
}

impl BinaryErrorType {
    /// A sentence that describes the failure.
    pub fn description(&self) -> (r: &'static str)
        ensures
            r@ == match self {
                BinaryErrorType::FileExists => "A binary already exists with the given name"@,
                BinaryErrorType::DataError => "Error writing data into binary"@,
                BinaryErrorType::FileError => "Error writing binary to disk"@,
            },
    {
        match self {
            BinaryErrorType::FileExists => "A binary already exists with the given name",
            BinaryErrorType::DataError => "Error writing data into binary",
            BinaryErrorType::FileError => "Error writing binary to disk",
        }
    }
}

} // verus!
