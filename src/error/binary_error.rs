use vstd::prelude::*;
use vstd::string::StringExecFns;

use super::BinaryErrorType;

verus! {

/// A failure while assembling a binary image, with the name of the binary's
/// destination.
#[derive(Debug)]
pub struct BinaryError {
    /// The kind of failure
    error_type: BinaryErrorType,
    /// The name of the binary's destination
    binary_name: String,
}

impl BinaryError {
    /// The kind of failure.
    pub closed spec fn kind(self) -> BinaryErrorType {
        self.error_type
    }

    /// The name of the binary's destination.
    pub closed spec fn name(self) -> Seq<char> {
        self.binary_name@
    }

    /// Constructs an error of the given kind for the named binary.
    pub fn new(new_type: BinaryErrorType, new_name: &str) -> (r: BinaryError)
        ensures
            r.kind() == new_type,
            r.name() == new_name@,
    {
        BinaryError { error_type: new_type, binary_name: String::from_str(new_name) }
    }

    /// Gets the kind of failure.
    pub fn get_type(&self) -> (r: BinaryErrorType)
        ensures
            r == self.kind(),
    {
        self.error_type
    }

    /// Gets the name of the binary's destination.
    pub fn get_binary_name(&self) -> (r: &str)
        ensures
            r@ == self.name(),
    {
        self.binary_name.as_str()
    }
}

} // verus!
