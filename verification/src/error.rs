use vstd::prelude::*;

verus! {

/// Why an operation on a vector was turned down.
#[derive(Debug, Clone, Copy, PartialEq, Eq, Structural)]
pub enum CapacityErrorKind {
    /// Elements were to be added and there is no room left for them.
    CapacityExceeded,
    /// A length was asked for that is larger than the capacity.
    LengthTooLarge,
}

/// Error for when the vector is full or the requested operation would need more space than
/// the capacity.
///
/// An operation that returns it has left the vector as it was.
#[derive(Debug)]
#[non_exhaustive]
pub struct CapacityError {
    /// Which of the two limits the operation ran into.
    pub kind: CapacityErrorKind,
}

impl CapacityError {
    /// The text that describes this error. It is the same for both kinds.
    pub fn message(&self) -> (text: &'static str)
        ensures
            text@ == "vector needs larger capacity"@,
    {
        "vector needs larger capacity"
    }
}

} // verus!
