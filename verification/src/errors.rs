use vstd::prelude::*;

verus! {

/// The text that every report of a borrow conflict carries.
pub open spec fn conflict_text() -> Seq<char> {
    "already mutably borrowed by current thread"@
}

/// The diagnostic text of a borrow conflict, as a string slice.
pub fn err_msg() -> (msg: &'static str)
    ensures
        msg@ == conflict_text(),
{
    "already mutably borrowed by current thread"
}

/// The one error of this library: the requested borrow is incompatible with
/// a borrow that is still outstanding. It carries nothing but its kind.
#[derive(Debug)]
pub struct CellError {}

impl CellError {
    /// The fixed diagnostic text of the conflict.
    pub fn message(&self) -> (text: String)
        ensures
            text@ == conflict_text(),
    {
        err_msg().to_owned()
    }
}

} // verus!
