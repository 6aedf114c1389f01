use vstd::prelude::*;

verus! {

/// The outcome of a non-blocking probe: either finished with a value, or not
/// ready yet, in which case the caller polls again later.
#[derive(Debug, PartialEq, Eq)]
pub enum Progress<T> {
    Ready(T),
    Pending,
}

impl<T> Progress<T> {
    /// True when the probe finished.
    pub fn is_ready(&self) -> (r: bool)
        ensures
            r == (self is Ready),
    {
        match self {
            Progress::Ready(_) => true,
            Progress::Pending => false,
        }
    }
}

} // verus!
