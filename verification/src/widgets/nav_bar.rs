//! The state of the navigation bar.
use vstd::prelude::*;

verus! {

/// The url the navigation bar shows.
pub struct NavBarState(pub String);

impl NavBarState {
    /// A navigation bar that shows no url.
    pub fn new() -> (res: Self)
        ensures
            res.0@ == Seq::<char>::empty(),
    {
        NavBarState(String::new())
    }
}

} // verus!
