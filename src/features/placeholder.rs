//! A menu entry whose feature is not written yet.

use vstd::prelude::*;
use crate::text::join2;

verus! {

/// Stands in for a planned feature.
#[derive(Debug)]
pub struct PlaceholderFeature {
    name: String,
}

impl PlaceholderFeature {
    /// The feature's name.
    pub closed spec fn title(&self) -> Seq<char> {
        self.name@
    }

    /// A placeholder for the feature called `name`.
    pub fn new(name: String) -> (r: PlaceholderFeature)
        ensures
            r.title() == name@,
    {
        PlaceholderFeature { name }
    }

    /// The notice shown instead of the feature.
    pub fn get_message(&self) -> (r: String)
        ensures
            r@ == self.title()
                + " - Coming Soon!\n\nThis feature is planned for a future release.\n\nPress ESC to return to the main menu."@,
    {
        join2(
            self.name.as_str(),
            " - Coming Soon!\n\nThis feature is planned for a future release.\n\nPress ESC to return to the main menu.",
        )
    }
}

} // verus!
