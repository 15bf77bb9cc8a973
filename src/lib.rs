use vstd::prelude::*;

pub mod dialog;
pub mod form;
pub mod layout;
pub mod session;

verus! {

/// The text of each string, in order.
pub open spec fn texts_of(strings: Seq<String>) -> Seq<Seq<char>> {
    strings.map_values(|s: String| s@)
}

} // verus!
