use vstd::prelude::*;

use crate::texts_of;

verus! {

/// How the file-open dialog was dismissed.
#[derive(PartialEq, Eq, Debug)]
pub enum DialogResponse {
    /// The user accepted the dialog; the chosen file's path.
    Accept(String),
    /// The user cancelled the dialog.
    Cancel,
    /// The dialog closed in any other way (window closed, other response code).
    Other,
}

/// The console lines that dismissing the dialog in the given way produces:
/// the chosen path alone on acceptance, nothing otherwise.
pub open spec fn dialog_output(response: DialogResponse) -> Seq<Seq<char>> {
    match response {
        DialogResponse::Accept(path) => seq![path@],
        _ => Seq::empty(),
    }
}

/// Decides what the "Find INI file" action prints once the dialog is dismissed.
/// The dialog is hidden afterwards whatever this returns.
pub fn file_dialog_lines(response: DialogResponse) -> (lines: Vec<String>)
    ensures
        texts_of(lines@) == dialog_output(response),
{
    let mut lines: Vec<String> = Vec::new();
    match response {
        DialogResponse::Accept(path) => {
            lines.push(path);
        },
        _ => {},
    }
    proof {
        assert(texts_of(lines@) =~= dialog_output(response));
    }
    lines
}

} // verus!
