use vstd::prelude::*;

verus! {

/// Title of the main window.
pub const WINDOW_TITLE: &'static str = "3D printer ini generator";

/// Border, in pixels, around the main window's contents.
pub const BORDER_WIDTH: u32 = 10;

/// Default width of the main window, in pixels.
pub const DEFAULT_WIDTH: i32 = 350;

/// Default height of the main window, in pixels.
pub const DEFAULT_HEIGHT: i32 = 400;

/// Space, in pixels, between the items of the vertical stack.
pub const STACK_SPACING: i32 = 10;

/// Caption of the button that prints the entries.
pub const GENERATE_LABEL: &'static str = "Generate INI file";

/// Caption of the button that opens the file dialog.
pub const FIND_LABEL: &'static str = "Find INI file";

/// Title of the file-open dialog.
pub const DIALOG_TITLE: &'static str = "Load ini file";

/// Caption of the dialog's accepting button.
pub const DIALOG_ACCEPT_LABEL: &'static str = "Ok";

/// Caption of the dialog's cancelling button.
pub const DIALOG_CANCEL_LABEL: &'static str = "Cancel";

/// The names of the form's fields, in display order.
pub open spec fn field_names() -> Seq<Seq<char>> {
    seq!["Temperature"@, "Operating System"@]
}

/// The field names that the form is built from.
pub fn default_params() -> (params: Vec<&'static str>)
    ensures
        params@.map_values(|p: &str| p@) == field_names(),
{
    let params: Vec<&'static str> = vec!["Temperature", "Operating System"];
    proof {
        assert(params@.map_values(|p: &str| p@) =~= field_names());
    }
    params
}

/// One item of the window's vertical stack.
#[derive(PartialEq, Eq, Structural, Clone, Copy, Debug)]
pub enum StackItem {
    /// The entry row at this index.
    Row(usize),
    /// The button that prints the entries.
    GenerateButton,
    /// The button that opens the file dialog.
    FindButton,
}

/// The vertical stack for `n` rows: the rows in order, then the "Generate"
/// button, then the "Find INI file" button.
pub open spec fn stack_for(n: nat) -> Seq<StackItem> {
    Seq::new(n, |i: int| StackItem::Row(i as usize)).push(StackItem::GenerateButton).push(
        StackItem::FindButton,
    )
}

/// Lays out the window's vertical stack for `n_rows` entry rows.
pub fn stack_items(n_rows: usize) -> (items: Vec<StackItem>)
    requires
        n_rows + 2 <= usize::MAX,
    ensures
        items@ == stack_for(n_rows as nat),
{
    let mut items: Vec<StackItem> = Vec::new();
    let mut i: usize = 0;
    while i < n_rows
        invariant
            i <= n_rows,
            items@ == Seq::new(i as nat, |j: int| StackItem::Row(j as usize)),
        decreases n_rows - i,
    {
        items.push(StackItem::Row(i));
        proof {
            assert(items@ =~= Seq::new((i + 1) as nat, |j: int| StackItem::Row(j as usize)));
        }
        i = i + 1;
    }
    items.push(StackItem::GenerateButton);
    items.push(StackItem::FindButton);
    proof {
        assert(items@ =~= stack_for(n_rows as nat));
    }
    items
}

} // verus!
