use vstd::prelude::*;

use crate::texts_of;

verus! {

/// Space, in pixels, packed around a label inside its row.
pub const LABEL_PADDING: u32 = 10;

/// Space, in pixels, packed around an entry inside its row.
pub const ENTRY_PADDING: u32 = 0;

/// A single-line text field of the form, holding what the user typed.
#[derive(PartialEq, Eq, Debug)]
pub struct FormEntry {
    pub text: String,
}

/// The static caption shown beside an entry.
#[derive(PartialEq, Eq, Debug)]
pub struct FormLabel {
    pub text: String,
}

/// A horizontal row that holds one label and one entry side by side.
/// `label` and `entry` index the label and entry collections built with it.
#[derive(PartialEq, Eq, Structural, Clone, Copy, Debug)]
pub struct EntryRow {
    pub label: usize,
    pub entry: usize,
    pub label_padding: u32,
    pub entry_padding: u32,
}

/// The row built for the field at position `i`: label `i` first, then entry `i`.
pub open spec fn is_row_for(row: EntryRow, i: int) -> bool {
    &&& row.label == i
    &&& row.entry == i
    &&& row.label_padding == LABEL_PADDING
    &&& row.entry_padding == ENTRY_PADDING
}

/// Builds one entry, one label and one row per field name, all index-aligned
/// with `params`: label `i` shows `params[i]`, entry `i` starts empty, and row
/// `i` pairs label `i` with entry `i`.
pub fn build_entry_box(params: Vec<&str>) -> (r: (Vec<FormEntry>, Vec<FormLabel>, Vec<EntryRow>))
    ensures
        r.0@.len() == params@.len(),
        r.1@.len() == params@.len(),
        r.2@.len() == params@.len(),
        forall|i: int| 0 <= i < params@.len() ==> (#[trigger] r.0@[i]).text@ == Seq::<char>::empty(),
        forall|i: int| 0 <= i < params@.len() ==> (#[trigger] r.1@[i]).text@ == params@[i]@,
        forall|i: int| 0 <= i < params@.len() ==> is_row_for(#[trigger] r.2@[i], i),
{
    let n = params.len();
    let mut entries: Vec<FormEntry> = Vec::new();
    let mut labels: Vec<FormLabel> = Vec::new();
    let mut rows: Vec<EntryRow> = Vec::new();
    let mut i: usize = 0;
    while i < n
        invariant
            n == params@.len(),
            i <= n,
            entries@.len() == i,
            labels@.len() == i,
            rows@.len() == i,
            forall|j: int| 0 <= j < i ==> (#[trigger] entries@[j]).text@ == Seq::<char>::empty(),
            forall|j: int| 0 <= j < i ==> (#[trigger] labels@[j]).text@ == params@[j]@,
            forall|j: int| 0 <= j < i ==> is_row_for(#[trigger] rows@[j], j),
        decreases n - i,
    {
        entries.push(FormEntry { text: String::new() });
        labels.push(FormLabel { text: params[i].to_owned() });
        rows.push(EntryRow { label: i, entry: i, label_padding: LABEL_PADDING, entry_padding: ENTRY_PADDING });
        i = i + 1;
    }
    (entries, labels, rows)
}

/// The console lines that the "Generate" action prints: the current text of
/// every entry, one per line, in the order of the entries.
pub fn generate_lines(texts: &Vec<String>) -> (lines: Vec<String>)
    ensures
        texts_of(lines@) == texts_of(texts@),
{
    let mut lines: Vec<String> = Vec::new();
    let mut i: usize = 0;
    while i < texts.len()
        invariant
            i <= texts@.len(),
            lines@.len() == i,
            forall|j: int| 0 <= j < i ==> (#[trigger] lines@[j])@ == texts@[j]@,
        decreases texts@.len() - i,
    {
        lines.push(texts[i].clone());
        i = i + 1;
    }
    proof {
        assert(texts_of(lines@) =~= texts_of(texts@));
    }
    lines
}

} // verus!
