//! The fixed filter the command's file dialog is scoped to.

use vstd::prelude::*;

verus! {

/// A file-dialog filter: a display label and the file-name extensions the
/// dialog admits under it.
pub struct DialogFilter {
    /// The label the dialog shows for this filter.
    pub label: String,
    /// The file-name extensions the filter admits.
    pub extensions: Vec<String>,
}

/// The display label of the command's one filter.
pub open spec fn txt_filter_label() -> Seq<char> {
    "text files"@
}

/// The single extension class the command's filter admits.
pub open spec fn txt_extension() -> Seq<char> {
    "txt"@
}

/// Holds exactly when `f` is the command's filter: the fixed label, and
/// precisely the `txt` extension class and nothing else.
pub open spec fn restricts_to_txt(f: DialogFilter) -> bool {
    &&& f.label@ == txt_filter_label()
    &&& f.extensions@.len() == 1
    &&& f.extensions@[0]@ == txt_extension()
}

/// The filter of every dialog the command presents.
pub fn text_file_filter() -> (f: DialogFilter)
    ensures
        restricts_to_txt(f),
{
    let label: String = "text files".to_owned();
    let mut extensions: Vec<String> = Vec::new();
    extensions.push("txt".to_owned());
    DialogFilter { label, extensions }
}

/// The filter does not vary between invocations: any two filters that
/// restrict to the `txt` class agree on the label and, extension by
/// extension, on the admitted classes.
pub proof fn lemma_txt_filter_fixed(f1: DialogFilter, f2: DialogFilter)
    requires
        restricts_to_txt(f1),
        restricts_to_txt(f2),
    ensures
        f1.label@ == f2.label@,
        f1.extensions@.len() == f2.extensions@.len(),
        forall|i: int|
            0 <= i < f1.extensions@.len() ==> f1.extensions@[i]@ == f2.extensions@[i]@,
{
}

} // verus!
