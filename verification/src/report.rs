//! Where the files of a run are written: the document report, and the
//! syntax tree that is written beside a source file.

use crate::text::ends_with;
use vstd::prelude::*;

verus! {

/// The path that `std::path::Path::with_extension` gives for a path and an
/// extension. It follows the path syntax of the platform that the library
/// is built for, and looks neither at the disk nor at the environment.
pub uninterp spec fn replaced_extension(path: Seq<char>, extension: Seq<char>) -> Seq<char>;

/// Calls `Path::with_extension` on a path given as text, and hands the
/// result back as text. The contract only gives the result its name. The
/// call panics on an extension that holds a path separator, so such an
/// extension is not accepted.
#[verifier::external_body]
pub(crate) fn with_extension(path: &str, extension: &str) -> (replaced: String)
    requires
        !extension@.contains('/'),
        !extension@.contains('\\'),
    ensures
        replaced@ == replaced_extension(path@, extension@),
{
    std::path::Path::new(path).with_extension(extension).to_string_lossy().into_owned()
}

/// Whether a path already ends in the extension of a document report.
pub open spec fn is_document_path(path: Seq<char>) -> bool {
    ".md"@.is_suffix_of(path)
}

/// The path under which the report is written, given the path that was
/// asked for and the same path with its extension replaced: the path asked
/// for where it ends in the extension of a document, else the other.
pub open spec fn report_path_given(requested: Seq<char>, replaced: Seq<char>) -> Seq<char> {
    if is_document_path(requested) {
        requested
    } else {
        replaced
    }
}

/// The path under which the report is written.
pub open spec fn report_path(requested: Seq<char>) -> Seq<char> {
    report_path_given(requested, replaced_extension(requested, "md"@))
}

/// The path under which the syntax tree of a source file is written.
pub open spec fn ast_path(source: Seq<char>) -> Seq<char> {
    replaced_extension(source, "json"@)
}

/// Chooses the path of the report between the path that was asked for and
/// that path with its extension replaced.
pub fn report_path_from(requested: &str, replaced: String) -> (path: String)
    ensures
        path@ == report_path_given(requested@, replaced@),
{
    if ends_with(requested, ".md") {
        requested.to_owned()
    } else {
        replaced
    }
}

/// The path under which the report is written: the path that was asked for
/// where it ends in `.md`, else that path with `md` as its extension.
pub fn normalize_report_path(requested: &str) -> (path: String)
    ensures
        path@ == report_path(requested@),
        is_document_path(requested@) ==> path@ == requested@,
{
    proof {
        reveal_strlit("md");
    }
    let replaced = with_extension(requested, "md");
    report_path_from(requested, replaced)
}

/// The path under which the syntax tree of a source file is written: the
/// path of the source file with `json` as its extension.
pub fn ast_path_of(source: &str) -> (path: String)
    ensures
        path@ == ast_path(source@),
{
    proof {
        reveal_strlit("json");
    }
    with_extension(source, "json")
}

/// A path that ends in the extension of a document is the path of its own
/// report, so that the path of a report, once it ends so, is not changed
/// again.
pub proof fn lemma_document_path_is_kept(requested: Seq<char>)
    requires
        is_document_path(requested),
    ensures
        report_path(requested) == requested,
        report_path(report_path(requested)) == report_path(requested),
{
}

} // verus!
