//! Conversion of the platform path values reported by the package-metadata
//! and vendor-manager probes into the plain strings the rest of the
//! pipeline works on.

use vstd::prelude::*;

verus! {

#[verifier::external_type_specification]
#[verifier::external_body]
pub struct ExPathBuf(std::path::PathBuf);

/// The text of a path, a pure function of the path's own bytes.
pub uninterp spec fn path_display_of(p: std::path::PathBuf) -> Seq<char>;

/// Relies on OsStr::to_string_lossy: the textual form of the path,
/// depending on the path value alone.
#[verifier::external_body]
fn path_str(p: &std::path::PathBuf) -> (r: String)
    ensures
        r@ == path_display_of(*p),
{
    p.as_os_str().to_string_lossy().to_string()
}

/// The textual form of each path, in the order the probe reported them.
pub fn path_strs(paths: Vec<std::path::PathBuf>) -> (r: Vec<String>)
    ensures
        r@.len() == paths@.len(),
        forall|i: int| 0 <= i < paths@.len() ==> r@[i]@ == path_display_of(paths@[i]),
{
    let mut r: Vec<String> = Vec::new();
    let mut idx: usize = 0;
    while idx < paths.len()
        invariant
            idx <= paths@.len(),
            r@.len() == idx,
            forall|i: int| 0 <= i < idx ==> r@[i]@ == path_display_of(paths@[i]),
        decreases paths@.len() - idx,
    {
        r.push(path_str(&paths[idx]));
        idx += 1;
    }
    r
}

} // verus!
