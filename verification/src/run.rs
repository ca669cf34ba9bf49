//! Run-level decisions: version fallback, output-file naming, and the
//! overwrite precondition.
//!
//! The surrounding program performs the file-system checks and hands the
//! outcomes in as plain values; the decisions themselves are verified.

use vstd::prelude::*;

verus! {

/// The name of the output script: the optional prefix, the version
/// upgraded from, a dash, the version upgraded to, and a fixed tail.
pub open spec fn spec_output_filename(
    prefix: Option<Seq<char>>,
    from_version: Seq<char>,
    version: Seq<char>,
) -> Seq<char> {
    (match prefix {
        Some(p) => p,
        None => Seq::<char>::empty(),
    }) + from_version + "-"@ + version + "-upgrade-db.sql"@
}

/// The output script's file name for the given versions and optional
/// prefix.
pub fn output_filename(prefix: &Option<String>, from_version: &String, version: &String) -> (r:
    String)
    ensures
        r@ == spec_output_filename(prefix.deep_view(), from_version@, version@),
{
    let mut out = match prefix {
        Some(p) => p.clone(),
        None => String::new(),
    };
    out.append(from_version.as_str());
    out.append("-");
    out.append(version.as_str());
    out.append("-upgrade-db.sql");
    proof {
        assert(out@ =~= spec_output_filename(prefix.deep_view(), from_version@, version@));
    }
    out
}

/// The version a run uses: the explicit override when one was given,
/// else the version derived from a branch name, else nothing — and the
/// run must then fail.
pub fn resolve_version(explicit: Option<String>, derived: Option<String>) -> (r: Option<String>)
    ensures
        explicit is Some ==> r == explicit,
        explicit is None ==> r == derived,
{
    match explicit {
        Some(v) => Some(v),
        None => derived,
    }
}

/// Whether the output file may be written: its path is still free, or
/// overwriting was requested.
pub fn overwrite_allowed(output_exists: bool, clobber: bool) -> (r: bool)
    ensures
        r == (!output_exists || clobber),
{
    !output_exists || clobber
}

} // verus!
