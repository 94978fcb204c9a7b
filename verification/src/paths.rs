//! Resolution of the artifact paths named in a request, through the path
//! library that the rest of the toolchain uses.

use vstd::prelude::*;
use crate::wire::us_free;

verus! {

/// What `camino::Utf8Path::join` returns for the two paths, as a sequence
/// of characters: the right path adjoined to the left one. The result is
/// named rather than written out, because the adjoining rules (absolute
/// right sides, redundant separators, platform separators) belong to the
/// path library alone.
pub uninterp spec fn join_of(base: Seq<char>, child: Seq<char>) -> Seq<char>;

/// Relies on `camino::Utf8Path::join` (which adjoins exactly as
/// `std::path::Path::join` does): the result is determined by the two paths
/// alone, and is built only from their own characters and path separators,
/// so it is free of the unit separator whenever both inputs are.
#[verifier::external_body]
pub(crate) fn join_path(base: &str, child: &str) -> (r: String)
    ensures
        r@ == join_of(base@, child@),
        us_free(base@) && us_free(child@) ==> us_free(r@),
{
    camino::Utf8Path::new(base).join(child).into_string()
}

/// The fixed location of the driver script that is materialized before each
/// spawn: `gleam@@compile.erl` inside the artifact directory under the
/// output directory.
pub fn script_path(out: &str, artefact_dir: &str) -> (r: String)
    ensures
        r@ == join_of(join_of(out@, artefact_dir@), "gleam@@compile.erl"@),
{
    let dir = join_path(out, artefact_dir);
    join_path(dir.as_str(), "gleam@@compile.erl")
}

} // verus!
