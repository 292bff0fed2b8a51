//! Build metadata.
//!
//! The external build tool regenerates a metadata document; the pipeline
//! reads one field of it, the base package version. Parsing the document is
//! the metadata parser's business; its result is named, and everything the
//! pipeline decides from it is verified against that name.

use vstd::prelude::*;

verus! {

/// The base package version the metadata parser extracts from a document,
/// or nothing when the document does not parse. A function of the bytes
/// alone.
pub uninterp spec fn metadata_base_version(doc: Seq<u8>) -> Option<Seq<u8>>;

/// Relies on `srcinfo::Srcinfo::from_buf`: parses a metadata document and
/// exposes the pkgbase's `pkgver`; parsing is deterministic in the bytes.
#[verifier::external_body]
pub(crate) fn parse_base_version(doc: &Vec<u8>) -> (r: Option<Vec<u8>>)
    ensures
        match r {
            Some(v) => metadata_base_version(doc@) == Some(v@),
            None => metadata_base_version(doc@) is None,
        },
{
    match srcinfo::Srcinfo::from_buf(doc.as_slice()) {
        Ok(parsed) => Some(parsed.base.pkgver.into_bytes()),
        Err(_) => None,
    }
}

} // verus!
