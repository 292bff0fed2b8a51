//! Upstream release sources.
//!
//! A source yields an ordered list of version identifiers, newest first. The
//! transport (HTTP) and the strict decoding of the response body live in the
//! unverified shell; the request targets and the filtering rules — drafts
//! are never taken, pre-releases only on explicit opt-in — are decided here.

use crate::text::copy_bytes;
use crate::text::literal_bytes;
use crate::text::push_bytes;
use vstd::prelude::*;
use vstd::string::StringSliceAdditionalSpecFns;

verus! {

/// A release-listing source on a crate registry, addressed by crate name.
pub struct CratesIoRelease {
    pub krate: Vec<u8>,
}

/// A release-listing source on a code host, addressed by `owner/repo`;
/// pre-releases are taken only when `prerelease` is set.
pub struct GithubRelease {
    pub repo: Vec<u8>,
    pub prerelease: bool,
}

/// A tag-listing source on a code host: raw tag names, no filtering.
pub struct GithubTag {
    pub repo: Vec<u8>,
}

/// The configured source: a tagged union over the provider kinds.
pub enum SourceSpec {
    CratesIoRelease(CratesIoRelease),
    GithubRelease(GithubRelease),
    GithubTag(GithubTag),
}

/// One entry of a release listing, as decoded from the provider response.
pub struct ReleaseEntry {
    pub draft: bool,
    pub prerelease: bool,
    pub tag_name: Vec<u8>,
}

/// Whether a release entry survives filtering: drafts never do, and
/// pre-releases only when the source opts in.
pub open spec fn release_kept(draft: bool, prerelease: bool, include_prerelease: bool) -> bool {
    !draft && (!prerelease || include_prerelease)
}

/// The tag names of the kept entries, in order.
pub open spec fn spec_selected_tags(entries: Seq<ReleaseEntry>, include_prerelease: bool) -> Seq<
    Seq<u8>,
>
    decreases entries.len(),
{
    if entries.len() == 0 {
        Seq::<Seq<u8>>::empty()
    } else {
        let rest = spec_selected_tags(entries.drop_first(), include_prerelease);
        if release_kept(entries[0].draft, entries[0].prerelease, include_prerelease) {
            seq![entries[0].tag_name@] + rest
        } else {
            rest
        }
    }
}

proof fn lemma_selected_tags_push(entries: Seq<ReleaseEntry>, e: ReleaseEntry, inc: bool)
    ensures
        spec_selected_tags(entries.push(e), inc) == if release_kept(e.draft, e.prerelease, inc) {
            spec_selected_tags(entries, inc).push(e.tag_name@)
        } else {
            spec_selected_tags(entries, inc)
        },
    decreases entries.len(),
{
    let p = entries.push(e);
    if entries.len() == 0 {
        assert(p.drop_first() =~= Seq::<ReleaseEntry>::empty());
        assert(spec_selected_tags(p.drop_first(), inc) =~= Seq::<Seq<u8>>::empty());
        if release_kept(e.draft, e.prerelease, inc) {
            assert(spec_selected_tags(p, inc) =~~= spec_selected_tags(entries, inc).push(
                e.tag_name@,
            ));
        } else {
            assert(spec_selected_tags(p, inc) =~~= spec_selected_tags(entries, inc));
        }
    } else {
        lemma_selected_tags_push(entries.drop_first(), e, inc);
        assert(p.drop_first() =~= entries.drop_first().push(e));
        assert(p[0] == entries[0]);
        let rest = spec_selected_tags(entries.drop_first(), inc);
        if release_kept(entries[0].draft, entries[0].prerelease, inc) {
            assert(spec_selected_tags(entries, inc) == seq![entries[0].tag_name@] + rest);
            if release_kept(e.draft, e.prerelease, inc) {
                assert(spec_selected_tags(p, inc) == seq![entries[0].tag_name@] + rest.push(
                    e.tag_name@,
                ));
                assert(spec_selected_tags(p, inc) =~~= spec_selected_tags(entries, inc).push(
                    e.tag_name@,
                ));
            } else {
                assert(spec_selected_tags(p, inc) =~~= spec_selected_tags(entries, inc));
            }
        } else {
            assert(spec_selected_tags(entries, inc) == rest);
            if release_kept(e.draft, e.prerelease, inc) {
                assert(spec_selected_tags(p, inc) =~~= spec_selected_tags(entries, inc).push(
                    e.tag_name@,
                ));
            } else {
                assert(spec_selected_tags(p, inc) =~~= spec_selected_tags(entries, inc));
            }
        }
    }
}

impl GithubRelease {
    /// The release-listing endpoint for this repository.
    pub fn releases_url(&self) -> (r: Vec<u8>)
        ensures
            r@ == "https://api.github.com/repos/".spec_bytes() + self.repo@
                + "/releases".spec_bytes(),
    {
        let mut url = literal_bytes("https://api.github.com/repos/");
        push_bytes(&mut url, &self.repo);
        let tail = literal_bytes("/releases");
        push_bytes(&mut url, &tail);
        url
    }

    /// Filters a decoded release listing: drops drafts unconditionally,
    /// drops pre-releases unless this source opts in, and keeps the
    /// surviving tag names in their reported order.
    pub fn select_tags(&self, entries: &Vec<ReleaseEntry>) -> (r: Vec<Vec<u8>>)
        ensures
            crate::recipe::views_of(r@) == spec_selected_tags(entries@, self.prerelease),
    {
        let n = entries.len();
        let mut out: Vec<Vec<u8>> = Vec::new();
        let mut i: usize = 0;
        proof {
            assert(entries@.subrange(0, 0) =~= Seq::<ReleaseEntry>::empty());
            assert(crate::recipe::views_of(out@) =~= spec_selected_tags(
                entries@.subrange(0, 0),
                self.prerelease,
            ));
        }
        while i < n
            invariant
                i <= n,
                n == entries@.len(),
                crate::recipe::views_of(out@) == spec_selected_tags(
                    entries@.subrange(0, i as int),
                    self.prerelease,
                ),
            decreases n - i,
        {
            let ghost pre_out = out@;
            let e = &entries[i];
            if !e.draft && (!e.prerelease || self.prerelease) {
                out.push(copy_bytes(&e.tag_name));
            }
            proof {
                assert(entries@.subrange(0, i as int + 1) =~= entries@.subrange(0, i as int).push(
                    entries@[i as int],
                ));
                lemma_selected_tags_push(
                    entries@.subrange(0, i as int),
                    entries@[i as int],
                    self.prerelease,
                );
                assert(crate::recipe::views_of(out@) =~= spec_selected_tags(
                    entries@.subrange(0, i as int + 1),
                    self.prerelease,
                ));
            }
            i = i + 1;
        }
        proof {
            assert(entries@.subrange(0, n as int) =~= entries@);
        }
        out
    }
}

impl GithubTag {
    /// The tag-listing endpoint for this repository.
    pub fn tags_url(&self) -> (r: Vec<u8>)
        ensures
            r@ == "https://api.github.com/repos/".spec_bytes() + self.repo@ + "/tags".spec_bytes(),
    {
        let mut url = literal_bytes("https://api.github.com/repos/");
        push_bytes(&mut url, &self.repo);
        let tail = literal_bytes("/tags");
        push_bytes(&mut url, &tail);
        url
    }
}

impl CratesIoRelease {
    /// The version-listing endpoint for this crate.
    pub fn versions_url(&self) -> (r: Vec<u8>)
        ensures
            r@ == "https://crates.io/api/v1/crates/".spec_bytes() + self.krate@
                + "/versions".spec_bytes(),
    {
        let mut url = literal_bytes("https://crates.io/api/v1/crates/");
        push_bytes(&mut url, &self.krate);
        let tail = literal_bytes("/versions");
        push_bytes(&mut url, &tail);
        url
    }
}

} // verus!
