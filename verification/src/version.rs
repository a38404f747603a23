//! Human-readable build labels derived from version-control data.

use vstd::prelude::*;

verus! {

/// The first eight characters of a revision hash, or the whole hash when it
/// is shorter than that.
pub open spec fn short_hash_of(hash: Seq<char>) -> Seq<char> {
    if hash.len() <= 8 {
        hash
    } else {
        hash.subrange(0, 8)
    }
}

/// Shortens a revision hash to at most eight characters for display.
pub fn short_hash(hash: &str) -> (r: &str)
    ensures
        r@ == short_hash_of(hash@),
{
    let n = hash.unicode_len();
    let k: usize = if n <= 8 {
        n
    } else {
        8
    };
    let r = hash.substring_char(0, k);
    proof {
        assert(r@ =~= short_hash_of(hash@));
    }
    r
}

/// Renders a version label from a release tag and a revision hash: the tag
/// followed by the shortened hash in parentheses, or `build <hash>` when no
/// tag is set.
pub fn build_version_label(tag: &str, hash: &str) -> (r: String)
    ensures
        tag@.len() == 0 ==> r@ == "build "@ + short_hash_of(hash@),
        tag@.len() > 0 ==> r@ == tag@ + " ("@ + short_hash_of(hash@) + ")"@,
{
    let short = short_hash(hash);
    if tag.unicode_len() == 0 {
        let mut label = String::from_str("build ");
        label.append(short);
        label
    } else {
        let mut label = String::from_str(tag);
        label.append(" (");
        label.append(short);
        label.append(")");
        label
    }
}

} // verus!
