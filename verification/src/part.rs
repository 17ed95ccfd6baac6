//! Parts of a large file and the checksums by which they are put together.

use vstd::prelude::*;

verus! {

/// A part that the service has stored.
#[derive(Debug)]
pub struct MultipartUploadPart {
    /// The number under which the part was stored, counted from one.
    pub part_number: usize,
    /// The checksum that the service gave for the part.
    pub etag: String,
}

/// The mark in front of a checksum that the service has not verified.
pub open spec fn unverified_mark() -> Seq<char> {
    "unverified:"@
}

/// The SHA-1 that an etag holds: what follows the mark, and nothing where the mark is missing.
pub open spec fn sha1_of(etag: Seq<char>) -> Seq<char> {
    if unverified_mark().is_prefix_of(etag) {
        etag.skip(unverified_mark().len() as int)
    } else {
        Seq::empty()
    }
}

/// The SHA-1 of each part, in the order of the parts.
pub open spec fn sha1s_of(parts: Seq<MultipartUploadPart>) -> Seq<Seq<char>> {
    parts.map_values(|part: MultipartUploadPart| sha1_of(part.etag@))
}

/// Calls `str::strip_prefix` with a string as its pattern. Trusted: where `s` starts with
/// `prefix`, the result is what follows that one occurrence, and otherwise there is none.
#[verifier::external_body]
fn strip_prefix<'a>(s: &'a str, prefix: &str) -> (rest: Option<&'a str>)
    ensures
        match rest {
            Some(rest) => s@ == prefix@ + rest@,
            None => !prefix@.is_prefix_of(s@),
        },
{
    s.strip_prefix(prefix)
}

/// The SHA-1 that an etag holds, or the empty string where it bears no mark.
pub fn etag_sha1(etag: &str) -> (sha1: String)
    ensures
        sha1@ == sha1_of(etag@),
        "unverified:"@.is_prefix_of(etag@) ==> etag@ == "unverified:"@ + sha1@,
        !"unverified:"@.is_prefix_of(etag@) ==> sha1@.len() == 0,
{
    match strip_prefix(etag, "unverified:") {
        Some(sha1) => {
            proof {
                assert(unverified_mark().is_prefix_of(etag@));
                assert(etag@.skip(unverified_mark().len() as int) =~= sha1@);
            }
            sha1.to_string()
        },
        None => String::new(),
    }
}

/// The SHA-1 of each of `parts`, in their order.
pub fn part_sha1_array(parts: &[MultipartUploadPart]) -> (sha1s: Vec<String>)
    ensures
        sha1s.deep_view() == sha1s_of(parts@),
        sha1s@.len() == parts@.len(),
        forall|i: int|
            0 <= i < parts@.len() ==> if "unverified:"@.is_prefix_of(parts@[i].etag@) {
                parts@[i].etag@ == "unverified:"@ + #[trigger] sha1s@[i]@
            } else {
                sha1s@[i]@.len() == 0
            },
{
    let mut sha1s: Vec<String> = Vec::new();
    for i in 0..parts.len()
        invariant
            sha1s@.len() == i,
            forall|j: int| 0 <= j < i ==> #[trigger] sha1s@[j]@ == sha1_of(parts@[j].etag@),
            forall|j: int|
                0 <= j < i ==> if "unverified:"@.is_prefix_of(parts@[j].etag@) {
                    parts@[j].etag@ == "unverified:"@ + #[trigger] sha1s@[j]@
                } else {
                    sha1s@[j]@.len() == 0
                },
    {
        sha1s.push(etag_sha1(parts[i].etag.as_str()));
    }
    assert(sha1s.deep_view() =~= sha1s_of(parts@));
    sha1s
}

/// Exactly one mark is taken off: behind it any checksum comes back as it is.
pub proof fn marked_etag_holds_its_sha1(sha1: Seq<char>)
    ensures
        sha1_of("unverified:"@ + sha1) == sha1,
{
    let etag = unverified_mark() + sha1;
    assert(unverified_mark().is_prefix_of(etag));
    assert(etag.skip(unverified_mark().len() as int) =~= sha1);
}

/// Without the mark there is no checksum, however the etag reads.
pub proof fn unmarked_etag_holds_no_sha1(etag: Seq<char>)
    requires
        !"unverified:"@.is_prefix_of(etag),
    ensures
        sha1_of(etag).len() == 0,
{
}

/// There is one checksum for each part, and the checksums come in the order of the parts.
pub proof fn sha1s_follow_the_parts(
    front: Seq<MultipartUploadPart>,
    back: Seq<MultipartUploadPart>,
)
    ensures
        sha1s_of(front).len() == front.len(),
        forall|i: int|
            0 <= i < front.len() ==> if "unverified:"@.is_prefix_of(front[i].etag@) {
                front[i].etag@ == "unverified:"@ + #[trigger] sha1s_of(front)[i]
            } else {
                sha1s_of(front)[i].len() == 0
            },
        sha1s_of(front + back) == sha1s_of(front) + sha1s_of(back),
{
    assert(sha1s_of(front + back) =~= sha1s_of(front) + sha1s_of(back));
    assert forall|i: int|
        0 <= i < front.len() && "unverified:"@.is_prefix_of(front[i].etag@) implies front[i].etag@
        == "unverified:"@ + #[trigger] sha1s_of(front)[i] by {
        assert(front[i].etag@ =~= "unverified:"@ + sha1_of(front[i].etag@));
    }
}

/// The etags alone decide on the checksums: the numbers of the parts do not matter.
pub proof fn sha1s_rest_on_the_etags(
    parts: Seq<MultipartUploadPart>,
    others: Seq<MultipartUploadPart>,
)
    requires
        parts.len() == others.len(),
        forall|i: int| 0 <= i < parts.len() ==> #[trigger] parts[i].etag@ == others[i].etag@,
    ensures
        sha1s_of(parts) == sha1s_of(others),
{
    assert(sha1s_of(parts) =~= sha1s_of(others));
}

} // verus!
