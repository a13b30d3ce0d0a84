use vstd::prelude::*;
use vstd::string::StrSliceExecFns;

verus! {

/// The KBART header whose fifteenth field is named `notes`: the first of the
/// two recognized layouts of the tab-separated field names.
pub open spec fn header_with_notes() -> Seq<char> {
    "publication_title\tprint_identifier\tonline_identifier\tdate_first_issue_online\tnum_first_vol_online\tnum_first_issue_online\tdate_last_issue_online\tnum_last_vol_online\tnum_last_issue_online\ttitle_url\tfirst_author\ttitle_id\tembargo_info\tcoverage_depth\tnotes\tpublisher_name\tpublication_type"@
}

/// The KBART header whose fifteenth field is named `coverage_notes`: the
/// second recognized layout, and the longer of the two.
pub open spec fn header_with_coverage_notes() -> Seq<char> {
    "publication_title\tprint_identifier\tonline_identifier\tdate_first_issue_online\tnum_first_vol_online\tnum_first_issue_online\tdate_last_issue_online\tnum_last_vol_online\tnum_last_issue_online\ttitle_url\tfirst_author\ttitle_id\tembargo_info\tcoverage_depth\tcoverage_notes\tpublisher_name\tpublication_type"@
}

/// The first recognized header layout, as a string.
pub fn kbart_header_with_notes() -> (r: &'static str)
    ensures
        r@ == header_with_notes(),
{
    "publication_title\tprint_identifier\tonline_identifier\tdate_first_issue_online\tnum_first_vol_online\tnum_first_issue_online\tdate_last_issue_online\tnum_last_vol_online\tnum_last_issue_online\ttitle_url\tfirst_author\ttitle_id\tembargo_info\tcoverage_depth\tnotes\tpublisher_name\tpublication_type"
}

/// The second recognized header layout, as a string.
pub fn kbart_header_with_coverage_notes() -> (r: &'static str)
    ensures
        r@ == header_with_coverage_notes(),
{
    "publication_title\tprint_identifier\tonline_identifier\tdate_first_issue_online\tnum_first_vol_online\tnum_first_issue_online\tdate_last_issue_online\tnum_last_vol_online\tnum_last_issue_online\ttitle_url\tfirst_author\ttitle_id\tembargo_info\tcoverage_depth\tcoverage_notes\tpublisher_name\tpublication_type"
}

/// Whether the text opens with one of the two recognized headers. A server
/// that ignores a byte-range request returns the whole document, so a prefix
/// match, not equality, is what acceptance means.
pub open spec fn header_match_spec(t: Seq<char>) -> bool {
    header_with_coverage_notes().is_prefix_of(t) || header_with_notes().is_prefix_of(t)
}

fn starts_with_str(text: &str, prefix: &str) -> (r: bool)
    ensures
        r == prefix@.is_prefix_of(text@),
{
    let plen = prefix.unicode_len();
    let tlen = text.unicode_len();
    if tlen < plen {
        return false;
    }
    let mut i: usize = 0;
    while i < plen
        invariant
            plen == prefix@.len(),
            tlen == text@.len(),
            plen <= tlen,
            0 <= i <= plen,
            forall|j: int| 0 <= j < i ==> text@[j] == prefix@[j],
        decreases plen - i,
    {
        if text.get_char(i) != prefix.get_char(i) {
            return false;
        }
        i += 1;
    }
    proof {
        assert(prefix@ =~= text@.subrange(0, plen as int));
    }
    true
}

/// Whether a probe response (full or partial body) is acceptable: it begins
/// with either recognized KBART header, exactly and case-sensitively.
pub fn header_matches(text: &str) -> (r: bool)
    ensures
        r == header_match_spec(text@),
{
    starts_with_str(text, kbart_header_with_coverage_notes()) || starts_with_str(
        text,
        kbart_header_with_notes(),
    )
}

/// How many bytes a validation probe asks for: twice the length of the longer
/// recognized header, so that the header is covered even under a
/// two-byte-per-character encoding.
pub fn probe_limit() -> (n: usize)
    ensures
        n == 2 * header_with_coverage_notes().len(),
{
    proof {
        reveal_strlit(
            "publication_title\tprint_identifier\tonline_identifier\tdate_first_issue_online\tnum_first_vol_online\tnum_first_issue_online\tdate_last_issue_online\tnum_last_vol_online\tnum_last_issue_online\ttitle_url\tfirst_author\ttitle_id\tembargo_info\tcoverage_depth\tcoverage_notes\tpublisher_name\tpublication_type",
        );
    }
    kbart_header_with_coverage_notes().unicode_len() * 2
}

} // verus!
