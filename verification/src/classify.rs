//! Mapping the stderr text of a failed tool run to a semantic failure
//! category. Matching is case-insensitive and ordered: a not-found phrase
//! wins over an authorization phrase.

use vstd::prelude::*;

use crate::text::{contains_seq, contains_sub};

verus! {

/// What a failed external-tool run means.
#[derive(PartialEq, Eq, Structural, Clone, Copy, Debug)]
pub enum FailureKind {
    /// The registry reports the image or chart as unknown.
    NotFound,
    /// Authentication or authorization was refused.
    AccessDenied,
    /// Any other upstream failure.
    Generic,
}

/// The lower-cased form of `s`, as the standard library's case folding
/// produces it.
pub uninterp spec fn lower_of(s: Seq<char>) -> Seq<char>;

/// Relies on str::to_lowercase: the result depends on the characters of the
/// input alone.
#[verifier::external_body]
fn to_lower(s: &str) -> (r: String)
    ensures
        r@ == lower_of(s@),
{
    s.to_lowercase()
}

/// The category of a lower-cased stderr text from the image-copy tool.
pub open spec fn spec_classify_image(lower: Seq<char>) -> FailureKind {
    if contains_seq(lower, "manifest unknown"@) || contains_seq(lower, "not found"@)
        || contains_seq(lower, "name unknown"@) {
        FailureKind::NotFound
    } else if contains_seq(lower, "denied"@) || contains_seq(lower, "unauthorized"@)
        || contains_seq(lower, "authentication required"@) {
        FailureKind::AccessDenied
    } else {
        FailureKind::Generic
    }
}

/// The category of a lower-cased stderr text from the chart-pull tool.
pub open spec fn spec_classify_chart(lower: Seq<char>) -> FailureKind {
    if contains_seq(lower, "not found"@) || contains_seq(lower, "chart"@) {
        FailureKind::NotFound
    } else if contains_seq(lower, "denied"@) || contains_seq(lower, "unauthorized"@)
        || contains_seq(lower, "authentication required"@) {
        FailureKind::AccessDenied
    } else {
        FailureKind::Generic
    }
}

/// Classifies the stderr text of a failed image copy.
pub fn classify_image(stderr: &str) -> (k: FailureKind)
    ensures
        k == spec_classify_image(lower_of(stderr@)),
{
    let low = to_lower(stderr);
    if contains_sub(low.as_str(), "manifest unknown") || contains_sub(low.as_str(), "not found")
        || contains_sub(low.as_str(), "name unknown") {
        FailureKind::NotFound
    } else if contains_sub(low.as_str(), "denied") || contains_sub(low.as_str(), "unauthorized")
        || contains_sub(low.as_str(), "authentication required") {
        FailureKind::AccessDenied
    } else {
        FailureKind::Generic
    }
}

/// Classifies the stderr text of a failed chart pull.
pub fn classify_chart(stderr: &str) -> (k: FailureKind)
    ensures
        k == spec_classify_chart(lower_of(stderr@)),
{
    let low = to_lower(stderr);
    if contains_sub(low.as_str(), "not found") || contains_sub(low.as_str(), "chart") {
        FailureKind::NotFound
    } else if contains_sub(low.as_str(), "denied") || contains_sub(low.as_str(), "unauthorized")
        || contains_sub(low.as_str(), "authentication required") {
        FailureKind::AccessDenied
    } else {
        FailureKind::Generic
    }
}

/// The tie-break of the classifier: a text that holds a not-found phrase is
/// categorized as not found, whatever else it also holds.
pub proof fn lemma_image_not_found_wins(lower: Seq<char>)
    requires
        contains_seq(lower, "manifest unknown"@) || contains_seq(lower, "not found"@)
            || contains_seq(lower, "name unknown"@),
    ensures
        spec_classify_image(lower) == FailureKind::NotFound,
{
}

/// The same tie-break for the chart classifier.
pub proof fn lemma_chart_not_found_wins(lower: Seq<char>)
    requires
        contains_seq(lower, "not found"@) || contains_seq(lower, "chart"@),
    ensures
        spec_classify_chart(lower) == FailureKind::NotFound,
{
}

} // verus!
