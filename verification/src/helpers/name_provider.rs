use crate::cli::lemma_provider_names_distinct;
use vstd::prelude::*;

verus! {

/// The provider names in the numbering used by the source listing:
/// 1 Ak, 2 Default, 3 Sak, 4 S-mp4, 5 Luf-mp4, 6 Yt-mp4.
pub open spec fn listing_name(provider: u8) -> Seq<char> {
    if provider == 1 {
        "Ak"@
    } else if provider == 2 {
        "Default"@
    } else if provider == 3 {
        "Sak"@
    } else if provider == 4 {
        "S-mp4"@
    } else if provider == 5 {
        "Luf-mp4"@
    } else {
        "Yt-mp4"@
    }
}

/// Name of a provider in the listing numbering; numbers outside 1..=6 are
/// not providers.
pub fn provider_name<'a>(provider: u8) -> (name: &'a str)
    requires
        1 <= provider <= 6,
    ensures
        name@ == listing_name(provider),
{
    if provider == 1 {
        "Ak"
    } else if provider == 2 {
        "Default"
    } else if provider == 3 {
        "Sak"
    } else if provider == 4 {
        "S-mp4"
    } else if provider == 5 {
        "Luf-mp4"
    } else {
        "Yt-mp4"
    }
}


/// Different provider numbers have different listing names.
pub proof fn lemma_listing_names_distinct(n: u8, m: u8)
    requires
        1 <= n <= 6,
        1 <= m <= 6,
        listing_name(n) == listing_name(m),
    ensures
        n == m,
{
    lemma_provider_names_distinct();
}

} // verus!
