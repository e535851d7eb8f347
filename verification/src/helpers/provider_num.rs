use crate::text::str_eq;
use crate::cli::lemma_provider_names_distinct;
use vstd::prelude::*;

verus! {

/// The provider names in the command-line numbering:
/// 1 Ak, 2 Default, 3 S-mp4, 4 Luf-mp4, 5 Yt-mp4.
pub open spec fn cli_name(provider: u8) -> Seq<char> {
    if provider == 1 {
        "Ak"@
    } else if provider == 2 {
        "Default"@
    } else if provider == 3 {
        "S-mp4"@
    } else if provider == 4 {
        "Luf-mp4"@
    } else {
        "Yt-mp4"@
    }
}

/// The names that `provider_num` accepts.
pub open spec fn is_cli_name(name: Seq<char>) -> bool {
    exists|n: u8| 1 <= n <= 5 && cli_name(n) == name
}

/// Number of a provider given by its command-line name.
pub fn provider_num(provider: &str) -> (num: u8)
    requires
        is_cli_name(provider@),
    ensures
        1 <= num <= 5,
        cli_name(num) == provider@,
{
    proof {
        lemma_provider_names_distinct();
        let n = choose|n: u8| 1 <= n <= 5 && cli_name(n) == provider@;
        assert(cli_name(n) == provider@);
    }
    if str_eq(provider, "Ak") {
        1
    } else if str_eq(provider, "Default") {
        2
    } else if str_eq(provider, "S-mp4") {
        3
    } else if str_eq(provider, "Luf-mp4") {
        4
    } else {
        5
    }
}

/// Command-line name of a provider number; numbers outside 1..=5 are not
/// providers.
pub fn provider_name<'a>(provider: u8) -> (name: &'a str)
    requires
        1 <= provider <= 5,
    ensures
        name@ == cli_name(provider),
{
    if provider == 1 {
        "Ak"
    } else if provider == 2 {
        "Default"
    } else if provider == 3 {
        "S-mp4"
    } else if provider == 4 {
        "Luf-mp4"
    } else {
        "Yt-mp4"
    }
}


/// The command-line names and numbers correspond one to one: every number
/// has a name that `provider_num` accepts, and no other number has that
/// name, so `provider_num(provider_name(n)) == n` and
/// `provider_name(provider_num(s)) == s`.
pub proof fn lemma_cli_names_round_trip(n: u8)
    requires
        1 <= n <= 5,
    ensures
        is_cli_name(cli_name(n)),
        forall|m: u8| 1 <= m <= 5 && cli_name(m) == cli_name(n) ==> m == n,
{
    lemma_provider_names_distinct();
    assert(cli_name(n) == cli_name(n));
}

} // verus!
