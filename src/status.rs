use vstd::prelude::*;

verus! {

/// Publication status as AniList reports it.
#[derive(Clone, Copy, Debug, PartialEq, Eq, Structural)]
pub enum AnilistStatus {
    Finished,
    Releasing,
    NotYetReleased,
    Cancelled,
    Hiatus,
}

/// The Komga status value that stands for an AniList status. Komga has no
/// separate "not yet released" state, so it shares "ONGOING" with releasing.
pub open spec fn komga_status_of(status: AnilistStatus) -> Seq<char> {
    match status {
        AnilistStatus::Finished => "ENDED"@,
        AnilistStatus::Releasing => "ONGOING"@,
        AnilistStatus::NotYetReleased => "ONGOING"@,
        AnilistStatus::Cancelled => "ABANDONED"@,
        AnilistStatus::Hiatus => "HIATUS"@,
    }
}

/// Maps an AniList publication status to Komga's status vocabulary.
pub fn get_komga_status(status: &AnilistStatus) -> (r: String)
    ensures
        r@ == komga_status_of(*status),
{
    match status {
        AnilistStatus::Finished => String::from_str("ENDED"),
        AnilistStatus::Releasing => String::from_str("ONGOING"),
        AnilistStatus::NotYetReleased => String::from_str("ONGOING"),
        AnilistStatus::Cancelled => String::from_str("ABANDONED"),
        AnilistStatus::Hiatus => String::from_str("HIATUS"),
    }
}

} // verus!
