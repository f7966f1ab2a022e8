//! The page of a planned, cancelled or archived event: which of joining and
//! leaving it offers.
use vstd::prelude::*;

verus! {

/// How far an event has progressed, as its page shows it.
#[derive(Debug, Copy, Clone, PartialEq, Eq, Structural)]
pub enum PlayPageStage {
    Planned,
    Cancelled,
    Archived,
}

/// Which actions the page of an event offers to a user.
#[derive(Debug, Copy, Clone, PartialEq, Eq, Structural)]
pub struct PlayPageLinks {
    pub join: bool,
    pub leave: bool,
}

/// Only a planned event can be joined or left: joined by those who do not take
/// part yet, left by those who do.
pub fn play_page_links(is_participant: bool, stage: PlayPageStage) -> (links: PlayPageLinks)
    ensures
        links.join == (!is_participant && stage == PlayPageStage::Planned),
        links.leave == (is_participant && stage == PlayPageStage::Planned),
        !(links.join && links.leave),
{
    let is_planned = match stage {
        PlayPageStage::Planned => true,
        _ => false,
    };
    PlayPageLinks { join: !is_participant && is_planned, leave: is_participant && is_planned }
}

} // verus!
