//! What the session asks of the dial's driver.

use vstd::prelude::*;
use crate::views::ArcSettings;

verus! {

/// One request to the dial's driver.
#[derive(Clone, Copy, PartialEq, Eq, Debug, Structural)]
pub enum DialRequest {
    /// Report rotation in this many detents per revolution.
    SetSubdivisions(u16),
    /// Report rotation freely.
    DisableSubdivisions,
}

/// The request that puts `settings` into effect: none where a screen
/// declares no settings, so that the dial stays as the screen before left it.
pub open spec fn request_for(settings: Option<ArcSettings>) -> Option<DialRequest> {
    match settings {
        Some(actual_settings) => if actual_settings.divisions > 0 {
            Some(DialRequest::SetSubdivisions(actual_settings.divisions))
        } else {
            Some(DialRequest::DisableSubdivisions)
        },
        None => None,
    }
}

/// The request that puts `settings` into effect.
pub fn update_dial_settings(settings: Option<ArcSettings>) -> (request: Option<DialRequest>)
    ensures
        request == request_for(settings),
{
    match settings {
        Some(actual_settings) => if actual_settings.divisions > 0 {
            Some(DialRequest::SetSubdivisions(actual_settings.divisions))
        } else {
            Some(DialRequest::DisableSubdivisions)
        },
        None => None,
    }
}

} // verus!
