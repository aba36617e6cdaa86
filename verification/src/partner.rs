//! Partners shown to users.

use vstd::prelude::*;

verus! {

/// A button of a partner: its kind and link.
#[derive(Debug)]
pub struct PartnerButton {
    pub button_type: String,
    pub url: String,
}

/// A partner: its image and buttons.
#[derive(Debug)]
pub struct Partner {
    pub image_url: String,
    pub buttons: Vec<PartnerButton>,
}

/// The partners answered to a user.
#[derive(Debug)]
pub struct GetPartners {
    pub partners: Vec<Partner>,
}

/// The partner list: no partner is listed yet.
pub fn get_partners() -> (response: GetPartners)
    ensures
        response.partners@.len() == 0,
{
    GetPartners { partners: Vec::new() }
}

} // verus!
