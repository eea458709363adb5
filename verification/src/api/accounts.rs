//! Profile updates by an actor's own owner: the one change that is ever
//! made to a stored actor.

use vstd::prelude::*;

verus! {

/// What of an actor its owner may change. Tags and attachments are kept
/// as the documents they came as.
#[derive(Debug, PartialEq)]
pub struct Profile {
    pub name: String,
    pub summary: String,
    pub tag: Vec<serde_json::Value>,
    pub icon: Option<serde_json::Value>,
    pub image: Option<serde_json::Value>,
    pub manually_approves_followers: bool,
}

/// A profile update: each field that is present replaces the profile's.
#[derive(Debug, PartialEq)]
pub struct UpdateForm {
    pub name: Option<String>,
    pub summary: Option<String>,
    pub tag: Option<Vec<serde_json::Value>>,
    pub icon: Option<serde_json::Value>,
    pub image: Option<serde_json::Value>,
    pub manually_approves_followers: Option<bool>,
}

impl UpdateForm {
    /// The profile after the update: a field that the form holds is taken
    /// from the form, every other one is kept. An icon or image, once set,
    /// is never cleared by a form.
    pub open spec fn applied(self, profile: Profile) -> Profile {
        Profile {
            name: match self.name {
                Some(name) => name,
                None => profile.name,
            },
            summary: match self.summary {
                Some(summary) => summary,
                None => profile.summary,
            },
            tag: match self.tag {
                Some(tag) => tag,
                None => profile.tag,
            },
            icon: match self.icon {
                Some(icon) => Some(icon),
                None => profile.icon,
            },
            image: match self.image {
                Some(image) => Some(image),
                None => profile.image,
            },
            manually_approves_followers: match self.manually_approves_followers {
                Some(flag) => flag,
                None => profile.manually_approves_followers,
            },
        }
    }

    /// Applies the update to a profile.
    pub fn update_credentials(self, profile: Profile) -> (r: Profile)
        ensures
            r == self.applied(profile),
    {
        let mut profile = profile;
        if let Some(name) = self.name {
            profile.name = name;
        }
        if let Some(summary) = self.summary {
            profile.summary = summary;
        }
        if let Some(tag) = self.tag {
            profile.tag = tag;
        }
        if let Some(icon) = self.icon {
            profile.icon = Some(icon);
        }
        if let Some(image) = self.image {
            profile.image = Some(image);
        }
        if let Some(flag) = self.manually_approves_followers {
            profile.manually_approves_followers = flag;
        }
        profile
    }
}

/// A form that holds nothing changes nothing.
pub proof fn empty_form_keeps_profile(profile: Profile)
    ensures
        (UpdateForm {
            name: None,
            summary: None,
            tag: None,
            icon: None,
            image: None,
            manually_approves_followers: None,
        }).applied(profile) == profile,
{
}

/// Applying a form twice is applying it once.
pub proof fn update_is_idempotent(form: UpdateForm, profile: Profile)
    ensures
        form.applied(form.applied(profile)) == form.applied(profile),
{
}

} // verus!
