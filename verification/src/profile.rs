//! The profile document that a render call binds as its template context.
//!
//! Every optional field defaults to empty or absent when the wire document
//! omits it: absence is never an error.

use vstd::prelude::*;

verus! {

/// Information about the instance that hosts the profile.
pub struct InstanceInfo {
    pub url: String,
}

/// One social link shown on the profile.
pub struct SocialLinkInfo {
    pub url: String,
    pub label: Option<String>,
    pub platform_name: Option<String>,
    pub icon: Option<String>,
    pub icon_name: Option<String>,
}

/// One plain link shown on the profile.
pub struct LinkInfo {
    pub url: String,
    pub label: Option<String>,
}

/// One extra page of the profile.
pub struct PageInfo {
    pub slug: String,
    pub name: Option<String>,
}

/// The render context: the fields a theme can reference by name.
pub struct ProfileData {
    pub instance_info: InstanceInfo,
    pub handle: String,
    pub display_name: Option<String>,
    pub tags: Vec<String>,
    pub bio: Option<String>,
    pub social_links: Vec<SocialLinkInfo>,
    pub links: Vec<LinkInfo>,
    pub pages: Vec<PageInfo>,
}

} // verus!
