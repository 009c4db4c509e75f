//! Resolving a profile's asset references to CDN image URLs.
//!
//! Each asset kind (avatar, banner, avatar decoration) maps to a path
//! segment under the platform CDN. A profile with no reference for a kind
//! resolves to a fixed default (avatar) or to the absent sentinel (banner,
//! decoration). Otherwise a candidate URL is built from the kind's segment,
//! the owner's identifier and the asset reference; for avatars and banners
//! an existence probe of the animated `.gif` form decides between the
//! animated and the static `.png` extension, while decorations always use
//! the static form with no probe. The probe itself is a network round trip
//! and lives outside the library: resolution here returns either a finished
//! URL or the base to probe, and a second function finishes the URL from
//! the probe's outcome.

use vstd::prelude::*;

use crate::profile::UserData;

verus! {

/// The kind of a profile image asset.
#[derive(PartialEq, Eq, Structural, Clone, Copy)]
pub enum ImageType {
    Avatar,
    Banner,
    AvatarDecoration,
}

/// What resolving one asset kind against a profile requires next: either
/// the URL is already decided, or the animated form of a base URL must be
/// probed for existence.
pub enum LinkResolution {
    Done(String),
    Probe(String),
}

/// The URL served for users who have no avatar of their own.
pub open spec fn spec_default_avatar_url() -> Seq<char> {
    "https://cdn.discordapp.com/embed/avatars/0.png"@
}

/// The sentinel shown for an absent banner or decoration.
pub open spec fn spec_absent() -> Seq<char> {
    "None"@
}

/// The host under which all image assets are served.
pub open spec fn spec_cdn_base() -> Seq<char> {
    "https://cdn.discordapp.com/"@
}

impl ImageType {
    /// The CDN path segment of this asset kind.
    pub open spec fn spec_segment(self) -> Seq<char> {
        match self {
            ImageType::Avatar => "avatars"@,
            ImageType::Banner => "banners"@,
            ImageType::AvatarDecoration => "avatar-decoration-presets"@,
        }
    }

    /// The CDN path segment of this asset kind.
    pub fn segment(&self) -> (r: &'static str)
        ensures
            r@ == self.spec_segment(),
    {
        match self {
            ImageType::Avatar => "avatars",
            ImageType::Banner => "banners",
            ImageType::AvatarDecoration => "avatar-decoration-presets",
        }
    }
}

/// Whether the profile carries an asset reference for this kind.
pub open spec fn spec_has_asset(u: UserData, t: ImageType) -> bool {
    match t {
        ImageType::Avatar => u.avatar is Some,
        ImageType::Banner => u.banner is Some,
        ImageType::AvatarDecoration => u.avatar_decoration_data is Some,
    }
}

/// The asset reference the profile carries for this kind.
pub open spec fn spec_asset_id(u: UserData, t: ImageType) -> Seq<char>
    recommends
        spec_has_asset(u, t),
{
    match t {
        ImageType::Avatar => u.avatar->0@,
        ImageType::Banner => u.banner->0@,
        ImageType::AvatarDecoration => u.avatar_decoration_data->0.asset@,
    }
}

/// Whether resolving this kind against this profile takes an existence
/// probe: only avatars and banners with a reference are probed.
pub open spec fn spec_needs_probe(u: UserData, t: ImageType) -> bool {
    spec_has_asset(u, t) && (t is Avatar || t is Banner)
}

/// The probe base: the candidate URL without its extension.
pub open spec fn spec_probe_base(u: UserData, t: ImageType) -> Seq<char>
    recommends
        spec_needs_probe(u, t),
{
    spec_cdn_base() + t.spec_segment() + "/"@ + u.id@ + "/"@ + spec_asset_id(u, t)
}

/// The finished URL for a kind that takes no probe: the default avatar,
/// the absent sentinel, or the decoration's fixed static URL.
pub open spec fn spec_done_link(u: UserData, t: ImageType) -> Seq<char>
    recommends
        !spec_needs_probe(u, t),
{
    if !spec_has_asset(u, t) {
        if t is Avatar {
            spec_default_avatar_url()
        } else {
            spec_absent()
        }
    } else {
        spec_cdn_base() + t.spec_segment() + "/"@ + spec_asset_id(u, t) + ".png?size=4096"@
    }
}

/// The URL a probed base resolves to, for each probe outcome: the animated
/// extension when the probe succeeded, the static one otherwise.
pub open spec fn spec_probed_link(base: Seq<char>, gif_exists: bool) -> Seq<char> {
    if gif_exists {
        base + ".gif?size=4096"@
    } else {
        base + ".png?size=4096"@
    }
}

/// The URL one asset kind of a profile finally resolves to, given the
/// outcome the probe would have (ignored where no probe is taken).
pub open spec fn spec_resolved_link(u: UserData, t: ImageType, gif_exists: bool) -> Seq<char> {
    if spec_needs_probe(u, t) {
        spec_probed_link(spec_probe_base(u, t), gif_exists)
    } else {
        spec_done_link(u, t)
    }
}

impl UserData {
    /// Resolves one asset kind of this profile as far as it goes without
    /// the network: a finished URL, or the base whose animated form is to
    /// be probed.
    pub fn resolve_link(&self, img_type: ImageType) -> (r: LinkResolution)
        ensures
            match r {
                LinkResolution::Done(s) => !spec_needs_probe(*self, img_type) && s@
                    == spec_done_link(*self, img_type),
                LinkResolution::Probe(b) => spec_needs_probe(*self, img_type) && b@
                    == spec_probe_base(*self, img_type),
            },
    {
        let img_id: &String = match img_type {
            ImageType::Avatar => {
                match &self.avatar {
                    Some(a) => a,
                    None => {
                        return LinkResolution::Done(
                            String::from_str("https://cdn.discordapp.com/embed/avatars/0.png"),
                        );
                    },
                }
            },
            ImageType::Banner => {
                match &self.banner {
                    Some(b) => b,
                    None => { return LinkResolution::Done(String::from_str("None")); },
                }
            },
            ImageType::AvatarDecoration => {
                match &self.avatar_decoration_data {
                    Some(d) => &d.asset,
                    None => { return LinkResolution::Done(String::from_str("None")); },
                }
            },
        };
        let mut url = String::from_str("https://cdn.discordapp.com/");
        url.append(img_type.segment());
        url.append("/");
        match img_type {
            ImageType::AvatarDecoration => {
                url.append(img_id.as_str());
                url.append(".png?size=4096");
                LinkResolution::Done(url)
            },
            _ => {
                url.append(self.id.as_str());
                url.append("/");
                url.append(img_id.as_str());
                LinkResolution::Probe(url)
            },
        }
    }

    /// The whole resolution policy as a function of the probe's outcome:
    /// what one asset kind resolves to once the network has answered
    /// (`gif_exists` is ignored where no probe is taken).
    pub fn resolved_link(&self, img_type: ImageType, gif_exists: bool) -> (r: String)
        ensures
            r@ == spec_resolved_link(*self, img_type, gif_exists),
    {
        match self.resolve_link(img_type) {
            LinkResolution::Done(url) => url,
            LinkResolution::Probe(base) => finish_probe(base, gif_exists),
        }
    }
}

/// The URL whose existence the probe checks: the animated form of a base.
pub fn probe_url(base: &str) -> (r: String)
    ensures
        r@ == base@ + ".gif"@,
{
    let s = String::from_str(base);
    s.concat(".gif")
}

/// Finishes a probed resolution from the probe's outcome.
pub fn finish_probe(base: String, gif_exists: bool) -> (r: String)
    ensures
        r@ == spec_probed_link(base@, gif_exists),
{
    if gif_exists {
        base.concat(".gif?size=4096")
    } else {
        base.concat(".png?size=4096")
    }
}

/// A profile with no avatar reference resolves its avatar to the fixed
/// default-avatar URL, whatever a probe would have answered.
pub proof fn lemma_no_avatar_resolves_to_default(u: UserData, gif_exists: bool)
    requires
        u.avatar is None,
    ensures
        spec_resolved_link(u, ImageType::Avatar, gif_exists) == spec_default_avatar_url(),
{
}

/// A profile with no banner reference resolves its banner to the absent
/// sentinel, and likewise for a missing decoration, whatever a probe would
/// have answered.
pub proof fn lemma_no_asset_resolves_to_absent(u: UserData, t: ImageType, gif_exists: bool)
    requires
        !spec_has_asset(u, t),
        t is Banner || t is AvatarDecoration,
    ensures
        spec_resolved_link(u, t, gif_exists) == spec_absent(),
{
}

} // verus!
