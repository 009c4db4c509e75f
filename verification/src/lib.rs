//! A verified core for a small profile-lookup console utility.
//!
//! Given a user identifier, the surrounding program authenticates to a
//! social-platform REST API with a bot token, fetches the user's profile,
//! resolves its image URLs against the platform CDN, and prints every field.
//! All of the decisions that program makes live here as verified functions:
//! building the request URL and authorization header, resolving asset
//! references to CDN URLs, decoding flag bitmasks into badge labels, and
//! formatting the profile for line-oriented display. The unverifiable rim
//! (file and network I/O, JSON parsing, the prompt loop) sits outside and
//! hands this library plain values.

mod flags;
mod links;
mod profile;
mod render;

pub use flags::lemma_zero_flags_no_labels;
pub use flags::label_if;
pub use flags::spec_flag_labels;
pub use flags::views_of;
pub use links::finish_probe;
pub use links::lemma_no_asset_resolves_to_absent;
pub use links::lemma_no_avatar_resolves_to_default;
pub use links::probe_url;
pub use links::spec_absent;
pub use links::spec_asset_id;
pub use links::spec_cdn_base;
pub use links::spec_default_avatar_url;
pub use links::spec_done_link;
pub use links::spec_has_asset;
pub use links::spec_needs_probe;
pub use links::spec_probe_base;
pub use links::spec_probed_link;
pub use links::spec_resolved_link;
pub use links::ImageType;
pub use links::LinkResolution;
pub use profile::api_user_url;
pub use profile::auth_header_value;
pub use profile::spec_api_user_base;
pub use profile::spec_auth_header_value;
pub use profile::AvatarDecorationData;
pub use render::badge_lines;
pub use render::clan_lines;
pub use render::decoration_lines;
pub use render::format_accent_color;
pub use render::format_bool;
pub use render::format_dec;
pub use render::format_hex;
pub use render::spec_accent_color;
pub use render::spec_badge_lines;
pub use render::spec_clan_lines;
pub use render::spec_decoration_lines;
pub use render::spec_opt_text;
pub use render::spec_render_lines;
pub use render::spec_bool_text;
pub use render::spec_dec;
pub use render::spec_digit;
pub use render::spec_hex;
pub use profile::Clan;
pub use profile::Config;
pub use profile::UserData;
