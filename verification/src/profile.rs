//! The profile record and the request-building helpers.
//!
//! A profile is an externally defined, loosely typed record: the program
//! owns a read-only snapshot per request, with no invariants beyond what
//! the remote API guarantees, so every field is a plain optional value.

use vstd::prelude::*;

verus! {

/// The one-time configuration: a single bot credential, loaded once at
/// process start and immutable for the process lifetime.
pub struct Config {
    pub token: String,
}

/// A guild identity ("clan") sub-record of a profile.
pub struct Clan {
    pub identity_guild_id: String,
    pub identity_enabled: bool,
    pub tag: String,
    pub badge: String,
}

/// An avatar-decoration sub-record: an asset reference plus purchase
/// metadata, with an optional expiry timestamp.
pub struct AvatarDecorationData {
    pub asset: String,
    pub sku_id: String,
    pub expires_at: Option<String>,
}

/// A user profile as the remote API returns it: identifier, names,
/// optional asset references, and numeric flag bitmasks.
pub struct UserData {
    pub id: String,
    pub username: String,
    pub avatar: Option<String>,
    pub discriminator: String,
    pub public_flags: u64,
    pub flags: u64,
    pub bot: Option<bool>,
    pub banner: Option<String>,
    pub accent_color: Option<u32>,
    pub global_name: Option<String>,
    pub avatar_decoration_data: Option<AvatarDecorationData>,
    pub banner_color: Option<String>,
    pub clan: Option<Clan>,
}

/// The fixed, versioned API endpoint under which a user profile lives.
pub open spec fn spec_api_user_base() -> Seq<char> {
    "https://discord.com/api/v10/users/"@
}

/// The value of the authorization header for a bot credential.
pub open spec fn spec_auth_header_value(token: Seq<char>) -> Seq<char> {
    "Bot "@ + token
}

/// Builds the profile-endpoint URL for one user identifier.
pub fn api_user_url(user_id: &str) -> (r: String)
    ensures
        r@ == spec_api_user_base() + user_id@,
{
    let base = String::from_str("https://discord.com/api/v10/users/");
    base.concat(user_id)
}

/// Builds the bot-style authorization header value for the credential.
pub fn auth_header_value(token: &str) -> (r: String)
    ensures
        r@ == spec_auth_header_value(token@),
{
    let prefix = String::from_str("Bot ");
    prefix.concat(token)
}

} // verus!
