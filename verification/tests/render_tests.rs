use profile_lookup::badge_lines;
use profile_lookup::clan_lines;
use profile_lookup::decoration_lines;
use profile_lookup::AvatarDecorationData;
use profile_lookup::Clan;
use profile_lookup::ImageType;
use profile_lookup::LinkResolution;
use profile_lookup::UserData;

fn bare_user() -> UserData {
    UserData {
        id: String::from("80351110224678912"),
        username: String::from("nelly"),
        avatar: None,
        discriminator: String::from("0"),
        public_flags: 0,
        flags: 0,
        bot: None,
        banner: None,
        accent_color: None,
        global_name: None,
        avatar_decoration_data: None,
        banner_color: None,
        clan: None,
    }
}

fn resolve_without_network(u: &UserData, t: ImageType) -> String {
    match u.resolve_link(t) {
        LinkResolution::Done(s) => s,
        LinkResolution::Probe(_) => panic!("these profiles resolve without a probe"),
    }
}

#[test]
fn badge_block_without_flags_is_the_absent_line() {
    let u = bare_user();
    assert_eq!(badge_lines(&u), vec!["Badge: None".to_string()]);
}

#[test]
fn badge_block_with_flags_indents_each_label() {
    let mut u = bare_user();
    u.public_flags = 1 | 4;
    assert_eq!(
        badge_lines(&u),
        vec![
            "Badge:".to_string(),
            " - Staff".to_string(),
            " - HypeSquad_Events".to_string(),
        ]
    );
}

#[test]
fn decoration_block_when_absent() {
    assert_eq!(
        decoration_lines(&None, "None"),
        vec!["Avatar Decoration Data: None".to_string()]
    );
}

#[test]
fn decoration_block_when_present() {
    let d = Some(AvatarDecorationData {
        asset: String::from("a_abc"),
        sku_id: String::from("1144058844004233369"),
        expires_at: Some(String::from("2024-06-01T00:00:00+00:00")),
    });
    assert_eq!(
        decoration_lines(
            &d,
            "https://cdn.discordapp.com/avatar-decoration-presets/a_abc.png?size=4096"
        ),
        vec![
            "Avatar Decoration Data:".to_string(),
            " - Asset: https://cdn.discordapp.com/avatar-decoration-presets/a_abc.png?size=4096"
                .to_string(),
            " - SKU ID: 1144058844004233369".to_string(),
            " - Expires at: 2024-06-01T00:00:00+00:00".to_string(),
        ]
    );
}

#[test]
fn clan_block_when_absent() {
    assert_eq!(clan_lines(&None), vec!["Clan: None".to_string()]);
}

#[test]
fn clan_block_when_present() {
    let c = Some(Clan {
        identity_guild_id: String::from("730913669251072"),
        identity_enabled: true,
        tag: String::from("DISC"),
        badge: String::from("7d1734ae5a615e82bc7a4033b98fade8"),
    });
    assert_eq!(
        clan_lines(&c),
        vec![
            "Clan:".to_string(),
            " - Identity Guild Id: 730913669251072".to_string(),
            " - Identity Enabled: true".to_string(),
            " - Tag: DISC".to_string(),
            " - Badge: 7d1734ae5a615e82bc7a4033b98fade8".to_string(),
        ]
    );
}

#[test]
fn null_avatar_and_null_clan_display_default_url_and_absent_clan() {
    let u = bare_user();
    let avatar = resolve_without_network(&u, ImageType::Avatar);
    let banner = resolve_without_network(&u, ImageType::Banner);
    let asset = resolve_without_network(&u, ImageType::AvatarDecoration);
    let lines = u.render_lines(&avatar, &banner, &asset);
    assert!(lines.contains(&"Avatar: https://cdn.discordapp.com/embed/avatars/0.png".to_string()));
    assert!(lines.contains(&"Clan: None".to_string()));
    assert_eq!(
        lines,
        vec![
            "ID: 80351110224678912".to_string(),
            "Username: nelly".to_string(),
            "Avatar: https://cdn.discordapp.com/embed/avatars/0.png".to_string(),
            "Discriminator: 0".to_string(),
            "Public Flags: 0".to_string(),
            "Badge: None".to_string(),
            "Flags: 0".to_string(),
            "Bot: false".to_string(),
            "Banner: None".to_string(),
            "Accent Color: None".to_string(),
            "Global Name: None".to_string(),
            "Avatar Decoration Data: None".to_string(),
            "Banner Color: None".to_string(),
            "Clan: None".to_string(),
        ]
    );
}

#[test]
fn full_profile_displays_every_field() {
    let mut u = bare_user();
    u.public_flags = 64;
    u.flags = 64;
    u.bot = Some(true);
    u.accent_color = Some(0xABCDEF);
    u.global_name = Some(String::from("Nelly"));
    u.banner_color = Some(String::from("#06d6a0"));
    u.avatar_decoration_data = Some(AvatarDecorationData {
        asset: String::from("a_abc"),
        sku_id: String::from("11440"),
        expires_at: None,
    });
    u.clan = Some(Clan {
        identity_guild_id: String::from("730913"),
        identity_enabled: false,
        tag: String::from("DISC"),
        badge: String::from("7d17"),
    });
    let asset = resolve_without_network(&u, ImageType::AvatarDecoration);
    let lines = u.render_lines(
        "https://cdn.discordapp.com/avatars/80351110224678912/av.gif?size=4096",
        "https://cdn.discordapp.com/banners/80351110224678912/ba.png?size=4096",
        &asset,
    );
    assert_eq!(
        lines,
        vec![
            "ID: 80351110224678912".to_string(),
            "Username: nelly".to_string(),
            "Avatar: https://cdn.discordapp.com/avatars/80351110224678912/av.gif?size=4096"
                .to_string(),
            "Discriminator: 0".to_string(),
            "Public Flags: 64".to_string(),
            "Badge:".to_string(),
            " - HypeSquad_Bravery".to_string(),
            "Flags: 64".to_string(),
            "Bot: true".to_string(),
            "Banner: https://cdn.discordapp.com/banners/80351110224678912/ba.png?size=4096"
                .to_string(),
            "Accent Color: #abcdef".to_string(),
            "Global Name: Nelly".to_string(),
            "Avatar Decoration Data:".to_string(),
            " - Asset: https://cdn.discordapp.com/avatar-decoration-presets/a_abc.png?size=4096"
                .to_string(),
            " - SKU ID: 11440".to_string(),
            " - Expires at: None".to_string(),
            "Banner Color: #06d6a0".to_string(),
            "Clan:".to_string(),
            " - Identity Guild Id: 730913".to_string(),
            " - Identity Enabled: false".to_string(),
            " - Tag: DISC".to_string(),
            " - Badge: 7d17".to_string(),
        ]
    );
}
