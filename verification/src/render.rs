//! Formatting profile fields for line-oriented console display.
//!
//! The display is a fixed sequence of `name: value` lines, with small
//! nested blocks for the badge list, the decoration and the clan. Numbers
//! are written in decimal, the accent color as `#` followed by at least
//! six lowercase hex digits, and every absent optional field as `None`.

use vstd::prelude::*;

use crate::flags::spec_flag_labels;
use crate::flags::views_of;
use crate::profile::AvatarDecorationData;
use crate::profile::Clan;
use crate::profile::UserData;

verus! {

/// The character for one digit value below sixteen.
pub open spec fn spec_digit(d: nat) -> char {
    if d == 0 {
        '0'
    } else if d == 1 {
        '1'
    } else if d == 2 {
        '2'
    } else if d == 3 {
        '3'
    } else if d == 4 {
        '4'
    } else if d == 5 {
        '5'
    } else if d == 6 {
        '6'
    } else if d == 7 {
        '7'
    } else if d == 8 {
        '8'
    } else if d == 9 {
        '9'
    } else if d == 10 {
        'a'
    } else if d == 11 {
        'b'
    } else if d == 12 {
        'c'
    } else if d == 13 {
        'd'
    } else if d == 14 {
        'e'
    } else {
        'f'
    }
}

/// The lowercase hexadecimal digits of `v`, zero-padded on the left to at
/// least `width` digits.
pub open spec fn spec_hex(v: nat, width: nat) -> Seq<char>
    decreases v, width,
{
    if v < 16 && width <= 1 {
        seq![spec_digit(v)]
    } else {
        spec_hex(v / 16, if width == 0 {
            0
        } else {
            (width - 1) as nat
        }) + seq![spec_digit(v % 16)]
    }
}

/// The decimal digits of `v`, with no padding.
pub open spec fn spec_dec(v: nat) -> Seq<char>
    decreases v,
{
    if v < 10 {
        seq![spec_digit(v)]
    } else {
        spec_dec(v / 10) + seq![spec_digit(v % 10)]
    }
}

/// How a boolean field is displayed.
pub open spec fn spec_bool_text(b: bool) -> Seq<char> {
    if b {
        "true"@
    } else {
        "false"@
    }
}

/// How an accent color is displayed: `#` and at least six lowercase hex
/// digits.
pub open spec fn spec_accent_color(c: u32) -> Seq<char> {
    seq!['#'] + spec_hex(c as nat, 6)
}

/// The character of one digit value, as a borrowed one-character string.
fn digit_str(d: u64) -> (r: &'static str)
    requires
        d < 16,
    ensures
        r@ == seq![spec_digit(d as nat)],
{
    proof {
        reveal_strlit("0");
        reveal_strlit("1");
        reveal_strlit("2");
        reveal_strlit("3");
        reveal_strlit("4");
        reveal_strlit("5");
        reveal_strlit("6");
        reveal_strlit("7");
        reveal_strlit("8");
        reveal_strlit("9");
        reveal_strlit("a");
        reveal_strlit("b");
        reveal_strlit("c");
        reveal_strlit("d");
        reveal_strlit("e");
        reveal_strlit("f");
    }
    let r = if d == 0 {
        "0"
    } else if d == 1 {
        "1"
    } else if d == 2 {
        "2"
    } else if d == 3 {
        "3"
    } else if d == 4 {
        "4"
    } else if d == 5 {
        "5"
    } else if d == 6 {
        "6"
    } else if d == 7 {
        "7"
    } else if d == 8 {
        "8"
    } else if d == 9 {
        "9"
    } else if d == 10 {
        "a"
    } else if d == 11 {
        "b"
    } else if d == 12 {
        "c"
    } else if d == 13 {
        "d"
    } else if d == 14 {
        "e"
    } else {
        "f"
    };
    proof {
        assert(r@ =~= seq![spec_digit(d as nat)]);
    }
    r
}

/// Writes `v` in lowercase hexadecimal, zero-padded to at least `width`
/// digits.
pub fn format_hex(v: u32, width: u32) -> (r: String)
    ensures
        r@ == spec_hex(v as nat, width as nat),
    decreases v, width,
{
    if v < 16 && width <= 1 {
        String::from_str(digit_str(v as u64))
    } else {
        proof {
            assert(v as nat / 16 == (v / 16) as nat);
            assert(v as nat % 16 == (v % 16) as nat);
        }
        let rest = format_hex(v / 16, if width == 0 {
            0
        } else {
            width - 1
        });
        rest.concat(digit_str((v % 16) as u64))
    }
}

/// Writes `v` in decimal.
pub fn format_dec(v: u64) -> (r: String)
    ensures
        r@ == spec_dec(v as nat),
    decreases v,
{
    if v < 10 {
        String::from_str(digit_str(v))
    } else {
        let rest = format_dec(v / 10);
        rest.concat(digit_str(v % 10))
    }
}

/// Writes a boolean as `true` or `false`.
pub fn format_bool(b: bool) -> (r: &'static str)
    ensures
        r@ == spec_bool_text(b),
{
    if b {
        "true"
    } else {
        "false"
    }
}

/// Writes an accent color as `#` followed by at least six lowercase hex
/// digits.
pub fn format_accent_color(c: u32) -> (r: String)
    ensures
        r@ == spec_accent_color(c),
{
    proof {
        reveal_strlit("#");
    }
    let prefix = String::from_str("#");
    let digits = format_hex(c, 6);
    let r = prefix.concat(digits.as_str());
    proof {
        assert(r@ =~= spec_accent_color(c));
    }
    r
}

/// How an optional text field is displayed: its value, or `None`.
pub open spec fn spec_opt_text(o: Option<String>) -> Seq<char> {
    match o {
        Some(s) => s@,
        None => "None"@,
    }
}

/// The badge block: a heading and one indented line per decoded label, or
/// a single absent line when no flag bit is set.
pub open spec fn spec_badge_lines(flags: u64) -> Seq<Seq<char>> {
    if flags != 0 {
        seq!["Badge:"@] + spec_flag_labels(flags).map_values(|l: Seq<char>| " - "@ + l)
    } else {
        seq!["Badge: None"@]
    }
}

/// The decoration block: a heading and the asset URL, SKU and expiry
/// lines, or a single absent line.
pub open spec fn spec_decoration_lines(d: Option<AvatarDecorationData>, asset: Seq<char>) -> Seq<
    Seq<char>,
> {
    match d {
        Some(d) => seq![
            "Avatar Decoration Data:"@,
            " - Asset: "@ + asset,
            " - SKU ID: "@ + d.sku_id@,
            " - Expires at: "@ + spec_opt_text(d.expires_at),
        ],
        None => seq!["Avatar Decoration Data: None"@],
    }
}

/// The clan block: a heading and the identity, tag and badge lines, or a
/// single absent line.
pub open spec fn spec_clan_lines(c: Option<Clan>) -> Seq<Seq<char>> {
    match c {
        Some(c) => seq![
            "Clan:"@,
            " - Identity Guild Id: "@ + c.identity_guild_id@,
            " - Identity Enabled: "@ + spec_bool_text(c.identity_enabled),
            " - Tag: "@ + c.tag@,
            " - Badge: "@ + c.badge@,
        ],
        None => seq!["Clan: None"@],
    }
}

/// Every line of the displayed profile, in display order, given the three
/// already-resolved image URLs.
pub open spec fn spec_render_lines(
    u: UserData,
    avatar: Seq<char>,
    banner: Seq<char>,
    asset: Seq<char>,
) -> Seq<Seq<char>> {
    seq![
        "ID: "@ + u.id@,
        "Username: "@ + u.username@,
        "Avatar: "@ + avatar,
        "Discriminator: "@ + u.discriminator@,
        "Public Flags: "@ + spec_dec(u.public_flags as nat),
    ] + spec_badge_lines(u.public_flags) + seq![
        "Flags: "@ + spec_dec(u.flags as nat),
        "Bot: "@ + spec_bool_text(match u.bot {
            Some(b) => b,
            None => false,
        }),
        "Banner: "@ + banner,
        match u.accent_color {
            Some(c) => "Accent Color: "@ + spec_accent_color(c),
            None => "Accent Color: None"@,
        },
        "Global Name: "@ + spec_opt_text(u.global_name),
    ] + spec_decoration_lines(u.avatar_decoration_data, asset) + seq![
        "Banner Color: "@ + spec_opt_text(u.banner_color),
    ] + spec_clan_lines(u.clan)
}

/// An optional text field, or the borrowed absent sentinel.
fn opt_text(o: &Option<String>) -> (r: &str)
    ensures
        r@ == spec_opt_text(*o),
{
    match o {
        Some(s) => s.as_str(),
        None => "None",
    }
}

/// One `name: value` line.
fn labeled(prefix: &str, rest: &str) -> (r: String)
    ensures
        r@ == prefix@ + rest@,
{
    String::from_str(prefix).concat(rest)
}

/// Appends one line to the display.
fn push_line(v: &mut Vec<String>, s: String)
    ensures
        views_of(final(v)@) == views_of(old(v)@).push(s@),
{
    proof {
        broadcast use vstd::prelude::Seq::lemma_push_map_commute;

    }
    v.push(s);
}

/// Appends a whole block of lines to the display.
fn append_lines(v: &mut Vec<String>, w: Vec<String>)
    ensures
        views_of(final(v)@) == views_of(old(v)@) + views_of(w@),
{
    proof {
        broadcast use vstd::prelude::Seq::lemma_push_map_commute;
        broadcast use vstd::prelude::Seq::lemma_take_succ_push;
        broadcast use vstd::seq_lib::group_seq_lib_default;

    }
    let mut i: usize = 0;
    while i < w.len()
        invariant
            i <= w.len(),
            views_of(v@) =~= views_of(old(v)@) + views_of(w@).take(i as int),
        decreases w.len() - i,
    {
        push_line(v, w[i].clone());
        proof {
            broadcast use vstd::prelude::Seq::lemma_push_map_commute;
            broadcast use vstd::prelude::Seq::lemma_take_succ_push;

            assert(views_of(w@).take(i + 1) =~= views_of(w@).take(i as int).push(w@[i as int]@));
        }
        i = i + 1;
    }
    proof {
        assert(views_of(w@).take(w@.len() as int) =~= views_of(w@));
    }
}

/// The badge block of the display.
pub fn badge_lines(u: &UserData) -> (r: Vec<String>)
    ensures
        views_of(r@) == spec_badge_lines(u.public_flags),
{
    let mut v: Vec<String> = Vec::new();
    if u.public_flags == 0 {
        push_line(&mut v, String::from_str("Badge: None"));
        proof {
            assert(views_of(v@) =~= spec_badge_lines(u.public_flags));
        }
    } else {
        push_line(&mut v, String::from_str("Badge:"));
        let labels = u.check_flags();
        let ghost mapped = spec_flag_labels(u.public_flags).map_values(
            |l: Seq<char>| " - "@ + l,
        );
        proof {
            assert(views_of(v@) =~= seq!["Badge:"@] + mapped.take(0));
        }
        let mut i: usize = 0;
        while i < labels.len()
            invariant
                i <= labels.len(),
                views_of(labels@) == spec_flag_labels(u.public_flags),
                mapped == spec_flag_labels(u.public_flags).map_values(|l: Seq<char>| " - "@ + l),
                views_of(v@) =~= seq!["Badge:"@] + mapped.take(i as int),
            decreases labels.len() - i,
        {
            let line = labeled(" - ", labels[i].as_str());
            push_line(&mut v, line);
            proof {
                assert(mapped[i as int] == " - "@ + views_of(labels@)[i as int]);
                assert(mapped.take(i + 1) =~= mapped.take(i as int).push(mapped[i as int]));
            }
            i = i + 1;
        }
        proof {
            assert(mapped.take(mapped.len() as int) =~= mapped);
            assert(views_of(v@) =~= spec_badge_lines(u.public_flags));
        }
    }
    v
}

/// The decoration block of the display.
pub fn decoration_lines(d: &Option<AvatarDecorationData>, asset: &str) -> (r: Vec<String>)
    ensures
        views_of(r@) == spec_decoration_lines(*d, asset@),
{
    let mut v: Vec<String> = Vec::new();
    match d {
        Some(d) => {
            push_line(&mut v, String::from_str("Avatar Decoration Data:"));
            push_line(&mut v, labeled(" - Asset: ", asset));
            push_line(&mut v, labeled(" - SKU ID: ", d.sku_id.as_str()));
            push_line(&mut v, labeled(" - Expires at: ", opt_text(&d.expires_at)));
        },
        None => {
            push_line(&mut v, String::from_str("Avatar Decoration Data: None"));
        },
    }
    proof {
        assert(views_of(v@) =~= spec_decoration_lines(*d, asset@));
    }
    v
}

/// The clan block of the display.
pub fn clan_lines(c: &Option<Clan>) -> (r: Vec<String>)
    ensures
        views_of(r@) == spec_clan_lines(*c),
{
    let mut v: Vec<String> = Vec::new();
    match c {
        Some(c) => {
            push_line(&mut v, String::from_str("Clan:"));
            push_line(&mut v, labeled(" - Identity Guild Id: ", c.identity_guild_id.as_str()));
            push_line(&mut v, labeled(" - Identity Enabled: ", format_bool(c.identity_enabled)));
            push_line(&mut v, labeled(" - Tag: ", c.tag.as_str()));
            push_line(&mut v, labeled(" - Badge: ", c.badge.as_str()));
        },
        None => {
            push_line(&mut v, String::from_str("Clan: None"));
        },
    }
    proof {
        assert(views_of(v@) =~= spec_clan_lines(*c));
    }
    v
}

impl UserData {
    /// Every line of this profile's display, in order, given the three
    /// resolved image URLs.
    pub fn render_lines(&self, avatar: &str, banner: &str, asset: &str) -> (r: Vec<String>)
        ensures
            views_of(r@) == spec_render_lines(*self, avatar@, banner@, asset@),
    {
        let mut v: Vec<String> = Vec::new();
        push_line(&mut v, labeled("ID: ", self.id.as_str()));
        push_line(&mut v, labeled("Username: ", self.username.as_str()));
        push_line(&mut v, labeled("Avatar: ", avatar));
        push_line(&mut v, labeled("Discriminator: ", self.discriminator.as_str()));
        push_line(&mut v, labeled("Public Flags: ", format_dec(self.public_flags).as_str()));
        append_lines(&mut v, badge_lines(self));
        push_line(&mut v, labeled("Flags: ", format_dec(self.flags).as_str()));
        let bot = match self.bot {
            Some(b) => b,
            None => false,
        };
        push_line(&mut v, labeled("Bot: ", format_bool(bot)));
        push_line(&mut v, labeled("Banner: ", banner));
        let accent = match self.accent_color {
            Some(c) => labeled("Accent Color: ", format_accent_color(c).as_str()),
            None => String::from_str("Accent Color: None"),
        };
        push_line(&mut v, accent);
        push_line(&mut v, labeled("Global Name: ", opt_text(&self.global_name)));
        append_lines(&mut v, decoration_lines(&self.avatar_decoration_data, asset));
        push_line(&mut v, labeled("Banner Color: ", opt_text(&self.banner_color)));
        append_lines(&mut v, clan_lines(&self.clan));
        proof {
            assert(views_of(v@) =~= spec_render_lines(*self, avatar@, banner@, asset@));
        }
        v
    }
}

} // verus!
