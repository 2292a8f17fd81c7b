//! Tests for the text building blocks: escaping, template filling,
//! decimal rendering and the member tag.

use wld_captcha::config::MessagesText;
use wld_captcha::text::{dec_i64, dec_u64, escape, verify_path};
use wld_captcha::user::UserInfo;

fn user(id: u64, first: &str, last: Option<&str>, username: Option<&str>) -> UserInfo {
    UserInfo {
        id,
        first_name: first.to_string(),
        last_name: last.map(|s| s.to_string()),
        username: username.map(|s| s.to_string()),
        is_bot: false,
        language_code: None,
    }
}

#[test]
fn escape_replaces_markup_characters() {
    assert_eq!(escape("a<b>&c"), "a&lt;b&gt;&amp;c");
    assert_eq!(escape("plain"), "plain");
    assert_eq!(escape(""), "");
    assert_eq!(escape("<<>>"), "&lt;&lt;&gt;&gt;");
    assert_eq!(escape("ñandú & friends"), "ñandú &amp; friends");
}

#[test]
fn decimal_rendering_is_exact() {
    assert_eq!(dec_u64(0), "0");
    assert_eq!(dec_u64(905), "905");
    assert_eq!(dec_u64(u64::MAX), "18446744073709551615");
    assert_eq!(dec_i64(0), "0");
    assert_eq!(dec_i64(-1), "-1");
    assert_eq!(dec_i64(-1001234567), "-1001234567");
    assert_eq!(dec_i64(i64::MIN), "-9223372036854775808");
}

#[test]
fn verify_path_encodes_group_and_member() {
    assert_eq!(verify_path(-1001234, 42), "verify/-1001234/42");
    assert_eq!(verify_path(7, 0), "verify/7/0");
}

#[test]
fn full_name_joins_first_and_last() {
    assert_eq!(user(1, "Ada", None, None).full_name(), "Ada");
    assert_eq!(
        user(1, "Ada", Some("Lovelace"), None).full_name(),
        "Ada Lovelace"
    );
}

#[test]
fn mention_prefers_the_username() {
    assert_eq!(
        user(1, "Ada", None, Some("ada")).mention_or_link(),
        "@ada"
    );
    assert_eq!(
        user(42, "Ada", Some("Lovelace"), None).mention_or_link(),
        "[Ada Lovelace](tg://user?id=42)"
    );
}

#[test]
fn welcome_message_fills_the_template() {
    let m = MessagesText::default();
    let u = user(1, "Ada", None, Some("ada"));
    let text = m.create_welcome_msg(&u, "Team <X>");
    assert_eq!(
        text,
        "👋 gm @ada! Welcome to Team &lt;X&gt;.\nTo access the group, please verify your account with World ID."
    );
}

#[test]
fn welcome_message_tags_members_without_usernames_by_link() {
    let m = MessagesText::default();
    let u = user(42, "Ada", Some("Lovelace"), None);
    let text = m.create_welcome_msg(&u, "Rust & Co");
    assert_eq!(
        text,
        "👋 gm [Ada Lovelace](tg://user?id=42)! Welcome to Rust &amp; Co.\nTo access the group, please verify your account with World ID."
    );
}
