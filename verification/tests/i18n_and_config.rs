//! Tests for translation lookup, language detection, group configuration
//! and the admission plan.

use wld_captcha::admission::prepare_join;
use wld_captcha::commands::{command_reply, Command};
use wld_captcha::config::{GroupSettings, GroupsConfig, MessagesText};
use wld_captcha::i18n::I18n;
use wld_captcha::user::UserInfo;

fn member(lang: Option<&str>) -> UserInfo {
    UserInfo {
        id: 7,
        first_name: "Ada".to_string(),
        last_name: None,
        username: Some("ada".to_string()),
        is_bot: false,
        language_code: lang.map(|s| s.to_string()),
    }
}

#[test]
fn lookup_serves_the_stored_translation() {
    let i18n = I18n::new();
    assert_eq!(i18n.get("es").verify_button, "Verificar con World ID");
    assert_eq!(i18n.get("pt").verify_button, "Verificar com World ID");
    assert_eq!(i18n.get("en").verify_button, "Verify with World ID");
}

#[test]
fn lookup_falls_back_to_english() {
    let i18n = I18n::new();
    assert_eq!(i18n.get("fr").verify_button, "Verify with World ID");
    assert_eq!(i18n.get("").verify_button, "Verify with World ID");
}

#[test]
fn detection_takes_the_part_before_the_dash() {
    let i18n = I18n::new();
    assert_eq!(i18n.detect_language(Some(&member(Some("es-ES")))), "es");
    assert_eq!(i18n.detect_language(Some(&member(Some("pt")))), "pt");
    assert_eq!(i18n.detect_language(Some(&member(Some("fr-FR")))), "en");
    assert_eq!(i18n.detect_language(Some(&member(None))), "en");
    assert_eq!(i18n.detect_language(None), "en");
}

#[test]
fn portuguese_texts_are_stored() {
    let i18n = I18n::new();
    let pt = i18n.get("pt");
    assert_eq!(
        pt.alert_already_used,
        "Este World ID já foi usado para entrar neste grupo. Você não pode fazer isso novamente!"
    );
    assert_eq!(pt.user_doesnt_match_error, "❌ Esta mensagem não é para você");
}

#[test]
fn available_languages_lists_the_store() {
    let langs = I18n::new().available_languages();
    assert_eq!(langs, vec!["en", "es", "pt"]);
}

#[test]
fn messages_come_from_the_translation() {
    let i18n = I18n::new();
    let es = i18n.get("es");
    let m = MessagesText::from_translation(es);
    assert_eq!(m.new_user_template, es.new_user_template);
    assert_eq!(m.unauthorized_group, es.unauthorized_group);
    assert_eq!(m.successfully_verified, es.successfully_verified);
    assert_eq!(m.user_doesnt_match_error, es.user_doesnt_match_error);
}

#[test]
fn empty_allow_list_allows_every_group() {
    let cfg = GroupsConfig::default();
    assert!(cfg.is_group_allowed(1));
    assert!(cfg.is_group_allowed(-100));
}

#[test]
fn allow_list_restricts_to_listed_groups() {
    let cfg = GroupsConfig::new(vec![-100, 5], GroupSettings::default(), Vec::new());
    assert!(cfg.is_group_allowed(-100));
    assert!(cfg.is_group_allowed(5));
    assert!(!cfg.is_group_allowed(6));
}

#[test]
fn settings_fall_back_when_a_group_has_no_entry() {
    let mut own = GroupSettings::default();
    own.ban_after_secs = 60;
    own.language = Some("es".to_string());
    let cfg = GroupsConfig::new(Vec::new(), GroupSettings::default(), vec![(-100, own)]);
    assert_eq!(cfg.get(-100).ban_after_secs, 60);
    assert_eq!(cfg.get(-100).language.as_deref(), Some("es"));
    assert_eq!(cfg.get(-101).ban_after_secs, 300);
    assert_eq!(cfg.get(-101).language, None);
}

#[test]
fn command_replies_follow_chat_kind_and_permissions() {
    let i18n = I18n::new();
    let t = i18n.get("en");
    assert_eq!(
        command_reply(&Command::Check, true, false, t).as_deref(),
        Some(t.help_use_in_group.as_str())
    );
    assert_eq!(
        command_reply(&Command::Check, false, true, t).as_deref(),
        Some(t.help_group_check_ok.as_str())
    );
    assert_eq!(
        command_reply(&Command::Check, false, false, t).as_deref(),
        Some(t.help_group_check_fail.as_str())
    );
    assert_eq!(
        command_reply(&Command::Help, true, false, t).as_deref(),
        Some(t.help_private.as_str())
    );
    assert_eq!(command_reply(&Command::Help, false, false, t), None);
    assert_eq!(
        command_reply(&Command::Start, true, false, t).as_deref(),
        Some(t.help_private.as_str())
    );
    assert_eq!(command_reply(&Command::Start, false, true, t), None);
}

#[test]
fn join_plan_composes_the_challenge() {
    let i18n = I18n::new();
    let cfg = GroupSettings::default();
    let u = member(Some("en-US"));
    let plan = prepare_join(&cfg, &i18n, &u, -100123, "Team <X>").unwrap();
    assert_eq!(
        plan.welcome_text,
        "👋 gm @ada! Welcome to Team &lt;X&gt;.\nTo access the group, please verify your account with World ID."
    );
    assert_eq!(plan.button_label, "Verify with World ID");
    assert_eq!(plan.verify_path, "verify/-100123/7");
    assert_eq!(plan.grace_secs, 300);
    assert_eq!(plan.goodbye_text, "❌ This message isn't for you");
}

#[test]
fn join_plan_honors_the_pinned_language_and_chat_name() {
    let i18n = I18n::new();
    let mut cfg = GroupSettings::default();
    cfg.language = Some("es".to_string());
    cfg.chat_name = Some("La Plaza".to_string());
    cfg.ban_after_secs = 120;
    let u = member(Some("en-US"));
    let plan = prepare_join(&cfg, &i18n, &u, 9, "ignored").unwrap();
    assert_eq!(
        plan.welcome_text,
        "👋 ¡Hola @ada! Bienvenido a La Plaza.\nPara acceder al grupo, por favor verifica tu cuenta con World ID."
    );
    assert_eq!(plan.button_label, "Verificar con World ID");
    assert_eq!(plan.verify_path, "verify/9/7");
    assert_eq!(plan.grace_secs, 120);
    assert_eq!(plan.goodbye_text, "❌ Este mensaje no es para ti");
}

#[test]
fn bots_are_never_challenged() {
    let i18n = I18n::new();
    let mut u = member(None);
    u.is_bot = true;
    assert!(prepare_join(&GroupSettings::default(), &i18n, &u, 1, "t").is_none());
}
