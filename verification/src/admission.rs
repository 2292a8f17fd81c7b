//! The admission listener's decisions for one newly joined member: which
//! language serves the member, the welcome text with its embedded
//! challenge link, and the grace duration to arm the enforcement timer
//! with.  The process around the library restricts the member, sends the
//! message, records the join in the registry, and arms the timer.

use vstd::prelude::*;

use crate::config::welcome_msg_spec;
use crate::config::GroupSettings;
use crate::config::MessagesText;
use crate::i18n::I18n;
use crate::text::verify_path;
use crate::text::verify_path_spec;
use crate::user::mention_spec;
use crate::user::UserInfo;

verus! {

/// Everything the admission listener decides for one member before any
/// outward call is made.
#[derive(Debug, Clone)]
pub struct JoinPlan {
    /// The localized welcome text, member tag and chat name filled in.
    pub welcome_text: String,
    /// The localized label of the verification button.
    pub button_label: String,
    /// The link path, relative to the application's base address, that
    /// routes the member's proof back to this (group, member) pair.
    pub verify_path: String,
    /// The grace duration, in seconds, to arm the enforcement timer with.
    pub grace_secs: u64,
    /// The localized note sent privately to a member who was enforced
    /// against.
    pub goodbye_text: String,
}

/// The language that serves a member of a group: the group's pinned
/// language when one is set, detection against the member otherwise.
pub open spec fn spec_chosen_lang(cfg: GroupSettings, i18n: I18n, user: UserInfo) -> Seq<char> {
    match cfg.language {
        Some(lang) => lang@,
        None => i18n.spec_detected_lang(Some(user)),
    }
}

/// The chat name the welcome message shows: the group's configured
/// override when one is set, the chat's own title otherwise.
pub open spec fn spec_chat_title(cfg: GroupSettings, chat_title: Seq<char>) -> Seq<char> {
    match cfg.chat_name {
        Some(name) => name@,
        None => chat_title,
    }
}

/// Plans the admission of one newly joined member: `None` for a bot
/// account (bots are never challenged), otherwise the welcome text, the
/// button label, the challenge link path and the grace duration.
pub fn prepare_join(
    cfg: &GroupSettings,
    i18n: &I18n,
    user: &UserInfo,
    chat_id: i64,
    chat_title: &str,
) -> (r: Option<JoinPlan>)
    requires
        i18n.wf(),
    ensures
        r is Some <==> !user.is_bot,
        r matches Some(plan) ==> {
            let translation = i18n.spec_translation_for(
                spec_chosen_lang(*cfg, *i18n, *user),
            );
            &&& plan.welcome_text@ == welcome_msg_spec(
                translation.new_user_template@,
                mention_spec(*user),
                spec_chat_title(*cfg, chat_title@),
            )
            &&& plan.button_label@ == translation.verify_button@
            &&& plan.verify_path@ == verify_path_spec(chat_id as int, user.id as nat)
            &&& plan.grace_secs == cfg.ban_after_secs
            &&& plan.goodbye_text@ == translation.user_doesnt_match_error@
        },
{
    if user.is_bot {
        return None;
    }
    let lang: &str = match &cfg.language {
        Some(lang) => lang.as_str(),
        None => i18n.detect_language(Some(user)),
    };
    let translation = i18n.get(lang);
    let messages = MessagesText::from_translation(translation);
    let title: &str = match &cfg.chat_name {
        Some(name) => name.as_str(),
        None => chat_title,
    };
    let welcome_text = messages.create_welcome_msg(user, title);
    Some(
        JoinPlan {
            welcome_text,
            button_label: translation.verify_button.clone(),
            verify_path: verify_path(chat_id, user.id),
            grace_secs: cfg.ban_after_secs,
            goodbye_text: translation.user_doesnt_match_error.clone(),
        },
    )
}

} // verus!
