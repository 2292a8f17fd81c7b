//! Per-group configuration as the admission core consumes it: the group
//! allow-list, per-group settings with a fallback, and the message texts a
//! group greets and warns with.  Loading this from files or the
//! environment happens outside the library, which only reads it.

use vstd::prelude::*;

use crate::i18n::Translation;
use crate::text::chars_of;
use crate::text::chars_to_string;
use crate::text::escape_chars;
use crate::text::html_escaped;
use crate::text::replace_chars;
use crate::text::replaced;
use crate::user::mention_spec;
use crate::user::UserInfo;

verus! {

/// The texts one group uses, keyed by purpose.
#[derive(Debug, Clone, PartialEq)]
pub struct MessagesText {
    pub new_user_template: String,
    pub unauthorized_group: String,
    pub successfully_verified: String,
    pub user_doesnt_match_error: String,
}

/// The welcome text composed for a member: the template with `{TAGUSER}`
/// replaced by the member's tag and `{CHATNAME}` replaced by the escaped
/// chat name.
pub open spec fn welcome_msg_spec(template: Seq<char>, tag: Seq<char>, chat_name: Seq<char>)
    -> Seq<char> {
    replaced(replaced(template, "{TAGUSER}"@, tag), "{CHATNAME}"@, html_escaped(chat_name))
}

impl MessagesText {
    /// Composes the welcome message for `user` joining the chat named
    /// `chat_name`.
    pub fn create_welcome_msg(&self, user: &UserInfo, chat_name: &str) -> (r: String)
        ensures
            r@ == welcome_msg_spec(self.new_user_template@, mention_spec(*user), chat_name@),
    {
        let template = chars_of(self.new_user_template.as_str());
        let tag_pat = chars_of("{TAGUSER}");
        let chat_pat = chars_of("{CHATNAME}");
        let tag = user.mention_chars();
        let step1 = replace_chars(&template, &tag_pat, &tag);
        let escaped = escape_chars(chat_name);
        let step2 = replace_chars(&step1, &chat_pat, &escaped);
        chars_to_string(&step2)
    }

    /// The message set a translation provides.
    pub fn from_translation(translation: &Translation) -> (r: MessagesText)
        ensures
            r.new_user_template == translation.new_user_template,
            r.unauthorized_group == translation.unauthorized_group,
            r.successfully_verified == translation.successfully_verified,
            r.user_doesnt_match_error == translation.user_doesnt_match_error,
    {
        MessagesText {
            new_user_template: translation.new_user_template.clone(),
            unauthorized_group: translation.unauthorized_group.clone(),
            successfully_verified: translation.successfully_verified.clone(),
            user_doesnt_match_error: translation.user_doesnt_match_error.clone(),
        }
    }
}

/// The built-in English message set.
pub open spec fn is_default_messages(m: MessagesText) -> bool {
    &&& m.user_doesnt_match_error@ == "❌ This message isn't for you"@
    &&& m.unauthorized_group@ == "❌ You can't use this bot on this group. Bye!"@
    &&& m.successfully_verified@ == "✅ Verified with World ID. Welcome to the group!"@
    &&& m.new_user_template@
        == "👋 gm {TAGUSER}! Welcome to {CHATNAME}.\nTo access the group, please verify your account with World ID."@
}

impl Default for MessagesText {
    /// The built-in English texts.
    fn default() -> (r: MessagesText)
        ensures
            is_default_messages(r),
    {
        MessagesText {
            user_doesnt_match_error: "❌ This message isn't for you".to_owned(),
            unauthorized_group: "❌ You can't use this bot on this group. Bye!".to_owned(),
            successfully_verified: "✅ Verified with World ID. Welcome to the group!".to_owned(),
            new_user_template:
                "👋 gm {TAGUSER}! Welcome to {CHATNAME}.\nTo access the group, please verify your account with World ID.".to_owned(),
        }
    }
}

/// One group's settings, as the admission flow reads them.
#[derive(Debug, Clone)]
pub struct GroupSettings {
    /// Overrides the chat's own title in the welcome message when set.
    pub chat_name: Option<String>,
    pub admin_ids: Option<Vec<u64>>,
    /// The grace duration, in seconds, before an unverified member is
    /// enforced against.
    pub ban_after_secs: u64,
    pub messages: MessagesText,
    /// Pins the group's language when set; detection runs otherwise.
    pub language: Option<String>,
}

impl Default for GroupSettings {
    /// No overrides, the built-in texts, and a grace duration of five
    /// minutes.
    fn default() -> (r: GroupSettings)
        ensures
            r.chat_name is None,
            r.admin_ids is None,
            r.ban_after_secs == 300,
            is_default_messages(r.messages),
            r.language is None,
    {
        GroupSettings {
            chat_name: None,
            admin_ids: None,
            messages: MessagesText::default(),
            ban_after_secs: 300,
            language: None,
        }
    }
}

/// The first stored settings entry for a group, if any.
pub open spec fn settings_first(s: Seq<(i64, GroupSettings)>, id: i64) -> Option<GroupSettings>
    decreases s.len(),
{
    if s.len() == 0 {
        None
    } else if s[0].0 == id {
        Some(s[0].1)
    } else {
        settings_first(s.drop_first(), id)
    }
}

/// The global and per-group configuration the admission flow consults.
#[derive(Debug, Clone)]
pub struct GroupsConfig {
    /// The allow-list; an empty list allows every group.
    pub allowed_group_ids: Vec<i64>,
    fallback_group_settings: GroupSettings,
    group_settings: Vec<(i64, GroupSettings)>,
}

impl GroupsConfig {
    /// The allow-list, in order; empty means every group is allowed.
    pub closed spec fn spec_allowed(&self) -> Seq<i64> {
        self.allowed_group_ids@
    }

    /// The stored per-group settings entries, in order.
    pub closed spec fn spec_group_settings(&self) -> Seq<(i64, GroupSettings)> {
        self.group_settings@
    }

    /// The settings a group without an entry of its own falls back to.
    pub closed spec fn spec_fallback(&self) -> GroupSettings {
        self.fallback_group_settings
    }

    /// The settings the configuration yields for a group.
    pub open spec fn spec_settings_for(&self, chat_id: i64) -> GroupSettings {
        match settings_first(self.spec_group_settings(), chat_id) {
            Some(s) => s,
            None => self.spec_fallback(),
        }
    }

    /// A configuration from its parts.
    pub fn new(
        allowed_group_ids: Vec<i64>,
        fallback_group_settings: GroupSettings,
        group_settings: Vec<(i64, GroupSettings)>,
    ) -> (r: GroupsConfig)
        ensures
            r.spec_allowed() == allowed_group_ids@,
            r.spec_fallback() == fallback_group_settings,
            r.spec_group_settings() == group_settings@,
    {
        GroupsConfig { allowed_group_ids, fallback_group_settings, group_settings }
    }

    /// Whether the bot serves this group: every group when the allow-list
    /// is empty, exactly the listed groups otherwise.
    pub fn is_group_allowed(&self, chat_id: i64) -> (r: bool)
        ensures
            r == (self.spec_allowed().len() == 0 || self.spec_allowed().contains(chat_id)),
    {
        if self.allowed_group_ids.len() == 0 {
            return true;
        }
        let n: usize = self.allowed_group_ids.len();
        for i in it: 0..n
            invariant
                n == self.spec_allowed().len(),
                forall|j: int| 0 <= j < i ==> self.spec_allowed()[j] != chat_id,
        {
            if self.allowed_group_ids[i] == chat_id {
                return true;
            }
        }
        false
    }

    /// The settings for a group: its own entry, or the fallback.
    pub fn get(&self, chat_id: i64) -> (r: &GroupSettings)
        ensures
            *r == self.spec_settings_for(chat_id),
    {
        let n: usize = self.group_settings.len();
        proof {
            assert(self.spec_group_settings().skip(0) =~= self.spec_group_settings());
        }
        for i in it: 0..n
            invariant
                n == self.spec_group_settings().len(),
                settings_first(self.spec_group_settings(), chat_id) == settings_first(
                    self.spec_group_settings().skip(i as int),
                    chat_id,
                ),
        {
            let ghost rest = self.spec_group_settings().skip(i as int);
            proof {
                assert(rest[0] == self.spec_group_settings()[i as int]);
                assert(rest.drop_first() =~= self.spec_group_settings().skip(i + 1));
            }
            if self.group_settings[i].0 == chat_id {
                return &self.group_settings[i].1;
            }
        }
        proof {
            assert(self.spec_group_settings().skip(n as int) =~= Seq::<(
                i64,
                GroupSettings,
            )>::empty());
        }
        &self.fallback_group_settings
    }
}

impl Default for GroupsConfig {
    /// No allow-list and no per-group entries: every group is allowed and
    /// served with the fallback settings.
    fn default() -> (r: GroupsConfig)
        ensures
            r.spec_allowed().len() == 0,
            r.spec_group_settings().len() == 0,
            r.spec_fallback().ban_after_secs == 300,
            is_default_messages(r.spec_fallback().messages),
    {
        GroupsConfig {
            allowed_group_ids: Vec::new(),
            fallback_group_settings: GroupSettings::default(),
            group_settings: Vec::new(),
        }
    }
}

} // verus!
