//! The bot commands members can issue, and the decision which localized
//! reply each command earns.  Parsing the command out of a message and
//! sending the reply belong to the chat-platform edge outside the library.

use vstd::prelude::*;

use crate::i18n::Translation;

verus! {

/// A command addressed to the bot.
#[derive(Clone, Copy, PartialEq, Eq, Structural, Debug)]
pub enum Command {
    /// Explain how the bot works, and how to use it.
    Help,
    /// Check that the bot is online and has the right permissions.
    Check,
    /// Initial help when talking to the bot for the first time.
    Start,
}

/// The reply a command earns, if any: `Check` in a private chat points the
/// member at groups; in a group it reports whether the bot has admin
/// permissions; `Help` and `Start` explain the bot in a private chat and
/// earn no reply in a group.
pub open spec fn spec_command_reply(
    cmd: Command,
    is_private_chat: bool,
    bot_is_admin: bool,
    t: Translation,
) -> Option<Seq<char>> {
    match cmd {
        Command::Check => if is_private_chat {
            Some(t.help_use_in_group@)
        } else if bot_is_admin {
            Some(t.help_group_check_ok@)
        } else {
            Some(t.help_group_check_fail@)
        },
        Command::Help | Command::Start => if is_private_chat {
            Some(t.help_private@)
        } else {
            None
        },
    }
}

/// Picks the localized reply a command earns.
pub fn command_reply(
    cmd: &Command,
    is_private_chat: bool,
    bot_is_admin: bool,
    t: &Translation,
) -> (r: Option<String>)
    ensures
        match r {
            Some(s) => spec_command_reply(*cmd, is_private_chat, bot_is_admin, *t) == Some(s@),
            None => spec_command_reply(*cmd, is_private_chat, bot_is_admin, *t) is None,
        },
{
    match cmd {
        Command::Check => {
            if is_private_chat {
                Some(t.help_use_in_group.clone())
            } else if bot_is_admin {
                Some(t.help_group_check_ok.clone())
            } else {
                Some(t.help_group_check_fail.clone())
            }
        },
        Command::Help | Command::Start => {
            if is_private_chat {
                Some(t.help_private.clone())
            } else {
                None
            }
        },
    }
}

} // verus!
