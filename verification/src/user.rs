//! The member data the admission flow reads from a chat-platform user:
//! identifier, names, username and reported language code.  The process
//! around the library converts the platform's user object into this type.

use vstd::prelude::*;

use crate::text::chars_of;
use crate::text::chars_to_string;
use crate::text::dec_str;

verus! {

/// A chat-platform member, as the admission flow sees one.
#[derive(Debug, Clone)]
pub struct UserInfo {
    pub id: u64,
    pub first_name: String,
    pub last_name: Option<String>,
    pub username: Option<String>,
    pub is_bot: bool,
    pub language_code: Option<String>,
}

/// A member's full name: first name, then the last name after a space
/// when one is set.
pub open spec fn full_name_spec(u: UserInfo) -> Seq<char> {
    match u.last_name {
        Some(last) => u.first_name@ + " "@ + last@,
        None => u.first_name@,
    }
}

/// How a member is tagged in the welcome message: `@username` when a
/// username is set, otherwise a user link carrying the full name and the
/// member identifier.
pub open spec fn mention_spec(u: UserInfo) -> Seq<char> {
    match u.username {
        Some(name) => seq!['@'] + name@,
        None => "["@ + full_name_spec(u) + "](tg://user?id="@ + dec_str(u.id as nat) + ")"@,
    }
}

impl UserInfo {
    /// The member's full name.
    pub fn full_name(&self) -> (r: String)
        ensures
            r@ == full_name_spec(*self),
    {
        match &self.last_name {
            Some(last) => {
                let mut out = chars_of(self.first_name.as_str());
                out.push(' ');
                let mut rest = chars_of(last.as_str());
                out.append(&mut rest);
                proof {
                    reveal_strlit(" ");
                    assert(out@ =~= full_name_spec(*self));
                }
                chars_to_string(&out)
            },
            None => self.first_name.clone(),
        }
    }

    /// The tag the welcome message addresses the member with.
    pub fn mention_or_link(&self) -> (r: String)
        ensures
            r@ == mention_spec(*self),
    {
        let v = self.mention_chars();
        chars_to_string(&v)
    }

    /// The tag, as characters.
    pub(crate) fn mention_chars(&self) -> (r: Vec<char>)
        ensures
            r@ == mention_spec(*self),
    {
        match &self.username {
            Some(name) => {
                let mut out: Vec<char> = Vec::new();
                out.push('@');
                let mut rest = chars_of(name.as_str());
                out.append(&mut rest);
                proof {
                    assert(out@ =~= mention_spec(*self));
                }
                out
            },
            None => {
                let mut out: Vec<char> = Vec::new();
                out.push('[');
                let name = self.full_name();
                let mut name_cs = chars_of(name.as_str());
                out.append(&mut name_cs);
                let mut link = chars_of("](tg://user?id=");
                out.append(&mut link);
                let id_s = crate::text::dec_u64(self.id);
                let mut id_cs = chars_of(id_s.as_str());
                out.append(&mut id_cs);
                out.push(')');
                proof {
                    reveal_strlit("[");
                    reveal_strlit(")");
                    assert(seq!['['] =~= "["@);
                    assert(seq![')'] =~= ")"@);
                    assert(out@ =~= mention_spec(*self));
                }
                out
            },
        }
    }
}

} // verus!
