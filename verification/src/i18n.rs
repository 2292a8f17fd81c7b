//! Localized text lookup: the built-in translations, lookup by language
//! code, and detection of a member's language from the code the chat
//! platform reports (an IETF-style tag whose part before the first `-` is
//! the language).

use vstd::prelude::*;

use crate::text::chars_of;
use crate::text::chars_to_string;
use crate::user::UserInfo;

verus! {

/// The full localized message set for one language.
#[derive(Debug, Clone)]
pub struct Translation {
    pub new_user_template: String,
    pub unauthorized_group: String,
    pub successfully_verified: String,
    pub user_doesnt_match_error: String,
    pub verify_button: String,
    pub help_private: String,
    pub help_group_check_ok: String,
    pub help_group_check_fail: String,
    pub help_use_in_group: String,
    pub alert_success: String,
    pub alert_already_used: String,
    pub alert_error: String,
}

/// The built-in English texts, which are also the fallback texts.
pub open spec fn is_english_texts(t: Translation) -> bool {
    &&& t.new_user_template@
        == "👋 gm {TAGUSER}! Welcome to {CHATNAME}.\nTo access the group, please verify your account with World ID."@
    &&& t.user_doesnt_match_error@ == "❌ This message isn't for you"@
    &&& t.successfully_verified@ == "✅ Verified with World ID. Welcome to the group!"@
    &&& t.unauthorized_group@ == "❌ You can't use this bot on this group. Bye!"@
    &&& t.verify_button@ == "Verify with World ID"@
    &&& t.help_private@
        == "Welcome to the World ID Telegram bot!\nYou can use me to protect your group from spammers and bots. To get started, add me to your (public) group and give me admin permissions. When someone joins your group, they'll be asked to prove they're human with World ID before they can send messages."@
    &&& t.help_group_check_ok@
        == "Bot has admin permissions and is ready to go! Once someone joins the group, they'll be asked to prove they're human with World ID before they can send messages."@
    &&& t.help_group_check_fail@
        == "Bot doesn't have admin permissions! Please, give it admin permissions and try again."@
    &&& t.help_use_in_group@
        == "You can only use this bot in public groups. Please add me to a public group (with admin permissions) and try again."@
    &&& t.alert_success@
        == "Successfully verified! You can now close this and go back to the group."@
    &&& t.alert_already_used@
        == "This World ID has already been used to join this group. You can't do it again!"@
    &&& t.alert_error@ == "Something went wrong, please try again later."@
}

impl Default for Translation {
    /// The English texts.
    fn default() -> (r: Translation)
        ensures
            is_english_texts(r),
    {
        Translation {
            new_user_template:
                "👋 gm {TAGUSER}! Welcome to {CHATNAME}.\nTo access the group, please verify your account with World ID.".to_owned(),
            user_doesnt_match_error: "❌ This message isn't for you".to_owned(),
            successfully_verified: "✅ Verified with World ID. Welcome to the group!".to_owned(),
            unauthorized_group: "❌ You can't use this bot on this group. Bye!".to_owned(),
            verify_button: "Verify with World ID".to_owned(),
            help_private:
                "Welcome to the World ID Telegram bot!\nYou can use me to protect your group from spammers and bots. To get started, add me to your (public) group and give me admin permissions. When someone joins your group, they'll be asked to prove they're human with World ID before they can send messages.".to_owned(),
            help_group_check_ok:
                "Bot has admin permissions and is ready to go! Once someone joins the group, they'll be asked to prove they're human with World ID before they can send messages.".to_owned(),
            help_group_check_fail:
                "Bot doesn't have admin permissions! Please, give it admin permissions and try again.".to_owned(),
            help_use_in_group:
                "You can only use this bot in public groups. Please add me to a public group (with admin permissions) and try again.".to_owned(),
            alert_success:
                "Successfully verified! You can now close this and go back to the group.".to_owned(),
            alert_already_used:
                "This World ID has already been used to join this group. You can't do it again!".to_owned(),
            alert_error: "Something went wrong, please try again later.".to_owned(),
        }
    }
}

/// The built-in Spanish texts.
pub open spec fn is_spanish_texts(t: Translation) -> bool {
    &&& t.new_user_template@
        == "👋 ¡Hola {TAGUSER}! Bienvenido a {CHATNAME}.\nPara acceder al grupo, por favor verifica tu cuenta con World ID."@
    &&& t.user_doesnt_match_error@ == "❌ Este mensaje no es para ti"@
    &&& t.successfully_verified@ == "✅ Verificado con World ID. ¡Bienvenido al grupo!"@
    &&& t.unauthorized_group@ == "❌ No puedes usar este bot en este grupo. ¡Adiós!"@
    &&& t.verify_button@ == "Verificar con World ID"@
    &&& t.help_private@
        == "¡Bienvenido al bot de Telegram de World ID!\nPuedes usarme para proteger tu grupo de spammers y bots. Para comenzar, añádeme a tu grupo (público) y dame permisos de administrador. Cuando alguien se una a tu grupo, se le pedirá que demuestre que es humano con World ID antes de poder enviar mensajes."@
    &&& t.help_group_check_ok@
        == "¡El bot tiene permisos de administrador y está listo! Una vez que alguien se una al grupo, se le pedirá que demuestre que es humano con World ID antes de poder enviar mensajes."@
    &&& t.help_group_check_fail@
        == "¡El bot no tiene permisos de administrador! Por favor, dale permisos de administrador e intenta nuevamente."@
    &&& t.help_use_in_group@
        == "Solo puedes usar este bot en grupos públicos. Por favor añádeme a un grupo público (con permisos de administrador) e intenta nuevamente."@
    &&& t.alert_success@ == "¡Verificación exitosa! Ahora puedes cerrar esto y volver al grupo."@
    &&& t.alert_already_used@
        == "Este World ID ya ha sido usado para unirse a este grupo. ¡No puedes hacerlo de nuevo!"@
    &&& t.alert_error@ == "Algo salió mal, por favor intenta nuevamente más tarde."@
}

/// The built-in Portuguese texts.
pub open spec fn is_portuguese_texts(t: Translation) -> bool {
    &&& t.new_user_template@
        == "👋 Olá {TAGUSER}! Bem-vindo ao {CHATNAME}.\nPara acessar o grupo, por favor verifique sua conta com World ID."@
    &&& t.user_doesnt_match_error@ == "❌ Esta mensagem não é para você"@
    &&& t.successfully_verified@ == "✅ Verificado com World ID. Bem-vindo ao grupo!"@
    &&& t.unauthorized_group@ == "❌ Você não pode usar este bot neste grupo. Tchau!"@
    &&& t.verify_button@ == "Verificar com World ID"@
    &&& t.help_private@
        == "Bem-vindo ao bot do Telegram World ID!\nVocê pode me usar para proteger seu grupo de spammers e bots. Para começar, adicione-me ao seu grupo (público) e me dê permissões de administrador. Quando alguém entrar no seu grupo, será solicitado que prove que é humano com World ID antes de poder enviar mensagens."@
    &&& t.help_group_check_ok@
        == "O bot tem permissões de administrador e está pronto! Uma vez que alguém entre no grupo, será solicitado que prove que é humano com World ID antes de poder enviar mensagens."@
    &&& t.help_group_check_fail@
        == "O bot não tem permissões de administrador! Por favor, dê permissões de administrador e tente novamente."@
    &&& t.help_use_in_group@
        == "Você só pode usar este bot em grupos públicos. Por favor, adicione-me a um grupo público (com permissões de administrador) e tente novamente."@
    &&& t.alert_success@ == "Verificação bem-sucedida! Agora você pode fechar isso e voltar ao grupo."@
    &&& t.alert_already_used@
        == "Este World ID já foi usado para entrar neste grupo. Você não pode fazer isso novamente!"@
    &&& t.alert_error@ == "Algo deu errado, por favor tente novamente mais tarde."@
}

/// The first stored translation whose language tag reads `k`, if any.
pub open spec fn assoc_first(s: Seq<(String, Translation)>, k: Seq<char>) -> Option<Translation>
    decreases s.len(),
{
    if s.len() == 0 {
        None
    } else if s[0].0@ == k {
        Some(s[0].1)
    } else {
        assoc_first(s.drop_first(), k)
    }
}

/// Where the first `-` stands in `s` (the length of `s` if none does).
pub open spec fn first_dash(s: Seq<char>) -> int
    decreases s.len(),
{
    if s.len() == 0 {
        0
    } else if s[0] == '-' {
        0
    } else {
        1 + first_dash(s.drop_first())
    }
}

/// The language part of an IETF-style tag: everything before the first `-`.
pub open spec fn dash_prefix(s: Seq<char>) -> Seq<char> {
    s.take(first_dash(s))
}

proof fn lemma_first_dash_at(s: Seq<char>, i: int)
    requires
        0 <= i <= s.len(),
        forall|j: int| 0 <= j < i ==> s[j] != '-',
        i < s.len() ==> s[i] == '-',
    ensures
        first_dash(s) == i,
    decreases i,
{
    if s.len() == 0 {
    } else if i == 0 {
    } else {
        lemma_first_dash_at(s.drop_first(), i - 1);
    }
}

/// The translation store: the built-in message sets, and the language that
/// serves as the fallback.
#[derive(Debug, Clone)]
pub struct I18n {
    translations: Vec<(String, Translation)>,
    default_lang: String,
}

impl I18n {
    /// The stored (language tag, translation) pairs, in order.
    pub closed spec fn spec_entries(&self) -> Seq<(String, Translation)> {
        self.translations@
    }

    /// The stored language tags, in order.
    pub open spec fn spec_langs(&self) -> Seq<Seq<char>> {
        self.spec_entries().map(|i: int, p: (String, Translation)| p.0@)
    }

    /// The fallback language tag.
    pub closed spec fn spec_default_lang(&self) -> Seq<char> {
        self.default_lang@
    }

    /// The translation stored for tag `k`, if any.
    pub open spec fn spec_lookup(&self, k: Seq<char>) -> Option<Translation> {
        assoc_first(self.spec_entries(), k)
    }

    /// A translation is stored for the fallback language.
    pub open spec fn wf(&self) -> bool {
        self.spec_lookup(self.spec_default_lang()) is Some
    }

    /// The translation served for a language tag: the stored one, or the
    /// fallback language's.
    pub open spec fn spec_translation_for(&self, lang: Seq<char>) -> Translation {
        match self.spec_lookup(lang) {
            Some(t) => t,
            None => self.spec_lookup(self.spec_default_lang())->0,
        }
    }

    /// The language detection ran against one member: the part of the
    /// member's reported code before the first `-` when a translation for
    /// it is stored, the fallback language otherwise.
    pub open spec fn spec_detected_lang(&self, user: Option<UserInfo>) -> Seq<char> {
        match user {
            Some(u) => match u.language_code {
                Some(code) => if self.spec_lookup(dash_prefix(code@)) is Some {
                    dash_prefix(code@)
                } else {
                    self.spec_default_lang()
                },
                None => self.spec_default_lang(),
            },
            None => self.spec_default_lang(),
        }
    }

    /// The position of the first entry for tag `lang`, if one is stored.
    fn find_lang(&self, lang: &str) -> (r: Option<usize>)
        ensures
            match r {
                Some(i) => i < self.spec_entries().len() && self.spec_lookup(lang@) == Some(
                    self.spec_entries()[i as int].1,
                ) && self.spec_entries()[i as int].0@ == lang@,
                None => self.spec_lookup(lang@) is None,
            },
    {
        let owned: String = lang.to_owned();
        let n: usize = self.translations.len();
        proof {
            assert(self.spec_entries().skip(0) =~= self.spec_entries());
        }
        for i in it: 0..n
            invariant
                n == self.spec_entries().len(),
                owned@ == lang@,
                assoc_first(self.spec_entries(), lang@) == assoc_first(
                    self.spec_entries().skip(i as int),
                    lang@,
                ),
        {
            let ghost rest = self.spec_entries().skip(i as int);
            proof {
                assert(rest[0] == self.spec_entries()[i as int]);
                assert(rest.drop_first() =~= self.spec_entries().skip(i + 1));
            }
            if self.translations[i].0 == owned {
                return Some(i);
            }
        }
        proof {
            assert(self.spec_entries().skip(n as int) =~= Seq::<(String, Translation)>::empty());
        }
        None
    }

    /// The built-in store: English (the fallback), Spanish and Portuguese.
    pub fn new() -> (r: I18n)
        ensures
            r.wf(),
            r.spec_langs() =~= seq!["en"@, "es"@, "pt"@],
            r.spec_default_lang() == "en"@,
            r.spec_lookup("en"@) matches Some(t) && is_english_texts(t),
            r.spec_lookup("es"@) matches Some(t) && is_spanish_texts(t),
            r.spec_lookup("pt"@) matches Some(t) && is_portuguese_texts(t),
    {
        let mut translations: Vec<(String, Translation)> = Vec::new();

        translations.push(("en".to_owned(), Translation::default()));

        translations.push(("es".to_owned(), Translation {
            new_user_template:
                "👋 ¡Hola {TAGUSER}! Bienvenido a {CHATNAME}.\nPara acceder al grupo, por favor verifica tu cuenta con World ID.".to_owned(),
            user_doesnt_match_error: "❌ Este mensaje no es para ti".to_owned(),
            successfully_verified: "✅ Verificado con World ID. ¡Bienvenido al grupo!".to_owned(),
            unauthorized_group: "❌ No puedes usar este bot en este grupo. ¡Adiós!".to_owned(),
            verify_button: "Verificar con World ID".to_owned(),
            help_private:
                "¡Bienvenido al bot de Telegram de World ID!\nPuedes usarme para proteger tu grupo de spammers y bots. Para comenzar, añádeme a tu grupo (público) y dame permisos de administrador. Cuando alguien se una a tu grupo, se le pedirá que demuestre que es humano con World ID antes de poder enviar mensajes.".to_owned(),
            help_group_check_ok:
                "¡El bot tiene permisos de administrador y está listo! Una vez que alguien se una al grupo, se le pedirá que demuestre que es humano con World ID antes de poder enviar mensajes.".to_owned(),
            help_group_check_fail:
                "¡El bot no tiene permisos de administrador! Por favor, dale permisos de administrador e intenta nuevamente.".to_owned(),
            help_use_in_group:
                "Solo puedes usar este bot en grupos públicos. Por favor añádeme a un grupo público (con permisos de administrador) e intenta nuevamente.".to_owned(),
            alert_success:
                "¡Verificación exitosa! Ahora puedes cerrar esto y volver al grupo.".to_owned(),
            alert_already_used:
                "Este World ID ya ha sido usado para unirse a este grupo. ¡No puedes hacerlo de nuevo!".to_owned(),
            alert_error: "Algo salió mal, por favor intenta nuevamente más tarde.".to_owned(),
        }));

        translations.push(("pt".to_owned(), Translation {
            new_user_template:
                "👋 Olá {TAGUSER}! Bem-vindo ao {CHATNAME}.\nPara acessar o grupo, por favor verifique sua conta com World ID.".to_owned(),
            user_doesnt_match_error: "❌ Esta mensagem não é para você".to_owned(),
            successfully_verified: "✅ Verificado com World ID. Bem-vindo ao grupo!".to_owned(),
            unauthorized_group: "❌ Você não pode usar este bot neste grupo. Tchau!".to_owned(),
            verify_button: "Verificar com World ID".to_owned(),
            help_private:
                "Bem-vindo ao bot do Telegram World ID!\nVocê pode me usar para proteger seu grupo de spammers e bots. Para começar, adicione-me ao seu grupo (público) e me dê permissões de administrador. Quando alguém entrar no seu grupo, será solicitado que prove que é humano com World ID antes de poder enviar mensagens.".to_owned(),
            help_group_check_ok:
                "O bot tem permissões de administrador e está pronto! Uma vez que alguém entre no grupo, será solicitado que prove que é humano com World ID antes de poder enviar mensagens.".to_owned(),
            help_group_check_fail:
                "O bot não tem permissões de administrador! Por favor, dê permissões de administrador e tente novamente.".to_owned(),
            help_use_in_group:
                "Você só pode usar este bot em grupos públicos. Por favor, adicione-me a um grupo público (com permissões de administrador) e tente novamente.".to_owned(),
            alert_success:
                "Verificação bem-sucedida! Agora você pode fechar isso e voltar ao grupo.".to_owned(),
            alert_already_used:
                "Este World ID já foi usado para entrar neste grupo. Você não pode fazer isso novamente!".to_owned(),
            alert_error: "Algo deu errado, por favor tente novamente mais tarde.".to_owned(),
        }));

        let r = I18n { translations, default_lang: "en".to_owned() };
        proof {
            reveal_strlit("en");
            reveal_strlit("es");
            reveal_strlit("pt");
            reveal_with_fuel(assoc_first, 4);
            let s0 = r.spec_entries();
            assert(s0.len() == 3);
            assert(s0.drop_first()[0] == s0[1]);
            assert(s0.drop_first().len() == 2);
            assert(s0.drop_first().drop_first()[0] == s0[2]);
            assert(s0.drop_first().drop_first().len() == 1);
            assert(s0[0].0@ == "en"@);
            assert(s0[1].0@ == "es"@);
            assert(s0[2].0@ == "pt"@);
            assert(r.spec_lookup("en"@) == Some(s0[0].1));
            assert("es"@[1] == 's' && "en"@[1] == 'n');
            assert("es"@ != "en"@);
            assert(r.spec_lookup("es"@) == Some(s0[1].1));
            assert("pt"@[0] == 'p' && "en"@[0] == 'e' && "es"@[0] == 'e');
            assert("pt"@ != "en"@ && "pt"@ != "es"@);
            assert(r.spec_lookup("pt"@) == Some(s0[2].1));
        }
        r
    }

    /// The translation for `lang`, falling back to the default language's
    /// translation when no set is stored for `lang`.
    pub fn get(&self, lang: &str) -> (r: &Translation)
        requires
            self.wf(),
        ensures
            *r == self.spec_translation_for(lang@),
    {
        match self.find_lang(lang) {
            Some(i) => &self.translations[i].1,
            None => match self.find_lang(self.default_lang.as_str()) {
                Some(i) => &self.translations[i].1,
                None => unreached(),
            },
        }
    }

    /// The language this store serves a member with: the part of the
    /// member's reported language code before the first `-` when a
    /// translation for it is stored, the default language otherwise.
    pub fn detect_language<'a>(&'a self, user: Option<&'a UserInfo>) -> (r: &'a str)
        ensures
            r@ == self.spec_detected_lang(match user {
                Some(u) => Some(*u),
                None => None::<UserInfo>,
            }),
    {
        if let Some(u) = user {
            if let Some(code) = &u.language_code {
                let cs = chars_of(code.as_str());
                let n: usize = cs.len();
                let mut d: usize = 0;
                while d < n && cs[d] != '-'
                    invariant
                        n == cs@.len(),
                        d <= n,
                        forall|j: int| 0 <= j < d ==> cs@[j] != '-',
                    decreases n - d,
                {
                    d += 1;
                }
                proof {
                    lemma_first_dash_at(cs@, d as int);
                }
                let mut prefix = cs;
                prefix.truncate(d);
                let prefix_s = chars_to_string(&prefix);
                if let Some(i) = self.find_lang(prefix_s.as_str()) {
                    return self.translations[i].0.as_str();
                }
            }
        }
        self.default_lang.as_str()
    }

    /// The stored language tags, in storage order.
    pub fn available_languages(&self) -> (r: Vec<String>)
        ensures
            r@.len() == self.spec_langs().len(),
            forall|i: int| 0 <= i < r@.len() ==> (#[trigger] r@[i])@ == self.spec_langs()[i],
    {
        let mut out: Vec<String> = Vec::new();
        let n: usize = self.translations.len();
        for i in it: 0..n
            invariant
                n == self.spec_entries().len(),
                out@.len() == i,
                forall|j: int| 0 <= j < i ==> (#[trigger] out@[j])@ == self.spec_langs()[j],
        {
            out.push(self.translations[i].0.clone());
        }
        out
    }
}

impl Default for I18n {
    /// The built-in store.
    fn default() -> (r: I18n)
        ensures
            r.wf(),
    {
        I18n::new()
    }
}

} // verus!
