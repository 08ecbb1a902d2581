//! The texts of the user interface in the supported languages.

use crate::text::{chars_of, fill_template, push_signed_decimal, replaced, signed_decimal};
use vstd::prelude::*;

verus! {

/// The languages the interface is available in.
#[derive(Clone, Copy, Debug, PartialEq, Eq, Structural)]
pub enum Language {
    English,
    German,
    Japanese,
    Swedish,
    Spanish,
    Italian,
    French,
}

/// The texts of the interface in one language. The timer template holds
/// the placeholder `{seconds}`, the clipboard log template `{password}`.
#[derive(Clone, Copy, Debug)]
pub struct I18nStrings {
    pub app_title: &'static str,
    pub groups_tooltip: &'static str,
    pub generate_button: &'static str,
    pub copy_button: &'static str,
    pub auto_close_label: &'static str,
    pub copy_immediately_label: &'static str,
    pub timer_template: &'static str,
    pub copy_success_label: &'static str,
    pub charset_section_label: &'static str,
    pub lowercase_label: &'static str,
    pub uppercase_label: &'static str,
    pub digits_label: &'static str,
    pub special_label: &'static str,
    pub clipboard_log_template: &'static str,
}

/// Whether the character separates the parts of a language name.
pub open spec fn is_separator(c: char) -> bool {
    c == '-' || c == '_'
}

/// The part of a language name before its first separator: the whole name
/// when it has none.
pub open spec fn primary_subtag(name: Seq<char>) -> Seq<char>
    decreases name.len(),
{
    if name.len() == 0 || is_separator(name[0]) {
        Seq::empty()
    } else {
        seq![name[0]] + primary_subtag(name.skip(1))
    }
}

/// The language a two-letter code stands for.
pub open spec fn language_of_code(code: Seq<char>) -> Option<Language> {
    if code == seq!['d', 'e'] {
        Some(Language::German)
    } else if code == seq!['j', 'a'] {
        Some(Language::Japanese)
    } else if code == seq!['s', 'v'] {
        Some(Language::Swedish)
    } else if code == seq!['e', 's'] {
        Some(Language::Spanish)
    } else if code == seq!['i', 't'] {
        Some(Language::Italian)
    } else if code == seq!['f', 'r'] {
        Some(Language::French)
    } else if code == seq!['e', 'n'] {
        Some(Language::English)
    } else {
        None
    }
}

/// The language a name such as `de`, `de-AT` or `de_DE.UTF-8` asks for, if
/// it is a supported one.
pub open spec fn language_of(name: Seq<char>) -> Option<Language> {
    language_of_code(primary_subtag(name))
}

/// The texts of the names, one for one.
pub open spec fn texts_of(names: Seq<String>) -> Seq<Seq<char>> {
    Seq::new(names.len(), |i: int| names[i]@)
}

/// The language of the first name that asks for a supported one; English
/// when none does.
pub open spec fn preferred_language(names: Seq<Seq<char>>) -> Language
    decreases names.len(),
{
    if names.len() == 0 {
        Language::English
    } else {
        match language_of(names[0]) {
            Some(language) => language,
            None => preferred_language(names.skip(1)),
        }
    }
}

/// A prefix free of separators that ends the name or runs up to a separator
/// is the primary subtag.
proof fn lemma_primary_subtag(name: Seq<char>, n: int)
    requires
        0 <= n <= name.len(),
        forall|i: int| 0 <= i < n ==> !is_separator(name[i]),
        n == name.len() || is_separator(name[n]),
    ensures
        primary_subtag(name) == name.take(n),
    decreases n,
{
    if n == 0 {
        assert(name.take(0) =~= Seq::<char>::empty());
    } else {
        let rest = name.skip(1);
        assert forall|i: int| 0 <= i < n - 1 implies !is_separator(rest[i]) by {
            assert(rest[i] == name[i + 1]);
        }
        lemma_primary_subtag(rest, n - 1);
        assert(name.take(n) =~= seq![name[0]] + rest.take(n - 1));
    }
}

/// The texts of each language.
pub open spec fn table(language: Language) -> I18nStrings {
    match language {
        Language::English => I18nStrings {
            app_title: "Password Generator",
            groups_tooltip: "Number of groups (5 chars each)",
            generate_button: "New",
            copy_button: "Copy",
            auto_close_label: "Auto-Close",
            copy_immediately_label: "Copy immediately",
            timer_template: "Closes in {seconds}s",
            copy_success_label: "Copied",
            charset_section_label: "Character sets",
            lowercase_label: "Lowercase",
            uppercase_label: "Uppercase",
            digits_label: "Digits",
            special_label: "Special",
            clipboard_log_template: "Copied to clipboard: {password}",
        },
        Language::German => I18nStrings {
            app_title: "Passwortgenerator",
            groups_tooltip: "Anzahl Gruppen (je 5 Zeichen)",
            generate_button: "Neu",
            copy_button: "Kopieren",
            auto_close_label: "Auto-Schließen",
            copy_immediately_label: "Sofort kopieren",
            timer_template: "Schließt in {seconds}s",
            copy_success_label: "Kopiert",
            charset_section_label: "Zeichensätze",
            lowercase_label: "Kleinbuchstaben",
            uppercase_label: "Großbuchstaben",
            digits_label: "Ziffern",
            special_label: "Sonderzeichen",
            clipboard_log_template: "In Zwischenablage kopiert: {password}",
        },
        Language::Japanese => I18nStrings {
            app_title: "パスワードジェネレーター",
            groups_tooltip: "グループ数 (5 文字ごと)",
            generate_button: "新規",
            copy_button: "コピー",
            auto_close_label: "自動終了",
            copy_immediately_label: "すぐにコピー",
            timer_template: "あと {seconds} 秒で閉じます",
            copy_success_label: "コピーしました",
            charset_section_label: "文字セット",
            lowercase_label: "小文字",
            uppercase_label: "大文字",
            digits_label: "数字",
            special_label: "記号",
            clipboard_log_template: "クリップボードにコピー: {password}",
        },
        Language::Swedish => I18nStrings {
            app_title: "Lösenordsgenerator",
            groups_tooltip: "Antal grupper (5 tecken vardera)",
            generate_button: "Nytt",
            copy_button: "Kopiera",
            auto_close_label: "Stäng automatiskt",
            copy_immediately_label: "Kopiera direkt",
            timer_template: "Stänger om {seconds}s",
            copy_success_label: "Kopierat",
            charset_section_label: "Teckenuppsättningar",
            lowercase_label: "Gemener",
            uppercase_label: "Versaler",
            digits_label: "Siffror",
            special_label: "Specialtecken",
            clipboard_log_template: "Kopierat till urklipp: {password}",
        },
        Language::Spanish => I18nStrings {
            app_title: "Generador de contraseñas",
            groups_tooltip: "Número de grupos (5 caracteres cada uno)",
            generate_button: "Nuevo",
            copy_button: "Copiar",
            auto_close_label: "Cierre automático",
            copy_immediately_label: "Copiar al instante",
            timer_template: "Se cierra en {seconds}s",
            copy_success_label: "Copiado",
            charset_section_label: "Conjuntos de caracteres",
            lowercase_label: "Minúsculas",
            uppercase_label: "Mayúsculas",
            digits_label: "Dígitos",
            special_label: "Caracteres especiales",
            clipboard_log_template: "Copiado al portapapeles: {password}",
        },
        Language::Italian => I18nStrings {
            app_title: "Generatore di password",
            groups_tooltip: "Numero di gruppi (5 caratteri ciascuno)",
            generate_button: "Nuovo",
            copy_button: "Copia",
            auto_close_label: "Chiusura automatica",
            copy_immediately_label: "Copia immediata",
            timer_template: "Si chiude tra {seconds}s",
            copy_success_label: "Copiato",
            charset_section_label: "Set di caratteri",
            lowercase_label: "Minuscole",
            uppercase_label: "Maiuscole",
            digits_label: "Numeri",
            special_label: "Caratteri speciali",
            clipboard_log_template: "Copiato negli appunti: {password}",
        },
        Language::French => I18nStrings {
            app_title: "Générateur de mots de passe",
            groups_tooltip: "Nombre de groupes (5 caractères chacun)",
            generate_button: "Nouveau",
            copy_button: "Copier",
            auto_close_label: "Fermeture auto",
            copy_immediately_label: "Copier immédiatement",
            timer_template: "Fermeture dans {seconds}s",
            copy_success_label: "Copié",
            charset_section_label: "Jeux de caractères",
            lowercase_label: "Minuscules",
            uppercase_label: "Majuscules",
            digits_label: "Chiffres",
            special_label: "Caractères spéciaux",
            clipboard_log_template: "Copié dans le presse-papiers : {password}",
        },
    }
}

pub fn strings_en() -> (strings: I18nStrings)
    ensures
        strings == table(Language::English),
{
    I18nStrings {
        app_title: "Password Generator",
        groups_tooltip: "Number of groups (5 chars each)",
        generate_button: "New",
        copy_button: "Copy",
        auto_close_label: "Auto-Close",
        copy_immediately_label: "Copy immediately",
        timer_template: "Closes in {seconds}s",
        copy_success_label: "Copied",
        charset_section_label: "Character sets",
        lowercase_label: "Lowercase",
        uppercase_label: "Uppercase",
        digits_label: "Digits",
        special_label: "Special",
        clipboard_log_template: "Copied to clipboard: {password}",
    }
}

pub fn strings_de() -> (strings: I18nStrings)
    ensures
        strings == table(Language::German),
{
    I18nStrings {
        app_title: "Passwortgenerator",
        groups_tooltip: "Anzahl Gruppen (je 5 Zeichen)",
        generate_button: "Neu",
        copy_button: "Kopieren",
        auto_close_label: "Auto-Schließen",
        copy_immediately_label: "Sofort kopieren",
        timer_template: "Schließt in {seconds}s",
        copy_success_label: "Kopiert",
        charset_section_label: "Zeichensätze",
        lowercase_label: "Kleinbuchstaben",
        uppercase_label: "Großbuchstaben",
        digits_label: "Ziffern",
        special_label: "Sonderzeichen",
        clipboard_log_template: "In Zwischenablage kopiert: {password}",
    }
}

pub fn strings_ja() -> (strings: I18nStrings)
    ensures
        strings == table(Language::Japanese),
{
    I18nStrings {
        app_title: "パスワードジェネレーター",
        groups_tooltip: "グループ数 (5 文字ごと)",
        generate_button: "新規",
        copy_button: "コピー",
        auto_close_label: "自動終了",
        copy_immediately_label: "すぐにコピー",
        timer_template: "あと {seconds} 秒で閉じます",
        copy_success_label: "コピーしました",
        charset_section_label: "文字セット",
        lowercase_label: "小文字",
        uppercase_label: "大文字",
        digits_label: "数字",
        special_label: "記号",
        clipboard_log_template: "クリップボードにコピー: {password}",
    }
}

pub fn strings_sv() -> (strings: I18nStrings)
    ensures
        strings == table(Language::Swedish),
{
    I18nStrings {
        app_title: "Lösenordsgenerator",
        groups_tooltip: "Antal grupper (5 tecken vardera)",
        generate_button: "Nytt",
        copy_button: "Kopiera",
        auto_close_label: "Stäng automatiskt",
        copy_immediately_label: "Kopiera direkt",
        timer_template: "Stänger om {seconds}s",
        copy_success_label: "Kopierat",
        charset_section_label: "Teckenuppsättningar",
        lowercase_label: "Gemener",
        uppercase_label: "Versaler",
        digits_label: "Siffror",
        special_label: "Specialtecken",
        clipboard_log_template: "Kopierat till urklipp: {password}",
    }
}

pub fn strings_es() -> (strings: I18nStrings)
    ensures
        strings == table(Language::Spanish),
{
    I18nStrings {
        app_title: "Generador de contraseñas",
        groups_tooltip: "Número de grupos (5 caracteres cada uno)",
        generate_button: "Nuevo",
        copy_button: "Copiar",
        auto_close_label: "Cierre automático",
        copy_immediately_label: "Copiar al instante",
        timer_template: "Se cierra en {seconds}s",
        copy_success_label: "Copiado",
        charset_section_label: "Conjuntos de caracteres",
        lowercase_label: "Minúsculas",
        uppercase_label: "Mayúsculas",
        digits_label: "Dígitos",
        special_label: "Caracteres especiales",
        clipboard_log_template: "Copiado al portapapeles: {password}",
    }
}

pub fn strings_it() -> (strings: I18nStrings)
    ensures
        strings == table(Language::Italian),
{
    I18nStrings {
        app_title: "Generatore di password",
        groups_tooltip: "Numero di gruppi (5 caratteri ciascuno)",
        generate_button: "Nuovo",
        copy_button: "Copia",
        auto_close_label: "Chiusura automatica",
        copy_immediately_label: "Copia immediata",
        timer_template: "Si chiude tra {seconds}s",
        copy_success_label: "Copiato",
        charset_section_label: "Set di caratteri",
        lowercase_label: "Minuscole",
        uppercase_label: "Maiuscole",
        digits_label: "Numeri",
        special_label: "Caratteri speciali",
        clipboard_log_template: "Copiato negli appunti: {password}",
    }
}

pub fn strings_fr() -> (strings: I18nStrings)
    ensures
        strings == table(Language::French),
{
    I18nStrings {
        app_title: "Générateur de mots de passe",
        groups_tooltip: "Nombre de groupes (5 caractères chacun)",
        generate_button: "Nouveau",
        copy_button: "Copier",
        auto_close_label: "Fermeture auto",
        copy_immediately_label: "Copier immédiatement",
        timer_template: "Fermeture dans {seconds}s",
        copy_success_label: "Copié",
        charset_section_label: "Jeux de caractères",
        lowercase_label: "Minuscules",
        uppercase_label: "Majuscules",
        digits_label: "Chiffres",
        special_label: "Caractères spéciaux",
        clipboard_log_template: "Copié dans le presse-papiers : {password}",
    }
}

impl Language {
    /// The language a name such as `de`, `de-AT` or `de_DE.UTF-8` asks for,
    /// if it is a supported one.
    pub fn from_name(name: &str) -> (language: Option<Language>)
        ensures
            language == language_of(name@),
    {
        let chars = chars_of(name);
        let mut n: usize = 0;
        while n < chars.len() && !(chars[n] == '-' || chars[n] == '_')
            invariant
                n <= chars.len(),
                forall|i: int| 0 <= i < n ==> !is_separator(chars@[i]),
            decreases chars.len() - n,
        {
            n += 1;
        }
        proof {
            lemma_primary_subtag(chars@, n as int);
            assert(primary_subtag(name@).len() == n);
        }
        if n != 2 {
            return None;
        }
        let first = chars[0];
        let second = chars[1];
        assert(chars@.take(2) =~= seq![first, second]);
        if first == 'd' && second == 'e' {
            Some(Language::German)
        } else if first == 'j' && second == 'a' {
            Some(Language::Japanese)
        } else if first == 's' && second == 'v' {
            Some(Language::Swedish)
        } else if first == 'e' && second == 's' {
            Some(Language::Spanish)
        } else if first == 'i' && second == 't' {
            Some(Language::Italian)
        } else if first == 'f' && second == 'r' {
            Some(Language::French)
        } else if first == 'e' && second == 'n' {
            Some(Language::English)
        } else {
            None
        }
    }

    /// The texts of the language.
    pub fn strings(self) -> (strings: I18nStrings)
        ensures
            strings == table(self),
    {
        match self {
            Language::English => strings_en(),
            Language::German => strings_de(),
            Language::Japanese => strings_ja(),
            Language::Swedish => strings_sv(),
            Language::Spanish => strings_es(),
            Language::Italian => strings_it(),
            Language::French => strings_fr(),
        }
    }
}

/// The texts for a language name, if the language is a supported one.
pub fn strings_for_code(language: &str) -> (strings: Option<I18nStrings>)
    ensures
        strings == match language_of(language@) {
            Some(found) => Some(table(found)),
            None => None,
        },
{
    match Language::from_name(language) {
        Some(found) => Some(found.strings()),
        None => None,
    }
}

/// The texts for a user whose preferred languages are `names`, most
/// preferred first: those of the first supported language, English when
/// there is none.
pub fn localized_strings(names: &Vec<String>) -> (strings: I18nStrings)
    ensures
        strings == table(preferred_language(texts_of(names@))),
{
    let ghost all = texts_of(names@);
    let mut i: usize = 0;
    assert(all.skip(0) =~= all);
    while i < names.len()
        invariant
            i <= names.len(),
            all == texts_of(names@),
            preferred_language(all.skip(i as int)) == preferred_language(all),
        decreases names.len() - i,
    {
        proof {
            assert(all.skip(i as int)[0] == names@[i as int]@);
            assert(all.skip(i as int).skip(1) =~= all.skip(i + 1));
        }
        if let Some(strings) = strings_for_code(names[i].as_str()) {
            return strings;
        }
        i += 1;
    }
    strings_en()
}

impl I18nStrings {
    /// The timer text for the given number of seconds: the timer template
    /// with the number, in decimal, in place of every `{seconds}`. A
    /// negative number is written with a minus sign.
    pub fn timer_label(&self, seconds: i32) -> (label: String)
        ensures
            label@ == replaced(
                self.timer_template@,
                "{seconds}"@,
                signed_decimal(seconds as int),
            ),
    {
        let mut number = String::new();
        push_signed_decimal(&mut number, seconds);
        assert(number@ =~= signed_decimal(seconds as int));
        fill_template(self.timer_template, "{seconds}", number.as_str())
    }

    /// The log line for a copied password: the clipboard log template with
    /// the password in place of `{password}`.
    pub fn clipboard_log(&self, password: &str) -> (line: String)
        ensures
            line@ == replaced(self.clipboard_log_template@, "{password}"@, password@),
    {
        fill_template(self.clipboard_log_template, "{password}", password)
    }
}

} // verus!
