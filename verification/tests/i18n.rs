use passwordgenerator::i18n::{
    localized_strings, strings_de, strings_en, strings_es, strings_for_code, strings_fr,
    strings_it, strings_ja, strings_sv, I18nStrings, Language,
};

fn all_tables() -> Vec<I18nStrings> {
    vec![
        strings_en(),
        strings_de(),
        strings_ja(),
        strings_sv(),
        strings_es(),
        strings_it(),
        strings_fr(),
    ]
}

#[test]
fn english_texts() {
    let s = strings_en();
    assert_eq!(s.app_title, "Password Generator");
    assert_eq!(s.groups_tooltip, "Number of groups (5 chars each)");
    assert_eq!(s.generate_button, "New");
    assert_eq!(s.copy_button, "Copy");
    assert_eq!(s.auto_close_label, "Auto-Close");
    assert_eq!(s.copy_immediately_label, "Copy immediately");
    assert_eq!(s.timer_template, "Closes in {seconds}s");
    assert_eq!(s.copy_success_label, "Copied");
    assert_eq!(s.charset_section_label, "Character sets");
    assert_eq!(s.lowercase_label, "Lowercase");
    assert_eq!(s.uppercase_label, "Uppercase");
    assert_eq!(s.digits_label, "Digits");
    assert_eq!(s.special_label, "Special");
    assert_eq!(s.clipboard_log_template, "Copied to clipboard: {password}");
}

#[test]
fn titles_in_every_language() {
    assert_eq!(strings_de().app_title, "Passwortgenerator");
    assert_eq!(strings_ja().app_title, "パスワードジェネレーター");
    assert_eq!(strings_sv().app_title, "Lösenordsgenerator");
    assert_eq!(strings_es().app_title, "Generador de contraseñas");
    assert_eq!(strings_it().app_title, "Generatore di password");
    assert_eq!(strings_fr().app_title, "Générateur de mots de passe");
}

#[test]
fn every_template_has_its_placeholder_once() {
    for table in all_tables() {
        assert_eq!(table.timer_template.matches("{seconds}").count(), 1);
        assert_eq!(table.clipboard_log_template.matches("{password}").count(), 1);
    }
}

#[test]
fn timer_labels() {
    assert_eq!(strings_en().timer_label(10), "Closes in 10s");
    assert_eq!(strings_en().timer_label(0), "Closes in 0s");
    assert_eq!(strings_de().timer_label(9), "Schließt in 9s");
    assert_eq!(strings_ja().timer_label(8), "あと 8 秒で閉じます");
    assert_eq!(strings_sv().timer_label(7), "Stänger om 7s");
    assert_eq!(strings_es().timer_label(6), "Se cierra en 6s");
    assert_eq!(strings_it().timer_label(5), "Si chiude tra 5s");
    assert_eq!(strings_fr().timer_label(4), "Fermeture dans 4s");
}

#[test]
fn clipboard_log_lines() {
    assert_eq!(
        strings_en().clipboard_log("abcde-fghij"),
        "Copied to clipboard: abcde-fghij"
    );
    assert_eq!(
        strings_de().clipboard_log("abcde"),
        "In Zwischenablage kopiert: abcde"
    );
    assert_eq!(strings_ja().clipboard_log("x"), "クリップボードにコピー: x");
    assert_eq!(strings_sv().clipboard_log("x"), "Kopierat till urklipp: x");
    assert_eq!(strings_es().clipboard_log("x"), "Copiado al portapapeles: x");
    assert_eq!(strings_it().clipboard_log("x"), "Copiato negli appunti: x");
    assert_eq!(strings_fr().clipboard_log("x"), "Copié dans le presse-papiers : x");
    assert_eq!(strings_en().clipboard_log(""), "Copied to clipboard: ");
    assert_eq!(
        strings_en().clipboard_log("{password}"),
        "Copied to clipboard: {password}"
    );
}

#[test]
fn language_of_a_name() {
    assert_eq!(Language::from_name("de"), Some(Language::German));
    assert_eq!(Language::from_name("ja"), Some(Language::Japanese));
    assert_eq!(Language::from_name("sv"), Some(Language::Swedish));
    assert_eq!(Language::from_name("es"), Some(Language::Spanish));
    assert_eq!(Language::from_name("it"), Some(Language::Italian));
    assert_eq!(Language::from_name("fr"), Some(Language::French));
    assert_eq!(Language::from_name("en"), Some(Language::English));
}

#[test]
fn language_of_a_name_with_region() {
    assert_eq!(Language::from_name("de-AT"), Some(Language::German));
    assert_eq!(Language::from_name("de_DE.UTF-8"), Some(Language::German));
    assert_eq!(Language::from_name("en_US"), Some(Language::English));
    assert_eq!(Language::from_name("fr-"), Some(Language::French));
    assert_eq!(Language::from_name("it_"), Some(Language::Italian));
    assert_eq!(Language::from_name("sv-SE_x"), Some(Language::Swedish));
}

#[test]
fn unsupported_names() {
    assert_eq!(Language::from_name(""), None);
    assert_eq!(Language::from_name("C"), None);
    assert_eq!(Language::from_name("POSIX"), None);
    assert_eq!(Language::from_name("pt_BR"), None);
    assert_eq!(Language::from_name("DE"), None);
    assert_eq!(Language::from_name("deu"), None);
    assert_eq!(Language::from_name("d-e"), None);
    assert_eq!(Language::from_name("-de"), None);
    assert_eq!(Language::from_name("_en"), None);
    assert_eq!(Language::from_name("en.UTF-8"), None);
    assert_eq!(Language::from_name("de@euro"), None);
}

#[test]
fn strings_for_a_code() {
    assert_eq!(strings_for_code("ja_JP").map(|s| s.generate_button), Some("新規"));
    assert_eq!(strings_for_code("es").map(|s| s.copy_button), Some("Copiar"));
    assert_eq!(strings_for_code("en-GB").map(|s| s.copy_button), Some("Copy"));
    assert!(strings_for_code("nl").is_none());
    assert!(strings_for_code("").is_none());
}

#[test]
fn language_tables_match_their_functions() {
    assert_eq!(Language::German.strings().app_title, strings_de().app_title);
    assert_eq!(Language::English.strings().timer_template, strings_en().timer_template);
    assert_eq!(Language::French.strings().special_label, "Caractères spéciaux");
}

#[test]
fn first_supported_language_wins() {
    let names = vec!["pt_BR".to_string(), "sv_SE".to_string(), "de".to_string()];
    assert_eq!(localized_strings(&names).app_title, "Lösenordsgenerator");
    let names = vec!["fr_FR.UTF-8".to_string(), "fr_FR".to_string(), "fr".to_string()];
    assert_eq!(localized_strings(&names).copy_button, "Copier");
}

#[test]
fn english_is_the_fallback() {
    assert_eq!(localized_strings(&Vec::new()).app_title, "Password Generator");
    let names = vec!["C".to_string(), "POSIX".to_string(), "nl_NL".to_string()];
    assert_eq!(localized_strings(&names).app_title, "Password Generator");
}

#[test]
fn timer_label_of_a_negative_count() {
    assert_eq!(strings_en().timer_label(-1), "Closes in -1s");
    assert_eq!(strings_de().timer_label(-12), "Schließt in -12s");
    assert_eq!(strings_en().timer_label(i32::MIN), "Closes in -2147483648s");
    assert_eq!(strings_en().timer_label(i32::MAX), "Closes in 2147483647s");
}

#[test]
fn timer_label_follows_the_template() {
    let mut strings = strings_en();
    strings.timer_template = "no placeholder";
    assert_eq!(strings.timer_label(3), "no placeholder");
    strings.timer_template = "{seconds} and {seconds}";
    assert_eq!(strings.timer_label(-4), "-4 and -4");
    strings.timer_template = "";
    assert_eq!(strings.timer_label(0), "");
    strings.timer_template = "{seconds}";
    assert_eq!(strings.timer_label(0), "0");
}
