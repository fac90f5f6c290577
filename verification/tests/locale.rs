use netmount::locale::{Language, Locale};
use netmount::localized::{get_localized_text, set_localized, LanguagePack};
use serde_json::{Number, Value};

#[test]
fn locale_names_select_their_language() {
    assert_eq!(Locale::new("en"), Locale(Language::English));
    assert_eq!(Locale::new("cn"), Locale(Language::SimplifiedChinese));
    assert_eq!(Locale::new("ct"), Locale(Language::TraditionalChinese));
}

#[test]
fn unknown_locale_names_fall_back_to_simplified_chinese() {
    assert_eq!(Locale::new(""), Locale(Language::SimplifiedChinese));
    assert_eq!(Locale::new("EN"), Locale(Language::SimplifiedChinese));
    assert_eq!(Locale::new("en-US"), Locale(Language::SimplifiedChinese));
    assert_eq!(Locale::new("C"), Locale(Language::SimplifiedChinese));
}

#[test]
fn the_name_of_a_locale_selects_it_again() {
    for language in [Language::English, Language::SimplifiedChinese, Language::TraditionalChinese] {
        assert_eq!(Locale::new(Locale(language).name()), Locale(language));
    }
    assert_eq!(Locale(Language::English).name(), "en");
    assert_eq!(Locale(Language::SimplifiedChinese).name(), "cn");
    assert_eq!(Locale(Language::TraditionalChinese).name(), "ct");
}

fn pack_value() -> Value {
    let mut object = serde_json::Map::new();
    object.insert("quit".to_string(), Value::String("Quit".to_string()));
    object.insert("tray_show".to_string(), Value::String("Show window".to_string()));
    object.insert("count".to_string(), Value::Number(Number::from(3)));
    object.insert("empty".to_string(), Value::String(String::new()));
    object.insert("nothing".to_string(), Value::Null);
    Value::Object(object)
}

#[test]
fn in_an_empty_pack_every_key_stands_for_itself() {
    let pack = LanguagePack::new();
    assert_eq!(get_localized_text(&pack, "quit"), "quit");
    assert_eq!(get_localized_text(&pack, ""), "");
}

#[test]
fn a_key_stands_for_the_string_under_it() {
    let mut pack = LanguagePack::new();
    assert_eq!(set_localized(&mut pack, &pack_value()), Ok(()));
    assert_eq!(get_localized_text(&pack, "quit"), "Quit");
    assert_eq!(get_localized_text(&pack, "tray_show"), "Show window");
    assert_eq!(get_localized_text(&pack, "empty"), "");
}

#[test]
fn a_key_without_a_string_stands_for_itself() {
    let mut pack = LanguagePack::new();
    assert_eq!(set_localized(&mut pack, &pack_value()), Ok(()));
    assert_eq!(get_localized_text(&pack, "count"), "count");
    assert_eq!(get_localized_text(&pack, "nothing"), "nothing");
    assert_eq!(get_localized_text(&pack, "missing"), "missing");
    assert_eq!(get_localized_text(&pack, "Quit"), "Quit");
}

#[test]
fn a_value_that_is_no_object_is_refused_and_the_pack_stays() {
    let mut pack = LanguagePack::new();
    assert_eq!(set_localized(&mut pack, &pack_value()), Ok(()));
    let refusal = Err("Provided localized data is not a JSON object.".to_string());
    assert_eq!(set_localized(&mut pack, &Value::Null), refusal);
    assert_eq!(set_localized(&mut pack, &Value::String("quit".to_string())), refusal);
    assert_eq!(set_localized(&mut pack, &Value::Array(vec![pack_value()])), refusal);
    assert_eq!(get_localized_text(&pack, "quit"), "Quit");
}

#[test]
fn a_new_pack_replaces_the_old_one() {
    let mut pack = LanguagePack::new();
    assert_eq!(set_localized(&mut pack, &pack_value()), Ok(()));
    let mut object = serde_json::Map::new();
    object.insert("quit".to_string(), Value::String("退出".to_string()));
    assert_eq!(set_localized(&mut pack, &Value::Object(object)), Ok(()));
    assert_eq!(get_localized_text(&pack, "quit"), "退出");
    assert_eq!(get_localized_text(&pack, "tray_show"), "tray_show");
    assert_eq!(set_localized(&mut pack, &Value::Object(serde_json::Map::new())), Ok(()));
    assert_eq!(get_localized_text(&pack, "quit"), "quit");
}
