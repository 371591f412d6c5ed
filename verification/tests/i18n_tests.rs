use wogaer::i18n::{en_strings, zh_strings, I18n};

#[test]
fn english_and_chinese_texts() {
    let en = I18n::new("en");
    assert_eq!(en.lang, "en");
    assert_eq!(en.get("app_sub"), "GitHub Actions · Liquid Build Studio");
    assert_eq!(en.get("status_unknown"), "Unknown");
    let zh = I18n::new("zh");
    assert_eq!(zh.get("btn_pick"), "选择项目");
    let other = I18n::new("fr");
    assert_eq!(other.lang, "fr");
    assert_eq!(other.get("not_logged_in"), "未登录 GitHub");
}

#[test]
fn unknown_keys_come_back_unchanged() {
    let en = I18n::new("en");
    assert_eq!(en.get("no_such_key"), "no_such_key");
    assert_eq!(en.get(""), "");
}

#[test]
fn switching_language_matches_a_fresh_one() {
    let mut t = I18n::new("zh");
    t.set_lang("en");
    let fresh = I18n::new("en");
    assert_eq!(t.lang, fresh.lang);
    assert_eq!(t.strings, fresh.strings);
    assert_eq!(t.get("build_failed"), "Build failed");
}

#[test]
fn both_languages_cover_the_same_keys() {
    let zh = zh_strings();
    let en = en_strings();
    assert_eq!(zh.len(), 25);
    let zk: Vec<&String> = zh.iter().map(|p| &p.0).collect();
    let ek: Vec<&String> = en.iter().map(|p| &p.0).collect();
    assert_eq!(zk, ek);
    for (k, _) in &zh {
        assert_ne!(&I18n::new("en").get(k), k);
        assert_ne!(&I18n::new("zh").get(k), k);
    }
}
