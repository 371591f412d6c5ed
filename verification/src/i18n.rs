//! The interface texts in Chinese and English.
use vstd::prelude::*;
use crate::pairs::{find_pair, insert_pair, keys_distinct, pairs_map};
use crate::text::str_eq;

verus! {

/// The Chinese texts, by key.
pub open spec fn zh_map() -> Map<Seq<char>, Seq<char>> {
    Map::<Seq<char>, Seq<char>>::empty()
        .insert("app_name"@, "woGAer"@)
        .insert("app_sub"@, "GitHub Actions · 液态构建工坊"@)
        .insert("btn_pick"@, "选择项目"@)
        .insert("btn_settings"@, "设置"@)
        .insert("btn_history"@, "历史"@)
        .insert("drop_strong"@, "拖拽项目文件夹至此"@)
        .insert("drop_hint"@, "或点击上方「选择项目」浏览"@)
        .insert("desc"@, "高性能 GitHub Actions 自动化打包工具"@)
        .insert("version_prefix"@, "版本号："@)
        .insert("folder_picker_title"@, "选择项目文件夹"@)
        .insert("no_folder_selected"@, "未选择任何文件夹"@)
        .insert("path_not_exist"@, "路径不存在或不是文件夹"@)
        .insert("token_invalid"@, "Token 无效或权限不足"@)
        .insert("not_logged_in"@, "未登录 GitHub"@)
        .insert("build_triggered"@, "构建已触发"@)
        .insert("build_failed"@, "构建失败"@)
        .insert("artifact_not_found"@, "找不到产物"@)
        .insert("download_started"@, "开始下载"@)
        .insert("download_complete"@, "下载完成"@)
        .insert("status_queued"@, "排队中"@)
        .insert("status_in_progress"@, "进行中"@)
        .insert("status_completed"@, "已完成"@)
        .insert("status_failed"@, "失败"@)
        .insert("status_cancelled"@, "已取消"@)
        .insert("status_unknown"@, "未知状态"@)
}

/// The English texts, by key.
pub open spec fn en_map() -> Map<Seq<char>, Seq<char>> {
    Map::<Seq<char>, Seq<char>>::empty()
        .insert("app_name"@, "woGAer"@)
        .insert("app_sub"@, "GitHub Actions · Liquid Build Studio"@)
        .insert("btn_pick"@, "Select Project"@)
        .insert("btn_settings"@, "Settings"@)
        .insert("btn_history"@, "History"@)
        .insert("drop_strong"@, "Drag your project folder here"@)
        .insert("drop_hint"@, "or click 'Select Project' above"@)
        .insert("desc"@, "High-performance GitHub Actions automation packaging tool"@)
        .insert("version_prefix"@, "version: "@)
        .insert("folder_picker_title"@, "Select Project Folder"@)
        .insert("no_folder_selected"@, "No folder selected"@)
        .insert("path_not_exist"@, "Path does not exist or is not a folder"@)
        .insert("token_invalid"@, "Token invalid or insufficient permissions"@)
        .insert("not_logged_in"@, "Not logged in to GitHub"@)
        .insert("build_triggered"@, "Build triggered"@)
        .insert("build_failed"@, "Build failed"@)
        .insert("artifact_not_found"@, "Artifact not found"@)
        .insert("download_started"@, "Download started"@)
        .insert("download_complete"@, "Download complete"@)
        .insert("status_queued"@, "Queued"@)
        .insert("status_in_progress"@, "In progress"@)
        .insert("status_completed"@, "Completed"@)
        .insert("status_failed"@, "Failed"@)
        .insert("status_cancelled"@, "Cancelled"@)
        .insert("status_unknown"@, "Unknown"@)
}

/// Builds the Chinese texts.
pub fn zh_strings() -> (r: Vec<(String, String)>)
    ensures
        keys_distinct(r@),
        pairs_map(r@) == zh_map(),
{
    let mut m: Vec<(String, String)> = Vec::new();
    assert(pairs_map(m@) =~= Map::<Seq<char>, Seq<char>>::empty());
    insert_pair(&mut m, "app_name".to_string(), "woGAer".to_string());
    insert_pair(&mut m, "app_sub".to_string(), "GitHub Actions · 液态构建工坊".to_string());
    insert_pair(&mut m, "btn_pick".to_string(), "选择项目".to_string());
    insert_pair(&mut m, "btn_settings".to_string(), "设置".to_string());
    insert_pair(&mut m, "btn_history".to_string(), "历史".to_string());
    insert_pair(&mut m, "drop_strong".to_string(), "拖拽项目文件夹至此".to_string());
    insert_pair(&mut m, "drop_hint".to_string(), "或点击上方「选择项目」浏览".to_string());
    insert_pair(&mut m, "desc".to_string(), "高性能 GitHub Actions 自动化打包工具".to_string());
    insert_pair(&mut m, "version_prefix".to_string(), "版本号：".to_string());
    insert_pair(&mut m, "folder_picker_title".to_string(), "选择项目文件夹".to_string());
    insert_pair(&mut m, "no_folder_selected".to_string(), "未选择任何文件夹".to_string());
    insert_pair(&mut m, "path_not_exist".to_string(), "路径不存在或不是文件夹".to_string());
    insert_pair(&mut m, "token_invalid".to_string(), "Token 无效或权限不足".to_string());
    insert_pair(&mut m, "not_logged_in".to_string(), "未登录 GitHub".to_string());
    insert_pair(&mut m, "build_triggered".to_string(), "构建已触发".to_string());
    insert_pair(&mut m, "build_failed".to_string(), "构建失败".to_string());
    insert_pair(&mut m, "artifact_not_found".to_string(), "找不到产物".to_string());
    insert_pair(&mut m, "download_started".to_string(), "开始下载".to_string());
    insert_pair(&mut m, "download_complete".to_string(), "下载完成".to_string());
    insert_pair(&mut m, "status_queued".to_string(), "排队中".to_string());
    insert_pair(&mut m, "status_in_progress".to_string(), "进行中".to_string());
    insert_pair(&mut m, "status_completed".to_string(), "已完成".to_string());
    insert_pair(&mut m, "status_failed".to_string(), "失败".to_string());
    insert_pair(&mut m, "status_cancelled".to_string(), "已取消".to_string());
    insert_pair(&mut m, "status_unknown".to_string(), "未知状态".to_string());
    m
}

/// Builds the English texts.
pub fn en_strings() -> (r: Vec<(String, String)>)
    ensures
        keys_distinct(r@),
        pairs_map(r@) == en_map(),
{
    let mut m: Vec<(String, String)> = Vec::new();
    assert(pairs_map(m@) =~= Map::<Seq<char>, Seq<char>>::empty());
    insert_pair(&mut m, "app_name".to_string(), "woGAer".to_string());
    insert_pair(&mut m, "app_sub".to_string(), "GitHub Actions · Liquid Build Studio".to_string());
    insert_pair(&mut m, "btn_pick".to_string(), "Select Project".to_string());
    insert_pair(&mut m, "btn_settings".to_string(), "Settings".to_string());
    insert_pair(&mut m, "btn_history".to_string(), "History".to_string());
    insert_pair(&mut m, "drop_strong".to_string(), "Drag your project folder here".to_string());
    insert_pair(&mut m, "drop_hint".to_string(), "or click 'Select Project' above".to_string());
    insert_pair(&mut m, "desc".to_string(), "High-performance GitHub Actions automation packaging tool".to_string());
    insert_pair(&mut m, "version_prefix".to_string(), "version: ".to_string());
    insert_pair(&mut m, "folder_picker_title".to_string(), "Select Project Folder".to_string());
    insert_pair(&mut m, "no_folder_selected".to_string(), "No folder selected".to_string());
    insert_pair(&mut m, "path_not_exist".to_string(), "Path does not exist or is not a folder".to_string());
    insert_pair(&mut m, "token_invalid".to_string(), "Token invalid or insufficient permissions".to_string());
    insert_pair(&mut m, "not_logged_in".to_string(), "Not logged in to GitHub".to_string());
    insert_pair(&mut m, "build_triggered".to_string(), "Build triggered".to_string());
    insert_pair(&mut m, "build_failed".to_string(), "Build failed".to_string());
    insert_pair(&mut m, "artifact_not_found".to_string(), "Artifact not found".to_string());
    insert_pair(&mut m, "download_started".to_string(), "Download started".to_string());
    insert_pair(&mut m, "download_complete".to_string(), "Download complete".to_string());
    insert_pair(&mut m, "status_queued".to_string(), "Queued".to_string());
    insert_pair(&mut m, "status_in_progress".to_string(), "In progress".to_string());
    insert_pair(&mut m, "status_completed".to_string(), "Completed".to_string());
    insert_pair(&mut m, "status_failed".to_string(), "Failed".to_string());
    insert_pair(&mut m, "status_cancelled".to_string(), "Cancelled".to_string());
    insert_pair(&mut m, "status_unknown".to_string(), "Unknown".to_string());
    m
}

/// The texts of a language: English for `en`, Chinese for any other name.
pub open spec fn table_for(lang: Seq<char>) -> Map<Seq<char>, Seq<char>> {
    if lang == "en"@ {
        en_map()
    } else {
        zh_map()
    }
}

/// The text shown for `key`: its text in the table, or the key itself when
/// there is none.
pub open spec fn shown_text(table: Map<Seq<char>, Seq<char>>, key: Seq<char>) -> Seq<char> {
    if table.dom().contains(key) {
        table[key]
    } else {
        key
    }
}

/// The interface language and its texts; no key occurs twice in `strings`.
#[derive(Debug, Clone)]
pub struct I18n {
    pub lang: String,
    pub strings: Vec<(String, String)>,
}

fn strings_for(lang: &str) -> (r: Vec<(String, String)>)
    ensures
        keys_distinct(r@),
        pairs_map(r@) == table_for(lang@),
{
    if str_eq(lang, "en") {
        en_strings()
    } else {
        zh_strings()
    }
}

impl I18n {
    /// The texts of language `lang`.
    pub fn new(lang: &str) -> (r: I18n)
        ensures
            r.lang@ == lang@,
            keys_distinct(r.strings@),
            pairs_map(r.strings@) == table_for(lang@),
    {
        I18n { lang: lang.to_string(), strings: strings_for(lang) }
    }

    /// The text for `key`, or `key` itself when it has none.
    pub fn get(&self, key: &str) -> (r: String)
        ensures
            r@ == shown_text(pairs_map(self.strings@), key@),
    {
        match find_pair(&self.strings, key) {
            Some(v) => v.clone(),
            None => key.to_string(),
        }
    }

    /// Switches to language `lang`.
    pub fn set_lang(&mut self, lang: &str)
        ensures
            final(self).lang@ == lang@,
            keys_distinct(final(self).strings@),
            pairs_map(final(self).strings@) == table_for(lang@),
    {
        self.lang = lang.to_string();
        self.strings = strings_for(lang);
    }
}

/// Both languages have texts for the same keys.
pub proof fn languages_share_keys()
    ensures
        zh_map().dom() == en_map().dom(),
{
    assert(zh_map().dom() =~= en_map().dom());
}

/// Whichever language is chosen, every key of the texts has a text:
/// `get` never falls back to the bare key for them.
pub proof fn every_key_has_a_text(lang: Seq<char>, key: Seq<char>)
    requires
        zh_map().dom().contains(key),
    ensures
        table_for(lang).dom().contains(key),
{
    languages_share_keys();
}

/// Switching the language leaves the texts a newly made `I18n` of that
/// language has: what `get` answers after `set_lang(l)` is what it answers
/// on `I18n::new(l)`.
pub proof fn switching_equals_starting(after: I18n, fresh: I18n, lang: Seq<char>, key: Seq<char>)
    requires
        after.lang@ == lang,
        pairs_map(after.strings@) == table_for(lang),
        fresh.lang@ == lang,
        pairs_map(fresh.strings@) == table_for(lang),
    ensures
        shown_text(pairs_map(after.strings@), key) == shown_text(pairs_map(fresh.strings@), key),
        after.lang@ == fresh.lang@,
{
}

} // verus!
