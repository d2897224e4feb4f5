//! The interface text in English and Simplified Chinese, and the language
//! choice with its code as the configuration stores it.
use vstd::prelude::*;
use crate::text;
use crate::text::{ascii_lowercase_chars, chars_eq_str, chars_of, trim_chars};

verus! {

/// A language of the interface.
#[derive(Clone, Copy, Debug, PartialEq, Eq, Structural)]
pub enum Language {
    En,
    ZhCn,
}

/// Every piece of text the interface shows, in one language.
#[derive(Clone, Copy, Debug)]
pub struct UiText {
    pub app_title: &'static str,
    pub no_window_selected: &'static str,
    pub target_window: &'static str,
    pub accessibility_required: &'static str,
    pub accessibility_hint: &'static str,
    pub open_settings: &'static str,
    pub start_needs_permission: &'static str,
    pub start_needs_window: &'static str,
    pub pick: &'static str,
    pub key_tasks: &'static str,
    pub add_key: &'static str,
    pub press_key: &'static str,
    pub interval: &'static str,
    pub send_mode: &'static str,
    pub start: &'static str,
    pub running: &'static str,
    pub running_status: &'static str,
    pub stop: &'static str,
    pub ready: &'static str,
    pub hotkey_toggle: &'static str,
    pub milliseconds: &'static str,
}

impl UiText {
    /// The texts, field by field in declaration order.
    pub open spec fn texts(self) -> Seq<Seq<char>> {
        seq![
            self.app_title@,
            self.no_window_selected@,
            self.target_window@,
            self.accessibility_required@,
            self.accessibility_hint@,
            self.open_settings@,
            self.start_needs_permission@,
            self.start_needs_window@,
            self.pick@,
            self.key_tasks@,
            self.add_key@,
            self.press_key@,
            self.interval@,
            self.send_mode@,
            self.start@,
            self.running@,
            self.running_status@,
            self.stop@,
            self.ready@,
            self.hotkey_toggle@,
            self.milliseconds@,
        ]
    }
}

/// The English interface text, field by field.
pub open spec fn english_texts() -> Seq<Seq<char>> {
    seq![
        "Auto Keypress"@,
        "No window selected"@,
        "Target Window"@,
        "Accessibility permission required"@,
        "Allow this app in System Settings -> Privacy & Security -> Accessibility"@,
        "Open Settings"@,
        "Grant Accessibility permission before starting"@,
        "Pick a target window before starting"@,
        "Pick"@,
        "Key Tasks"@,
        "+ Add Key"@,
        "Press..."@,
        "Interval"@,
        "Send Mode"@,
        "▶ Start"@,
        "Running..."@,
        "Running"@,
        "■ Stop"@,
        "Ready"@,
        "F9: Toggle"@,
        "ms"@,
    ]
}

/// The Chinese interface text, field by field.
pub open spec fn chinese_texts() -> Seq<Seq<char>> {
    seq![
        "自动按键"@,
        "未选择窗口"@,
        "目标窗口"@,
        "需要辅助功能权限"@,
        "请在 系统设置 -> 隐私与安全性 -> 辅助功能 中允许当前应用"@,
        "打开设置"@,
        "开始前先授予辅助功能权限"@,
        "开始前先选择目标窗口"@,
        "拾取"@,
        "按键任务"@,
        "+ 添加按键"@,
        "按键中..."@,
        "间隔"@,
        "发送模式"@,
        "▶ 开始"@,
        "运行中..."@,
        "运行中"@,
        "■ 停止"@,
        "就绪"@,
        "F9：切换启停"@,
        "毫秒"@,
    ]
}

/// The interface text of a language, field by field.
pub open spec fn ui_texts(lang: Language) -> Seq<Seq<char>> {
    match lang {
        Language::En => english_texts(),
        Language::ZhCn => chinese_texts(),
    }
}

/// The label of the start button: a play sign, then "Start" in the language.
pub open spec fn start_label(lang: Language) -> Seq<char> {
    match lang {
        Language::En => "▶ Start"@,
        Language::ZhCn => "▶ 开始"@,
    }
}

/// The label of the stop button: a stop sign, then "Stop" in the language.
pub open spec fn stop_label(lang: Language) -> Seq<char> {
    match lang {
        Language::En => "■ Stop"@,
        Language::ZhCn => "■ 停止"@,
    }
}

/// In every language the start button shows the play sign and the stop button
/// the stop sign, so the two can never be confused; the interface text holds
/// those labels.
pub proof fn lemma_start_and_stop_labels(lang: Language)
    ensures
        start_label(lang).len() > 0 && start_label(lang)[0] == '▶',
        stop_label(lang).len() > 0 && stop_label(lang)[0] == '■',
        start_label(lang) != stop_label(lang),
        ui_texts(lang)[14] == start_label(lang),
        ui_texts(lang)[17] == stop_label(lang),
{
    reveal_strlit("▶ Start");
    reveal_strlit("▶ 开始");
    reveal_strlit("■ Stop");
    reveal_strlit("■ 停止");
}

/// In every language the running text is the running status followed by an
/// ellipsis, the waiting-for-a-key text ends in an ellipsis, the add button
/// starts with a plus sign, and the hot-key hint names F9.
pub proof fn lemma_label_shapes(lang: Language)
    ensures
        ui_texts(lang)[15] == ui_texts(lang)[16] + "..."@,
        ui_texts(lang)[11].len() > 3 && ui_texts(lang)[11].subrange(
            ui_texts(lang)[11].len() - 3,
            ui_texts(lang)[11].len() as int,
        ) == "..."@,
        ui_texts(lang)[10].len() > 0 && ui_texts(lang)[10][0] == '+',
        ui_texts(lang)[19].len() > 2 && ui_texts(lang)[19].subrange(0, 2) == "F9"@,
{
    reveal_strlit("...");
    reveal_strlit("F9");
    reveal_strlit("Running...");
    reveal_strlit("Running");
    reveal_strlit("运行中...");
    reveal_strlit("运行中");
    reveal_strlit("Press...");
    reveal_strlit("按键中...");
    reveal_strlit("+ Add Key");
    reveal_strlit("+ 添加按键");
    reveal_strlit("F9: Toggle");
    reveal_strlit("F9：切换启停");
    match lang {
        Language::En => {
            assert("Running..."@ =~= "Running"@ + "..."@);
            assert("Press..."@.subrange(5, 8) =~= "..."@);
            assert("F9: Toggle"@.subrange(0, 2) =~= "F9"@);
        },
        Language::ZhCn => {
            assert("运行中..."@ =~= "运行中"@ + "..."@);
            assert("按键中..."@.subrange(3, 6) =~= "..."@);
            assert("F9：切换启停"@.subrange(0, 2) =~= "F9"@);
        },
    }
}

/// The code of a language as the configuration stores it.
pub open spec fn language_code(lang: Language) -> Seq<char> {
    match lang {
        Language::En => "en"@,
        Language::ZhCn => "zh-CN"@,
    }
}

/// The language that a stored code names: after trimming white space and
/// folding ASCII case, one of the Chinese codes names Chinese; anything else
/// names English.
pub open spec fn language_of_code(code: Seq<char>) -> Language {
    let c = text::ascii_lowercase(text::trim(code));
    if c == "zh"@ || c == "zh-cn"@ || c == "zh_hans"@ || c == "zh-hans"@ || c == "cn"@ {
        Language::ZhCn
    } else {
        Language::En
    }
}

/// The other language.
pub open spec fn other_language(lang: Language) -> Language {
    match lang {
        Language::En => Language::ZhCn,
        Language::ZhCn => Language::En,
    }
}

/// The label of a language on the language switch.
pub open spec fn switcher_text(lang: Language) -> Seq<char> {
    match lang {
        Language::En => "EN"@,
        Language::ZhCn => "中文"@,
    }
}

impl Language {
    pub fn from_code(code: &str) -> (lang: Language)
        ensures
            lang == language_of_code(code@),
    {
        let chars = chars_of(code);
        let trimmed = trim_chars(&chars);
        let c = ascii_lowercase_chars(&trimmed);
        if chars_eq_str(&c, "zh") || chars_eq_str(&c, "zh-cn") || chars_eq_str(&c, "zh_hans")
            || chars_eq_str(&c, "zh-hans") || chars_eq_str(&c, "cn") {
            Language::ZhCn
        } else {
            Language::En
        }
    }

    pub fn code(self) -> (s: &'static str)
        ensures
            s@ == language_code(self),
    {
        match self {
            Language::En => "en",
            Language::ZhCn => "zh-CN",
        }
    }

    pub fn toggle(self) -> (lang: Language)
        ensures
            lang == other_language(self),
    {
        match self {
            Language::En => Language::ZhCn,
            Language::ZhCn => Language::En,
        }
    }

    /// The interface text in this language.
    pub fn labels(self) -> (t: UiText)
        ensures
            t.texts() == ui_texts(self),
            t.start@ == start_label(self),
            t.stop@ == stop_label(self),
            t.start@[0] == '▶' && t.stop@[0] == '■',
            t.running@ == t.running_status@ + "..."@,
            t.add_key@[0] == '+',
    {
        proof {
            lemma_start_and_stop_labels(self);
            lemma_label_shapes(self);
        }
        match self {
            Language::En => {
                let t = UiText {
                    app_title: "Auto Keypress",
                    no_window_selected: "No window selected",
                    target_window: "Target Window",
                    accessibility_required: "Accessibility permission required",
                    accessibility_hint: "Allow this app in System Settings -> Privacy & Security -> Accessibility",
                    open_settings: "Open Settings",
                    start_needs_permission: "Grant Accessibility permission before starting",
                    start_needs_window: "Pick a target window before starting",
                    pick: "Pick",
                    key_tasks: "Key Tasks",
                    add_key: "+ Add Key",
                    press_key: "Press...",
                    interval: "Interval",
                    send_mode: "Send Mode",
                    start: "▶ Start",
                    running: "Running...",
                    running_status: "Running",
                    stop: "■ Stop",
                    ready: "Ready",
                    hotkey_toggle: "F9: Toggle",
                    milliseconds: "ms",
                };
                assert(t.texts() =~= english_texts());
                t
            },
            Language::ZhCn => {
                let t = UiText {
                    app_title: "自动按键",
                    no_window_selected: "未选择窗口",
                    target_window: "目标窗口",
                    accessibility_required: "需要辅助功能权限",
                    accessibility_hint: "请在 系统设置 -> 隐私与安全性 -> 辅助功能 中允许当前应用",
                    open_settings: "打开设置",
                    start_needs_permission: "开始前先授予辅助功能权限",
                    start_needs_window: "开始前先选择目标窗口",
                    pick: "拾取",
                    key_tasks: "按键任务",
                    add_key: "+ 添加按键",
                    press_key: "按键中...",
                    interval: "间隔",
                    send_mode: "发送模式",
                    start: "▶ 开始",
                    running: "运行中...",
                    running_status: "运行中",
                    stop: "■ 停止",
                    ready: "就绪",
                    hotkey_toggle: "F9：切换启停",
                    milliseconds: "毫秒",
                };
                assert(t.texts() =~= chinese_texts());
                t
            },
        }
    }

    pub fn switcher_label(self) -> (s: &'static str)
        ensures
            s@ == switcher_text(self),
    {
        match self {
            Language::En => "EN",
            Language::ZhCn => "中文",
        }
    }
}

/// Switching the language twice gives back the language one started from.
pub proof fn lemma_toggle_involutive(lang: Language)
    ensures
        other_language(other_language(lang)) == lang,
        other_language(lang) != lang,
{
}

/// The code of a language names that language again.
pub proof fn lemma_code_round_trip(lang: Language)
    ensures
        language_of_code(language_code(lang)) == lang,
{
    reveal_strlit("en");
    reveal_strlit("zh-CN");
    reveal_strlit("zh");
    reveal_strlit("zh-cn");
    reveal_strlit("zh_hans");
    reveal_strlit("zh-hans");
    reveal_strlit("cn");
    let s = language_code(lang);
    assert(text::trim_start(s) == s);
    assert(text::trim_end(s) == s);
    match lang {
        Language::En => {
            assert(text::ascii_lowercase(s) =~= "en"@);
            assert(text::ascii_lowercase(s).len() == 2);
        },
        Language::ZhCn => {
            assert(text::ascii_lowercase(s) =~= "zh-cn"@);
        },
    }
}

/// A stored language code is read the same with or without surrounding white
/// space, and in any ASCII case.
pub proof fn lemma_code_ignores_space_and_case(code: Seq<char>)
    ensures
        language_of_code(text::trim(code)) == language_of_code(code),
        language_of_code(text::ascii_lowercase(code)) == language_of_code(code),
{
    text::lemma_trim_idempotent(code);
    text::lemma_trim_lowercase_commute(code);
    text::lemma_lowercase_idempotent(text::trim(code));
}

} // verus!
