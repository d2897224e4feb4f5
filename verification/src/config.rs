//! The configuration that the tool saves between runs: send mode, language,
//! whether the window stays on top, and the key tasks. Reading and writing
//! the file is the application's part; here stand the values, their default,
//! and how they are made from and read back into the running state.
use vstd::prelude::*;
use crate::i18n;
use crate::i18n::Language;
use crate::key_sender;
use crate::key_sender::{SendMode, VirtualKey};
use crate::text::chars_eq_str;
use crate::text::chars_of;

verus! {

/// The saved configuration.
#[derive(Clone, Debug)]
pub struct AppConfig {
    pub send_mode: String,
    pub language: String,
    pub always_on_top: bool,
    pub tasks: Vec<TaskConfig>,
}

/// One saved key task.
#[derive(Clone, Debug)]
pub struct TaskConfig {
    pub key_name: String,
    pub vk: u16,
    pub interval_ms: u64,
}

/// The send mode that a saved name selects: `SendMessage` by that exact
/// name, `PostMessage` for anything else.
pub open spec fn send_mode_of_name(name: Seq<char>) -> SendMode {
    if name == "SendMessage"@ {
        SendMode::SendMessage
    } else {
        SendMode::PostMessage
    }
}

/// `tc` is the saved form of a task that presses `vk` every `interval_ms`.
pub open spec fn saves_task(tc: TaskConfig, vk: VirtualKey, interval_ms: u64) -> bool {
    &&& tc.key_name@ == key_sender::key_name(vk.0)
    &&& tc.vk == vk.0
    &&& tc.interval_ms == interval_ms
}

impl AppConfig {
    pub fn send_mode_enum(&self) -> (m: SendMode)
        ensures
            m == send_mode_of_name(self.send_mode@),
    {
        let name = chars_of(self.send_mode.as_str());
        if chars_eq_str(&name, "SendMessage") {
            SendMode::SendMessage
        } else {
            SendMode::PostMessage
        }
    }

    pub fn language_enum(&self) -> (l: Language)
        ensures
            l == i18n::language_of_code(self.language@),
    {
        Language::from_code(self.language.as_str())
    }
}

impl Default for AppConfig {
    /// Post messages, English, a normal window, and one task that presses
    /// Enter every 200 ms.
    fn default() -> (c: AppConfig)
        ensures
            c.send_mode@ == "PostMessage"@,
            c.language@ == "en"@,
            !c.always_on_top,
            c.tasks@.len() == 1,
            c.tasks@[0].key_name@ == "ENTER"@,
            c.tasks@[0].vk == 0x0D,
            c.tasks@[0].interval_ms == 200,
    {
        let mut tasks: Vec<TaskConfig> = Vec::new();
        tasks.push(TaskConfig { key_name: String::from_str("ENTER"), vk: 0x0D, interval_ms: 200 });
        AppConfig {
            send_mode: String::from_str("PostMessage"),
            language: String::from_str("en"),
            always_on_top: false,
            tasks,
        }
    }
}

/// The configuration that saves the given running state.
pub fn config_from_state(
    send_mode: SendMode,
    language: Language,
    always_on_top: bool,
    tasks: &[(VirtualKey, u64)],
) -> (c: AppConfig)
    ensures
        c.send_mode@ == key_sender::send_mode_label(send_mode),
        c.language@ == i18n::language_code(language),
        c.always_on_top == always_on_top,
        c.tasks@.len() == tasks@.len(),
        forall|i: int|
            0 <= i < tasks@.len() ==> saves_task(
                #[trigger] c.tasks@[i],
                tasks@[i].0,
                tasks@[i].1,
            ),
{
    let mut saved: Vec<TaskConfig> = Vec::new();
    let mut i: usize = 0;
    while i < tasks.len()
        invariant
            i <= tasks@.len(),
            saved@.len() == i,
            forall|j: int|
                0 <= j < i ==> saves_task(#[trigger] saved@[j], tasks@[j].0, tasks@[j].1),
        decreases tasks@.len() - i,
    {
        let (vk, interval) = tasks[i];
        saved.push(
            TaskConfig { key_name: String::from_str(vk.name()), vk: vk.0, interval_ms: interval },
        );
        i = i + 1;
    }
    AppConfig {
        send_mode: String::from_str(send_mode.label()),
        language: String::from_str(language.code()),
        always_on_top,
        tasks: saved,
    }
}

/// The send mode saved by name is the send mode read back.
pub proof fn lemma_send_mode_round_trip(m: SendMode)
    ensures
        send_mode_of_name(key_sender::send_mode_label(m)) == m,
{
    reveal_strlit("PostMessage");
    reveal_strlit("SendMessage");
    if m == SendMode::PostMessage {
        assert(key_sender::send_mode_label(m)[0] != "SendMessage"@[0]);
    }
}

/// A saved configuration reads back the send mode and the language it was
/// made with.
pub proof fn lemma_config_round_trip(
    c: AppConfig,
    send_mode: SendMode,
    language: Language,
)
    requires
        c.send_mode@ == key_sender::send_mode_label(send_mode),
        c.language@ == i18n::language_code(language),
    ensures
        send_mode_of_name(c.send_mode@) == send_mode,
        i18n::language_of_code(c.language@) == language,
{
    lemma_send_mode_round_trip(send_mode);
    i18n::lemma_code_round_trip(language);
}

} // verus!
