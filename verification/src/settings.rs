//! The settings that the pipeline reads.
use crate::text;
use vstd::prelude::*;

verus! {

/// A table from text to text.
pub struct StringTable {
    entries: Vec<(String, String)>,
}

/// The table that a list of entries makes up; a later entry replaces an
/// earlier one of the same key.
pub open spec fn table_of(entries: Seq<(String, String)>) -> Map<Seq<char>, Seq<char>>
    decreases entries.len(),
{
    if entries.len() == 0 {
        Map::empty()
    } else {
        table_of(entries.drop_last()).insert(entries.last().0@, entries.last().1@)
    }
}

impl View for StringTable {
    type V = Map<Seq<char>, Seq<char>>;

    closed spec fn view(&self) -> Map<Seq<char>, Seq<char>> {
        table_of(self.entries@)
    }
}

impl StringTable {
    pub fn new() -> (table: Self)
        ensures
            table@ == Map::<Seq<char>, Seq<char>>::empty(),
    {
        StringTable { entries: Vec::new() }
    }

    pub fn insert(&mut self, key: String, value: String)
        ensures
            final(self)@ == old(self)@.insert(key@, value@),
    {
        let ghost before = self.entries@;
        self.entries.push((key, value));
        assert(self.entries@.drop_last() =~= before);
    }

    /// The value of a key, or the empty text where there is none.
    pub fn get_or_default(&self, key: &str) -> (value: String)
        ensures
            value@ == if self@.contains_key(key@) {
                self@[key@]
            } else {
                Seq::<char>::empty()
            },
    {
        let mut i: usize = self.entries.len();
        assert(self.entries@.take(i as int) =~= self.entries@);
        while i > 0
            invariant
                i <= self.entries@.len(),
                table_of(self.entries@).contains_key(key@) == table_of(
                    self.entries@.take(i as int),
                ).contains_key(key@),
                table_of(self.entries@).contains_key(key@) ==> table_of(self.entries@)[key@]
                    == table_of(self.entries@.take(i as int))[key@],
            decreases i,
        {
            proof {
                assert(self.entries@.take(i as int).drop_last() =~= self.entries@.take(i - 1));
            }
            i = i - 1;
            if text::same(self.entries[i].0.as_str(), key) {
                return self.entries[i].1.clone();
            }
        }
        String::new()
    }
}

/// A service that post-processes transcriptions.
pub struct PostProcessProvider {
    pub id: String,
    /// Whether the service can be held to a JSON schema.
    pub supports_structured_output: bool,
}

/// A prompt that the user wrote.
pub struct LlmPrompt {
    pub id: String,
    pub prompt: String,
}

/// The settings that the pipeline reads.
pub struct AppSettings {
    pub selected_language: String,
    /// Whether the window that was focused when the session began is brought
    /// back before a paste.
    pub restore_focus_before_paste: bool,
    /// The provider that is selected for post-processing.
    pub active_post_process_provider: Option<PostProcessProvider>,
    /// The model of each provider, by provider id.
    pub post_process_models: StringTable,
    /// The key of each provider, by provider id.
    pub post_process_api_keys: StringTable,
    pub post_process_selected_prompt_id: Option<String>,
    pub post_process_prompts: Vec<LlmPrompt>,
    /// The id of the provider that runs on the device itself.
    pub apple_intelligence_provider_id: String,
}

/// What a [`PostProcessProvider`] says.
pub struct ProviderView {
    pub id: Seq<char>,
    pub structured: bool,
}

/// What a [`LlmPrompt`] says.
pub struct PromptView {
    pub id: Seq<char>,
    pub prompt: Seq<char>,
}

/// What [`AppSettings`] say.
pub struct SettingsView {
    pub language: Seq<char>,
    pub restore_focus: bool,
    pub provider: Option<ProviderView>,
    pub models: Map<Seq<char>, Seq<char>>,
    pub api_keys: Map<Seq<char>, Seq<char>>,
    pub prompt_id: Option<Seq<char>>,
    pub prompts: Seq<PromptView>,
    pub apple_id: Seq<char>,
}

impl View for PostProcessProvider {
    type V = ProviderView;

    open spec fn view(&self) -> ProviderView {
        ProviderView { id: self.id@, structured: self.supports_structured_output }
    }
}

impl View for LlmPrompt {
    type V = PromptView;

    open spec fn view(&self) -> PromptView {
        PromptView { id: self.id@, prompt: self.prompt@ }
    }
}

impl View for AppSettings {
    type V = SettingsView;

    open spec fn view(&self) -> SettingsView {
        SettingsView {
            language: self.selected_language@,
            restore_focus: self.restore_focus_before_paste,
            provider: match self.active_post_process_provider {
                Some(p) => Some(p@),
                None => None,
            },
            models: self.post_process_models@,
            api_keys: self.post_process_api_keys@,
            prompt_id: text::opt_view(self.post_process_selected_prompt_id),
            prompts: self.post_process_prompts@.map_values(|p: LlmPrompt| p@),
            apple_id: self.apple_intelligence_provider_id@,
        }
    }
}

/// The text of the first prompt that has the id.
pub open spec fn prompt_by_id(prompts: Seq<PromptView>, id: Seq<char>) -> Option<Seq<char>>
    decreases prompts.len(),
{
    if prompts.len() == 0 {
        None
    } else if prompts[0].id == id {
        Some(prompts[0].prompt)
    } else {
        prompt_by_id(prompts.drop_first(), id)
    }
}

impl SettingsView {
    /// The text of the prompt that the user selected, if it exists.
    pub open spec fn selected_prompt(self) -> Option<Seq<char>> {
        match self.prompt_id {
            Some(id) => prompt_by_id(self.prompts, id),
            None => None,
        }
    }
}

impl AppSettings {
    /// The text of the prompt that the user selected, if it exists.
    pub fn selected_prompt(&self) -> (prompt: Option<String>)
        ensures
            text::opt_view(prompt) == self@.selected_prompt(),
    {
        let id = match &self.post_process_selected_prompt_id {
            Some(id) => id,
            None => {
                return None;
            },
        };
        let ghost prompts = self@.prompts;
        let mut i: usize = 0;
        assert(prompts.skip(0) =~= prompts);
        while i < self.post_process_prompts.len()
            invariant
                i <= self.post_process_prompts@.len(),
                prompts == self.post_process_prompts@.map_values(|p: LlmPrompt| p@),
                self@.selected_prompt() == prompt_by_id(prompts, id@),
                prompt_by_id(prompts, id@) == prompt_by_id(prompts.skip(i as int), id@),
            decreases self.post_process_prompts.len() - i,
        {
            assert(prompts.skip(i as int).drop_first() =~= prompts.skip(i + 1));
            if text::same(self.post_process_prompts[i].id.as_str(), id.as_str()) {
                return Some(self.post_process_prompts[i].prompt.clone());
            }
            i = i + 1;
        }
        None
    }
}

/// The prompt that is selected is the first one that has the selected id, all of
/// it; where none has it, or no id is selected, there is none.
pub proof fn first_prompt_of_the_id_is_selected(settings: SettingsView, at: int)
    ensures
        settings.prompt_id is None ==> settings.selected_prompt() is None,
        settings.prompt_id matches Some(id) ==> {
            &&& (0 <= at < settings.prompts.len() && settings.prompts[at].id == id && forall|i: int|
                0 <= i < at ==> (#[trigger] settings.prompts[i]).id != id)
                ==> settings.selected_prompt() == Some(settings.prompts[at].prompt)
            &&& (forall|i: int|
                0 <= i < settings.prompts.len() ==> (#[trigger] settings.prompts[i]).id != id)
                ==> settings.selected_prompt() is None
        },
{
    if settings.prompt_id is Some {
        prompt_by_id_is_the_first(settings.prompts, settings.prompt_id->0, at);
    }
}

proof fn prompt_by_id_is_the_first(prompts: Seq<PromptView>, id: Seq<char>, at: int)
    ensures
        (0 <= at < prompts.len() && prompts[at].id == id && forall|i: int|
            0 <= i < at ==> (#[trigger] prompts[i]).id != id) ==> prompt_by_id(prompts, id) == Some(
            prompts[at].prompt,
        ),
        (forall|i: int| 0 <= i < prompts.len() ==> (#[trigger] prompts[i]).id != id)
            ==> prompt_by_id(prompts, id) is None,
    decreases prompts.len(),
{
    if prompts.len() > 0 {
        let rest = prompts.drop_first();
        prompt_by_id_is_the_first(rest, id, at - 1);
        assert(forall|i: int| 0 <= i < rest.len() ==> #[trigger] rest[i] == prompts[i + 1]);
        if 0 < at < prompts.len() {
            assert(rest[at - 1] == prompts[at]);
            assert(prompts[0].id == id || forall|i: int|
                0 <= i < at - 1 && (forall|j: int| 0 <= j < at ==> (#[trigger] prompts[j]).id != id)
                    ==> (#[trigger] rest[i]).id != id);
        }
    }
}

} // verus!
