//! Post-processing of transcriptions by language models.
use crate::decimal;
use crate::json;
use crate::settings::{AppSettings, SettingsView};
use crate::text;
use vstd::prelude::*;

verus! {

/// Field name for structured output JSON schema.
pub const TRANSCRIPTION_FIELD: &'static str = "transcription";

/// The schema that a structured answer is held to.
pub const TRANSCRIPTION_SCHEMA: &'static str =
    "{\"type\":\"object\",\"properties\":{\"transcription\":{\"type\":\"string\",\"description\":\"The cleaned and processed transcription text\"}},\"required\":[\"transcription\"],\"additionalProperties\":false}";

/// What stands for the transcription in a prompt.
pub const PLACEHOLDER: &'static str = "${output}";

/// The characters that some language models insert and nobody sees.
pub open spec fn invisible(c: char) -> bool {
    c == '\u{200b}' || c == '\u{200c}' || c == '\u{200d}' || c == '\u{feff}'
}

/// A text without its invisible characters.
pub open spec fn visible(s: Seq<char>) -> Seq<char> {
    s.filter(|c: char| !invisible(c))
}

/// The instructions in a prompt: the transcription is sent on its own, so what
/// stands for it is left out.
pub open spec fn system_prompt(template: Seq<char>) -> Seq<char> {
    text::trimmed(text::replaced(template, PLACEHOLDER@, Seq::empty()))
}

/// Strip invisible Unicode characters that some LLMs may insert.
pub fn strip_invisible_chars(s: &str) -> (t: String)
    ensures
        t@ == visible(s@),
{
    let chars = text::chars_of(s);
    let mut t = String::new();
    let mut i: usize = 0;
    while i < chars.len()
        invariant
            i <= chars@.len(),
            t@ == visible(chars@.take(i as int)),
        decreases chars.len() - i,
    {
        let c = chars[i];
        if !(c == '\u{200b}' || c == '\u{200c}' || c == '\u{200d}' || c == '\u{feff}') {
            t.push(c);
        }
        i = i + 1;
        proof {
            assert(chars@.take(i as int).drop_last() =~= chars@.take(i - 1));
            reveal(Seq::filter);
        }
    }
    assert(chars@.take(i as int) =~= chars@);
    t
}

/// Build a system prompt from the user's prompt template.
/// Removes the placeholder since the transcription is sent as the user message.
pub fn build_system_prompt(prompt_template: &str) -> (prompt: String)
    ensures
        prompt@ == system_prompt(prompt_template@),
{
    proof {
        reveal_strlit("${output}");
        reveal_strlit("");
        assert(""@ =~= Seq::<char>::empty());
    }
    let bare = text::replace(prompt_template, PLACEHOLDER, "");
    text::trim(bare.as_str())
}

/// Whom a request goes to, and on whose account.
#[derive(Debug, PartialEq, Eq)]
pub struct Account {
    pub provider_id: String,
    pub api_key: String,
    pub model: String,
}

/// How far the post-processing of a text has come.
#[derive(Debug, PartialEq, Eq)]
pub enum PostProcess {
    /// It is done; without a result the text stays as it was.
    Done { result: Option<String> },
    /// The model on the device is to be asked.
    AskDevice { system_prompt: String, user_content: String, token_limit: i32 },
    /// A service is to be asked for an answer that follows a schema. Should
    /// that fail, it is asked once more, by the prompt alone.
    AskStructured {
        account: Account,
        system_prompt: String,
        user_content: String,
        schema: String,
        prompt: String,
    },
    /// A service is to be asked by a prompt that holds the text.
    AskPlain { account: Account, prompt: String },
}

/// What came of asking.
pub enum Reply {
    /// It failed, or there was nobody to ask.
    Failed,
    /// There was an answer with nothing in it.
    NoContent,
    Content { content: String },
}

/// What an [`Account`] says.
pub struct AccountView {
    pub provider_id: Seq<char>,
    pub api_key: Seq<char>,
    pub model: Seq<char>,
}

/// What a [`PostProcess`] says.
pub enum PostProcessView {
    Done { result: Option<Seq<char>> },
    AskDevice { system_prompt: Seq<char>, user_content: Seq<char>, token_limit: i32 },
    AskStructured {
        account: AccountView,
        system_prompt: Seq<char>,
        user_content: Seq<char>,
        schema: Seq<char>,
        prompt: Seq<char>,
    },
    AskPlain { account: AccountView, prompt: Seq<char> },
}

/// What a [`Reply`] says.
pub enum ReplyView {
    Failed,
    NoContent,
    Content { content: Seq<char> },
}

impl View for Account {
    type V = AccountView;

    open spec fn view(&self) -> AccountView {
        AccountView {
            provider_id: self.provider_id@,
            api_key: self.api_key@,
            model: self.model@,
        }
    }
}

impl View for PostProcess {
    type V = PostProcessView;

    open spec fn view(&self) -> PostProcessView {
        match self {
            PostProcess::Done { result } => PostProcessView::Done {
                result: text::opt_view(*result),
            },
            PostProcess::AskDevice { system_prompt, user_content, token_limit } => {
                PostProcessView::AskDevice {
                    system_prompt: system_prompt@,
                    user_content: user_content@,
                    token_limit: *token_limit,
                }
            },
            PostProcess::AskStructured {
                account,
                system_prompt,
                user_content,
                schema,
                prompt,
            } => PostProcessView::AskStructured {
                account: account@,
                system_prompt: system_prompt@,
                user_content: user_content@,
                schema: schema@,
                prompt: prompt@,
            },
            PostProcess::AskPlain { account, prompt } => PostProcessView::AskPlain {
                account: account@,
                prompt: prompt@,
            },
        }
    }
}

impl View for Reply {
    type V = ReplyView;

    open spec fn view(&self) -> ReplyView {
        match self {
            Reply::Failed => ReplyView::Failed,
            Reply::NoContent => ReplyView::NoContent,
            Reply::Content { content } => ReplyView::Content { content: content@ },
        }
    }
}

/// The entry of a table, or the empty text.
pub open spec fn entry(table: Map<Seq<char>, Seq<char>>, key: Seq<char>) -> Seq<char> {
    if table.contains_key(key) {
        table[key]
    } else {
        Seq::empty()
    }
}

/// The text that a structured answer carries: the field that was asked for,
/// or all of it where that cannot be read.
pub open spec fn structured_text(content: Seq<char>, found: json::ReadingView) -> Seq<char> {
    match found {
        json::ReadingView::Text { text } => text,
        _ => content,
    }
}

impl PostProcessView {
    /// How the post-processing of a text begins. Without a provider, a model
    /// for it, or a prompt that says something, it is over at once.
    pub open spec fn first(settings: SettingsView, transcription: Seq<char>) -> PostProcessView {
        match (settings.provider, settings.selected_prompt()) {
            (Some(provider), Some(prompt)) => {
                let model = entry(settings.models, provider.id);
                let account = AccountView {
                    provider_id: provider.id,
                    api_key: entry(settings.api_keys, provider.id),
                    model,
                };
                let filled = text::replaced(prompt, PLACEHOLDER@, transcription);
                if text::trimmed(model).len() == 0 || text::trimmed(prompt).len() == 0 {
                    PostProcessView::Done { result: None }
                } else if !provider.structured {
                    PostProcessView::AskPlain { account, prompt: filled }
                } else if provider.id == settings.apple_id {
                    PostProcessView::AskDevice {
                        system_prompt: system_prompt(prompt),
                        user_content: transcription,
                        token_limit: match decimal::parsed_i32(text::trimmed(model)) {
                            Some(limit) => limit,
                            None => 0,
                        },
                    }
                } else {
                    PostProcessView::AskStructured {
                        account,
                        system_prompt: system_prompt(prompt),
                        user_content: transcription,
                        schema: TRANSCRIPTION_SCHEMA@,
                        prompt: filled,
                    }
                }
            },
            _ => PostProcessView::Done { result: None },
        }
    }

    /// How it goes on after a reply; `found` is what the reply's content holds
    /// under the field that was asked for.
    pub open spec fn after(self, reply: ReplyView, found: json::ReadingView) -> PostProcessView {
        match (self, reply) {
            (PostProcessView::Done { .. }, _) => self,
            (PostProcessView::AskDevice { .. }, ReplyView::Content { content }) => {
                PostProcessView::Done {
                    result: if text::trimmed(content).len() == 0 {
                        None
                    } else {
                        Some(visible(content))
                    },
                }
            },
            (PostProcessView::AskStructured { .. }, ReplyView::Content { content }) => {
                PostProcessView::Done { result: Some(visible(structured_text(content, found))) }
            },
            (PostProcessView::AskStructured { account, prompt, .. }, ReplyView::Failed) => {
                PostProcessView::AskPlain { account, prompt }
            },
            (PostProcessView::AskPlain { .. }, ReplyView::Content { content }) => {
                PostProcessView::Done { result: Some(visible(content)) }
            },
            (_, _) => PostProcessView::Done { result: None },
        }
    }
}

/// What a reply's content holds under the field that was asked for.
pub open spec fn found_in(reply: ReplyView) -> json::ReadingView {
    match reply {
        ReplyView::Content { content } => json::reading(
            json::parsed(content),
            TRANSCRIPTION_FIELD@,
        ),
        _ => json::ReadingView::NotJson,
    }
}

/// Decides whether and how a text is post-processed.
pub fn post_process_transcription(settings: &AppSettings, transcription: &str) -> (first:
    PostProcess)
    ensures
        first@ == PostProcessView::first(settings@, transcription@),
{
    let provider = match &settings.active_post_process_provider {
        Some(provider) => provider,
        None => {
            return PostProcess::Done { result: None };
        },
    };
    let model = settings.post_process_models.get_or_default(provider.id.as_str());
    let bare_model = text::trim(model.as_str());
    if bare_model.as_str().is_empty() {
        return PostProcess::Done { result: None };
    }
    let prompt = match settings.selected_prompt() {
        Some(prompt) => prompt,
        None => {
            return PostProcess::Done { result: None };
        },
    };
    if text::trim(prompt.as_str()).as_str().is_empty() {
        return PostProcess::Done { result: None };
    }
    if provider.supports_structured_output && text::same(
        provider.id.as_str(),
        settings.apple_intelligence_provider_id.as_str(),
    ) {
        let digits = text::chars_of(bare_model.as_str());
        let token_limit: i32 = match decimal::parse_i32(digits.as_slice()) {
            Some(limit) => limit,
            None => 0,
        };
        return PostProcess::AskDevice {
            system_prompt: build_system_prompt(prompt.as_str()),
            user_content: transcription.to_owned(),
            token_limit,
        };
    }
    let account = Account {
        provider_id: provider.id.clone(),
        api_key: settings.post_process_api_keys.get_or_default(provider.id.as_str()),
        model,
    };
    proof {
        reveal_strlit("${output}");
    }
    let filled = text::replace(prompt.as_str(), PLACEHOLDER, transcription);
    if provider.supports_structured_output {
        PostProcess::AskStructured {
            account,
            system_prompt: build_system_prompt(prompt.as_str()),
            user_content: transcription.to_owned(),
            schema: TRANSCRIPTION_SCHEMA.to_owned(),
            prompt: filled,
        }
    } else {
        PostProcess::AskPlain { account, prompt: filled }
    }
}

/// Finds out what a reply's content holds under the field that was asked for.
pub fn find_in(reply: &Reply) -> (found: json::Reading)
    ensures
        found@ == found_in(reply@),
{
    match reply {
        Reply::Content { content } => json::read_text(content.as_str(), TRANSCRIPTION_FIELD),
        _ => json::Reading::NotJson,
    }
}

impl PostProcess {
    /// Takes in a reply, of whose content it is known what it holds under the
    /// field that was asked for.
    pub fn resume_with(self, reply: Reply, found: json::Reading) -> (next: Self)
        ensures
            next@ == self@.after(reply@, found@),
    {
        match (self, reply) {
            (PostProcess::Done { result }, _) => PostProcess::Done { result },
            (PostProcess::AskDevice { .. }, Reply::Content { content }) => {
                if text::trim(content.as_str()).as_str().is_empty() {
                    PostProcess::Done { result: None }
                } else {
                    PostProcess::Done { result: Some(strip_invisible_chars(content.as_str())) }
                }
            },
            (PostProcess::AskStructured { .. }, Reply::Content { content }) => {
                let answer = match found {
                    json::Reading::Text { text } => text,
                    _ => content,
                };
                PostProcess::Done { result: Some(strip_invisible_chars(answer.as_str())) }
            },
            (PostProcess::AskStructured { account, prompt, .. }, Reply::Failed) => {
                PostProcess::AskPlain { account, prompt }
            },
            (PostProcess::AskPlain { .. }, Reply::Content { content }) => {
                PostProcess::Done { result: Some(strip_invisible_chars(content.as_str())) }
            },
            (_, _) => PostProcess::Done { result: None },
        }
    }

    /// Takes in a reply.
    pub fn resume(self, reply: Reply) -> (next: Self)
        ensures
            next@ == self@.after(reply@, found_in(reply@)),
    {
        let found = find_in(&reply);
        self.resume_with(reply, found)
    }
}

} // verus!
