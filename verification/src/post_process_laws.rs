//! What holds of the questions that language models are asked, and of what is
//! made of their answers.
use crate::decimal;
use crate::json;
use crate::post_process::{self, AccountView, PostProcessView, ReplyView};
use crate::settings::SettingsView;
use crate::text;
use crate::text_laws;
use vstd::prelude::*;

verus! {

/// Whether a text says something: not all of it is whitespace.
pub open spec fn says_something(s: Seq<char>) -> bool {
    exists|i: int| 0 <= i < s.len() && !text::white(#[trigger] s[i])
}

proof fn what_says_something_is_left(s: Seq<char>)
    ensures
        says_something(s) <==> text::trimmed(s).len() > 0,
{
    text_laws::blank_text_is_trimmed_away(s);
}

/// The model that the settings name for the selected provider.
pub open spec fn model_of(settings: SettingsView) -> Seq<char> {
    if settings.models.contains_key(settings.provider->0.id) {
        settings.models[settings.provider->0.id]
    } else {
        seq![]
    }
}

/// Whether there is all that it takes to ask: a provider, a model for it, and a
/// selected prompt, both of which say something.
pub open spec fn ready(settings: SettingsView) -> bool {
    &&& settings.provider is Some
    &&& says_something(model_of(settings))
    &&& settings.selected_prompt() is Some
    &&& says_something(settings.selected_prompt()->0)
}

/// Someone is asked exactly where there is all that it takes, whatever was said:
/// a provider that follows no schema by the prompt alone, the device where it is
/// the provider, and any other provider by a schema.
pub proof fn somebody_is_asked_where_it_can_be(settings: SettingsView, t: Seq<char>)
    ensures
        ({
            let first = PostProcessView::first(settings, t);
            &&& !ready(settings) ==> first == (PostProcessView::Done { result: None })
            &&& ready(settings) ==> {
                let provider = settings.provider->0;
                &&& !provider.structured ==> first is AskPlain
                &&& provider.structured && provider.id == settings.apple_id ==> first is AskDevice
                &&& provider.structured && provider.id != settings.apple_id
                    ==> first is AskStructured
            }
        }),
{
    if settings.provider is Some {
        what_says_something_is_left(model_of(settings));
    }
    if settings.selected_prompt() is Some {
        what_says_something_is_left(settings.selected_prompt()->0);
    }
}

/// Whoever is asked gets everything that was said, unchanged.
pub proof fn everything_that_was_said_is_sent(settings: SettingsView, t: Seq<char>)
    ensures
        PostProcessView::first(settings, t) matches PostProcessView::AskDevice { user_content, .. }
            ==> user_content == t,
        PostProcessView::first(settings, t) matches PostProcessView::AskStructured {
            user_content,
            ..
        } ==> user_content == t,
{
}

/// A prompt with one placeholder is sent with everything that was said in its
/// place, and nothing else changed; the instructions are what is left of it
/// without the placeholder and the whitespace around.
pub proof fn prompt_is_filled_with_everything_that_was_said(
    settings: SettingsView,
    t: Seq<char>,
    a: Seq<char>,
    b: Seq<char>,
)
    requires
        settings.selected_prompt() == Some(a + "${output}"@ + b),
        forall|at: int|
            at != a.len() ==> !#[trigger] text_laws::stands_at(
                a + "${output}"@ + b,
                "${output}"@,
                at,
            ),
    ensures
        PostProcessView::first(settings, t) matches PostProcessView::AskPlain { prompt, .. }
            ==> prompt == a + t + b,
        PostProcessView::first(settings, t) matches PostProcessView::AskStructured {
            prompt,
            system_prompt,
            ..
        } ==> prompt == a + t + b && system_prompt == text::trimmed(a + b),
        PostProcessView::first(settings, t) matches PostProcessView::AskDevice {
            system_prompt,
            ..
        } ==> system_prompt == text::trimmed(a + b),
{
    let none = Seq::<char>::empty();
    reveal_strlit("${output}");
    text_laws::single_occurrence_is_replaced(a, b, "${output}"@, t);
    text_laws::single_occurrence_is_replaced(a, b, "${output}"@, none);
    assert(a + none + b =~= a + b);
}

/// Any prompt is sent with what was said in the place of each of its
/// placeholders, from left to right; the instructions are what is left of it
/// without them.
pub proof fn every_placeholder_is_filled(settings: SettingsView, t: Seq<char>)
    ensures
        ({
            let prompt = settings.selected_prompt()->0;
            let filled = text::replaced(prompt, "${output}"@, t);
            let bare = text::trimmed(text::replaced(prompt, "${output}"@, seq![]));
            match PostProcessView::first(settings, t) {
                PostProcessView::AskPlain { prompt, .. } => prompt == filled,
                PostProcessView::AskStructured { prompt, system_prompt, .. } => prompt == filled
                    && system_prompt == bare,
                PostProcessView::AskDevice { system_prompt, .. } => system_prompt == bare,
                PostProcessView::Done { .. } => true,
            }
        }),
{
    assert(Seq::<char>::empty() =~= seq![]);
}

/// A request goes to the selected provider, for the model that is set up for it,
/// on the key that is set up for it, or none; a structured one is held to the
/// schema of the transcription.
pub proof fn requests_go_to_the_selected_provider(settings: SettingsView, t: Seq<char>)
    ensures
        ({
            let first = PostProcessView::first(settings, t);
            let id = settings.provider->0.id;
            let account = AccountView {
                provider_id: id,
                api_key: if settings.api_keys.contains_key(id) {
                    settings.api_keys[id]
                } else {
                    seq![]
                },
                model: model_of(settings),
            };
            &&& first is AskPlain ==> first->AskPlain_account == account
            &&& first is AskStructured ==> first->AskStructured_account == account && first->schema
                == post_process::TRANSCRIPTION_SCHEMA@
        }),
{
    assert(Seq::<char>::empty() =~= seq![]);
}

/// The device is asked with the number that stands in place of a model for a
/// limit, whatever whitespace stands around it, and without one, with zero.
pub proof fn model_of_the_device_is_its_limit(settings: SettingsView, t: Seq<char>, n: i32)
    requires
        PostProcessView::first(settings, t) is AskDevice,
    ensures
        text::trimmed(model_of(settings)) == decimal::decimal(n as int)
            ==> PostProcessView::first(settings, t)->token_limit == n,
        decimal::parsed_i32(text::trimmed(model_of(settings))) matches Some(m)
            ==> PostProcessView::first(settings, t)->token_limit == m,
        decimal::parsed_i32(text::trimmed(model_of(settings))) is None ==> PostProcessView::first(
            settings,
            t,
        )->token_limit == 0,
{
    decimal::decimal_is_read_back(n as int);
    assert(Seq::<char>::empty() =~= seq![]);
}

/// A plain answer is the result, all of it but its invisible characters.
pub proof fn plain_answer_is_the_result(
    account: AccountView,
    prompt: Seq<char>,
    content: Seq<char>,
    found: json::ReadingView,
)
    ensures
        ({
            let asked = PostProcessView::AskPlain { account, prompt };
            let done = asked.after(ReplyView::Content { content }, found);
            &&& done == (PostProcessView::Done { result: Some(post_process::visible(content)) })
            &&& (forall|i: int|
                0 <= i < content.len() ==> !post_process::invisible(#[trigger] content[i]))
                ==> done->result == Some(content)
            &&& asked.after(ReplyView::NoContent, found) == (PostProcessView::Done {
                result: None,
            })
            &&& asked.after(ReplyView::Failed, found) == (PostProcessView::Done { result: None })
        }),
{
    if forall|i: int| 0 <= i < content.len() ==> !post_process::invisible(#[trigger] content[i]) {
        text_laws::visible_text_is_kept(content);
    }
}

/// An answer of the device is the result, all of it but its invisible characters,
/// if it says something.
pub proof fn answer_of_the_device_is_the_result(
    system_prompt: Seq<char>,
    user_content: Seq<char>,
    token_limit: i32,
    content: Seq<char>,
    found: json::ReadingView,
)
    ensures
        ({
            let asked = PostProcessView::AskDevice { system_prompt, user_content, token_limit };
            let done = asked.after(ReplyView::Content { content }, found);
            &&& says_something(content) ==> done == (PostProcessView::Done {
                result: Some(post_process::visible(content)),
            })
            &&& !says_something(content) ==> done == (PostProcessView::Done { result: None })
            &&& asked.after(ReplyView::NoContent, found) == (PostProcessView::Done {
                result: None,
            })
            &&& asked.after(ReplyView::Failed, found) == (PostProcessView::Done { result: None })
        }),
{
    what_says_something_is_left(content);
}

/// Of a structured answer, the text that was asked for is the result, and where
/// it holds none, all of it, but for the invisible characters. A request that
/// fails is made once more, on the same account, by the filled prompt.
pub proof fn structured_answer_gives_what_was_asked_for(
    account: AccountView,
    system_prompt: Seq<char>,
    user_content: Seq<char>,
    schema: Seq<char>,
    prompt: Seq<char>,
    content: Seq<char>,
    text: Seq<char>,
    found: json::ReadingView,
)
    ensures
        ({
            let asked = PostProcessView::AskStructured {
                account,
                system_prompt,
                user_content,
                schema,
                prompt,
            };
            let answer = ReplyView::Content { content };
            &&& asked.after(answer, json::ReadingView::Text { text }) == (PostProcessView::Done {
                result: Some(post_process::visible(text)),
            })
            &&& asked.after(answer, json::ReadingView::Missing) == (PostProcessView::Done {
                result: Some(post_process::visible(content)),
            })
            &&& asked.after(answer, json::ReadingView::NotJson) == (PostProcessView::Done {
                result: Some(post_process::visible(content)),
            })
            &&& asked.after(ReplyView::NoContent, found) == (PostProcessView::Done {
                result: None,
            })
            &&& asked.after(ReplyView::Failed, found) == (PostProcessView::AskPlain {
                account,
                prompt,
            })
        }),
{
}

/// What is looked for in an answer is the text under the name `transcription`.
pub proof fn transcription_is_looked_for(content: Seq<char>)
    ensures
        post_process::found_in((ReplyView::Content { content })) == json::reading(
            json::parsed(content),
            "transcription"@,
        ),
{
}

/// What is done stays done.
pub proof fn results_stay(
    result: Option<Seq<char>>,
    reply: ReplyView,
    found: json::ReadingView,
)
    ensures
        (PostProcessView::Done { result }).after(reply, found) == (PostProcessView::Done {
            result,
        }),
{
}

} // verus!
