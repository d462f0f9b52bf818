use handy::json::{read_text, Reading};
use handy::post_process::{
    build_system_prompt, post_process_transcription, strip_invisible_chars, Account, PostProcess,
    Reply, TRANSCRIPTION_FIELD, TRANSCRIPTION_SCHEMA,
};
use handy::settings::{AppSettings, LlmPrompt, PostProcessProvider, StringTable};

fn settings(provider: &str, structured: bool, model: &str, prompt: &str) -> AppSettings {
    let mut models = StringTable::new();
    models.insert("other".to_string(), "wrong".to_string());
    models.insert(provider.to_string(), model.to_string());
    let mut keys = StringTable::new();
    keys.insert(provider.to_string(), "key".to_string());
    AppSettings {
        selected_language: "en".to_string(),
        restore_focus_before_paste: false,
        active_post_process_provider: Some(PostProcessProvider {
            id: provider.to_string(),
            supports_structured_output: structured,
        }),
        post_process_models: models,
        post_process_api_keys: keys,
        post_process_selected_prompt_id: Some("p".to_string()),
        post_process_prompts: vec![
            LlmPrompt { id: "q".to_string(), prompt: "wrong".to_string() },
            LlmPrompt { id: "p".to_string(), prompt: prompt.to_string() },
            LlmPrompt { id: "p".to_string(), prompt: "too late".to_string() },
        ],
        apple_intelligence_provider_id: "apple_intelligence".to_string(),
    }
}

fn done(result: Option<&str>) -> PostProcess {
    PostProcess::Done { result: result.map(str::to_string) }
}

fn account(model: &str) -> Account {
    Account {
        provider_id: "cloud".to_string(),
        api_key: "key".to_string(),
        model: model.to_string(),
    }
}

fn content(s: &str) -> Reply {
    Reply::Content { content: s.to_string() }
}

fn structured() -> PostProcess {
    post_process_transcription(&settings("cloud", true, "m", "Fix: ${output}"), "helo")
}

fn plain() -> PostProcess {
    post_process_transcription(&settings("cloud", false, "m", "Fix: ${output}"), "helo")
}

fn device(model: &str) -> PostProcess {
    let s = settings("apple_intelligence", true, model, " Fix ${output} ");
    post_process_transcription(&s, "helo")
}

#[test]
fn invisible_characters_are_stripped() {
    assert_eq!(strip_invisible_chars("a\u{200b}b\u{200c}c\u{200d}d\u{feff}e"), "abcde");
    assert_eq!(strip_invisible_chars("\u{feff}"), "");
    assert_eq!(strip_invisible_chars("plain \u{2060} text"), "plain \u{2060} text");
    let once = strip_invisible_chars("\u{200b}x\u{200b}");
    assert_eq!(strip_invisible_chars(&once), once);
}

#[test]
fn the_placeholder_is_removed_from_system_prompts() {
    assert_eq!(build_system_prompt("Fix this:\n${output}\n"), "Fix this:");
    assert_eq!(build_system_prompt("${output}${output}"), "");
    assert_eq!(build_system_prompt("No placeholder"), "No placeholder");
    assert_eq!(build_system_prompt("${out${output}put}"), "${output}");
}

#[test]
fn nothing_is_asked_without_a_provider() {
    let mut s = settings("cloud", true, "m", "Fix");
    s.active_post_process_provider = None;
    assert_eq!(post_process_transcription(&s, "helo"), done(None));
}

#[test]
fn nothing_is_asked_without_a_model() {
    for model in ["", "  \n"] {
        let s = settings("cloud", true, model, "Fix");
        assert_eq!(post_process_transcription(&s, "helo"), done(None));
    }
    let mut s = settings("cloud", true, "m", "Fix");
    s.post_process_models = StringTable::new();
    assert_eq!(post_process_transcription(&s, "helo"), done(None));
}

#[test]
fn nothing_is_asked_without_a_prompt() {
    let mut s = settings("cloud", true, "m", "Fix");
    s.post_process_selected_prompt_id = None;
    assert_eq!(post_process_transcription(&s, "helo"), done(None));
    let mut s = settings("cloud", true, "m", "Fix");
    s.post_process_selected_prompt_id = Some("gone".to_string());
    assert_eq!(post_process_transcription(&s, "helo"), done(None));
    let s = settings("cloud", true, "m", " \t");
    assert_eq!(post_process_transcription(&s, "helo"), done(None));
}

#[test]
fn a_plain_provider_gets_the_filled_prompt() {
    assert_eq!(
        plain(),
        PostProcess::AskPlain { account: account("m"), prompt: "Fix: helo".to_string() }
    );
}

#[test]
fn a_missing_key_is_empty() {
    let mut s = settings("cloud", false, " m ", "Fix: ${output}/${output}");
    s.post_process_api_keys = StringTable::new();
    assert_eq!(
        post_process_transcription(&s, "a"),
        PostProcess::AskPlain {
            account: Account {
                provider_id: "cloud".to_string(),
                api_key: String::new(),
                model: " m ".to_string(),
            },
            prompt: "Fix: a/a".to_string(),
        }
    );
}

#[test]
fn a_structured_provider_gets_prompt_text_and_schema() {
    assert_eq!(
        structured(),
        PostProcess::AskStructured {
            account: account("m"),
            system_prompt: "Fix:".to_string(),
            user_content: "helo".to_string(),
            schema: TRANSCRIPTION_SCHEMA.to_string(),
            prompt: "Fix: helo".to_string(),
        }
    );
}

#[test]
fn the_schema_asks_for_the_transcription_alone() {
    let schema: serde_json::Value = serde_json::from_str(TRANSCRIPTION_SCHEMA).unwrap();
    assert_eq!(schema["type"], "object");
    let field = &schema["properties"][TRANSCRIPTION_FIELD];
    assert_eq!(field["type"], "string");
    assert_eq!(field["description"], "The cleaned and processed transcription text");
    assert_eq!(schema["properties"].as_object().unwrap().len(), 1);
    assert_eq!(schema["required"].as_array().unwrap().len(), 1);
    assert_eq!(schema["required"][0], TRANSCRIPTION_FIELD);
    assert_eq!(schema["additionalProperties"], false);
    assert_eq!(schema.as_object().unwrap().len(), 4);
}

#[test]
fn the_device_is_asked_with_a_token_limit() {
    for (model, limit) in [("512", 512), (" 64\n", 64), ("default", 0), ("9999999999", 0), ("-1", -1)] {
        assert_eq!(
            device(model),
            PostProcess::AskDevice {
                system_prompt: "Fix".to_string(),
                user_content: "helo".to_string(),
                token_limit: limit,
            }
        );
    }
}

#[test]
fn the_device_is_a_plain_provider_where_it_follows_no_schema() {
    let s = settings("apple_intelligence", false, "m", "Fix");
    assert!(matches!(post_process_transcription(&s, "helo"), PostProcess::AskPlain { .. }));
}

#[test]
fn the_answer_of_the_device_is_cleaned() {
    assert_eq!(device("1").resume(content(" hello\u{200b} ")), done(Some(" hello ")));
    assert_eq!(device("1").resume(content(" \n")), done(None));
    assert_eq!(device("1").resume(content("\u{200b}")), done(Some("")));
    assert_eq!(device("1").resume(Reply::Failed), done(None));
    assert_eq!(device("1").resume(Reply::NoContent), done(None));
}

#[test]
fn a_structured_answer_gives_its_field() {
    assert_eq!(
        structured().resume(content(r#"{"transcription":"hello​","x":1}"#)),
        done(Some("hello"))
    );
}

#[test]
fn a_structured_answer_without_the_field_is_taken_whole() {
    for answer in [
        r#"{"text":"hello"}"#,
        r#"{"transcription":3}"#,
        r#"["transcription"]"#,
        r#""hello""#,
        "hello, not JSON",
        "",
    ] {
        assert_eq!(structured().resume(content(answer)), done(Some(answer)));
    }
    assert_eq!(structured().resume(content("raw\u{feff}")), done(Some("raw")));
}

#[test]
fn a_structured_request_that_fails_is_asked_plainly() {
    let next = structured().resume(Reply::Failed);
    assert_eq!(
        next,
        PostProcess::AskPlain { account: account("m"), prompt: "Fix: helo".to_string() }
    );
    assert_eq!(next.resume(Reply::Failed), done(None));
}

#[test]
fn a_structured_reply_without_content_ends_it() {
    assert_eq!(structured().resume(Reply::NoContent), done(None));
}

#[test]
fn a_plain_answer_is_cleaned() {
    assert_eq!(plain().resume(content("hel\u{200d}lo")), done(Some("hello")));
    assert_eq!(
        plain().resume(content(r#"{"transcription":"x"}"#)),
        done(Some(r#"{"transcription":"x"}"#))
    );
    assert_eq!(plain().resume(content("")), done(Some("")));
    assert_eq!(plain().resume(Reply::NoContent), done(None));
    assert_eq!(plain().resume(Reply::Failed), done(None));
}

#[test]
fn what_is_done_stays_done() {
    assert_eq!(done(Some("x")).resume(content("y")), done(Some("x")));
    assert_eq!(done(None).resume(Reply::Failed), done(None));
}

#[test]
fn a_reading_that_is_known_is_used() {
    let found = Reading::Text { text: "known".to_string() };
    assert_eq!(structured().resume_with(content("ignored"), found), done(Some("known")));
    assert_eq!(
        structured().resume_with(content("kept"), Reading::Missing),
        done(Some("kept"))
    );
    assert_eq!(
        structured().resume_with(content("kept"), Reading::NotJson),
        done(Some("kept"))
    );
}

#[test]
fn members_of_json_documents_are_read() {
    let text = |s: &str| Reading::Text { text: s.to_string() };
    assert_eq!(read_text(r#"{"a":"b"}"#, "a"), text("b"));
    assert_eq!(read_text(r#" {"a":"é\n"} "#, "a"), text("é\n"));
    assert_eq!(read_text(r#"{"a":"1","a":"2"}"#, "a"), text("2"));
    assert_eq!(read_text(r#"{"a":"b"}"#, "b"), Reading::Missing);
    assert_eq!(read_text(r#"{"a":null}"#, "a"), Reading::Missing);
    assert_eq!(read_text(r#"{"a":{"a":"b"}}"#, "a"), Reading::Missing);
    assert_eq!(read_text("[]", "a"), Reading::Missing);
    assert_eq!(read_text("{", "a"), Reading::NotJson);
    assert_eq!(read_text(r#"{"a":"b"} x"#, "a"), Reading::NotJson);
}

#[test]
fn tables_give_the_latest_entry_or_nothing() {
    let mut table = StringTable::new();
    assert_eq!(table.get_or_default("a"), "");
    table.insert("a".to_string(), "1".to_string());
    table.insert("b".to_string(), "2".to_string());
    table.insert("a".to_string(), "3".to_string());
    assert_eq!(table.get_or_default("a"), "3");
    assert_eq!(table.get_or_default("b"), "2");
    assert_eq!(table.get_or_default("c"), "");
}

#[test]
fn the_first_prompt_of_an_id_is_selected() {
    let s = settings("cloud", true, "m", "mine");
    assert_eq!(s.selected_prompt(), Some("mine".to_string()));
}
