use cloak_core::{
    anthropic_models, dev_default_model, dev_mode_model_list, google_model_entry,
    is_openai_chat_model_id, local_fallback_config, openai_modality, openai_model_entry,
};

#[test]
fn modality_is_text_and_image() {
    assert_eq!(openai_modality("gpt-4o"), "text,image");
}

#[test]
fn chat_model_id_families() {
    assert!(is_openai_chat_model_id("gpt-4o"));
    assert!(is_openai_chat_model_id("o1-preview"));
    assert!(is_openai_chat_model_id("o3-mini"));
    assert!(is_openai_chat_model_id("o4-mini"));
    assert!(is_openai_chat_model_id("chatgpt-4o-latest"));
    assert!(!is_openai_chat_model_id("whisper-1"));
    assert!(!is_openai_chat_model_id("text-embedding-3-small"));
}

#[test]
fn openai_entry_fields() {
    let m = openai_model_entry("gpt-4o");
    assert_eq!(m.provider, "OpenAI");
    assert_eq!(m.name, "gpt-4o");
    assert_eq!(m.id, "gpt-4o");
    assert_eq!(m.model, "gpt-4o");
    assert_eq!(m.description, "OpenAI gpt-4o");
    assert_eq!(m.modality, "text,image");
    assert!(m.is_available);
}

#[test]
fn google_entry_requires_models_prefix_and_generation() {
    let methods = vec!["generateContent".to_string()];
    assert!(google_model_entry("gemini-pro", None, &methods).is_none());
    let methods = vec!["embedText".to_string()];
    assert!(google_model_entry("models/gemini-pro", None, &methods).is_none());
}

#[test]
fn google_entry_fields() {
    let methods = vec!["countTokens".to_string(), "generateContent".to_string()];
    let m = google_model_entry("models/gemini-pro", Some("Gemini Pro".to_string()), &methods)
        .unwrap();
    assert_eq!(m.provider, "Google");
    assert_eq!(m.name, "Gemini Pro");
    assert_eq!(m.id, "gemini-pro");
    assert_eq!(m.model, "gemini-pro");
    assert_eq!(m.description, "Google gemini-pro");
    assert!(m.is_available);

    // Without a display name the model id stands in.
    let m = google_model_entry("models/gemini-pro", None, &methods).unwrap();
    assert_eq!(m.name, "gemini-pro");
}

#[test]
fn anthropic_catalogue_maps_pairs_in_order() {
    let catalogue = vec![
        ("model-one".to_string(), "Model One".to_string()),
        ("model-two".to_string(), "Model Two".to_string()),
    ];
    let models = anthropic_models(&catalogue);
    assert_eq!(models.len(), 2);
    assert_eq!(models[0].provider, "Anthropic");
    assert_eq!(models[0].id, "model-one");
    assert_eq!(models[0].name, "Model One");
    assert_eq!(models[0].description, "Anthropic Model One");
    assert_eq!(models[1].id, "model-two");
    assert!(models[1].is_available);
}

#[test]
fn dev_default_model_fields() {
    let m = dev_default_model();
    assert_eq!(m.provider, "OpenAI");
    assert_eq!(m.id, "gpt-4o");
    assert_eq!(m.name, "GPT-4o");
    assert_eq!(m.description, "Dev default model");
}

#[test]
fn empty_catalogues_yield_the_single_default_model() {
    let models = dev_mode_model_list(vec![], vec![], vec![]);
    assert_eq!(models.len(), 1);
    assert_eq!(models[0].id, "gpt-4o");
    assert_eq!(models[0].name, "GPT-4o");
}

#[test]
fn catalogues_are_combined_in_provider_order() {
    let openai = vec![openai_model_entry("gpt-4o"), openai_model_entry("o3-mini")];
    let methods = vec!["generateContent".to_string()];
    let google = vec![google_model_entry("models/gemini-pro", None, &methods).unwrap()];
    let models = dev_mode_model_list(openai, google, vec![]);
    assert_eq!(models.len(), 3);
    assert_eq!(models[0].id, "gpt-4o");
    assert_eq!(models[1].id, "o3-mini");
    assert_eq!(models[2].id, "gemini-pro");
}

#[test]
fn fallback_config_uses_google_key_for_google_provider() {
    let config = local_fallback_config(
        &Some("Google".to_string()),
        Some("models/gemini-pro".to_string()),
        "",
        true,
        &Some(" g-key ".to_string()),
        &None,
        &None,
        "unreachable",
    )
    .unwrap();
    assert_eq!(
        config.url,
        "https://generativelanguage.googleapis.com/v1beta/openai/chat/completions"
    );
    assert_eq!(config.user_token, "g-key");
    assert_eq!(config.model, "gemini-pro");
    assert!(config.user_audio.is_none());
}

#[test]
fn fallback_config_uses_anthropic_key_for_anthropic_provider() {
    let config = local_fallback_config(
        &Some("Anthropic".to_string()),
        Some("model-x".to_string()),
        "",
        true,
        &None,
        &Some("a-key".to_string()),
        &None,
        "unreachable",
    )
    .unwrap();
    assert_eq!(config.url, "https://api.anthropic.com/v1/messages");
    assert_eq!(config.user_token, "a-key");
    assert_eq!(config.model, "model-x");
    assert_eq!(config.body, "{\"max_tokens\":8192}");
}

#[test]
fn fallback_config_openai_key_in_dev_mode() {
    let config = local_fallback_config(
        &None,
        None,
        "",
        true,
        &None,
        &None,
        &Some("o-key".to_string()),
        "unreachable",
    )
    .unwrap();
    assert_eq!(config.url, "https://api.openai.com/v1/chat/completions");
    assert_eq!(config.user_token, "o-key");
    assert_eq!(config.model, "gpt-4o");
    let audio = config.user_audio.unwrap();
    assert_eq!(audio.url, "https://api.openai.com/v1/audio/transcriptions");
    assert_eq!(audio.model, "whisper-1");
    assert_eq!(audio.user_token, "o-key");
}

#[test]
fn fallback_config_access_key_outside_dev_mode() {
    let config = local_fallback_config(
        &None,
        Some("gpt-4o-mini".to_string()),
        "sk-access",
        false,
        &None,
        &None,
        &None,
        "unreachable",
    )
    .unwrap();
    assert_eq!(config.user_token, "sk-access");
    assert_eq!(config.model, "gpt-4o-mini");
}

#[test]
fn fallback_config_without_any_key_is_an_error() {
    let err = local_fallback_config(
        &None,
        None,
        "not-an-sk-key",
        false,
        &None,
        &None,
        &None,
        "connection refused",
    )
    .unwrap_err();
    assert_eq!(err, "Cloak API unavailable and no local key found: connection refused");
}
