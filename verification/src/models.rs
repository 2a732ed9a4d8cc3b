//! Pure halves of model discovery and of the local configuration fallback:
//! which provider model ids are offered, how a provider's catalogue entry
//! becomes a `Model` record, and which locally-known configuration stands in
//! when the backend cannot be reached. The catalogue requests themselves
//! live outside the library.

use vstd::prelude::*;

use crate::apicfg::{ApiResponseConfig, Model, UserAudioConfig};
use crate::text::{occurs_at, starts_with_str, str_eq, trim, trim_spec};

verus! {

/// Whether `s` starts with `prefix`.
pub open spec fn has_prefix(s: Seq<char>, prefix: Seq<char>) -> bool {
    occurs_at(s, prefix, 0)
}

/// The modality tag shown for a chat model: every listed chat model is
/// offered as supporting text and images.
pub fn openai_modality(_id: &str) -> (modality: &'static str)
    ensures
        modality@ == "text,image"@,
{
    "text,image"
}

/// Whether a catalogue id names one of the chat model families that are
/// offered for selection.
pub open spec fn spec_openai_chat_id(id: Seq<char>) -> bool {
    has_prefix(id, "gpt-"@) || has_prefix(id, "o1"@) || has_prefix(id, "o3"@) || has_prefix(
        id,
        "o4"@,
    ) || has_prefix(id, "chatgpt-"@)
}

/// Whether the catalogue id `id` names an offered chat model family.
pub fn is_openai_chat_model_id(id: &str) -> (r: bool)
    ensures
        r == spec_openai_chat_id(id@),
{
    starts_with_str(id, "gpt-") || starts_with_str(id, "o1") || starts_with_str(id, "o3")
        || starts_with_str(id, "o4") || starts_with_str(id, "chatgpt-")
}

/// The `Model` record built from one catalogue id of the OpenAI provider.
pub fn openai_model_entry(id: &str) -> (m: Model)
    ensures
        m.provider@ == "OpenAI"@,
        m.name@ == id@,
        m.id@ == id@,
        m.model@ == id@,
        m.description@ == "OpenAI "@ + id@,
        m.modality@ == "text,image"@,
        m.is_available,
{
    let mut description = String::from_str("OpenAI ");
    description.append(id);
    Model {
        provider: String::from_str("OpenAI"),
        name: String::from_str(id),
        id: String::from_str(id),
        model: String::from_str(id),
        description,
        modality: String::from_str(openai_modality(id)),
        is_available: true,
    }
}

/// The model id of a Google catalogue name: what follows the `models/`
/// prefix.
pub open spec fn google_model_id(name: Seq<char>) -> Seq<char> {
    name.skip("models/"@.len() as int)
}

/// Whether a Google catalogue entry supports content generation.
pub open spec fn supports_generate(methods: Seq<String>) -> bool {
    exists|i: int| 0 <= i < methods.len() && methods[i]@ == "generateContent"@
}

/// The `Model` record built from one Google catalogue entry, or nothing
/// when the entry is not a `models/`-prefixed generation model.
pub fn google_model_entry(name: &str, display_name: Option<String>, methods: &Vec<String>) -> (r:
    Option<Model>)
    ensures
        !has_prefix(name@, "models/"@) ==> r is None,
        has_prefix(name@, "models/"@) && !supports_generate(methods@) ==> r is None,
        has_prefix(name@, "models/"@) && supports_generate(methods@) ==> (r matches Some(m) && {
            &&& m.provider@ == "Google"@
            &&& m.name@ == match display_name {
                Some(display) => display@,
                None => google_model_id(name@),
            }
            &&& m.id@ == google_model_id(name@)
            &&& m.model@ == google_model_id(name@)
            &&& m.description@ == "Google "@ + google_model_id(name@)
            &&& m.modality@ == "text,image"@
            &&& m.is_available
        }),
{
    if !starts_with_str(name, "models/") {
        return None;
    }
    let prefix_len = "models/".unicode_len();
    let name_len = name.unicode_len();
    let model_id = String::from_str(name.substring_char(prefix_len, name_len));
    proof {
        assert(model_id@ =~= google_model_id(name@));
    }
    let mut generates = false;
    let n = methods.len();
    let mut i: usize = 0;
    while i < n
        invariant
            n == methods@.len(),
            i <= n,
            generates == exists|j: int| 0 <= j < i && methods@[j]@ == "generateContent"@,
        decreases n - i,
    {
        if str_eq(methods[i].as_str(), "generateContent") {
            generates = true;
        }
        i = i + 1;
    }
    if !generates {
        return None;
    }
    let display = match display_name {
        Some(given) => given,
        None => model_id.clone(),
    };
    let mut description = String::from_str("Google ");
    description.append(model_id.as_str());
    Some(
        Model {
            provider: String::from_str("Google"),
            name: display,
            id: model_id.clone(),
            model: model_id,
            description,
            modality: String::from_str("text,image"),
            is_available: true,
        },
    )
}

/// Whether `m` is the offered record for the Anthropic model `id` shown as
/// `name`.
pub open spec fn is_anthropic_model(m: Model, id: Seq<char>, name: Seq<char>) -> bool {
    &&& m.provider@ == "Anthropic"@
    &&& m.name@ == name
    &&& m.id@ == id
    &&& m.model@ == id
    &&& m.description@ == "Anthropic "@ + name
    &&& m.modality@ == "text,image"@
    &&& m.is_available
}

fn anthropic_model(id: &str, name: &str) -> (m: Model)
    ensures
        is_anthropic_model(m, id@, name@),
{
    let mut description = String::from_str("Anthropic ");
    description.append(name);
    Model {
        provider: String::from_str("Anthropic"),
        name: String::from_str(name),
        id: String::from_str(id),
        model: String::from_str(id),
        description,
        modality: String::from_str("text,image"),
        is_available: true,
    }
}

/// The Anthropic model catalogue offered when an Anthropic key is
/// configured: one record per (id, display name) pair of the fixed list the
/// caller holds, in order.
pub fn anthropic_models(catalogue: &Vec<(String, String)>) -> (models: Vec<Model>)
    ensures
        models@.len() == catalogue@.len(),
        forall|i: int|
            0 <= i < catalogue@.len() ==> is_anthropic_model(
                models@[i],
                catalogue@[i].0@,
                catalogue@[i].1@,
            ),
{
    let n = catalogue.len();
    let mut models: Vec<Model> = Vec::new();
    let mut i: usize = 0;
    while i < n
        invariant
            n == catalogue@.len(),
            i <= n,
            models@.len() == i,
            forall|j: int|
                0 <= j < i ==> is_anthropic_model(models@[j], catalogue@[j].0@, catalogue@[j].1@),
        decreases n - i,
    {
        let entry = &catalogue[i];
        models.push(anthropic_model(entry.0.as_str(), entry.1.as_str()));
        i = i + 1;
    }
    models
}

/// Whether `m` is the model offered when no provider catalogue is
/// reachable.
pub open spec fn is_dev_default_model(m: Model) -> bool {
    &&& m.provider@ == "OpenAI"@
    &&& m.name@ == "GPT-4o"@
    &&& m.id@ == "gpt-4o"@
    &&& m.model@ == "gpt-4o"@
    &&& m.description@ == "Dev default model"@
    &&& m.modality@ == "text,image"@
    &&& m.is_available
}

/// `s` with every leading `models/` prefix removed.
pub open spec fn strip_models_prefixes(s: Seq<char>) -> Seq<char>
    decreases s.len(),
{
    if "models/"@.len() > 0 && has_prefix(s, "models/"@) {
        strip_models_prefixes(s.skip("models/"@.len() as int))
    } else {
        s
    }
}

fn strip_models_prefix(model: String) -> (r: String)
    ensures
        r@ == strip_models_prefixes(model@),
{
    proof {
        reveal_strlit("models/");
    }
    let ghost initial = model@;
    let mut current = model;
    while starts_with_str(current.as_str(), "models/")
        invariant
            strip_models_prefixes(initial) == strip_models_prefixes(current@),
        decreases current@.len(),
    {
        proof {
            reveal_strlit("models/");
        }
        let len = current.as_str().unicode_len();
        let rest = String::from_str(current.as_str().substring_char(7, len));
        proof {
            assert(rest@ =~= current@.skip("models/"@.len() as int));
        }
        current = rest;
    }
    current
}

/// The model the local fallback uses when none was selected.
pub open spec fn spec_default_model(model: Option<String>) -> Seq<char> {
    match model {
        Some(selected) => selected@,
        None => "gpt-4o"@,
    }
}

/// The trimmed form of an optionally-configured key.
pub open spec fn spec_trimmed_key(key: Option<String>) -> Seq<char> {
    match key {
        Some(k) => trim_spec(k@),
        None => Seq::empty(),
    }
}

/// Whether a configured key is usable: present and nonblank.
pub open spec fn usable_key(key: Option<String>) -> bool {
    spec_trimmed_key(key).len() > 0
}

/// Whether the selected provider is `name`; an unset provider counts as
/// OpenAI.
pub open spec fn wants_provider(provider: Option<String>, name: Seq<char>) -> bool {
    match provider {
        Some(p) => p@ == name,
        None => name == "OpenAI"@,
    }
}

/// Whether `c` is the locally-built Google chat configuration.
pub open spec fn is_local_google_config(
    c: ApiResponseConfig,
    key: Seq<char>,
    chat_model: Seq<char>,
) -> bool {
    &&& c.url@ == "https://generativelanguage.googleapis.com/v1beta/openai/chat/completions"@
    &&& c.user_token@ == key
    &&& c.model@ == chat_model
    &&& c.body@.len() == 0
    &&& c.customer_id is None
    &&& c.customer_email is None
    &&& c.customer_name is None
    &&& c.license_key@.len() == 0
    &&& c.instance_id@.len() == 0
    &&& c.user_audio is None
    &&& c.errors is None
}

/// Whether `c` is the locally-built Anthropic chat configuration.
pub open spec fn is_local_anthropic_config(
    c: ApiResponseConfig,
    key: Seq<char>,
    model: Seq<char>,
) -> bool {
    &&& c.url@ == "https://api.anthropic.com/v1/messages"@
    &&& c.user_token@ == key
    &&& c.model@ == model
    &&& c.body@ == "{\"max_tokens\":8192}"@
    &&& c.customer_id is None
    &&& c.customer_email is None
    &&& c.customer_name is None
    &&& c.license_key@.len() == 0
    &&& c.instance_id@.len() == 0
    &&& c.user_audio is None
    &&& c.errors is None
}

/// Whether `c` is the locally-built OpenAI chat configuration, including
/// its transcription settings.
pub open spec fn is_local_openai_config(
    c: ApiResponseConfig,
    token: Seq<char>,
    model: Seq<char>,
) -> bool {
    &&& c.url@ == "https://api.openai.com/v1/chat/completions"@
    &&& c.user_token@ == token
    &&& c.model@ == model
    &&& c.body@.len() == 0
    &&& c.customer_id is None
    &&& c.customer_email is None
    &&& c.customer_name is None
    &&& c.license_key@.len() == 0
    &&& c.instance_id@.len() == 0
    &&& (c.user_audio matches Some(audio) && {
        &&& audio.url@ == "https://api.openai.com/v1/audio/transcriptions"@
        &&& audio.fallback_url is None
        &&& audio.model@ == "whisper-1"@
        &&& audio.fallback_model is None
        &&& audio.user_token@ == token
        &&& audio.fallback_user_token is None
        &&& audio.headers is None
    })
    &&& c.errors is None
}

fn local_google_config(key: String, chat_model: String) -> (c: ApiResponseConfig)
    ensures
        is_local_google_config(c, key@, chat_model@),
{
    ApiResponseConfig {
        url: String::from_str(
            "https://generativelanguage.googleapis.com/v1beta/openai/chat/completions",
        ),
        user_token: key,
        model: chat_model,
        body: String::new(),
        customer_id: None,
        customer_email: None,
        customer_name: None,
        license_key: String::new(),
        instance_id: String::new(),
        user_audio: None,
        errors: None,
    }
}

fn local_anthropic_config(key: String, model: String) -> (c: ApiResponseConfig)
    ensures
        is_local_anthropic_config(c, key@, model@),
{
    ApiResponseConfig {
        url: String::from_str("https://api.anthropic.com/v1/messages"),
        user_token: key,
        model,
        body: String::from_str("{\"max_tokens\":8192}"),
        customer_id: None,
        customer_email: None,
        customer_name: None,
        license_key: String::new(),
        instance_id: String::new(),
        user_audio: None,
        errors: None,
    }
}

fn local_openai_config(token: String, model: String) -> (c: ApiResponseConfig)
    ensures
        is_local_openai_config(c, token@, model@),
{
    let audio_token = token.clone();
    ApiResponseConfig {
        url: String::from_str("https://api.openai.com/v1/chat/completions"),
        user_token: token,
        model,
        body: String::new(),
        customer_id: None,
        customer_email: None,
        customer_name: None,
        license_key: String::new(),
        instance_id: String::new(),
        user_audio: Some(
            UserAudioConfig {
                url: String::from_str("https://api.openai.com/v1/audio/transcriptions"),
                fallback_url: None,
                model: String::from_str("whisper-1"),
                fallback_model: None,
                user_token: audio_token,
                fallback_user_token: None,
                headers: None,
            },
        ),
        errors: None,
    }
}

fn usable_key_value(key: &Option<String>) -> (r: Option<String>)
    ensures
        r matches Some(trimmed) ==> usable_key(*key) && trimmed@ == spec_trimmed_key(*key),
        r is None ==> !usable_key(*key),
{
    match key {
        Some(k) => {
            let t = trim(k.as_str());
            if t.is_empty() {
                None
            } else {
                Some(String::from_str(t))
            }
        },
        None => None,
    }
}

/// The model offered when no provider catalogue is reachable.
pub fn dev_default_model() -> (m: Model)
    ensures
        is_dev_default_model(m),
{
    Model {
        provider: String::from_str("OpenAI"),
        name: String::from_str("GPT-4o"),
        id: String::from_str("gpt-4o"),
        model: String::from_str("gpt-4o"),
        description: String::from_str("Dev default model"),
        modality: String::from_str("text,image"),
        is_available: true,
    }
}

/// The model list offered in development: every model the reachable
/// provider catalogues yielded, in provider order, or the single default
/// model when all of them came back empty.
pub fn dev_mode_model_list(
    openai: Vec<Model>,
    google: Vec<Model>,
    anthropic: Vec<Model>,
) -> (models: Vec<Model>)
    ensures
        openai@.len() + google@.len() + anthropic@.len() == 0 ==> models@.len() == 1
            && is_dev_default_model(models@[0]),
        openai@.len() + google@.len() + anthropic@.len() > 0 ==> models@ == openai@ + google@
            + anthropic@,
{
    let mut models = openai;
    let mut google = google;
    let mut anthropic = anthropic;
    models.append(&mut google);
    models.append(&mut anthropic);
    if models.len() == 0 {
        models.push(dev_default_model());
    }
    models
}

fn local_openai_fallback(
    api_access_key: &str,
    default_model: String,
    openai_key: &Option<String>,
    fetch_error: &str,
) -> (r: Result<ApiResponseConfig, String>)
    ensures
        usable_key(*openai_key) ==> (r matches Ok(c) && is_local_openai_config(
            c,
            spec_trimmed_key(*openai_key),
            default_model@,
        )),
        !usable_key(*openai_key) && has_prefix(api_access_key@, "sk-"@) ==> (r matches Ok(c)
            && is_local_openai_config(c, api_access_key@, default_model@)),
        !usable_key(*openai_key) && !has_prefix(api_access_key@, "sk-"@) ==> (r matches Err(
            message,
        ) && message@ == "Cloak API unavailable and no local key found: "@ + fetch_error@),
{
    match usable_key_value(openai_key) {
        Some(token) => Ok(local_openai_config(token, default_model)),
        None => {
            if starts_with_str(api_access_key, "sk-") {
                Ok(local_openai_config(String::from_str(api_access_key), default_model))
            } else {
                let mut message = String::from_str(
                    "Cloak API unavailable and no local key found: ",
                );
                message.append(fetch_error);
                Err(message)
            }
        },
    }
}

/// Builds the locally-known configuration that stands in when the backend
/// cannot deliver one. In development, a configured Google or Anthropic key
/// serves the matching provider; otherwise a configured OpenAI key, or an
/// access key in OpenAI's `sk-` shape, serves OpenAI chat with local
/// transcription settings. Without any usable key the backend's absence is
/// an error that carries the fetch failure.
pub fn local_fallback_config(
    provider: &Option<String>,
    model: Option<String>,
    api_access_key: &str,
    dev_mode: bool,
    google_key: &Option<String>,
    anthropic_key: &Option<String>,
    openai_key: &Option<String>,
    fetch_error: &str,
) -> (r: Result<ApiResponseConfig, String>)
    ensures
        dev_mode && wants_provider(*provider, "Google"@) && usable_key(*google_key) ==> (r matches
            Ok(c) && is_local_google_config(
            c,
            spec_trimmed_key(*google_key),
            strip_models_prefixes(spec_default_model(model)),
        )),
        dev_mode && wants_provider(*provider, "Anthropic"@) && usable_key(*anthropic_key) ==> (
        r matches Ok(c) && is_local_anthropic_config(
            c,
            spec_trimmed_key(*anthropic_key),
            spec_default_model(model),
        )),
        dev_mode && !(wants_provider(*provider, "Google"@) && usable_key(*google_key)) && !(
        wants_provider(*provider, "Anthropic"@) && usable_key(*anthropic_key)) ==> {
            &&& usable_key(*openai_key) ==> (r matches Ok(c) && is_local_openai_config(
                c,
                spec_trimmed_key(*openai_key),
                spec_default_model(model),
            ))
            &&& !usable_key(*openai_key) && has_prefix(api_access_key@, "sk-"@) ==> (r matches Ok(
                c,
            ) && is_local_openai_config(c, api_access_key@, spec_default_model(model)))
            &&& !usable_key(*openai_key) && !has_prefix(api_access_key@, "sk-"@) ==> (r matches
                Err(message) && message@ == "Cloak API unavailable and no local key found: "@
                + fetch_error@)
        },
        !dev_mode && has_prefix(api_access_key@, "sk-"@) ==> (r matches Ok(c)
            && is_local_openai_config(c, api_access_key@, spec_default_model(model))),
        !dev_mode && !has_prefix(api_access_key@, "sk-"@) ==> (r matches Err(message) && message@
            == "Cloak API unavailable and no local key found: "@ + fetch_error@),
{
    proof {
        reveal_strlit("Google");
        reveal_strlit("Anthropic");
        reveal_strlit("OpenAI");
        assert("Google"@.len() == 6);
        assert("Anthropic"@.len() == 9);
        assert("OpenAI"@.len() == 6);
        assert("Google"@[0] == 'G');
        assert("OpenAI"@[0] == 'O');
        assert("Google"@ != "Anthropic"@);
        assert("Google"@ != "OpenAI"@);
        assert("Anthropic"@ != "OpenAI"@);
    }
    let default_model = match model {
        Some(selected) => selected,
        None => String::from_str("gpt-4o"),
    };
    if dev_mode {
        let provider_is_google = match provider {
            Some(p) => str_eq(p.as_str(), "Google"),
            None => false,
        };
        let provider_is_anthropic = match provider {
            Some(p) => str_eq(p.as_str(), "Anthropic"),
            None => false,
        };
        if provider_is_google {
            match usable_key_value(google_key) {
                Some(key) => {
                    let chat_model = strip_models_prefix(default_model);
                    return Ok(local_google_config(key, chat_model));
                },
                None => {
                    return local_openai_fallback(
                        api_access_key,
                        default_model,
                        openai_key,
                        fetch_error,
                    );
                },
            }
        }
        if provider_is_anthropic {
            match usable_key_value(anthropic_key) {
                Some(key) => {
                    return Ok(local_anthropic_config(key, default_model));
                },
                None => {
                    return local_openai_fallback(
                        api_access_key,
                        default_model,
                        openai_key,
                        fetch_error,
                    );
                },
            }
        }
        local_openai_fallback(api_access_key, default_model, openai_key, fetch_error)
    } else {
        if starts_with_str(api_access_key, "sk-") {
            Ok(local_openai_config(String::from_str(api_access_key), default_model))
        } else {
            let mut message = String::from_str("Cloak API unavailable and no local key found: ");
            message.append(fetch_error);
            Err(message)
        }
    }
}

} // verus!
