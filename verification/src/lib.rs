//! Core of a real-time audio capture bridge: a bounded single-producer,
//! single-consumer sample queue with a drop-oldest overflow policy, the
//! wake protocol that lets a cooperative consumer block between deliveries,
//! the capture engine's decision logic, and the pure helpers of the
//! surrounding application: device resolution, query-string handling, the
//! streaming reply's line protocol, and the backend's error-message and
//! configuration rules.

mod apicfg;
mod buffer;
mod convert;
mod devices;
mod engine;
mod models;
mod oauth;
mod session;
mod sse;
mod text;
mod wake;

pub use apicfg::{
    decode_audio_base64, map_api_error_message, scrub_request_error, stored_credentials,
    usable_audio_headers, ApiConfigError, ApiResponseConfig, AudioResponse, ChatResponse,
    CloakPrompt, CloakPromptsResponse, Model, ModelsResponse, SystemPromptResponse,
    UserAudioConfig, UserAudioHeader,
};
pub use buffer::{SampleBuffer, SAMPLE_BUFFER_CAPACITY};
pub use convert::samples_from_le_bytes;
pub use devices::{
    assemble_devices, find_device_index_by_id, resolve_device, AudioDevice, DeviceChoice,
    Direction, EnumerationError, RawDeviceEntry,
};
pub use engine::{
    deliver_samples, poll_sample, resolve_handshake, streaming_step, CaptureAction, CaptureEvent,
    EngineState, HandshakeOutcome, PollOutcome, StopReason, EVENT_WAIT_TIMEOUT_MS,
    FALLBACK_SAMPLE_RATE, HANDSHAKE_TIMEOUT_SECS,
};
pub use models::{
    anthropic_models, dev_default_model, dev_mode_model_list, google_model_entry,
    is_openai_chat_model_id, local_fallback_config, openai_modality, openai_model_entry,
};
pub use oauth::{
    build_auth_url, parse_query_param, redirect_query, simple_percent_encode, OAuthResult,
};
pub use session::{SpeakerInput, StreamStartError};
pub use sse::{classify_sse_line, take_complete_lines, SseLine};
pub use text::{
    blank, contains_str, find_char, find_str, split_char, starts_with_str, str_eq, trim,
    usize_to_string,
};
pub use wake::WakeState;
