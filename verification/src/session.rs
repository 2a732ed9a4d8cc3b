//! The user-facing capture session handle: a cheaply constructed
//! configuration object naming which device to open. Opening is deferred
//! until streaming begins, so construction is pure data capture and never
//! fails.

use vstd::prelude::*;

use crate::text::str_eq;

verus! {

/// Why a stream could not be started: the device could not be opened, or no
/// usable format could be negotiated with it.
#[derive(Debug)]
pub enum StreamStartError {
    DeviceOpenFailed,
    FormatNegotiationFailed,
}

/// Whether a requested device id means "use the system default": absent,
/// empty, or the word `default`.
pub open spec fn is_default_request(id: Seq<char>) -> bool {
    id.len() == 0 || id == "default"@
}

/// A capture session handle, naming the requested device. Consumed when
/// streaming starts; a second stream needs a new session.
pub struct SpeakerInput {
    pub device_id: Option<String>,
}

impl SpeakerInput {
    /// Captures the requested device id for the later stream start,
    /// normalizing an empty id or the word `default` to "use the system
    /// default". Construction never fails.
    pub fn new(device_id: Option<String>) -> (r: Result<SpeakerInput, StreamStartError>)
        ensures
            r is Ok,
            r matches Ok(input) ==> match device_id {
                None => input.device_id is None,
                Some(id) => input.device_id == if is_default_request(id@) {
                    None::<String>
                } else {
                    Some(id)
                },
            },
    {
        let normalized = match device_id {
            None => None,
            Some(id) => {
                if id.as_str().is_empty() || str_eq(id.as_str(), "default") {
                    None
                } else {
                    Some(id)
                }
            },
        };
        Ok(SpeakerInput { device_id: normalized })
    }
}

} // verus!
