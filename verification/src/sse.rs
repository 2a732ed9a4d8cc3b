//! The line protocol of the streaming chat reply: chunks arrive as raw
//! text, complete lines are peeled off while the trailing incomplete line is
//! carried to the next chunk, and each complete line is classified as a
//! payload, the end marker, or noise. Reading the network stream and
//! interpreting the payload live outside the library.

use vstd::prelude::*;

use crate::text::{
    lemma_split_len, occurs_at, seq_views, spec_split, split_char, starts_with_str, str_eq, trim,
    trim_spec,
};

verus! {

/// One classified line of the streaming reply.
pub enum SseLine {
    /// The `[DONE]` end marker.
    Done,
    /// The text after `data: `, to be interpreted further.
    Payload(String),
    /// A line the stream reader ignores.
    Ignored,
}

/// Splits the accumulated text at every newline: all segments but the last
/// are complete lines, and the last — possibly empty — is the incomplete
/// remainder to carry into the next chunk.
pub fn take_complete_lines(buffer: &str) -> (r: (Vec<String>, String))
    ensures
        ({
            let parts = spec_split(buffer@, '\n');
            &&& seq_views(r.0@) == parts.take(parts.len() - 1)
            &&& r.1@ == parts.last()
        }),
{
    let mut parts = split_char(buffer, '\n');
    proof {
        lemma_split_len(buffer@, '\n');
    }
    let remainder = match parts.pop() {
        Some(last) => last,
        None => String::new(),
    };
    proof {
        let whole = spec_split(buffer@, '\n');
        assert(seq_views(parts@) =~~= whole.take(whole.len() - 1));
    }
    (parts, remainder)
}

/// Classifies one complete line of the streaming reply: after trimming,
/// only `data: ` lines matter; their payload is the end marker `[DONE]`,
/// ignored when empty, and handed out otherwise.
pub fn classify_sse_line(line: &str) -> (r: SseLine)
    ensures
        ({
            let t = trim_spec(line@);
            &&& !occurs_at(t, "data: "@, 0) ==> r is Ignored
            &&& occurs_at(t, "data: "@, 0) ==> {
                let payload = t.skip("data: "@.len() as int);
                &&& payload == "[DONE]"@ ==> r is Done
                &&& payload != "[DONE]"@ && payload.len() == 0 ==> r is Ignored
                &&& payload != "[DONE]"@ && payload.len() > 0 ==> (r matches SseLine::Payload(p)
                    && p@ == payload)
            }
        }),
{
    proof {
        reveal_strlit("data: ");
    }
    let trimmed = trim(line);
    if !starts_with_str(trimmed, "data: ") {
        return SseLine::Ignored;
    }
    let trimmed_len = trimmed.unicode_len();
    let payload = trimmed.substring_char(6, trimmed_len);
    proof {
        assert(payload@ =~= trim_spec(line@).skip("data: "@.len() as int));
    }
    if str_eq(payload, "[DONE]") {
        return SseLine::Done;
    }
    if payload.is_empty() {
        return SseLine::Ignored;
    }
    SseLine::Payload(String::from_str(payload))
}

} // verus!
