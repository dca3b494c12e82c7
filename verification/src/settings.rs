//! What the worker is configured with before it serves its first task.

use crate::outside::{parse_usize, usize_of_text};
use crate::session::SessionLimits;
use vstd::prelude::*;

verus! {

/// The model file that is loaded where none is named.
pub const DEFAULT_MODEL_FILE_NAME: &'static str = "models/Llama-3.2-3B-Instruct-Q4_K_M.gguf";

/// The context size where none is configured, or one that is no number.
pub const DEFAULT_CONTEXT_SIZE: usize = 32_768;

/// The chat template of a model file that has none.
pub const MISSING_CHAT_TEMPLATE: &'static str = "chat template missing";

/// The number of tasks that the admission queue holds at most.
pub const TASK_QUEUE_CAPACITY: usize = 10;

/// The model file to load: the one that is named, or the default.
pub fn model_file_name(named: Option<String>) -> (name: String)
    ensures
        name@ == (match named {
            Some(given) => given@,
            None => DEFAULT_MODEL_FILE_NAME@,
        }),
{
    match named {
        Some(given) => given,
        None => DEFAULT_MODEL_FILE_NAME.to_owned(),
    }
}

/// The context size, given the number that the configured text reads as, if
/// there is one.
pub fn context_size_from(parsed: Option<usize>) -> (size: usize)
    ensures
        size == (match parsed {
            Some(n) => n,
            None => DEFAULT_CONTEXT_SIZE,
        }),
{
    match parsed {
        Some(n) => n,
        None => DEFAULT_CONTEXT_SIZE,
    }
}

/// The context size that is configured.
pub open spec fn spec_context_size(configured: Option<Seq<char>>) -> usize {
    match configured {
        Some(text) => match usize_of_text(text) {
            Some(n) => n,
            None => DEFAULT_CONTEXT_SIZE,
        },
        None => DEFAULT_CONTEXT_SIZE,
    }
}

/// The context size: the number that the configured text reads as, or the
/// default where nothing is configured or the text is no number.
pub fn context_size(configured: Option<&str>) -> (size: usize)
    ensures
        size == spec_context_size(
            match configured {
                Some(text) => Some(text@),
                None => None,
            },
        ),
{
    match configured {
        Some(text) => context_size_from(parse_usize(text)),
        None => DEFAULT_CONTEXT_SIZE,
    }
}

/// The number of positions that sessions may use: what the model can hold,
/// cut down to the configured context size.
pub fn sequence_length(model_sequence_length: usize, context_size: usize) -> (length: usize)
    ensures
        length <= model_sequence_length,
        length <= context_size,
        length == model_sequence_length || length == context_size,
{
    if model_sequence_length <= context_size {
        model_sequence_length
    } else {
        context_size
    }
}

/// The chat template to use: the one of the model file, or a stand-in.
pub fn chat_template(found: Option<String>) -> (template: String)
    ensures
        template@ == (match found {
            Some(given) => given@,
            None => MISSING_CHAT_TEMPLATE@,
        }),
{
    match found {
        Some(given) => given,
        None => MISSING_CHAT_TEMPLATE.to_owned(),
    }
}

/// The bounds of the sessions of a model: its end-of-sequence token, the
/// number of positions that sessions may use and, where no bound on the
/// generated tokens is configured, that same number for it.
pub fn session_limits(
    eos_token: usize,
    sequence_length: usize,
    max_generated: Option<usize>,
) -> (limits: SessionLimits)
    ensures
        limits.eos_token == eos_token,
        limits.max_sequence_length == sequence_length,
        limits.max_generated == (match max_generated {
            Some(bound) => bound,
            None => sequence_length,
        }),
{
    SessionLimits {
        eos_token,
        max_generated: match max_generated {
            Some(bound) => bound,
            None => sequence_length,
        },
        max_sequence_length: sequence_length,
    }
}

} // verus!
