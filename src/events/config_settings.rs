//! Names of the settings that configuration responses refer to.
use vstd::prelude::*;

verus! {

pub const PROMPT_SECTIONS: &'static str = "prompt-sections";

pub const STT_TIMEOUT: &'static str = "stt-timeout";

pub const STT_PROVIDER: &'static str = "stt-provider";

pub const LLM_PROVIDER: &'static str = "llm-provider";

} // verus!
