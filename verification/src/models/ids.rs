//! Identifiers of current models.

use vstd::prelude::*;

verus! {

pub const GPT_5_5: &'static str = "gpt-5.5";

pub const GPT_5_4: &'static str = "gpt-5.4";

pub const GPT_5_4_MINI: &'static str = "gpt-5.4-mini";

pub const GPT_5_4_NANO: &'static str = "gpt-5.4-nano";

pub const GPT_5_2: &'static str = "gpt-5.2";

pub const GPT_5_1: &'static str = "gpt-5.1";

pub const GPT_5: &'static str = "gpt-5";

pub const GPT_5_MINI: &'static str = "gpt-5-mini";

pub const GPT_5_NANO: &'static str = "gpt-5-nano";

pub const GPT_4_1: &'static str = "gpt-4.1";

pub const GPT_4_1_MINI: &'static str = "gpt-4.1-mini";

pub const GPT_4O: &'static str = "gpt-4o";

pub const GPT_4O_MINI: &'static str = "gpt-4o-mini";

pub const TEXT_EMBEDDING_3_LARGE: &'static str = "text-embedding-3-large";

pub const TEXT_EMBEDDING_3_SMALL: &'static str = "text-embedding-3-small";

} // verus!
