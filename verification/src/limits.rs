//! The limits an agent works within: how much history it keeps, how much context it may send and
//! how long its answers may be.

use vstd::prelude::*;

use crate::text::{parsed_setting, read_setting};

verus! {

/// The size classes of the context windows of language models.
#[derive(Debug, Clone, Copy, PartialEq, Eq, Structural)]
pub enum ContextTier {
    Small,
    Medium,
    Large,
    Massive,
}

/// How many messages of history are kept, for every tier, unless a setting says otherwise.
pub const DEFAULT_MEMORY_WINDOW: usize = 40;

/// The number of messages of history for the given value of the memory setting.
pub open spec fn memory_window(setting: Option<&str>) -> usize {
    match parsed_setting(setting) {
        Some(size) => size,
        None => DEFAULT_MEMORY_WINDOW,
    }
}

/// The number of messages of history to keep: what the setting says, or the default where it is
/// missing or no number. Zero stands for unlimited history.
pub fn read_memory_window_config(setting: Option<&str>) -> (size: usize)
    ensures
        size == memory_window(setting),
{
    match read_setting(setting) {
        Some(size) => size,
        None => DEFAULT_MEMORY_WINDOW,
    }
}

/// How many messages a history of the given size keeps, or `None` where it keeps all of them.
pub open spec fn kept_messages(size: usize) -> Option<usize> {
    if size == 0 {
        None
    } else {
        Some(size)
    }
}

/// How many messages a history of the given size keeps; zero keeps all of them.
pub fn history_limit(size: usize) -> (limit: Option<usize>)
    ensures
        limit == kept_messages(size),
        size == 0 ==> limit is None,
        size > 0 ==> limit == Some(size),
{
    if size == 0 {
        None
    } else {
        Some(size)
    }
}

/// The size in tokens of the context windows of a tier.
pub open spec fn tier_window(tier: ContextTier) -> nat {
    match tier {
        ContextTier::Small => 50_000,
        ContextTier::Medium => 128_000,
        ContextTier::Large => 200_000,
        ContextTier::Massive => 2_000_000,
    }
}

/// The bytes of context that may be sent to a model with a window of the given size in tokens:
/// four bytes for a token, of which eight tenths are used and the rest is left for the answer.
pub open spec fn context_bytes(window: nat) -> nat {
    window * 4 * 8 / 10
}

/// The bytes of context that may be sent, for a tier and the value of the context window setting.
pub open spec fn max_context_bytes(tier: ContextTier, context_window: Option<&str>) -> nat {
    match parsed_setting(context_window) {
        Some(window) => context_bytes(window as nat),
        None => context_bytes(tier_window(tier)),
    }
}

/// Whether the context window that a setting asks for, if it asks for one, can be computed with.
pub open spec fn context_window_fits(context_window: Option<&str>) -> bool {
    match parsed_setting(context_window) {
        Some(window) => window * 4 * 8 <= usize::MAX,
        None => true,
    }
}

/// Whether the context window that a setting asks for, if it asks for one, can be computed with.
pub fn is_context_window_in_range(context_window: Option<&str>) -> (fits: bool)
    ensures
        fits == context_window_fits(context_window),
{
    match read_setting(context_window) {
        Some(window) => window <= usize::MAX / 32,
        None => true,
    }
}

/// The longest answer, in tokens, that a model of a tier is asked for.
pub open spec fn tier_max_tokens(tier: ContextTier) -> usize {
    match tier {
        ContextTier::Small => 2048,
        ContextTier::Medium => 4096,
        ContextTier::Large => 8192,
        ContextTier::Massive => 16384,
    }
}

/// The longest answer, in tokens, for a tier and the value of the output setting.
pub open spec fn max_tokens(tier: ContextTier, max_output_tokens: Option<&str>) -> usize {
    match parsed_setting(max_output_tokens) {
        Some(tokens) => tokens,
        None => tier_max_tokens(tier),
    }
}

/// The place of a tier in the order of their sizes.
pub open spec fn tier_rank(tier: ContextTier) -> nat {
    match tier {
        ContextTier::Small => 0,
        ContextTier::Medium => 1,
        ContextTier::Large => 2,
        ContextTier::Massive => 3,
    }
}

/// With the same settings a larger tier never gets less context nor a shorter answer.
pub proof fn law_larger_tiers_get_no_less(
    smaller: ContextTier,
    larger: ContextTier,
    context_window: Option<&str>,
    max_output_tokens: Option<&str>,
)
    requires
        tier_rank(smaller) <= tier_rank(larger),
    ensures
        max_context_bytes(smaller, context_window) <= max_context_bytes(larger, context_window),
        max_tokens(smaller, max_output_tokens) <= max_tokens(larger, max_output_tokens),
{
}

/// A setting that is a number decides alone: the tier then makes no difference.
pub proof fn law_settings_override_the_tier(
    tier: ContextTier,
    other: ContextTier,
    context_window: Option<&str>,
    max_output_tokens: Option<&str>,
)
    ensures
        parsed_setting(context_window) is Some ==> max_context_bytes(tier, context_window)
            == max_context_bytes(other, context_window),
        parsed_setting(max_output_tokens) is Some ==> max_tokens(tier, max_output_tokens)
            == max_tokens(other, max_output_tokens),
{
}

/// At four bytes for a token, the context that may be sent fills at most eight tenths of the
/// window, and one byte more would not.
pub proof fn law_context_leaves_room_for_the_answer(window: nat)
    ensures
        context_bytes(window) * 10 <= window * 4 * 8,
        (context_bytes(window) + 1) * 10 > window * 4 * 8,
{
}

/// As many messages of history are kept as the memory setting says, and forty where it says no
/// number. Zero keeps all of them.
pub proof fn law_history_is_as_long_as_is_set(setting: Option<&str>, size: usize)
    ensures
        parsed_setting(setting) == Some(size) ==> memory_window(setting) == size,
        parsed_setting(setting) is None ==> memory_window(setting) == 40,
        size > 0 ==> kept_messages(size) == Some(size),
        kept_messages(0) is None,
{
}

/// A context window that is set to a number allows eight tenths of four bytes for each of its
/// tokens, rounded down. It can be computed with exactly where thirty-two times the number can.
pub proof fn law_set_window_decides(tier: ContextTier, setting: Option<&str>, window: usize)
    requires
        parsed_setting(setting) == Some(window),
    ensures
        max_context_bytes(tier, setting) * 10 <= window * 32,
        (max_context_bytes(tier, setting) + 1) * 10 > window * 32,
        context_window_fits(setting) <==> window * 32 <= usize::MAX,
{
}

/// Without a number in the setting the tier decides what may be sent, and that can always be
/// computed with.
pub proof fn law_tier_decides_without_a_window(setting: Option<&str>)
    requires
        parsed_setting(setting) is None,
    ensures
        max_context_bytes(ContextTier::Small, setting) == 160_000,
        max_context_bytes(ContextTier::Medium, setting) == 409_600,
        max_context_bytes(ContextTier::Large, setting) == 640_000,
        max_context_bytes(ContextTier::Massive, setting) == 6_400_000,
        context_window_fits(setting),
{
}

/// The longest answer is what the output setting says, and what suits the tier where it says no
/// number.
pub proof fn law_answer_is_as_long_as_is_set(
    tier: ContextTier,
    setting: Option<&str>,
    tokens: usize,
)
    ensures
        parsed_setting(setting) == Some(tokens) ==> max_tokens(tier, setting) == tokens,
        parsed_setting(setting) is None ==> match tier {
            ContextTier::Small => max_tokens(tier, setting) == 2048,
            ContextTier::Medium => max_tokens(tier, setting) == 4096,
            ContextTier::Large => max_tokens(tier, setting) == 8192,
            ContextTier::Massive => max_tokens(tier, setting) == 16384,
        },
{
}

} // verus!
