//! Response-token budget estimation.
//!
//! A budget is an estimate derived from the size of the input, raised to
//! [`MIN_AI_MAX_TOKENS`] and then lowered to the user's ceiling when one is
//! enabled. The ceiling itself never drops below the minimum, so the minimum
//! always wins over an under-sized ceiling.

use vstd::prelude::*;

verus! {

/// The smallest token budget ever handed out.
pub const MIN_AI_MAX_TOKENS: u32 = 1000;

/// Tokens added on top of the scaled character count of a text.
pub const TEXT_TOKEN_BUFFER: u64 = 256;

/// Tokens added on top of the character estimate of an image.
pub const IMAGE_TOKEN_BUFFER: u64 = 512;

/// Pixels that one readable character is assumed to occupy.
pub const PIXELS_PER_CHAR: u64 = 350;

/// User-configured ceiling on the token budget.
#[derive(Clone, Copy, Debug, PartialEq, Eq)]
pub struct TokenLimitConfig {
    pub enable_user_max_tokens: bool,
    pub user_max_tokens: u32,
}

/// `numerator / denominator`, rounded up.
pub open spec fn ceil_div(numerator: int, denominator: int) -> int
    recommends
        numerator >= 0,
        denominator > 0,
{
    (numerator + denominator - 1) / denominator
}

/// The ceiling in force: the user's maximum raised to the minimum budget, or
/// nothing when no limit is configured or the limit is switched off.
pub open spec fn effective_ceiling(config: Option<&TokenLimitConfig>) -> Option<int> {
    match config {
        Some(cfg) => if cfg.enable_user_max_tokens {
            Some(vstd::math::max(cfg.user_max_tokens as int, MIN_AI_MAX_TOKENS as int))
        } else {
            None
        },
        None => None,
    }
}

/// The budget for a raw estimate: at least the minimum, at most the ceiling
/// in force, and never more than a `u32` holds.
pub open spec fn clamped_budget(estimated: int, config: Option<&TokenLimitConfig>) -> int {
    let floored = vstd::math::max(estimated, MIN_AI_MAX_TOKENS as int);
    let capped = match effective_ceiling(config) {
        Some(ceiling) => vstd::math::min(floored, ceiling),
        None => floored,
    };
    vstd::math::min(capped, u32::MAX as int)
}

/// Raw estimate for a text of `char_count` characters: 1.2 tokens per
/// character, rounded up, plus the text buffer.
pub open spec fn text_estimate(char_count: nat) -> int {
    ceil_div(6 * (char_count as int), 5) + TEXT_TOKEN_BUFFER as int
}

/// Raw estimate for an image of `width` by `height` pixels: one character per
/// 350 pixels, rounded up, plus the image buffer.
pub open spec fn image_estimate(width: nat, height: nat) -> int {
    ceil_div((width as int) * (height as int), PIXELS_PER_CHAR as int) + IMAGE_TOKEN_BUFFER as int
}

/// The budget for answering a text of `char_count` characters.
pub open spec fn text_response_tokens(char_count: nat, config: Option<&TokenLimitConfig>) -> int {
    clamped_budget(text_estimate(char_count), config)
}

/// The budget for answering about an image; an image without area gets the
/// minimum estimate.
pub open spec fn image_response_tokens(
    width: nat,
    height: nat,
    config: Option<&TokenLimitConfig>,
) -> int {
    if width == 0 || height == 0 {
        clamped_budget(MIN_AI_MAX_TOKENS as int, config)
    } else {
        clamped_budget(image_estimate(width, height), config)
    }
}

/// Clamps a raw estimate into the allowed range.
pub fn clamp_with_limits(estimated: u64, config: Option<&TokenLimitConfig>) -> (budget: u32)
    ensures
        budget as int == clamped_budget(estimated as int, config),
{
    let floor: u64 = MIN_AI_MAX_TOKENS as u64;
    let mut value: u64 = if estimated < floor { floor } else { estimated };
    if let Some(cfg) = config {
        if cfg.enable_user_max_tokens {
            let requested: u64 = cfg.user_max_tokens as u64;
            let user_max: u64 = if requested < floor { floor } else { requested };
            if user_max < value {
                value = user_max;
            }
        }
    }
    if value > u32::MAX as u64 {
        u32::MAX
    } else {
        value as u32
    }
}

/// Estimates the token budget for answering `text`.
pub fn calculate_text_response_tokens(
    text: &str,
    config: Option<&TokenLimitConfig>,
) -> (budget: u32)
    ensures
        budget as int == text_response_tokens(text@.len(), config),
        budget >= MIN_AI_MAX_TOKENS,
{
    if text.is_empty() {
        return clamp_with_limits(MIN_AI_MAX_TOKENS as u64, config);
    }
    let char_count: u64 = text.unicode_len() as u64;
    let round_up: u64 = if char_count % 5 == 0 { 0 } else { 1 };
    let scaled: u64 = char_count.saturating_add(char_count / 5).saturating_add(round_up);
    let buffered: u64 = scaled.saturating_add(TEXT_TOKEN_BUFFER);
    proof {
        lemma_saturated_estimate(buffered as int, text_estimate(text@.len()), config);
    }
    clamp_with_limits(buffered, config)
}

/// Estimates the token budget for answering about an image of `width` by
/// `height` pixels.
pub fn calculate_image_response_tokens(
    width: u32,
    height: u32,
    config: Option<&TokenLimitConfig>,
) -> (budget: u32)
    ensures
        budget as int == image_response_tokens(width as nat, height as nat, config),
        budget >= MIN_AI_MAX_TOKENS,
{
    if width == 0 || height == 0 {
        return clamp_with_limits(MIN_AI_MAX_TOKENS as u64, config);
    }
    assert(width as int * height as int <= 0xFFFF_FFFF * 0xFFFF_FFFF) by (nonlinear_arith)
        requires
            0 <= width <= 0xFFFF_FFFF,
            0 <= height <= 0xFFFF_FFFF,
    ;
    let area: u64 = width as u64 * height as u64;
    let round_up: u64 = if area % PIXELS_PER_CHAR == 0 { 0 } else { 1 };
    let approx_chars: u64 = area / PIXELS_PER_CHAR + round_up;
    let buffered: u64 = approx_chars + IMAGE_TOKEN_BUFFER;
    clamp_with_limits(buffered, config)
}

/// An estimate that saturated at `u64::MAX` is clamped exactly as the true
/// estimate is: both lie beyond every budget.
proof fn lemma_saturated_estimate(computed: int, exact: int, config: Option<&TokenLimitConfig>)
    requires
        computed == exact || (computed == u64::MAX && exact >= u64::MAX),
    ensures
        clamped_budget(computed, config) == clamped_budget(exact, config),
{
}

/// No budget is below the minimum, whatever the estimate and the limit.
pub proof fn lemma_budget_at_least_minimum(estimated: int, config: Option<&TokenLimitConfig>)
    ensures
        clamped_budget(estimated, config) >= MIN_AI_MAX_TOKENS,
        clamped_budget(estimated, config) <= u32::MAX,
{
}

/// With a limit enabled, no budget exceeds the user's maximum raised to the
/// minimum.
pub proof fn lemma_budget_within_ceiling(estimated: int, config: TokenLimitConfig)
    requires
        config.enable_user_max_tokens,
    ensures
        clamped_budget(estimated, Some(&config)) <= vstd::math::max(
            config.user_max_tokens as int,
            MIN_AI_MAX_TOKENS as int,
        ),
{
}

/// An enabled user maximum at or below the minimum yields exactly the minimum
/// for every text and every image: the floor dominates an under-sized ceiling.
pub proof fn lemma_undersized_ceiling_yields_minimum(
    config: TokenLimitConfig,
    char_count: nat,
    width: nat,
    height: nat,
)
    requires
        config.enable_user_max_tokens,
        config.user_max_tokens <= MIN_AI_MAX_TOKENS,
    ensures
        text_response_tokens(char_count, Some(&config)) == MIN_AI_MAX_TOKENS,
        image_response_tokens(width, height, Some(&config)) == MIN_AI_MAX_TOKENS,
{
}

/// Where there is nothing to answer, the budget is exactly the minimum under
/// every limit: for the empty text and for an image without area.
pub proof fn lemma_nothing_to_answer_gets_minimum(
    width: nat,
    height: nat,
    config: Option<&TokenLimitConfig>,
)
    requires
        width == 0 || height == 0,
    ensures
        text_response_tokens(0, config) == MIN_AI_MAX_TOKENS,
        image_response_tokens(width, height, config) == MIN_AI_MAX_TOKENS,
{
}

/// Without a limit in force the budget is the estimate itself wherever the
/// estimate lies between the minimum and the largest `u32`.
pub proof fn lemma_unlimited_budget_is_estimate(estimated: int, config: Option<&TokenLimitConfig>)
    requires
        effective_ceiling(config) is None,
        MIN_AI_MAX_TOKENS <= estimated <= u32::MAX,
    ensures
        clamped_budget(estimated, config) == estimated,
{
}

} // verus!
