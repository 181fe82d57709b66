use vstd::prelude::*;

verus! {

/// The configuration of one generation call: a token ceiling and the
/// sampling settings.
///
/// The library itself reads the ceiling only, to count the tokens of a turn.
/// The sampling settings are for whoever calls the engine: they are handed
/// to it with each request for tokens. The three real-valued ones are held
/// in thousandths, so that `950` stands for 0.95.
#[derive(Clone, Copy, Debug, PartialEq, Eq, Structural)]
pub struct GenerationConfig {
    /// The most tokens to generate; `None` and `Some(0)` both leave the end
    /// of the response to the engine.
    pub max_tokens: Option<usize>,
    /// Sampling temperature, in thousandths.
    pub temperature_milli: u32,
    /// How many of the most likely tokens are kept for sampling.
    pub top_k: u32,
    /// Cumulative probability after which no more tokens are kept, in
    /// thousandths.
    pub top_p_milli: u32,
    /// Penalty for repeating a token, in thousandths.
    pub repeat_penalty_milli: u32,
    /// How many of the last tokens the repeat penalty looks at.
    pub repeat_window: u32,
    /// How many threads the engine computes with.
    pub thread_count: u32,
}

/// The token ceiling that a caller's limit asks for: none for an absent limit
/// and none for a limit of zero.
pub open spec fn ceiling_of(token_limit: Option<usize>) -> Option<usize> {
    match token_limit {
        Some(n) => if n > 0 {
            Some(n)
        } else {
            None
        },
        None => None,
    }
}

/// The configuration of a call with the given token limit: the fixed sampling
/// settings and the ceiling that the limit asks for.
pub open spec fn config_for(token_limit: Option<usize>) -> GenerationConfig {
    GenerationConfig {
        max_tokens: ceiling_of(token_limit),
        temperature_milli: 100,
        top_k: 40,
        top_p_milli: 950,
        repeat_penalty_milli: 1300,
        repeat_window: 64,
        thread_count: 8,
    }
}

/// How many tokens a call may draw from the engine: the ceiling where there
/// is one, and otherwise as many as can be counted.
pub open spec fn budget_of(max_tokens: Option<usize>) -> usize {
    match ceiling_of(max_tokens) {
        Some(n) => n,
        None => usize::MAX,
    }
}

/// The token count as an engine takes it that reads zero as "no ceiling":
/// zero where there is none, and a ceiling beyond the engine's range as the
/// largest count it can take.
pub open spec fn engine_count_of(max_tokens: Option<usize>) -> i32 {
    match ceiling_of(max_tokens) {
        Some(n) => if n > i32::MAX {
            i32::MAX
        } else {
            n as i32
        },
        None => 0i32,
    }
}

impl GenerationConfig {
    /// The configuration of one call. A limit of zero is no limit: the
    /// engine is never asked for zero tokens.
    pub fn new(token_limit: Option<usize>) -> (config: GenerationConfig)
        ensures
            config == config_for(token_limit),
            config.max_tokens is None <==> (token_limit is None || token_limit == Some(0usize)),
    {
        let max_tokens = match token_limit {
            Some(n) => if n > 0 {
                Some(n)
            } else {
                None
            },
            None => None,
        };
        GenerationConfig {
            max_tokens,
            temperature_milli: 100,
            top_k: 40,
            top_p_milli: 950,
            repeat_penalty_milli: 1300,
            repeat_window: 64,
            thread_count: 8,
        }
    }

    /// Whether the end of the response is left to the engine.
    pub fn is_unbounded(&self) -> (unbounded: bool)
        ensures
            unbounded == (ceiling_of(self.max_tokens) is None),
    {
        match self.max_tokens {
            Some(n) => n == 0,
            None => true,
        }
    }

    /// How many tokens the call may draw from the engine.
    pub fn token_budget(&self) -> (budget: usize)
        ensures
            budget == budget_of(self.max_tokens),
            budget > 0,
    {
        match self.max_tokens {
            Some(n) => if n > 0 {
                n
            } else {
                usize::MAX
            },
            None => usize::MAX,
        }
    }

    /// The token count for an engine that reads zero as "no ceiling".
    pub fn engine_token_count(&self) -> (count: i32)
        ensures
            count == engine_count_of(self.max_tokens),
            count == 0 <==> ceiling_of(self.max_tokens) is None,
    {
        match self.max_tokens {
            Some(n) => if n > i32::MAX as usize {
                i32::MAX
            } else {
                n as i32
            },
            None => 0,
        }
    }
}

} // verus!
