use vstd::prelude::*;
use crate::config::{config_for, GenerationConfig};
use crate::policy::Decision;
use crate::prompt::{default_system, rendered, stop_set, PromptTemplate};
use crate::session::{step, EventModel, ResponseBuffer, StreamEvent, StreamState};

verus! {

/// What is handed to an engine that takes a whole prompt and streams through
/// a callback: the templated prompt and the configuration of the call.
pub struct PredictRequest {
    pub prompt: String,
    pub config: GenerationConfig,
}

/// The prompt for a query under the role-token template and its default
/// system instruction.
pub fn contexted_prompt(query: &str) -> (prompt: String)
    ensures
        prompt@ == rendered(
            PromptTemplate::RoleTokens,
            default_system(PromptTemplate::RoleTokens),
            query@,
        ),
{
    let template = PromptTemplate::RoleTokens;
    template.render(template.default_system(), query)
}

/// The request for one turn of chat: the templated query, the fixed sampling
/// settings, and the token ceiling that `tokens` asks for.
pub fn predict_request(query: &str, tokens: Option<usize>) -> (request: PredictRequest)
    ensures
        request.prompt@ == rendered(
            PromptTemplate::RoleTokens,
            default_system(PromptTemplate::RoleTokens),
            query@,
        ),
        request.config == config_for(tokens),
{
    PredictRequest { prompt: contexted_prompt(query), config: GenerationConfig::new(tokens) }
}

/// The engine's per-token callback: takes the token into the response
/// buffer as a fragment, under the stop markers of the role-token template,
/// and says whether the engine is to go on. The buffer's text, not what the
/// engine gathers itself, is the response: a marker that arrives in pieces
/// is then caught like any other.
pub fn token_decision(buffer: &mut ResponseBuffer, token: &str) -> (go: bool)
    ensures
        final(buffer)@ == step(
            stop_set(PromptTemplate::RoleTokens),
            old(buffer)@,
            EventModel::Fragment(token@),
        ),
        go == (final(buffer)@.state == StreamState::Open),
{
    let policy = PromptTemplate::RoleTokens.stop_markers();
    let event = StreamEvent::Fragment(token.to_owned());
    match buffer.accept(&policy, &event) {
        Decision::Continue => true,
        Decision::Halt => false,
    }
}

} // verus!
