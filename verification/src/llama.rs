use vstd::prelude::*;
use crate::config::{budget_of, config_for, GenerationConfig};
use crate::policy::{Decision, StopMarkers};
use crate::prompt::{default_system, rendered, PromptTemplate};
use crate::session::{
    fresh, is_outcome, outcome, step, BufferModel, EventModel, InferenceFailure, ResponseBuffer,
    StreamEvent, StreamState,
};

verus! {

#[verifier::external_type_specification]
#[verifier::external_body]
pub struct ExLlama(llm::models::Llama);

#[verifier::external_type_specification]
#[verifier::external_body]
pub struct ExInferenceSession(llm::InferenceSession);

#[verifier::external_type_specification]
#[verifier::external_body]
pub struct ExEngineLoadError(llm::LoadError);

#[verifier::external_type_specification]
#[verifier::external_body]
pub struct ExEngineInferenceError(llm::InferenceError);

#[verifier::external_type_specification]
#[verifier::external_body]
pub struct ExTokenUtf8Buffer(llm::TokenUtf8Buffer);

/// The text that the engine's `Display` impl gives for a load error. It is
/// made of the error's variant and fields alone.
pub uninterp spec fn load_error_text(error: llm::LoadError) -> Seq<char>;

/// Which of its four variants an engine error is.
pub uninterp spec fn kind_of(error: llm::InferenceError) -> EngineStop;

/// The bytes that a token buffer holds back.
pub uninterp spec fn held(buffer: llm::TokenUtf8Buffer) -> Seq<u8>;

/// The text that the token buffer releases for the bytes it holds, if it
/// releases any: all of them where they are UTF-8, and else the longest
/// proper end of them that is.
pub uninterp spec fn decoded(bytes: Seq<u8>) -> Option<Seq<char>>;

/// A loaded model and the inference session that was started on it.
pub struct LLM {
    model: llm::models::Llama,
    session: llm::InferenceSession,
}

/// What the loader is to be called with: the path as the caller gave it, and
/// the caller's context size.
pub struct LoadRequest {
    pub path: String,
    pub context_size: usize,
}

/// Why a model could not be loaded, in the engine's words.
#[derive(Debug)]
pub struct LoadFailure {
    pub message: String,
}

/// Why a one-shot chat gave no response.
#[derive(Debug)]
pub enum ChatError {
    /// The model could not be loaded; the engine was never asked to generate.
    Load(LoadFailure),
    /// The engine failed while it generated.
    Inference(InferenceFailure),
}

/// The ways in which the engine ends a step without a token.
#[derive(Clone, Copy, Debug, PartialEq, Eq, Structural)]
pub enum EngineStop {
    TokenizationFailed,
    ContextFull,
    EndOfText,
    UserCallback,
}

/// What is to be fed to the engine for one turn, and the token limit of the
/// turn.
pub struct TurnRequest {
    pub prompt: String,
    pub token_limit: Option<usize>,
}

/// One turn of chat under way: the response so far, the configuration of the
/// call, how many tokens have been drawn from the engine, and the bytes of
/// drawn tokens that do not make up text yet.
pub struct Turn {
    pub buffer: ResponseBuffer,
    pub config: GenerationConfig,
    pub drawn: usize,
    pub utf8: llm::TokenUtf8Buffer,
}

/// A one-shot chat about to begin: the model, which is dropped with it, and
/// what is to be fed to it.
pub struct OneShot {
    pub llm: LLM,
    pub request: TurnRequest,
}

/// Calls `to_string` on the engine's load error, which gives the text of its
/// `Display` impl.
#[verifier::external_body]
fn load_error_message(error: &llm::LoadError) -> (message: String)
    ensures
        message@ == load_error_text(*error),
{
    error.to_string()
}

/// Calls `llm::Model::start_session` with the engine's default session
/// configuration. Nothing is claimed of the session.
#[verifier::external_body]
fn start_session(model: &llm::models::Llama) -> llm::InferenceSession {
    llm::Model::start_session(model, Default::default())
}

/// Calls `llm::TokenUtf8Buffer::new`, which gives a buffer that holds no
/// bytes.
#[verifier::external_body]
fn new_utf8_buffer() -> (buffer: llm::TokenUtf8Buffer)
    ensures
        held(buffer) == Seq::<u8>::empty(),
{
    llm::TokenUtf8Buffer::new()
}

/// Calls `llm::TokenUtf8Buffer::push`. The engine adds the token's bytes to
/// those it holds. Where it releases text for them, it holds nothing
/// afterwards; where it releases none, it holds them all.
#[verifier::external_body]
fn push_token(buffer: &mut llm::TokenUtf8Buffer, token: &Vec<u8>) -> (text: Option<String>)
    ensures
        match text {
            Some(t) => decoded(held(*old(buffer)) + token@) == Some(t@) && held(*final(buffer))
                == Seq::<u8>::empty(),
            None => decoded(held(*old(buffer)) + token@) is None && held(*final(buffer)) == held(
                *old(buffer),
            ) + token@,
        },
{
    buffer.push(token)
}

/// Tells the four variants of `llm::InferenceError` apart, one for one.
#[verifier::external_body]
fn engine_stop(error: &llm::InferenceError) -> (stop: EngineStop)
    ensures
        stop == kind_of(*error),
{
    match error {
        llm::InferenceError::TokenizationFailed => EngineStop::TokenizationFailed,
        llm::InferenceError::ContextFull => EngineStop::ContextFull,
        llm::InferenceError::EndOfText => EngineStop::EndOfText,
        llm::InferenceError::UserCallback(_) => EngineStop::UserCallback,
    }
}

/// What an engine stop means while the model generates: the end of its text
/// and a full context end the stream, anything else is a fault.
pub open spec fn stop_event_of(stop: EngineStop) -> EventModel {
    match stop {
        EngineStop::EndOfText => EventModel::EndOfSequence,
        EngineStop::ContextFull => EventModel::Exhausted,
        EngineStop::TokenizationFailed => EventModel::Fault(InferenceFailure::TokenizationFailed),
        EngineStop::UserCallback => EventModel::Fault(InferenceFailure::CallbackFailed),
    }
}

/// What an engine stop means while the prompt is fed: always a fault, since
/// no text has been generated yet.
pub open spec fn prompt_fault_of(stop: EngineStop) -> InferenceFailure {
    match stop {
        EngineStop::TokenizationFailed => InferenceFailure::TokenizationFailed,
        EngineStop::ContextFull => InferenceFailure::PromptTooLong,
        EngineStop::UserCallback => InferenceFailure::CallbackFailed,
        EngineStop::EndOfText => InferenceFailure::EngineFault,
    }
}

/// The stream event for an engine stop during generation.
pub fn stop_event(stop: EngineStop) -> (event: StreamEvent)
    ensures
        event@ == stop_event_of(stop),
{
    match stop {
        EngineStop::EndOfText => StreamEvent::EndOfSequence,
        EngineStop::ContextFull => StreamEvent::Exhausted,
        EngineStop::TokenizationFailed => StreamEvent::Fault(InferenceFailure::TokenizationFailed),
        EngineStop::UserCallback => StreamEvent::Fault(InferenceFailure::CallbackFailed),
    }
}

/// The fault for an engine stop while the prompt is fed.
pub fn prompt_fault(stop: EngineStop) -> (fault: InferenceFailure)
    ensures
        fault == prompt_fault_of(stop),
{
    match stop {
        EngineStop::TokenizationFailed => InferenceFailure::TokenizationFailed,
        EngineStop::ContextFull => InferenceFailure::PromptTooLong,
        EngineStop::UserCallback => InferenceFailure::CallbackFailed,
        EngineStop::EndOfText => InferenceFailure::EngineFault,
    }
}

/// The buffer of a turn whose prompt was fed with the given result: open
/// and empty after a prompt that was taken, failed after one that was not.
pub open spec fn begun(fed: Result<(), EngineStop>) -> BufferModel {
    match fed {
        Ok(_) => fresh(),
        Err(stop) => BufferModel {
            text: Seq::empty(),
            state: StreamState::Failed(prompt_fault_of(stop)),
        },
    }
}

/// What the engine's result of feeding a prompt stands for.
pub open spec fn fed_kind(fed: Result<(), llm::InferenceError>) -> Result<(), EngineStop> {
    match fed {
        Ok(_) => Ok(()),
        Err(error) => Err(kind_of(error)),
    }
}

/// The event that one draw from the engine gives, if it gives one: the text
/// that the token buffer releases, or the engine's stop.
pub open spec fn drawn_event(
    held_back: Seq<u8>,
    drawn: Result<Vec<u8>, llm::InferenceError>,
) -> Option<EventModel> {
    match drawn {
        Ok(bytes) => match decoded(held_back + bytes@) {
            Some(text) => Some(EventModel::Fragment(text)),
            None => None,
        },
        Err(error) => Some(stop_event_of(kind_of(error))),
    }
}

/// What is handed to the loader for a model file: the path, unchanged, and
/// the caller's context size.
pub fn load_request(path: &str, context_size: usize) -> (request: LoadRequest)
    ensures
        request.path@ == path@,
        request.context_size == context_size,
{
    LoadRequest { path: path.to_owned(), context_size }
}

impl LLM {
    /// The model that the handle holds.
    pub closed spec fn model(&self) -> llm::models::Llama {
        self.model
    }

    /// The session that the handle holds.
    pub closed spec fn session(&self) -> llm::InferenceSession {
        self.session
    }

    /// The model and the session, for a call into the engine. The model
    /// stays as it is; the session is the caller's to work on.
    pub fn engine(&mut self) -> (parts: (&llm::models::Llama, &mut llm::InferenceSession))
        ensures
            *parts.0 == old(self).model(),
            *parts.1 == old(self).session(),
            final(self).model() == old(self).model(),
            final(self).session() == *final(parts.1),
    {
        (&self.model, &mut self.session)
    }
}

/// The handle for the outcome of loading: every loaded model gets one, with
/// a session started on that model; a load error becomes a load failure
/// that holds the engine's text for it.
pub fn model_handle(outcome: Result<llm::models::Llama, llm::LoadError>) -> (loaded: Result<
    LLM,
    LoadFailure,
>)
    ensures
        match outcome {
            Ok(model) => loaded matches Ok(llm) && llm.model() == model,
            Err(error) => loaded matches Err(failure) && failure.message@ == load_error_text(error),
        },
{
    match outcome {
        Ok(model) => {
            let session = start_session(&model);
            Ok(LLM { model, session })
        },
        Err(error) => Err(LoadFailure { message: load_error_message(&error) }),
    }
}

impl TurnRequest {
    /// The turn for this request, once the engine has been fed its prompt:
    /// nothing drawn, nothing generated, no bytes held back. A prompt that
    /// the engine did not take fails the turn.
    pub fn begin(&self, fed: Result<(), llm::InferenceError>) -> (turn: Turn)
        ensures
            turn.config == config_for(self.token_limit),
            turn.drawn == 0,
            turn.buffer@ == begun(fed_kind(fed)),
            held(turn.utf8) == Seq::<u8>::empty(),
    {
        let fed = match fed {
            Ok(_) => Ok(()),
            Err(error) => Err(engine_stop(&error)),
        };
        Turn::begin(self.token_limit, fed)
    }
}

impl Turn {
    /// Whether another token is to be drawn: the stream is open and the
    /// token budget is not used up.
    pub open spec fn wants(&self) -> bool {
        self.drawn < budget_of(self.config.max_tokens) && self.buffer@.state == StreamState::Open
    }

    /// The turn for a fed prompt: nothing drawn, nothing generated, and the
    /// token ceiling that `token_limit` asks for. A prompt that the engine
    /// did not take fails the turn.
    pub fn begin(token_limit: Option<usize>, fed: Result<(), EngineStop>) -> (turn: Turn)
        ensures
            turn.config == config_for(token_limit),
            turn.drawn == 0,
            turn.buffer@ == begun(fed),
            held(turn.utf8) == Seq::<u8>::empty(),
    {
        let mut buffer = ResponseBuffer::new();
        match fed {
            Ok(_) => {},
            Err(stop) => {
                buffer.state = StreamState::Failed(prompt_fault(stop));
            },
        }
        Turn { buffer, config: GenerationConfig::new(token_limit), drawn: 0, utf8: new_utf8_buffer() }
    }

    /// Whether another token is to be drawn from the engine.
    pub fn wants_token(&self) -> (wants: bool)
        ensures
            wants == self.wants(),
    {
        self.drawn < self.config.token_budget() && self.buffer.is_open()
    }

    /// Counts one drawn token and takes the event that it gave, if it gave
    /// one. A turn that wants no token is left as it is.
    pub fn take_event(&mut self, policy: &StopMarkers, event: Option<StreamEvent>) -> (decision:
        Decision)
        ensures
            final(self).config == old(self).config,
            final(self).utf8 == old(self).utf8,
            final(self).drawn == if old(self).wants() {
                old(self).drawn + 1
            } else {
                old(self).drawn as int
            },
            final(self).buffer@ == match event {
                Some(e) => if old(self).wants() {
                    step(policy@, old(self).buffer@, e@)
                } else {
                    old(self).buffer@
                },
                None => old(self).buffer@,
            },
            decision == if final(self).wants() {
                Decision::Continue
            } else {
                Decision::Halt
            },
    {
        if self.wants_token() {
            self.drawn = self.drawn + 1;
            match event {
                Some(e) => {
                    self.buffer.accept(policy, &e);
                },
                None => {},
            }
        }
        if self.wants_token() {
            Decision::Continue
        } else {
            Decision::Halt
        }
    }

    /// Takes what one draw from the engine gave. A token's bytes go to the
    /// token buffer, and the text that it releases for them is taken as a
    /// fragment; bytes that make up no text yet are held back and give no
    /// event. A stop of the engine is taken as the event that it stands
    /// for. Either way the draw is counted. A turn that wants no token is
    /// left as it is.
    pub fn take(&mut self, policy: &StopMarkers, drawn: Result<Vec<u8>, llm::InferenceError>) -> (decision:
        Decision)
        ensures
            final(self).config == old(self).config,
            !old(self).wants() ==> final(self).drawn == old(self).drawn && final(self).buffer@ == old(
                self,
            ).buffer@ && final(self).utf8 == old(self).utf8,
            old(self).wants() ==> final(self).drawn == old(self).drawn + 1,
            old(self).wants() ==> final(self).buffer@ == match drawn_event(
                held(old(self).utf8),
                drawn,
            ) {
                Some(event) => step(policy@, old(self).buffer@, event),
                None => old(self).buffer@,
            },
            old(self).wants() ==> held(final(self).utf8) == match drawn {
                Ok(bytes) => if decoded(held(old(self).utf8) + bytes@) is Some {
                    Seq::<u8>::empty()
                } else {
                    held(old(self).utf8) + bytes@
                },
                Err(_) => held(old(self).utf8),
            },
            decision == if final(self).wants() {
                Decision::Continue
            } else {
                Decision::Halt
            },
    {
        if !self.wants_token() {
            return Decision::Halt;
        }
        let event = match drawn {
            Ok(bytes) => {
                match push_token(&mut self.utf8, &bytes) {
                    Some(text) => Some(StreamEvent::Fragment(text)),
                    None => None,
                }
            },
            Err(error) => Some(stop_event(engine_stop(&error))),
        };
        self.take_event(policy, event)
    }

    /// Ends the turn: the response is the generated text without its
    /// trailing newlines, whatever ended the stream; after a fault there is
    /// no response.
    pub fn finish(self) -> (result: Result<String, InferenceFailure>)
        ensures
            is_outcome(result, outcome(self.buffer@)),
    {
        self.buffer.finalize()
    }
}

/// One configured way of chatting: the prompt template of the model family
/// and the stop markers that end a turn.
pub struct ChatSession {
    pub template: PromptTemplate,
    pub markers: StopMarkers,
}

impl ChatSession {
    /// A session for `template`, with the stop markers that go with it.
    pub fn new(template: PromptTemplate) -> (session: ChatSession)
        ensures
            session.template == template,
            session.markers@ == crate::prompt::stop_set(template),
    {
        ChatSession { template, markers: template.stop_markers() }
    }

    /// What one query sends to the engine: the prompt, rendered from the
    /// system instruction and the query, and the token limit of the turn.
    pub fn send(&self, system_instruction: &str, user_query: &str, token_limit: Option<usize>) -> (request:
        TurnRequest)
        ensures
            request.prompt@ == rendered(self.template, system_instruction@, user_query@),
            request.token_limit == token_limit,
    {
        TurnRequest { prompt: self.template.render(system_instruction, user_query), token_limit }
    }

    /// What a one-shot chat does with the outcome of loading: a load failure
    /// is handed on, and nothing is then sent to the engine; for a loaded
    /// model it is the model and what one query sends to it, without a
    /// token limit.
    pub fn send_once(
        &self,
        loaded: Result<LLM, LoadFailure>,
        system_instruction: &str,
        user_query: &str,
    ) -> (started: Result<OneShot, ChatError>)
        ensures
            match loaded {
                Err(failure) => started == Err::<OneShot, ChatError>(ChatError::Load(failure)),
                Ok(llm) => started matches Ok(shot) && shot.llm == llm && shot.request.prompt@
                    == rendered(self.template, system_instruction@, user_query@)
                    && shot.request.token_limit is None,
            },
    {
        match loaded {
            Err(failure) => Err(ChatError::Load(failure)),
            Ok(llm) => Ok(OneShot { llm, request: self.send(system_instruction, user_query, None) }),
        }
    }
}

/// The prompt for a query under the heading template and its default system
/// instruction.
pub fn contexted_prompt(query: &str) -> (prompt: String)
    ensures
        prompt@ == rendered(
            PromptTemplate::Headings,
            default_system(PromptTemplate::Headings),
            query@,
        ),
{
    let template = PromptTemplate::Headings;
    template.render(template.default_system(), query)
}

/// What one query sends to the engine under the heading template and its
/// default system instruction, with at most `tokens` tokens to draw.
pub fn chat(prompt: &str, tokens: Option<usize>) -> (request: TurnRequest)
    ensures
        request.prompt@ == rendered(
            PromptTemplate::Headings,
            default_system(PromptTemplate::Headings),
            prompt@,
        ),
        request.token_limit == tokens,
{
    TurnRequest { prompt: contexted_prompt(prompt), token_limit: tokens }
}

/// A one-shot chat under the heading template and its default system
/// instruction, for the outcome of loading: a load failure is handed on;
/// for a loaded model it is the model and what the query sends to it,
/// without a token limit.
pub fn lazy_chat(loaded: Result<LLM, LoadFailure>, prompt: &str) -> (started: Result<
    OneShot,
    ChatError,
>)
    ensures
        match loaded {
            Err(failure) => started == Err::<OneShot, ChatError>(ChatError::Load(failure)),
            Ok(llm) => started matches Ok(shot) && shot.llm == llm && shot.request.prompt@
                == rendered(
                PromptTemplate::Headings,
                default_system(PromptTemplate::Headings),
                prompt@,
            ) && shot.request.token_limit is None,
        },
{
    match loaded {
        Err(failure) => Err(ChatError::Load(failure)),
        Ok(llm) => Ok(OneShot { llm, request: chat(prompt, None) }),
    }
}

} // verus!
