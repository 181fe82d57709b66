use vstd::prelude::*;
use vstd::string::*;
use crate::policy::{lemma_longest_within, marker_in, MarkerSet, StopMarkers};
use crate::text::occurs_at;

verus! {

/// The delimiter syntax of a model family: how the system, user and assistant
/// segments of a prompt are marked.
#[derive(Clone, Copy, Debug, PartialEq, Eq, Structural)]
pub enum PromptTemplate {
    /// Role headers written as special tokens, `<|start_header_id|>` and the
    /// like.
    RoleTokens,
    /// Role headers written as headings, `### Human:` and the like.
    Headings,
}

/// What opens a prompt, up to the system instruction.
pub open spec fn system_open(template: PromptTemplate) -> Seq<char> {
    match template {
        PromptTemplate::RoleTokens => "<|begin_of_text|><|start_header_id|>system<|end_header_id|>\n{ "@,
        PromptTemplate::Headings => "### System:\n"@,
    }
}

/// What stands between the system instruction and the user's query.
pub open spec fn user_open(template: PromptTemplate) -> Seq<char> {
    match template {
        PromptTemplate::RoleTokens => " }<|eot_id|><|start_header_id|>user<|end_header_id|>\n{ "@,
        PromptTemplate::Headings => "\n\n### Human:\n"@,
    }
}

/// What follows the user's query: the header of the assistant segment, which
/// is left empty for the model to fill.
pub open spec fn assistant_open(template: PromptTemplate) -> Seq<char> {
    match template {
        PromptTemplate::RoleTokens => " }<|eot_id|><|start_header_id|>assistant<|end_header_id|>"@,
        PromptTemplate::Headings => "\n\n### Assistant:\n"@,
    }
}

/// The prompt for a system instruction and a query.
pub open spec fn rendered(template: PromptTemplate, system: Seq<char>, query: Seq<char>) -> Seq<char> {
    system_open(template) + system + user_open(template) + query + assistant_open(template)
}

/// The system instruction that a template is used with by default.
pub open spec fn default_system(template: PromptTemplate) -> Seq<char> {
    match template {
        PromptTemplate::RoleTokens => "you are a helpful assistant"@,
        PromptTemplate::Headings => "You are an AI assistant who gives a quality response to whatever humans ask of you."@,
    }
}

/// The stop markers that go with a template: texts that the template's own
/// role headers hold, so that a model which starts a new turn is caught.
pub open spec fn stop_set(template: PromptTemplate) -> MarkerSet {
    match template {
        PromptTemplate::RoleTokens => MarkerSet { markers: seq!["==="@, "<|"@], window: 3 },
        PromptTemplate::Headings => MarkerSet { markers: seq!["###"@], window: 3 },
    }
}

impl PromptTemplate {
    fn system_open(self) -> (text: &'static str)
        ensures
            text@ == system_open(self),
    {
        match self {
            PromptTemplate::RoleTokens => "<|begin_of_text|><|start_header_id|>system<|end_header_id|>\n{ ",
            PromptTemplate::Headings => "### System:\n",
        }
    }

    fn user_open(self) -> (text: &'static str)
        ensures
            text@ == user_open(self),
    {
        match self {
            PromptTemplate::RoleTokens => " }<|eot_id|><|start_header_id|>user<|end_header_id|>\n{ ",
            PromptTemplate::Headings => "\n\n### Human:\n",
        }
    }

    fn assistant_open(self) -> (text: &'static str)
        ensures
            text@ == assistant_open(self),
    {
        match self {
            PromptTemplate::RoleTokens => " }<|eot_id|><|start_header_id|>assistant<|end_header_id|>",
            PromptTemplate::Headings => "\n\n### Assistant:\n",
        }
    }

    /// The system instruction used where the caller gives none.
    pub fn default_system(self) -> (text: &'static str)
        ensures
            text@ == default_system(self),
    {
        match self {
            PromptTemplate::RoleTokens => "you are a helpful assistant",
            PromptTemplate::Headings => "You are an AI assistant who gives a quality response to whatever humans ask of you.",
        }
    }

    /// The stop markers that go with this template.
    pub fn stop_markers(self) -> (policy: StopMarkers)
        ensures
            policy@ == stop_set(self),
    {
        let mut markers: Vec<String> = Vec::new();
        match self {
            PromptTemplate::RoleTokens => {
                markers.push(String::from_str("==="));
                markers.push(String::from_str("<|"));
            },
            PromptTemplate::Headings => {
                markers.push(String::from_str("###"));
            },
        }
        proof {
            reveal_strlit("===");
            reveal_strlit("<|");
            reveal_strlit("###");
            assert(markers.deep_view() =~= stop_set(self).markers);
            lemma_longest_within(markers.deep_view(), 3);
        }
        StopMarkers::new(markers, 3)
    }

    /// The prompt for one turn: the system instruction, the user's query and
    /// an empty assistant segment, in that order, each behind its header.
    pub fn render(self, system_instruction: &str, user_query: &str) -> (prompt: String)
        ensures
            prompt@ == rendered(self, system_instruction@, user_query@),
    {
        let mut prompt = String::from_str(self.system_open());
        prompt.append(system_instruction);
        prompt.append(self.user_open());
        prompt.append(user_query);
        prompt.append(self.assistant_open());
        prompt
    }
}

/// In a rendered prompt the system instruction and the query stand whole, the
/// instruction before the query, and the assistant header after both, at the
/// very end.
pub proof fn lemma_rendered_order(template: PromptTemplate, system: Seq<char>, query: Seq<char>)
    ensures
        ({
            let prompt = rendered(template, system, query);
            let at_system = system_open(template).len() as int;
            let at_query = at_system + system.len() + user_open(template).len();
            let at_assistant = at_query + query.len();
            &&& occurs_at(prompt, system, at_system)
            &&& occurs_at(prompt, query, at_query)
            &&& occurs_at(prompt, assistant_open(template), at_assistant)
            &&& at_system + system.len() <= at_query
            &&& at_query + query.len() <= at_assistant
            &&& at_assistant + assistant_open(template).len() == prompt.len()
        }),
{
    let prompt = rendered(template, system, query);
    let at_system = system_open(template).len() as int;
    let at_query = at_system + system.len() + user_open(template).len();
    let at_assistant = at_query + query.len();
    assert(prompt.subrange(at_system, at_system + system.len()) =~= system);
    assert(prompt.subrange(at_query, at_query + query.len()) =~= query);
    assert(prompt.subrange(at_assistant, at_assistant + assistant_open(template).len())
        =~= assistant_open(template));
}

/// A rendered prompt is never empty, whatever the instruction and the query.
pub proof fn lemma_rendered_is_not_empty(template: PromptTemplate, system: Seq<char>, query: Seq<char>)
    ensures
        rendered(template, system, query).len() > 0,
{
    reveal_strlit("<|begin_of_text|><|start_header_id|>system<|end_header_id|>\n{ ");
    reveal_strlit("### System:\n");
    assert(system_open(template).len() > 0);
}

/// A template's stop markers match its role headers: the header that opens
/// the user's segment and the one that opens the assistant's each hold a stop
/// marker. A model that goes on to write a new turn is therefore halted.
pub proof fn lemma_headers_hold_markers(template: PromptTemplate)
    ensures
        marker_in(stop_set(template).markers, user_open(template)),
        marker_in(stop_set(template).markers, assistant_open(template)),
{
    match template {
        PromptTemplate::RoleTokens => {
            reveal_strlit("<|");
            reveal_strlit(" }<|eot_id|><|start_header_id|>user<|end_header_id|>\n{ ");
            reveal_strlit(" }<|eot_id|><|start_header_id|>assistant<|end_header_id|>");
            let marker = stop_set(template).markers[1];
            assert(user_open(template).subrange(2, 4) =~= marker);
            assert(assistant_open(template).subrange(2, 4) =~= marker);
            assert(occurs_at(user_open(template), marker, 2));
            assert(occurs_at(assistant_open(template), marker, 2));
        },
        PromptTemplate::Headings => {
            reveal_strlit("###");
            reveal_strlit("\n\n### Human:\n");
            reveal_strlit("\n\n### Assistant:\n");
            let marker = stop_set(template).markers[0];
            assert(user_open(template).subrange(2, 5) =~= marker);
            assert(assistant_open(template).subrange(2, 5) =~= marker);
            assert(occurs_at(user_open(template), marker, 2));
            assert(occurs_at(assistant_open(template), marker, 2));
        },
    }
}

} // verus!
