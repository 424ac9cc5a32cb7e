//! The data exchanged with the language-model service, and the naming of the
//! per-agent tools that the facilitator advertises to it.

use vstd::prelude::*;

verus! {

/// Where and as whom to reach an OpenAI-compatible chat-completion service.
#[derive(Clone, Debug)]
pub struct LlmClient {
    api_key: String,
    model: String,
    base_url: String,
}

impl LlmClient {
    pub closed spec fn spec_api_key(&self) -> Seq<char> {
        self.api_key@
    }

    pub closed spec fn spec_model(&self) -> Seq<char> {
        self.model@
    }

    pub closed spec fn spec_base_url(&self) -> Seq<char> {
        self.base_url@
    }

    pub fn new(api_key: String, model: String, base_url: String) -> (r: Self)
        ensures
            r.spec_api_key() == api_key@,
            r.spec_model() == model@,
            r.spec_base_url() == base_url@,
    {
        LlmClient { api_key, model, base_url }
    }

    pub fn api_key(&self) -> (r: &str)
        ensures
            r@ == self.spec_api_key(),
    {
        self.api_key.as_str()
    }

    pub fn model(&self) -> (r: &str)
        ensures
            r@ == self.spec_model(),
    {
        self.model.as_str()
    }

    pub fn base_url(&self) -> (r: &str)
        ensures
            r@ == self.spec_base_url(),
    {
        self.base_url.as_str()
    }
}

/// Function call details: the tool's name and its JSON-encoded arguments.
#[derive(Clone, Debug)]
pub struct FunctionCall {
    pub name: String,
    pub arguments: String,
}

/// A tool call in a model response.
#[derive(Clone, Debug)]
pub struct ToolCall {
    pub id: String,
    pub call_type: String,
    pub function: FunctionCall,
}

/// One message of a conversation with the model.
#[derive(Clone, Debug)]
pub struct ChatMessage {
    pub role: String,
    pub content: Option<String>,
    pub tool_calls: Option<Vec<ToolCall>>,
    pub tool_call_id: Option<String>,
}

/// The model's reply: text, tool calls, or both.
#[derive(Clone, Debug)]
pub struct ResponseMessage {
    pub content: Option<String>,
    pub tool_calls: Option<Vec<ToolCall>>,
}

/// One choice of a chat-completion response.
#[derive(Clone, Debug)]
pub struct Choice {
    pub message: ResponseMessage,
}

/// A chat-completion response.
#[derive(Clone, Debug)]
pub struct ChatResponse {
    pub choices: Vec<Choice>,
}

impl ResponseMessage {
    /// The tool calls of the reply, empty where it has none.
    pub open spec fn calls(self) -> Seq<ToolCall> {
        match self.tool_calls {
            Some(v) => v@,
            None => Seq::empty(),
        }
    }
}

impl ChatResponse {
    /// The message of the first choice, which is the one the room acts on.
    pub fn first_message(&self) -> (r: Option<&ResponseMessage>)
        ensures
            self.choices@.len() == 0 ==> r is None,
            self.choices@.len() > 0 ==> r == Some(&self.choices@[0].message),
    {
        if self.choices.len() == 0 {
            None
        } else {
            Some(&self.choices[0].message)
        }
    }
}

/// `s` with every `-` written as `_`.
pub open spec fn underscored(s: Seq<char>) -> Seq<char> {
    s.map_values(|c: char| if c == '-' { '_' } else { c })
}

/// The name of the tool through which the model assigns work to `agent`.
pub open spec fn tool_name_of(agent: Seq<char>) -> Seq<char> {
    "assign_to_"@ + underscored(agent)
}

/// Relies on str::replace: a copy of `s` with every occurrence of `from`
/// replaced by `to`.
#[verifier::external_body]
fn replace_char(s: &str, from: char, to: char) -> (r: String)
    ensures
        r@ == s@.map_values(|c: char| if c == from { to } else { c }),
{
    s.replace(from, to.encode_utf8(&mut [0u8; 4]))
}

/// The name of the tool through which the model assigns work to `agent_id`.
pub fn tool_name(agent_id: &str) -> (r: String)
    ensures
        r@ == tool_name_of(agent_id@),
{
    let u = replace_char(agent_id, '-', '_');
    let mut r = String::from_str("assign_to_");
    r.append(u.as_str());
    r
}

/// The first agent of `agents` whose tool is named `name`.
pub open spec fn agent_for_tool(name: Seq<char>, agents: Seq<(String, Option<String>)>) -> Option<
    Seq<char>,
>
    decreases agents.len(),
{
    if agents.len() == 0 {
        None
    } else if tool_name_of(agents[0].0@) == name {
        Some(agents[0].0@)
    } else {
        agent_for_tool(name, agents.drop_first())
    }
}

/// The agent, among those advertised, that a tool call named `name` is for.
pub fn agent_for_tool_name(name: &str, agents: &Vec<(String, Option<String>)>) -> (r: Option<String>)
    ensures
        match r {
            Some(a) => agent_for_tool(name@, agents@) == Some(a@),
            None => agent_for_tool(name@, agents@) is None,
        },
{
    let n = String::from_str(name);
    let mut i: usize = 0;
    assert(agents@.subrange(0, agents@.len() as int) =~= agents@);
    while i < agents.len()
        invariant
            i <= agents@.len(),
            n@ == name@,
            agent_for_tool(name@, agents@) == agent_for_tool(name@, agents@.subrange(i as int, agents@.len() as int)),
        decreases agents@.len() - i,
    {
        let t = tool_name(agents[i].0.as_str());
        let ghost rest = agents@.subrange(i as int, agents@.len() as int);
        assert(rest.drop_first() =~= agents@.subrange(i + 1, agents@.len() as int));
        if t == n {
            return Some(agents[i].0.clone());
        }
        i = i + 1;
    }
    None
}

} // verus!
