//! The facilitator's side of the language-model service, and the system
//! prompt that tells the model which workers it can delegate to.

use vstd::prelude::*;
use crate::llm::LlmClient;

verus! {

/// How one agent is listed in the prompt: `- id`, or `- id - description`.
pub open spec fn agent_line(agent: (String, Option<String>)) -> Seq<char> {
    match agent.1 {
        Some(d) => "- "@ + agent.0@ + " - "@ + d@,
        None => "- "@ + agent.0@,
    }
}

/// The agents' lines, one per line.
pub open spec fn agent_lines(agents: Seq<(String, Option<String>)>) -> Seq<char>
    decreases agents.len(),
{
    if agents.len() == 0 {
        Seq::empty()
    } else if agents.len() == 1 {
        agent_line(agents[0])
    } else {
        agent_lines(agents.drop_last()) + "\n"@ + agent_line(agents.last())
    }
}

/// The list of available agents as the prompt shows it.
pub open spec fn agents_list(agents: Seq<(String, Option<String>)>) -> Seq<char> {
    if agents.len() == 0 {
        "No agents currently available."@
    } else {
        agent_lines(agents)
    }
}

/// What precedes the list of agents in the system prompt.
pub open spec fn prompt_head() -> Seq<char> {
    "You are the Facilitator in an Agent Ops Room. Your role is to coordinate work between users and specialized agents.\n\nAvailable agents:\n"@
}

/// What follows the list of agents in the system prompt.
pub open spec fn prompt_tail() -> Seq<char> {
    "\n\nIMPORTANT: You do NOT answer questions yourself. You delegate ALL work to agents.\n\nWhen a user asks a question or requests something:\n1. Identify which agent should handle it based on their capabilities\n2. Call the appropriate assign_to_{agent_id} function with a clear goal\n\nOnly respond directly (without calling an agent) for:\n- Greetings like \"hi\", \"hello\", \"hey\" (just say hi back)\n- \"Thank you\" or \"thanks\" (acknowledge it)\n- Pure conversation with no question or request\n\nIf the user asks ANY question or wants ANY task done, assign it to an agent - even simple ones.\n\nExamples:\n- \"What's 1+1?\" -> assign_to_math_agent (don't answer it yourself)\n- \"Hello\" -> respond \"Hi! I can help coordinate tasks. What do you need?\"\n- \"What time is it?\" -> assign to an appropriate agent\n- \"Thanks!\" -> respond \"You're welcome!\"\n"@
}

/// The facilitator's language-model service.
#[derive(Clone, Debug)]
pub struct FacilitatorLlm {
    client: LlmClient,
    model: String,
}

impl FacilitatorLlm {
    pub closed spec fn spec_client(&self) -> LlmClient {
        self.client
    }

    pub closed spec fn spec_model(&self) -> Seq<char> {
        self.model@
    }

    pub fn new(api_key: String, model: String, base_url: String) -> (r: Self)
        ensures
            r.spec_client().spec_api_key() == api_key@,
            r.spec_client().spec_model() == model@,
            r.spec_client().spec_base_url() == base_url@,
            r.spec_model() == model@,
    {
        let client = LlmClient::new(api_key, model.clone(), base_url);
        FacilitatorLlm { client, model }
    }

    pub fn client(&self) -> (r: &LlmClient)
        ensures
            *r == self.spec_client(),
    {
        &self.client
    }

    pub fn model(&self) -> (r: &str)
        ensures
            r@ == self.spec_model(),
    {
        self.model.as_str()
    }

    /// The system prompt that offers the model `available_agents`.
    pub fn build_system_prompt(&self, available_agents: &Vec<(String, Option<String>)>) -> (r: String)
        ensures
            r@ == prompt_head() + agents_list(available_agents@) + prompt_tail(),
    {
        let mut r = String::from_str("You are the Facilitator in an Agent Ops Room. Your role is to coordinate work between users and specialized agents.\n\nAvailable agents:\n");
        if available_agents.len() == 0 {
            r.append("No agents currently available.");
        } else {
            let ghost head = r@;
            let mut i: usize = 0;
            while i < available_agents.len()
                invariant
                    i <= available_agents@.len(),
                    available_agents@.len() > 0,
                    r@ == head + agent_lines(available_agents@.take(i as int)),
                decreases available_agents@.len() - i,
            {
                let ghost before = r@;
                assert(available_agents@.take(i + 1).drop_last() =~= available_agents@.take(i as int));
                if i > 0 {
                    r.append("\n");
                }
                r.append("- ");
                r.append(available_agents[i].0.as_str());
                match &available_agents[i].1 {
                    Some(d) => {
                        r.append(" - ");
                        r.append(d.as_str());
                    },
                    None => {},
                }
                proof {
                    let t = available_agents@.take(i + 1);
                    if i == 0 {
                        assert(r@ =~= head + agent_line(t[0]));
                    } else {
                        assert(r@ =~= head + (agent_lines(t.drop_last()) + "\n"@ + agent_line(t.last())));
                    }
                }
                i = i + 1;
            }
            assert(available_agents@.take(available_agents@.len() as int) =~= available_agents@);
        }
        r.append("\n\nIMPORTANT: You do NOT answer questions yourself. You delegate ALL work to agents.\n\nWhen a user asks a question or requests something:\n1. Identify which agent should handle it based on their capabilities\n2. Call the appropriate assign_to_{agent_id} function with a clear goal\n\nOnly respond directly (without calling an agent) for:\n- Greetings like \"hi\", \"hello\", \"hey\" (just say hi back)\n- \"Thank you\" or \"thanks\" (acknowledge it)\n- Pure conversation with no question or request\n\nIf the user asks ANY question or wants ANY task done, assign it to an agent - even simple ones.\n\nExamples:\n- \"What's 1+1?\" -> assign_to_math_agent (don't answer it yourself)\n- \"Hello\" -> respond \"Hi! I can help coordinate tasks. What do you need?\"\n- \"What time is it?\" -> assign to an appropriate agent\n- \"Thanks!\" -> respond \"You're welcome!\"\n");
        r
    }
}

} // verus!
