use vstd::prelude::*;
use crate::text::{decode_error, str_eq, DecodeError};

verus! {

/// The coding agents that an executor profile can name.
#[derive(Debug, Clone, Copy, PartialEq, Eq, Hash, Structural)]
pub enum BaseCodingAgent {
    ClaudeCode,
    Amp,
    Gemini,
    Codex,
    Opencode,
    CursorAgent,
    QwenCode,
    Copilot,
    Droid,
}

/// The stored name of each coding agent.
pub open spec fn agent_text(v: BaseCodingAgent) -> Seq<char> {
    match v {
        BaseCodingAgent::ClaudeCode => "CLAUDE_CODE"@,
        BaseCodingAgent::Amp => "AMP"@,
        BaseCodingAgent::Gemini => "GEMINI"@,
        BaseCodingAgent::Codex => "CODEX"@,
        BaseCodingAgent::Opencode => "OPENCODE"@,
        BaseCodingAgent::CursorAgent => "CURSOR_AGENT"@,
        BaseCodingAgent::QwenCode => "QWEN_CODE"@,
        BaseCodingAgent::Copilot => "COPILOT"@,
        BaseCodingAgent::Droid => "DROID"@,
    }
}

/// The value whose stored text is `s`, if any.
pub open spec fn agent_from_text(s: Seq<char>) -> Option<BaseCodingAgent> {
    if s == "CLAUDE_CODE"@ {
        Some(BaseCodingAgent::ClaudeCode)
    } else if s == "AMP"@ {
        Some(BaseCodingAgent::Amp)
    } else if s == "GEMINI"@ {
        Some(BaseCodingAgent::Gemini)
    } else if s == "CODEX"@ {
        Some(BaseCodingAgent::Codex)
    } else if s == "OPENCODE"@ {
        Some(BaseCodingAgent::Opencode)
    } else if s == "CURSOR_AGENT"@ {
        Some(BaseCodingAgent::CursorAgent)
    } else if s == "QWEN_CODE"@ {
        Some(BaseCodingAgent::QwenCode)
    } else if s == "COPILOT"@ {
        Some(BaseCodingAgent::Copilot)
    } else if s == "DROID"@ {
        Some(BaseCodingAgent::Droid)
    } else {
        None
    }
}

impl BaseCodingAgent {
    pub fn as_str(self) -> (r: &'static str)
        ensures
            r@ == agent_text(self),
    {
        match self {
            BaseCodingAgent::ClaudeCode => "CLAUDE_CODE",
            BaseCodingAgent::Amp => "AMP",
            BaseCodingAgent::Gemini => "GEMINI",
            BaseCodingAgent::Codex => "CODEX",
            BaseCodingAgent::Opencode => "OPENCODE",
            BaseCodingAgent::CursorAgent => "CURSOR_AGENT",
            BaseCodingAgent::QwenCode => "QWEN_CODE",
            BaseCodingAgent::Copilot => "COPILOT",
            BaseCodingAgent::Droid => "DROID",
        }
    }
}

/// Every BaseCodingAgent value decodes from its own stored text.
pub proof fn agent_text_round_trip(v: BaseCodingAgent)
    ensures
        agent_from_text(agent_text(v)) == Some(v),
{
    match v {
        BaseCodingAgent::ClaudeCode => {
            reveal_strlit("CLAUDE_CODE");
            assert("CLAUDE_CODE"@.len() == 11);
        },
        BaseCodingAgent::Amp => {
            reveal_strlit("AMP");
            assert("AMP"@.len() == 3);
            reveal_strlit("CLAUDE_CODE");
            assert("CLAUDE_CODE"@.len() == 11);
            assert("AMP"@ != "CLAUDE_CODE"@);
        },
        BaseCodingAgent::Gemini => {
            reveal_strlit("GEMINI");
            assert("GEMINI"@.len() == 6);
            reveal_strlit("CLAUDE_CODE");
            assert("CLAUDE_CODE"@.len() == 11);
            assert("GEMINI"@ != "CLAUDE_CODE"@);
            reveal_strlit("AMP");
            assert("AMP"@.len() == 3);
            assert("GEMINI"@ != "AMP"@);
        },
        BaseCodingAgent::Codex => {
            reveal_strlit("CODEX");
            assert("CODEX"@.len() == 5);
            reveal_strlit("CLAUDE_CODE");
            assert("CLAUDE_CODE"@.len() == 11);
            assert("CODEX"@ != "CLAUDE_CODE"@);
            reveal_strlit("AMP");
            assert("AMP"@.len() == 3);
            assert("CODEX"@ != "AMP"@);
            reveal_strlit("GEMINI");
            assert("GEMINI"@.len() == 6);
            assert("CODEX"@ != "GEMINI"@);
        },
        BaseCodingAgent::Opencode => {
            reveal_strlit("OPENCODE");
            assert("OPENCODE"@.len() == 8);
            reveal_strlit("CLAUDE_CODE");
            assert("CLAUDE_CODE"@.len() == 11);
            assert("OPENCODE"@ != "CLAUDE_CODE"@);
            reveal_strlit("AMP");
            assert("AMP"@.len() == 3);
            assert("OPENCODE"@ != "AMP"@);
            reveal_strlit("GEMINI");
            assert("GEMINI"@.len() == 6);
            assert("OPENCODE"@ != "GEMINI"@);
            reveal_strlit("CODEX");
            assert("CODEX"@.len() == 5);
            assert("OPENCODE"@ != "CODEX"@);
        },
        BaseCodingAgent::CursorAgent => {
            reveal_strlit("CURSOR_AGENT");
            assert("CURSOR_AGENT"@.len() == 12);
            reveal_strlit("CLAUDE_CODE");
            assert("CLAUDE_CODE"@.len() == 11);
            assert("CURSOR_AGENT"@ != "CLAUDE_CODE"@);
            reveal_strlit("AMP");
            assert("AMP"@.len() == 3);
            assert("CURSOR_AGENT"@ != "AMP"@);
            reveal_strlit("GEMINI");
            assert("GEMINI"@.len() == 6);
            assert("CURSOR_AGENT"@ != "GEMINI"@);
            reveal_strlit("CODEX");
            assert("CODEX"@.len() == 5);
            assert("CURSOR_AGENT"@ != "CODEX"@);
            reveal_strlit("OPENCODE");
            assert("OPENCODE"@.len() == 8);
            assert("CURSOR_AGENT"@ != "OPENCODE"@);
        },
        BaseCodingAgent::QwenCode => {
            reveal_strlit("QWEN_CODE");
            assert("QWEN_CODE"@.len() == 9);
            reveal_strlit("CLAUDE_CODE");
            assert("CLAUDE_CODE"@.len() == 11);
            assert("QWEN_CODE"@ != "CLAUDE_CODE"@);
            reveal_strlit("AMP");
            assert("AMP"@.len() == 3);
            assert("QWEN_CODE"@ != "AMP"@);
            reveal_strlit("GEMINI");
            assert("GEMINI"@.len() == 6);
            assert("QWEN_CODE"@ != "GEMINI"@);
            reveal_strlit("CODEX");
            assert("CODEX"@.len() == 5);
            assert("QWEN_CODE"@ != "CODEX"@);
            reveal_strlit("OPENCODE");
            assert("OPENCODE"@.len() == 8);
            assert("QWEN_CODE"@ != "OPENCODE"@);
            reveal_strlit("CURSOR_AGENT");
            assert("CURSOR_AGENT"@.len() == 12);
            assert("QWEN_CODE"@ != "CURSOR_AGENT"@);
        },
        BaseCodingAgent::Copilot => {
            reveal_strlit("COPILOT");
            assert("COPILOT"@.len() == 7);
            reveal_strlit("CLAUDE_CODE");
            assert("CLAUDE_CODE"@.len() == 11);
            assert("COPILOT"@ != "CLAUDE_CODE"@);
            reveal_strlit("AMP");
            assert("AMP"@.len() == 3);
            assert("COPILOT"@ != "AMP"@);
            reveal_strlit("GEMINI");
            assert("GEMINI"@.len() == 6);
            assert("COPILOT"@ != "GEMINI"@);
            reveal_strlit("CODEX");
            assert("CODEX"@.len() == 5);
            assert("COPILOT"@ != "CODEX"@);
            reveal_strlit("OPENCODE");
            assert("OPENCODE"@.len() == 8);
            assert("COPILOT"@ != "OPENCODE"@);
            reveal_strlit("CURSOR_AGENT");
            assert("CURSOR_AGENT"@.len() == 12);
            assert("COPILOT"@ != "CURSOR_AGENT"@);
            reveal_strlit("QWEN_CODE");
            assert("QWEN_CODE"@.len() == 9);
            assert("COPILOT"@ != "QWEN_CODE"@);
        },
        BaseCodingAgent::Droid => {
            reveal_strlit("DROID");
            assert("DROID"@.len() == 5);
            reveal_strlit("CLAUDE_CODE");
            assert("CLAUDE_CODE"@.len() == 11);
            assert("DROID"@ != "CLAUDE_CODE"@);
            reveal_strlit("AMP");
            assert("AMP"@.len() == 3);
            assert("DROID"@ != "AMP"@);
            reveal_strlit("GEMINI");
            assert("GEMINI"@.len() == 6);
            assert("DROID"@ != "GEMINI"@);
            reveal_strlit("CODEX");
            assert("CODEX"@.len() == 5);
            assert("DROID"@[0] != "CODEX"@[0]);
            assert("DROID"@ != "CODEX"@);
            reveal_strlit("OPENCODE");
            assert("OPENCODE"@.len() == 8);
            assert("DROID"@ != "OPENCODE"@);
            reveal_strlit("CURSOR_AGENT");
            assert("CURSOR_AGENT"@.len() == 12);
            assert("DROID"@ != "CURSOR_AGENT"@);
            reveal_strlit("QWEN_CODE");
            assert("QWEN_CODE"@.len() == 9);
            assert("DROID"@ != "QWEN_CODE"@);
            reveal_strlit("COPILOT");
            assert("COPILOT"@.len() == 7);
            assert("DROID"@ != "COPILOT"@);
        },
    }
}

/// Parses a stored agent name; on failure the message is `context` followed by the value.
pub fn parse_executor(context: &str, value: &str) -> (r: Result<BaseCodingAgent, DecodeError>)
    ensures
        match agent_from_text(value@) {
            Some(a) => r == Ok::<BaseCodingAgent, DecodeError>(a),
            None => r matches Err(e) && e.message@ == context@ + value@,
        },
{
    if str_eq(value, "CLAUDE_CODE") {
        Ok(BaseCodingAgent::ClaudeCode)
    } else if str_eq(value, "AMP") {
        Ok(BaseCodingAgent::Amp)
    } else if str_eq(value, "GEMINI") {
        Ok(BaseCodingAgent::Gemini)
    } else if str_eq(value, "CODEX") {
        Ok(BaseCodingAgent::Codex)
    } else if str_eq(value, "OPENCODE") {
        Ok(BaseCodingAgent::Opencode)
    } else if str_eq(value, "CURSOR_AGENT") {
        Ok(BaseCodingAgent::CursorAgent)
    } else if str_eq(value, "QWEN_CODE") {
        Ok(BaseCodingAgent::QwenCode)
    } else if str_eq(value, "COPILOT") {
        Ok(BaseCodingAgent::Copilot)
    } else if str_eq(value, "DROID") {
        Ok(BaseCodingAgent::Droid)
    } else {
        Err(decode_error(context, value))
    }
}

/// A coding agent together with an optional named configuration of it.
#[derive(Debug, Clone, PartialEq, Eq)]
pub struct ExecutorProfileId {
    pub executor: BaseCodingAgent,
    pub variant: Option<String>,
}

impl ExecutorProfileId {
    /// The agent's default configuration.
    pub fn new(executor: BaseCodingAgent) -> (r: Self)
        ensures
            r.executor == executor,
            r.variant is None,
    {
        ExecutorProfileId { executor, variant: None }
    }

    /// A named configuration of the agent.
    pub fn with_variant(executor: BaseCodingAgent, variant: String) -> (r: Self)
        ensures
            r.executor == executor,
            r.variant == Some(variant),
    {
        ExecutorProfileId { executor, variant: Some(variant) }
    }

    /// An equal copy of the profile id.
    pub fn duplicate(&self) -> (r: Self)
        ensures
            r == *self,
    {
        let variant = match &self.variant {
            Some(v) => Some(v.clone()),
            None => None,
        };
        ExecutorProfileId { executor: self.executor, variant }
    }
}



/// Two profile ids name the same agent and the same variant text.
pub open spec fn same_profile(a: ExecutorProfileId, b: ExecutorProfileId) -> bool {
    &&& a.executor == b.executor
    &&& match (a.variant, b.variant) {
        (Some(x), Some(y)) => x@ == y@,
        (None, None) => true,
        _ => false,
    }
}

impl ExecutorProfileId {
    /// Whether two profile ids name the same agent and variant.
    pub fn same_as(&self, other: &ExecutorProfileId) -> (r: bool)
        ensures
            r == same_profile(*self, *other),
    {
        if self.executor != other.executor {
            return false;
        }
        match (&self.variant, &other.variant) {
            (Some(a), Some(b)) => str_eq(a.as_str(), b.as_str()),
            (None, None) => true,
            _ => false,
        }
    }
}

} // verus!
