//! The backend's wire request, and the compiler that turns a generic request
//! into it.

use crate::builder::{tools_view, ModelRequest};
use crate::conversation::{clone_views, Message, Role, Settings, Tool, ToolView};
use crate::text::{contains_seq, contains_text};
use vstd::prelude::*;

verus! {

/// The models this library knows by name.
#[derive(Debug, Clone, Copy, PartialEq, Eq, Structural)]
pub enum GeminiModel {
    Gemini25Flash,
}

impl GeminiModel {
    /// The model's identifier.
    pub open spec fn identifier(self) -> Seq<char> {
        match self {
            GeminiModel::Gemini25Flash => "gemini-2.5-flash"@,
        }
    }

    pub fn to_string(&self) -> (r: String)
        ensures
            r@ == self.identifier(),
    {
        match self {
            GeminiModel::Gemini25Flash => String::from_str("gemini-2.5-flash"),
        }
    }
}

/// How many tokens the model may spend thinking.
#[derive(Debug, Clone, Copy, PartialEq, Eq, Structural)]
pub struct ThinkingConfig {
    pub thinking_budget: i16,
}

/// The generation block of a wire request.
#[derive(Debug, Clone, Copy, PartialEq, Eq, Structural)]
pub struct GenerationConfig {
    pub max_output_tokens: Option<i16>,
    pub temperature: i16,
    pub thinking_config: Option<ThinkingConfig>,
}

/// One text part of a content block.
#[derive(Debug, PartialEq, Eq)]
pub struct Part {
    pub text: String,
}

/// One message on the wire: its parts and its role.
#[derive(Debug, PartialEq, Eq)]
pub struct Content {
    pub parts: Vec<Part>,
    pub role: Role,
}

impl View for Content {
    type V = (Seq<Part>, Role);

    open spec fn view(&self) -> Self::V {
        (self.parts@, self.role)
    }
}

/// The system instruction on the wire.
#[derive(Debug, PartialEq, Eq)]
pub struct SystemInstructionContent {
    pub parts: Vec<Part>,
}

/// A group of function declarations on the wire.
#[derive(Debug, PartialEq, Eq)]
pub struct GeminiTool {
    pub function_declarations: Vec<Tool>,
}

/// A request in the backend's wire shape.
#[derive(Debug, PartialEq, Eq)]
pub struct GeminiRequest {
    pub system_instruction: Option<SystemInstructionContent>,
    pub contents: Vec<Content>,
    pub generation_config: GenerationConfig,
    pub tools: Option<Vec<GeminiTool>>,
}

/// Whether a model takes a thinking budget: every model but those of the 1.5
/// and 2.0 families, which are told apart by their identifiers.
pub open spec fn supports_thinking(model: Seq<char>) -> bool {
    !contains_seq(model, "1.5"@) && !contains_seq(model, "2.0"@)
}

/// The role a message is sent with: its own, or the user's where it has none.
pub open spec fn resolved_role(role: Option<Role>) -> Role {
    match role {
        Some(r) => r,
        None => Role::User,
    }
}

/// The wire content of one message.
pub open spec fn wire_content(m: Message) -> (Seq<Part>, Role) {
    (seq![Part { text: m.content }], resolved_role(m.role))
}

/// The messages of a request; an absent list is an empty one.
pub open spec fn message_list(messages: Option<Vec<Message>>) -> Seq<Message> {
    match messages {
        Some(ms) => ms@,
        None => Seq::empty(),
    }
}

/// The wire system instruction of an optional system text.
pub open spec fn wire_system(system: Option<String>) -> Option<Seq<Part>> {
    match system {
        Some(s) => Some(seq![Part { text: s }]),
        None => None,
    }
}

/// The view of a compiled system instruction.
pub open spec fn system_view(system: Option<SystemInstructionContent>) -> Option<Seq<Part>> {
    match system {
        Some(si) => Some(si.parts@),
        None => None,
    }
}

/// The generation block for the given settings and model: backend defaults
/// where a setting is absent, and a thinking block only for models that take one.
pub open spec fn wire_generation_config(settings: Option<Settings>, model: Seq<char>) -> GenerationConfig {
    let s = match settings {
        Some(s) => s,
        None => Settings { max_tokens: None, timeout: None, temperature: None, thinking_budget: None },
    };
    GenerationConfig {
        max_output_tokens: s.max_tokens,
        temperature: match s.temperature {
            Some(t) => t,
            None => 0,
        },
        thinking_config: if supports_thinking(model) {
            Some(
                ThinkingConfig {
                    thinking_budget: match s.thinking_budget {
                        Some(b) => b,
                        None => 0,
                    },
                },
            )
        } else {
            None
        },
    }
}

/// The wire tools for the given declarations: one group holding all of them,
/// or none where there are none.
pub open spec fn wire_tools(tools: Option<Seq<ToolView>>) -> Option<Seq<Seq<ToolView>>> {
    match tools {
        Some(ts) => if ts.len() > 0 {
            Some(seq![ts])
        } else {
            None
        },
        None => None,
    }
}

/// The view of compiled tools.
pub open spec fn wire_tools_view(tools: Option<Vec<GeminiTool>>) -> Option<Seq<Seq<ToolView>>> {
    match tools {
        Some(groups) => Some(
            groups@.map_values(|g: GeminiTool| g.function_declarations@.map_values(|t: Tool| t@)),
        ),
        None => None,
    }
}

/// `r` is the wire request compiled from `request` for `model`.
pub open spec fn is_compiled(r: GeminiRequest, request: ModelRequest, model: Seq<char>) -> bool {
    &&& system_view(r.system_instruction) == wire_system(request.system)
    &&& r.contents@.map_values(|c: Content| c@) == message_list(request.messages).map_values(
        |m: Message| wire_content(m),
    )
    &&& r.generation_config == wire_generation_config(request.settings, model)
    &&& wire_tools_view(r.tools) == wire_tools(tools_view(request.tools))
}

/// Whether a model takes a thinking budget.
pub fn model_supports_thinking(model: &str) -> (r: bool)
    ensures
        r == supports_thinking(model@),
{
    !contains_text(model, "1.5") && !contains_text(model, "2.0")
}

/// Compiles a generic request into the wire request for `model`. Nothing in a
/// request can make this fail: absent fields take the backend's defaults.
pub fn compile_request(request: &ModelRequest, model: &str) -> (r: GeminiRequest)
    ensures
        is_compiled(r, *request, model@),
        r.generation_config.thinking_config is None <==> (contains_seq(model@, "1.5"@) || contains_seq(
            model@,
            "2.0"@,
        )),
{
    let settings = match request.settings {
        Some(s) => s,
        None => Settings { max_tokens: None, timeout: None, temperature: None, thinking_budget: None },
    };
    let thinking_config = if model_supports_thinking(model) {
        Some(ThinkingConfig { thinking_budget: settings.thinking_budget.unwrap_or(0) })
    } else {
        None
    };
    let generation_config = GenerationConfig {
        max_output_tokens: settings.max_tokens,
        temperature: settings.temperature.unwrap_or(0),
        thinking_config,
    };

    let ghost messages = message_list(request.messages);
    let mut contents: Vec<Content> = Vec::new();
    match &request.messages {
        Some(ms) => {
            let mut i: usize = 0;
            while i < ms.len()
                invariant
                    messages == ms@,
                    i <= ms@.len(),
                    contents@.map_values(|c: Content| c@) == messages.take(i as int).map_values(
                        |m: Message| wire_content(m),
                    ),
                decreases ms@.len() - i,
            {
                let message = &ms[i];
                let role = match message.role {
                    Some(r) => r,
                    None => Role::User,
                };
                let parts = vec![Part { text: message.content.clone() }];
                let ghost before = contents@;
                let content = Content { parts, role };
                assert(content@ == wire_content(ms@[i as int]));
                contents.push(content);
                assert(messages.take(i + 1) =~= messages.take(i as int).push(ms@[i as int]));
                assert(contents@.map_values(|c: Content| c@) =~= before.map_values(|c: Content| c@).push(
                    content@,
                ));
                assert(contents@.map_values(|c: Content| c@) =~= messages.take(i + 1).map_values(
                    |m: Message| wire_content(m),
                ));
                i = i + 1;
            }
            assert(messages.take(i as int) =~= messages);
        },
        None => {
            assert(contents@.map_values(|c: Content| c@) =~= messages.map_values(
                |m: Message| wire_content(m),
            ));
        },
    }

    let system_instruction = match &request.system {
        Some(s) => Some(SystemInstructionContent { parts: vec![Part { text: s.clone() }] }),
        None => None,
    };

    let tools = match &request.tools {
        Some(ts) => if ts.len() > 0 {
            let group = GeminiTool { function_declarations: clone_views(ts) };
            let groups = vec![group];
            assert(wire_tools_view(Some(groups)) =~= wire_tools(tools_view(request.tools)));
            Some(groups)
        } else {
            None
        },
        None => None,
    };

    let r = GeminiRequest { system_instruction, contents, generation_config, tools };
    assert(system_view(r.system_instruction) == wire_system(request.system));
    assert(r.contents@.map_values(|c: Content| c@) == message_list(request.messages).map_values(
        |m: Message| wire_content(m),
    ));
    assert(wire_tools_view(r.tools) == wire_tools(tools_view(request.tools)));
    r
}

} // verus!
