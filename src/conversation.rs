//! The conversation model: roles, messages, generation settings and tool
//! declarations, all plain values owned by the caller.

use crate::codec::{array_text, json_array_text, object_text};
use std::collections::HashMap;
use vstd::prelude::*;

verus! {

/// Who speaks a message.
#[derive(Debug, Clone, Copy, PartialEq, Eq, Structural)]
pub enum Role {
    Model,
    User,
}

impl Role {
    /// The name of the role on the wire.
    pub open spec fn wire_name_spec(self) -> Seq<char> {
        match self {
            Role::Model => "model"@,
            Role::User => "user"@,
        }
    }

    pub fn wire_name(&self) -> (r: &'static str)
        ensures
            r@ == self.wire_name_spec(),
    {
        match self {
            Role::Model => "model",
            Role::User => "user",
        }
    }
}

/// One turn of a conversation. A message without a role is sent as the user's.
#[derive(Debug, PartialEq, Eq)]
pub struct Message {
    pub content: String,
    pub role: Option<Role>,
}

impl Clone for Message {
    fn clone(&self) -> (r: Self)
        ensures
            r == *self,
    {
        Message { content: self.content.clone(), role: self.role }
    }
}

impl Message {
    /// A message spoken by the user.
    pub fn user(content: String) -> (r: Message)
        ensures
            r.content == content,
            r.role == Some(Role::User),
    {
        Message { content, role: Some(Role::User) }
    }

    /// A message spoken by the model.
    pub fn model(content: String) -> (r: Message)
        ensures
            r.content == content,
            r.role == Some(Role::Model),
    {
        Message { content, role: Some(Role::Model) }
    }
}


/// A call of one of the caller's tools, as the model asked for it.
#[derive(Debug, PartialEq, Eq)]
pub struct FunctionCall {
    pub name: String,
    pub args: HashMap<String, serde_json::Value>,
}

/// A function call as a value: the function's name and its arguments.
pub type FunctionView = (String, Map<String, serde_json::Value>);

impl View for FunctionCall {
    type V = FunctionView;

    open spec fn view(&self) -> FunctionView {
        (self.name, self.args@)
    }
}

impl Clone for FunctionCall {
    fn clone(&self) -> (r: Self)
        ensures
            r@ == self@,
    {
        FunctionCall { name: self.name.clone(), args: self.args.clone() }
    }
}

impl Message {
    /// The model's turn that asked for a function call: the function's name
    /// followed by its arguments as a JSON object in parentheses.
    pub fn function_call(call: FunctionCall) -> (r: Message)
        ensures
            r.role == Some(Role::Model),
            exists|args: Seq<char>| r.content@ == call.name@ + "("@ + args + ")"@,
    {
        let args = object_text(&call.args);
        let mut content = call.name;
        content.append("(");
        content.append(args.as_str());
        content.append(")");
        assert(content@ == call.name@ + "("@ + args@ + ")"@);
        Message { content, role: Some(Role::Model) }
    }

    /// The result of a function call, handed back to the model: the function's
    /// name, a colon and a space, and the results as a JSON array.
    pub fn function_result(name: String, results: Vec<&str>) -> (r: Message)
        ensures
            r.role == Some(Role::Model),
            r.content@ == name@ + ": "@ + json_array_text(results@.map_values(|s: &str| s@)),
    {
        let text = array_text(&results);
        let mut content = name;
        content.append(": ");
        content.append(text.as_str());
        Message { content, role: Some(Role::Model) }
    }
}


/// Clones a list, for element types whose clones equal the values they were
/// made from.
pub(crate) fn clone_list<T: Clone>(v: &Vec<T>) -> (r: Vec<T>)
    requires
        forall|a: T, b: T| #[trigger] cloned::<T>(a, b) ==> a == b,
    ensures
        r@ == v@,
{
    let r = v.clone();
    assert(r@ =~= v@) by {
        assert forall|i: int| 0 <= i < v@.len() implies r@[i] == v@[i] by {
            assert(cloned::<T>(v[i], r[i]));
        }
    }
    r
}

/// Clones a list, for element types whose clones have the view of the values
/// they were made from.
pub(crate) fn clone_views<T: Clone + View>(v: &Vec<T>) -> (r: Vec<T>)
    requires
        forall|a: T, b: T| #[trigger] cloned::<T>(a, b) ==> a@ == b@,
    ensures
        r@.map_values(|t: T| t@) == v@.map_values(|t: T| t@),
{
    let r = v.clone();
    assert(r@.map_values(|t: T| t@) =~= v@.map_values(|t: T| t@)) by {
        assert forall|i: int| 0 <= i < v@.len() implies r@[i]@ == v@[i]@ by {
            assert(cloned::<T>(v[i], r[i]));
        }
    }
    r
}

/// Generation settings; each absent value leaves the backend's default.
#[derive(Debug, Clone, Copy, PartialEq, Eq)]
pub struct Settings {
    pub max_tokens: Option<i16>,
    pub timeout: Option<i16>,
    pub temperature: Option<i16>,
    pub thinking_budget: Option<i16>,
}

/// One parameter of a tool: its name, its JSON type and what it means.
#[derive(Debug, PartialEq, Eq)]
pub struct ToolProperty {
    pub name: String,
    pub kind: String,
    pub description: String,
}

impl Clone for ToolProperty {
    fn clone(&self) -> (r: Self)
        ensures
            r == *self,
    {
        ToolProperty {
            name: self.name.clone(),
            kind: self.kind.clone(),
            description: self.description.clone(),
        }
    }
}

/// The parameters of a tool, declared as a JSON object schema: its properties
/// and the names of those that are required.
#[derive(Debug, PartialEq, Eq)]
pub struct ToolParameters {
    pub properties: Vec<ToolProperty>,
    pub required: Vec<String>,
}

impl View for ToolParameters {
    type V = (Seq<ToolProperty>, Seq<String>);

    open spec fn view(&self) -> Self::V {
        (self.properties@, self.required@)
    }
}

impl Clone for ToolParameters {
    fn clone(&self) -> (r: Self)
        ensures
            r@ == self@,
    {
        ToolParameters { properties: clone_list(&self.properties), required: clone_list(&self.required) }
    }
}

/// A tool that the model may ask to call.
#[derive(Debug, PartialEq, Eq)]
pub struct Tool {
    pub name: String,
    pub description: String,
    pub parameters: Option<ToolParameters>,
}

/// A tool as a value: its name, its description and the view of its parameters.
pub type ToolView = (String, String, Option<(Seq<ToolProperty>, Seq<String>)>);

impl View for Tool {
    type V = ToolView;

    open spec fn view(&self) -> ToolView {
        (
            self.name,
            self.description,
            match self.parameters {
                Some(p) => Some(p@),
                None => None,
            },
        )
    }
}

impl Clone for Tool {
    fn clone(&self) -> (r: Self)
        ensures
            r@ == self@,
    {
        let parameters = match &self.parameters {
            Some(p) => Some(p.clone()),
            None => None,
        };
        Tool { name: self.name.clone(), description: self.description.clone(), parameters }
    }
}

impl Tool {
    /// A tool without parameters.
    pub fn new(name: String, description: String) -> (r: Tool)
        ensures
            r.name == name,
            r.description == description,
            r.parameters is None,
    {
        Tool { name, description, parameters: None }
    }

    /// Declares the tool's parameter. A tool that already has its parameters
    /// keeps them unchanged: the first declaration wins.
    pub fn with_parameter(self, name: String, _type: String, description: String, required: bool) -> (r: Tool)
        ensures
            self.parameters is Some ==> r@ == self@,
            self.parameters is None ==> {
                &&& r.name == self.name
                &&& r.description == self.description
                &&& r.parameters matches Some(p)
                &&& p.properties@ == seq![ToolProperty { name, kind: _type, description }]
                &&& p.required@ == (if required { seq![name] } else { Seq::<String>::empty() })
            },
    {
        match self.parameters {
            Some(_) => self,
            None => {
                let mut req: Vec<String> = Vec::new();
                if required {
                    req.push(name.clone());
                }
                let property = ToolProperty { name, kind: _type, description };
                let properties = vec![property];
                assert(properties@ == seq![ToolProperty { name, kind: _type, description }]);
                assert(req@ =~= (if required { seq![name] } else { Seq::<String>::empty() }));
                Tool {
                    name: self.name,
                    description: self.description,
                    parameters: Some(ToolParameters { properties, required: req }),
                }
            },
        }
    }
}

/// The normalized result of a single-shot completion.
#[derive(Debug)]
pub struct Completion {
    pub completion: String,
    pub prompt_tokens: i32,
    pub completion_tokens: i32,
    pub total_tokens: i32,
    pub function: Option<FunctionCall>,
}

} // verus!
