//! The request builder: a mutable staging object, bound to one backend, in which
//! a caller assembles a request before it is dispatched.

use crate::conversation::{clone_list, clone_views, Message, Settings, Tool, ToolView};
use vstd::prelude::*;

verus! {

/// A list after items were added to it: the items alone where there was no
/// list yet, else the old items followed by the new ones.
pub open spec fn appended<T>(list: Option<Seq<T>>, items: Seq<T>) -> Option<Seq<T>> {
    match list {
        Some(l) => Some(l + items),
        None => Some(items),
    }
}

/// Adding items in two steps leaves the list that adding them all in one step
/// leaves: the accumulation of messages and tools is associative.
pub proof fn lemma_accumulation_associative<T>(list: Option<Seq<T>>, first: Seq<T>, second: Seq<T>)
    ensures
        appended(appended(list, first), second) == appended(list, first + second),
{
    match list {
        Some(l) => {
            assert(l + first + second =~= l + (first + second));
        },
        None => {},
    }
}

/// Adding the messages `a` and `b` as one list and then `c` leaves the list
/// that adding `a`, `b` and `c` one at a time leaves.
pub proof fn lemma_batch_then_single(list: Option<Seq<Message>>, a: Message, b: Message, c: Message)
    ensures
        appended(appended(list, seq![a, b]), seq![c])
            == appended(appended(appended(list, seq![a]), seq![b]), seq![c]),
{
    lemma_accumulation_associative(list, seq![a], seq![b]);
    assert(seq![a] + seq![b] =~= seq![a, b]);
}

/// The view of an optional list of tools.
pub open spec fn tools_view(tools: Option<Vec<Tool>>) -> Option<Seq<ToolView>> {
    match tools {
        Some(ts) => Some(ts@.map_values(|t: Tool| t@)),
        None => None,
    }
}

/// The view of an optional list of messages.
pub open spec fn messages_view(messages: Option<Vec<Message>>) -> Option<Seq<Message>> {
    match messages {
        Some(ms) => Some(ms@),
        None => None,
    }
}

/// A generic request: what the builder held when it was dispatched.
pub struct ModelRequest {
    pub system: Option<String>,
    pub messages: Option<Vec<Message>>,
    pub settings: Option<Settings>,
    pub tools: Option<Vec<Tool>>,
}

/// A request in preparation for one backend. Scalar fields keep the last value
/// written; list fields grow by each item added.
pub struct ModelRequestBuilder<'a, M> {
    pub model: &'a M,
    pub system: Option<String>,
    pub messages: Option<Vec<Message>>,
    pub settings: Option<Settings>,
    pub tools: Option<Vec<Tool>>,
}

impl<'a, M> ModelRequestBuilder<'a, M> {
    /// An empty request for `model`.
    pub fn new(model: &'a M) -> (r: Self)
        ensures
            r.model == model,
            r.system is None,
            r.messages is None,
            r.settings is None,
            r.tools is None,
    {
        ModelRequestBuilder { model, system: None, messages: None, settings: None, tools: None }
    }

    /// Sets the system text, replacing any earlier one.
    pub fn with_system(&mut self, system: String) -> (r: &mut Self)
        ensures
            r.model == old(self).model,
            r.system == Some(system),
            r.messages == old(self).messages,
            r.settings == old(self).settings,
            r.tools == old(self).tools,
            *final(self) == *final(r),
    {
        self.system = Some(system);
        self
    }

    /// Appends one message.
    pub fn with_message(&mut self, message: Message) -> (r: &mut Self)
        ensures
            r.model == old(self).model,
            r.system == old(self).system,
            messages_view(r.messages) == appended(messages_view(old(self).messages), seq![message]),
            r.settings == old(self).settings,
            r.tools == old(self).tools,
            *final(self) == *final(r),
    {
        let mut list = match self.messages.take() {
            Some(ms) => ms,
            None => Vec::new(),
        };
        list.push(message);
        self.messages = Some(list);
        self
    }

    /// Appends several messages, in their order.
    pub fn with_messages(&mut self, messages: Vec<Message>) -> (r: &mut Self)
        ensures
            r.model == old(self).model,
            r.system == old(self).system,
            messages_view(r.messages) == appended(messages_view(old(self).messages), messages@),
            r.settings == old(self).settings,
            r.tools == old(self).tools,
            *final(self) == *final(r),
    {
        let mut items = messages;
        let mut list = match self.messages.take() {
            Some(ms) => ms,
            None => Vec::new(),
        };
        list.append(&mut items);
        self.messages = Some(list);
        self
    }

    /// Sets the generation settings, replacing any earlier ones.
    pub fn with_settings(&mut self, settings: Settings) -> (r: &mut Self)
        ensures
            r.model == old(self).model,
            r.system == old(self).system,
            r.messages == old(self).messages,
            r.settings == Some(settings),
            r.tools == old(self).tools,
            *final(self) == *final(r),
    {
        self.settings = Some(settings);
        self
    }

    /// Appends one tool.
    pub fn with_tool(&mut self, tool: Tool) -> (r: &mut Self)
        ensures
            r.model == old(self).model,
            r.system == old(self).system,
            r.messages == old(self).messages,
            r.settings == old(self).settings,
            tools_view(r.tools) == appended(tools_view(old(self).tools), seq![tool@]),
            *final(self) == *final(r),
    {
        let mut list = match self.tools.take() {
            Some(ts) => ts,
            None => Vec::new(),
        };
        list.push(tool);
        self.tools = Some(list);
        self
    }

    /// Appends several tools, in their order.
    pub fn with_tools(&mut self, tools: Vec<Tool>) -> (r: &mut Self)
        ensures
            r.model == old(self).model,
            r.system == old(self).system,
            r.messages == old(self).messages,
            r.settings == old(self).settings,
            tools_view(r.tools) == appended(tools_view(old(self).tools), tools@.map_values(|t: Tool| t@)),
            *final(self) == *final(r),
    {
        let mut items = tools;
        let mut list = match self.tools.take() {
            Some(ts) => ts,
            None => Vec::new(),
        };
        list.append(&mut items);
        self.tools = Some(list);
        self
    }

    /// A snapshot of the request as it stands; the builder stays usable.
    pub fn to_model_request(&self) -> (r: ModelRequest)
        ensures
            r.system == self.system,
            messages_view(r.messages) == messages_view(self.messages),
            r.settings == self.settings,
            tools_view(r.tools) == tools_view(self.tools),
    {
        let system = match &self.system {
            Some(s) => Some(s.clone()),
            None => None,
        };
        let messages = match &self.messages {
            Some(ms) => Some(clone_list(ms)),
            None => None,
        };
        let tools = match &self.tools {
            Some(ts) => Some(clone_views(ts)),
            None => None,
        };
        ModelRequest { system, messages, settings: self.settings, tools }
    }
}

} // verus!
