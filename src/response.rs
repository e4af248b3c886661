//! The backend's wire response, and the decoder that turns one complete
//! response into a normalized completion.

use crate::conversation::{Completion, FunctionCall, FunctionView};
use std::collections::HashMap;
use vstd::prelude::*;

verus! {

/// A function call in a response part.
#[derive(Debug, PartialEq, Eq)]
pub struct GeminiFunction {
    pub name: String,
    pub args: HashMap<String, serde_json::Value>,
}

impl View for GeminiFunction {
    type V = FunctionView;

    open spec fn view(&self) -> FunctionView {
        (self.name, self.args@)
    }
}

impl Clone for GeminiFunction {
    fn clone(&self) -> (r: Self)
        ensures
            r@ == self@,
    {
        GeminiFunction { name: self.name.clone(), args: self.args.clone() }
    }
}

/// One part of a candidate: some text, a function call, both or neither.
#[derive(Debug)]
pub struct ResponsePart {
    pub text: Option<String>,
    pub function_call: Option<GeminiFunction>,
}

/// The content of a candidate.
#[derive(Debug)]
pub struct ResponseContent {
    pub parts: Vec<ResponsePart>,
    pub role: Option<String>,
}

/// One candidate answer.
#[derive(Debug)]
pub struct Candidate {
    pub content: ResponseContent,
    pub finish_reason: Option<String>,
    pub index: Option<i32>,
}

/// Token counts, each of which the backend may leave out.
#[derive(Debug, Clone, Copy, PartialEq, Eq, Structural)]
pub struct UsageMetadata {
    pub prompt_token_count: Option<i32>,
    pub candidates_token_count: Option<i32>,
    pub total_token_count: Option<i32>,
}

/// A response in the backend's wire shape.
#[derive(Debug)]
pub struct GeminiResponse {
    pub candidates: Vec<Candidate>,
    pub usage_metadata: Option<UsageMetadata>,
}

/// Why a response does not make a completion.
#[derive(Debug, Clone, Copy, PartialEq, Eq, Structural)]
pub enum DecodeError {
    NoCompletion,
    MissingPromptTokens,
    MissingCompletionTokens,
    MissingTotalTokens,
}

impl DecodeError {
    /// A description of the error, naming what is missing.
    pub open spec fn description(self) -> Seq<char> {
        match self {
            DecodeError::NoCompletion => "no completion produced"@,
            DecodeError::MissingPromptTokens => "missing prompt tokens"@,
            DecodeError::MissingCompletionTokens => "missing completion tokens"@,
            DecodeError::MissingTotalTokens => "missing total tokens"@,
        }
    }

    pub fn message(&self) -> (r: &'static str)
        ensures
            r@ == self.description(),
    {
        match self {
            DecodeError::NoCompletion => "no completion produced",
            DecodeError::MissingPromptTokens => "missing prompt tokens",
            DecodeError::MissingCompletionTokens => "missing completion tokens",
            DecodeError::MissingTotalTokens => "missing total tokens",
        }
    }
}

/// The view of an optional function call.
pub open spec fn function_view(f: Option<GeminiFunction>) -> Option<FunctionView> {
    match f {
        Some(g) => Some(g@),
        None => None,
    }
}

/// The text of a part; a part without text adds nothing.
pub open spec fn part_text(p: ResponsePart) -> Seq<char> {
    match p.text {
        Some(t) => t@,
        None => Seq::empty(),
    }
}

/// The texts of all parts, in order, joined without separator.
pub open spec fn joined_text(parts: Seq<ResponsePart>) -> Seq<char>
    decreases parts.len(),
{
    if parts.len() == 0 {
        Seq::empty()
    } else {
        joined_text(parts.drop_last()) + part_text(parts.last())
    }
}

/// The function call of the last part that carries one.
pub open spec fn last_function(parts: Seq<ResponsePart>) -> Option<FunctionView>
    decreases parts.len(),
{
    if parts.len() == 0 {
        None
    } else if parts.last().function_call is Some {
        function_view(parts.last().function_call)
    } else {
        last_function(parts.drop_last())
    }
}

impl GeminiResponse {
    /// The parts of the first candidate, the only one that counts.
    pub open spec fn first_parts(self) -> Seq<ResponsePart> {
        self.candidates@[0].content.parts@
    }

    pub open spec fn prompt_tokens_spec(self) -> Option<i32> {
        match self.usage_metadata {
            Some(m) => m.prompt_token_count,
            None => None,
        }
    }

    pub open spec fn completion_tokens_spec(self) -> Option<i32> {
        match self.usage_metadata {
            Some(m) => m.candidates_token_count,
            None => None,
        }
    }

    pub open spec fn total_tokens_spec(self) -> Option<i32> {
        match self.usage_metadata {
            Some(m) => m.total_token_count,
            None => None,
        }
    }

    /// The function call of the first candidate: that of its last part that
    /// carries one.
    pub fn get_function(&self) -> (r: Option<GeminiFunction>)
        ensures
            self.candidates@.len() == 0 ==> r is None,
            self.candidates@.len() > 0 ==> function_view(r) == last_function(self.first_parts()),
    {
        if self.candidates.len() == 0 {
            return None;
        }
        let candidate = &self.candidates[0];
        let parts = &candidate.content.parts;
        let mut function_call: Option<GeminiFunction> = None;
        let mut i: usize = 0;
        while i < parts.len()
            invariant
                parts@ == self.first_parts(),
                i <= parts@.len(),
                function_view(function_call) == last_function(parts@.take(i as int)),
            decreases parts@.len() - i,
        {
            assert(parts@.take(i + 1).drop_last() =~= parts@.take(i as int));
            match &parts[i].function_call {
                Some(f) => {
                    function_call = Some(f.clone());
                },
                None => {},
            }
            i = i + 1;
        }
        assert(parts@.take(i as int) =~= parts@);
        function_call
    }

    /// The text of the first candidate: the texts of its parts in order.
    pub fn get_text(&self) -> (r: Option<String>)
        ensures
            self.candidates@.len() == 0 <==> r is None,
            r matches Some(t) ==> t@ == joined_text(self.first_parts()),
    {
        if self.candidates.len() == 0 {
            return None;
        }
        let candidate = &self.candidates[0];
        let parts = &candidate.content.parts;
        let mut response_text = String::new();
        let mut i: usize = 0;
        while i < parts.len()
            invariant
                parts@ == self.first_parts(),
                i <= parts@.len(),
                response_text@ == joined_text(parts@.take(i as int)),
            decreases parts@.len() - i,
        {
            assert(parts@.take(i + 1).drop_last() =~= parts@.take(i as int));
            match &parts[i].text {
                Some(t) => {
                    response_text.append(t.as_str());
                },
                None => {
                    assert(response_text@ =~= response_text@ + Seq::<char>::empty());
                },
            }
            i = i + 1;
        }
        assert(parts@.take(i as int) =~= parts@);
        Some(response_text)
    }

    pub fn get_prompt_tokens(&self) -> (r: Option<i32>)
        ensures
            r == self.prompt_tokens_spec(),
    {
        match &self.usage_metadata {
            Some(m) => m.prompt_token_count,
            None => None,
        }
    }

    pub fn get_completion_tokens(&self) -> (r: Option<i32>)
        ensures
            r == self.completion_tokens_spec(),
    {
        match &self.usage_metadata {
            Some(m) => m.candidates_token_count,
            None => None,
        }
    }

    pub fn get_total_tokens(&self) -> (r: Option<i32>)
        ensures
            r == self.total_tokens_spec(),
    {
        match &self.usage_metadata {
            Some(m) => m.total_token_count,
            None => None,
        }
    }
}

/// A completion as a value: its text, its three token counts and its function call.
pub type CompletionView = (Seq<char>, i32, i32, i32, Option<FunctionView>);

/// The view of a completion.
pub open spec fn completion_view(c: Completion) -> CompletionView {
    (
        c.completion@,
        c.prompt_tokens,
        c.completion_tokens,
        c.total_tokens,
        match c.function {
            Some(f) => Some(f@),
            None => None,
        },
    )
}

/// What a complete response decodes to: the first candidate's text and
/// function call with the three token counts, or the first of these checks
/// that fails: a candidate, then each count in turn.
pub open spec fn decoded(response: GeminiResponse) -> Result<CompletionView, DecodeError> {
    if response.candidates@.len() == 0 {
        Err(DecodeError::NoCompletion)
    } else if response.prompt_tokens_spec() is None {
        Err(DecodeError::MissingPromptTokens)
    } else if response.completion_tokens_spec() is None {
        Err(DecodeError::MissingCompletionTokens)
    } else if response.total_tokens_spec() is None {
        Err(DecodeError::MissingTotalTokens)
    } else {
        Ok(
            (
                joined_text(response.first_parts()),
                response.prompt_tokens_spec().unwrap(),
                response.completion_tokens_spec().unwrap(),
                response.total_tokens_spec().unwrap(),
                last_function(response.first_parts()),
            ),
        )
    }
}

/// A response with a candidate that lacks exactly one of the three token
/// counts does not decode, and its error names the count that is missing.
pub proof fn lemma_missing_count_is_named(response: GeminiResponse)
    requires
        response.candidates@.len() > 0,
    ensures
        response.prompt_tokens_spec() is None && response.completion_tokens_spec() is Some
            && response.total_tokens_spec() is Some ==> decoded(response) == Err::<CompletionView, DecodeError>(
            DecodeError::MissingPromptTokens,
        ),
        response.prompt_tokens_spec() is Some && response.completion_tokens_spec() is None
            && response.total_tokens_spec() is Some ==> decoded(response) == Err::<CompletionView, DecodeError>(
            DecodeError::MissingCompletionTokens,
        ),
        response.prompt_tokens_spec() is Some && response.completion_tokens_spec() is Some
            && response.total_tokens_spec() is None ==> decoded(response) == Err::<CompletionView, DecodeError>(
            DecodeError::MissingTotalTokens,
        ),
{
}

/// Decodes one complete response into a completion. The text and all three
/// token counts are required; the function call is optional.
pub fn decode_completion(response: &GeminiResponse) -> (r: Result<Completion, DecodeError>)
    ensures
        match r {
            Ok(c) => decoded(*response) == Ok::<CompletionView, DecodeError>(completion_view(c)),
            Err(e) => decoded(*response) == Err::<CompletionView, DecodeError>(e),
        },
        response.candidates@.len() == 0 ==> r == Err::<Completion, DecodeError>(DecodeError::NoCompletion),
{
    let text = match response.get_text() {
        Some(t) => t,
        None => return Err(DecodeError::NoCompletion),
    };
    let prompt_tokens = match response.get_prompt_tokens() {
        Some(n) => n,
        None => return Err(DecodeError::MissingPromptTokens),
    };
    let completion_tokens = match response.get_completion_tokens() {
        Some(n) => n,
        None => return Err(DecodeError::MissingCompletionTokens),
    };
    let total_tokens = match response.get_total_tokens() {
        Some(n) => n,
        None => return Err(DecodeError::MissingTotalTokens),
    };
    let function = match response.get_function() {
        Some(f) => Some(FunctionCall { name: f.name, args: f.args }),
        None => None,
    };
    Ok(Completion { completion: text, prompt_tokens, completion_tokens, total_tokens, function })
}

} // verus!
