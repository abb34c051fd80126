//! One exchange with the chat model: the request that is sent, and what is
//! made of the reply.

use vstd::prelude::*;
use crate::fence::{retag_fences, retagged};
use crate::prompt::{build_prompt, prompt_for};

verus! {

/// The model that every request names.
pub const MODEL: &'static str = "gpt-3.5-turbo";

/// Who speaks in a chat message. Requests are made of user messages only.
#[derive(Clone, Copy, Debug, PartialEq, Eq, Structural)]
pub enum MessageRole {
    User,
}

/// A message of a chat request.
#[derive(Debug, PartialEq, Eq)]
pub struct ChatMessage {
    pub role: MessageRole,
    pub content: String,
}

/// A [`ChatMessage`] as a mathematical value.
pub struct ChatMessageView {
    pub role: MessageRole,
    pub content: Seq<char>,
}

impl View for ChatMessage {
    type V = ChatMessageView;

    open spec fn view(&self) -> ChatMessageView {
        ChatMessageView { role: self.role, content: self.content@ }
    }
}

impl DeepView for ChatMessage {
    type V = ChatMessageView;

    open spec fn deep_view(&self) -> ChatMessageView {
        self@
    }
}

/// A chat-completion request: the model and the messages, in order.
#[derive(Debug, PartialEq, Eq)]
pub struct ChatRequest {
    pub model: String,
    pub messages: Vec<ChatMessage>,
}

/// A [`ChatRequest`] as a mathematical value.
pub struct ChatRequestView {
    pub model: Seq<char>,
    pub messages: Seq<ChatMessageView>,
}

impl View for ChatRequest {
    type V = ChatRequestView;

    open spec fn view(&self) -> ChatRequestView {
        ChatRequestView { model: self.model@, messages: self.messages.deep_view() }
    }
}

/// What came back from the chat API: the text of each completion choice, in
/// the order given, or the cause for which the call failed.
#[derive(Debug, PartialEq, Eq)]
pub enum ChatReply {
    Choices(Vec<String>),
    Failure(String),
}

/// A [`ChatReply`] as a mathematical value.
pub enum ChatReplyView {
    Choices(Seq<Seq<char>>),
    Failure(Seq<char>),
}

impl View for ChatReply {
    type V = ChatReplyView;

    open spec fn view(&self) -> ChatReplyView {
        match self {
            ChatReply::Choices(choices) => ChatReplyView::Choices(choices.deep_view()),
            ChatReply::Failure(cause) => ChatReplyView::Failure(cause@),
        }
    }
}

/// Why no text was generated.
#[derive(Debug, PartialEq, Eq)]
pub enum GenerationError {
    /// The call to the chat API failed, for the cause given.
    ApiFailure(String),
    /// The chat API answered without a single choice.
    EmptyResponse,
}

/// A [`GenerationError`] as a mathematical value.
pub enum GenerationErrorView {
    ApiFailure(Seq<char>),
    EmptyResponse,
}

impl View for GenerationError {
    type V = GenerationErrorView;

    open spec fn view(&self) -> GenerationErrorView {
        match self {
            GenerationError::ApiFailure(cause) => GenerationErrorView::ApiFailure(cause@),
            GenerationError::EmptyResponse => GenerationErrorView::EmptyResponse,
        }
    }
}

/// The request for a notebook described by `description`: the fixed model and
/// a single user message that holds the prompt.
pub open spec fn request_for(description: Seq<char>) -> ChatRequestView {
    ChatRequestView {
        model: MODEL@,
        messages: seq![
            ChatMessageView { role: MessageRole::User, content: prompt_for(description) },
        ],
    }
}

/// The Markdown that a reply stands for: the first choice, with its fence
/// openers retagged. A reply without choices is an error, and so is a failed
/// call.
pub open spec fn markdown_of(reply: ChatReplyView) -> Result<Seq<char>, GenerationErrorView> {
    match reply {
        ChatReplyView::Failure(cause) => Err(GenerationErrorView::ApiFailure(cause)),
        ChatReplyView::Choices(choices) => if choices.len() == 0 {
            Err(GenerationErrorView::EmptyResponse)
        } else {
            Ok(retagged(choices[0]))
        },
    }
}

/// The outcome of a generation as a mathematical value.
pub open spec fn generation_view(outcome: Result<String, GenerationError>) -> Result<
    Seq<char>,
    GenerationErrorView,
> {
    match outcome {
        Ok(text) => Ok(text@),
        Err(error) => Err(error@),
    }
}

/// Builds the chat request for `description`.
pub fn chat_request(description: &str) -> (request: ChatRequest)
    ensures
        request@ == request_for(description@),
{
    let message = ChatMessage { role: MessageRole::User, content: build_prompt(description) };
    let mut messages: Vec<ChatMessage> = Vec::new();
    messages.push(message);
    let request = ChatRequest { model: String::from_str(MODEL), messages };
    proof {
        assert(request.messages.deep_view() =~= request_for(description@).messages);
    }
    request
}

/// Turns the reply of the chat API into the generated Markdown, or into the
/// error that the reply amounts to.
pub fn markdown_from_reply(reply: ChatReply) -> (outcome: Result<String, GenerationError>)
    ensures
        generation_view(outcome) == markdown_of(reply@),
{
    match reply {
        ChatReply::Failure(cause) => Err(GenerationError::ApiFailure(cause)),
        ChatReply::Choices(choices) => {
            if choices.len() == 0 {
                Err(GenerationError::EmptyResponse)
            } else {
                Ok(retag_fences(choices[0].as_str()))
            }
        },
    }
}

} // verus!
