//! Chat messages as they are stored and as they are sent to the model.

use vstd::prelude::*;

verus! {

/// A request that could not be put together.
#[derive(Debug)]
pub enum ChatError {
    /// A value of the request is missing or not acceptable.
    InvalidArgument(String),
}

/// Who wrote a message.
#[derive(Debug, Clone, Copy, PartialEq, Eq, Structural)]
pub enum Role {
    System,
    User,
    Assistant,
    Tool,
    Function,
}

impl Default for Role {
    fn default() -> (role: Role)
        ensures
            role == Role::User,
    {
        Role::User
    }
}

/// The kind of a tool that the model may call.
#[derive(Debug, Clone, Copy, PartialEq, Eq, Structural)]
pub enum ChatCompletionToolType {
    Function,
}

impl Default for ChatCompletionToolType {
    fn default() -> (kind: ChatCompletionToolType)
        ensures
            kind == ChatCompletionToolType::Function,
    {
        ChatCompletionToolType::Function
    }
}

/// How closely the model is to look at an image.
#[derive(Debug, Clone, Copy, PartialEq, Eq, Structural)]
pub enum ImageUrlDetail {
    Auto,
    Low,
    High,
}

impl Default for ImageUrlDetail {
    fn default() -> (detail: ImageUrlDetail)
        ensures
            detail == ImageUrlDetail::Auto,
    {
        ImageUrlDetail::Auto
    }
}

/// A message that sets the behaviour of the model.
#[derive(Debug, Clone, PartialEq)]
pub struct ChatCompletionRequestSystemMessage {
    /// The text of the message.
    pub content: String,
    /// The author of the message.
    pub role: Role,
    /// A name that tells participants of one role apart.
    pub name: Option<String>,
}

impl Default for ChatCompletionRequestSystemMessage {
    fn default() -> (message: ChatCompletionRequestSystemMessage)
        ensures
            message.content@.len() == 0,
            message.role == Role::User,
            message.name is None,
    {
        ChatCompletionRequestSystemMessage { content: String::new(), role: Role::User, name: None }
    }
}

/// A piece of text inside a user message.
#[derive(Debug, Clone, PartialEq)]
pub struct ChatCompletionRequestMessageContentPartText {
    /// The kind of the part, `text` on the wire.
    pub kind: String,
    /// The text.
    pub text: String,
}

impl Default for ChatCompletionRequestMessageContentPartText {
    fn default() -> (part: ChatCompletionRequestMessageContentPartText)
        ensures
            part.kind@.len() == 0,
            part.text@.len() == 0,
    {
        ChatCompletionRequestMessageContentPartText { kind: String::new(), text: String::new() }
    }
}

/// An image, as a link or as its encoded bytes.
#[derive(Debug, Clone, PartialEq)]
pub struct ImageUrl {
    /// The link to the image, or its bytes in base 64.
    pub url: String,
    /// How closely the model is to look at it.
    pub detail: ImageUrlDetail,
}

impl Default for ImageUrl {
    fn default() -> (image: ImageUrl)
        ensures
            image.url@.len() == 0,
            image.detail == ImageUrlDetail::Auto,
    {
        ImageUrl { url: String::new(), detail: ImageUrlDetail::Auto }
    }
}

/// An image inside a user message.
#[derive(Debug, Clone, PartialEq)]
pub struct ChatCompletionRequestMessageContentPartImage {
    /// The kind of the part, `image_url` on the wire.
    pub kind: String,
    /// The image.
    pub image_url: ImageUrl,
}

impl Default for ChatCompletionRequestMessageContentPartImage {
    fn default() -> (part: ChatCompletionRequestMessageContentPartImage)
        ensures
            part.kind@.len() == 0,
            part.image_url.url@.len() == 0,
            part.image_url.detail == ImageUrlDetail::Auto,
    {
        ChatCompletionRequestMessageContentPartImage {
            kind: String::new(),
            image_url: ImageUrl { url: String::new(), detail: ImageUrlDetail::Auto },
        }
    }
}

/// One part of a user message that is made of several.
#[derive(Debug, Clone, PartialEq)]
pub enum ChatCompletionRequestMessageContentPart {
    Text(ChatCompletionRequestMessageContentPartText),
    Image(ChatCompletionRequestMessageContentPartImage),
}

/// What a user message holds: plain text, or a list of parts.
#[derive(Debug, Clone, PartialEq)]
pub enum ChatCompletionRequestUserMessageContent {
    /// The text of the message.
    Text(String),
    /// Parts of text and images.
    Array(Vec<ChatCompletionRequestMessageContentPart>),
}

impl Default for ChatCompletionRequestUserMessageContent {
    fn default() -> (content: ChatCompletionRequestUserMessageContent)
        ensures
            content matches ChatCompletionRequestUserMessageContent::Text(text) && text@.len()
                == 0,
    {
        ChatCompletionRequestUserMessageContent::Text(String::new())
    }
}

/// A message written by the user.
#[derive(Debug, Clone, PartialEq)]
pub struct ChatCompletionRequestUserMessage {
    /// What the message holds.
    pub content: ChatCompletionRequestUserMessageContent,
    /// The author of the message.
    pub role: Role,
    /// A name that tells participants of one role apart.
    pub name: Option<String>,
}

impl Default for ChatCompletionRequestUserMessage {
    fn default() -> (message: ChatCompletionRequestUserMessage)
        ensures
            message.content matches ChatCompletionRequestUserMessageContent::Text(text)
                && text@.len() == 0,
            message.role == Role::User,
            message.name is None,
    {
        ChatCompletionRequestUserMessage {
            content: ChatCompletionRequestUserMessageContent::Text(String::new()),
            role: Role::User,
            name: None,
        }
    }
}

/// The name and the arguments of a function that the model wants called.
#[derive(Debug, Clone, PartialEq)]
pub struct FunctionCall {
    /// The name of the function.
    pub name: String,
    /// The arguments as the model wrote them, meant to be JSON.
    pub arguments: String,
}

/// A call of a tool that the model asked for.
#[derive(Debug, Clone, PartialEq)]
pub struct ChatCompletionMessageToolCall {
    /// The identifier of the call.
    pub id: String,
    /// The kind of the tool.
    pub kind: ChatCompletionToolType,
    /// The function to call.
    pub function: FunctionCall,
}

/// A message written by the model.
#[derive(Debug, Clone, PartialEq)]
pub struct ChatCompletionRequestAssistantMessage {
    /// The text of the message.
    pub content: Option<String>,
    /// The author of the message.
    pub role: Role,
    /// A name that tells participants of one role apart.
    pub name: Option<String>,
    /// The tool calls that the model asked for.
    pub tool_calls: Option<Vec<ChatCompletionMessageToolCall>>,
}

impl Default for ChatCompletionRequestAssistantMessage {
    fn default() -> (message: ChatCompletionRequestAssistantMessage)
        ensures
            message.content is None,
            message.role == Role::User,
            message.name is None,
            message.tool_calls is None,
    {
        ChatCompletionRequestAssistantMessage {
            content: None,
            role: Role::User,
            name: None,
            tool_calls: None,
        }
    }
}

/// The answer of a tool to a call.
#[derive(Debug, Clone, PartialEq)]
pub struct ChatCompletionRequestToolMessage {
    /// The author of the message.
    pub role: Role,
    /// The text of the answer.
    pub content: String,
    /// The call that is answered.
    pub tool_call_id: String,
}

impl Default for ChatCompletionRequestToolMessage {
    fn default() -> (message: ChatCompletionRequestToolMessage)
        ensures
            message.role == Role::User,
            message.content@.len() == 0,
            message.tool_call_id@.len() == 0,
    {
        ChatCompletionRequestToolMessage {
            role: Role::User,
            content: String::new(),
            tool_call_id: String::new(),
        }
    }
}

/// The value that a called function returned.
#[derive(Debug, Clone, PartialEq)]
pub struct ChatCompletionRequestFunctionMessage {
    /// The author of the message.
    pub role: Role,
    /// The returned value.
    pub content: Option<String>,
    /// The name of the function.
    pub name: String,
}

impl Default for ChatCompletionRequestFunctionMessage {
    fn default() -> (message: ChatCompletionRequestFunctionMessage)
        ensures
            message.role == Role::User,
            message.content is None,
            message.name@.len() == 0,
    {
        ChatCompletionRequestFunctionMessage {
            role: Role::User,
            content: None,
            name: String::new(),
        }
    }
}

/// A message of a conversation.
#[derive(Debug, Clone, PartialEq)]
pub enum ChatMessage {
    System(ChatCompletionRequestSystemMessage),
    User(ChatCompletionRequestUserMessage),
    Assistant(ChatCompletionRequestAssistantMessage),
    Tool(ChatCompletionRequestToolMessage),
    Function(ChatCompletionRequestFunctionMessage),
}

/// A message as it is kept with its conversation.
#[derive(Debug, Clone)]
pub struct SavedMessage {
    /// The message.
    pub msg: ChatMessage,
    /// Whether the message is dropped once the answer is complete.
    pub temporary: bool,
}

} // verus!
