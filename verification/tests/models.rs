use miko::models::audio::{SpeechModel, SpeechResponseFormat, Voice};
use miko::models::embeddings::{CreateEmbeddingRequest, EncodingFormat};
use miko::models::fine_tuning::{CreateFineTuningJobRequest, Hyperparameters, NEpochs};
use miko::models::images::{
    CreateImageRequest, DallE2ImageSize, ImageModel, ImageQuality, ImageSize, ImageStyle,
    ResponseFormat,
};
use miko::models::moderation::{CreateModerationRequest, TextModerationModel};
use miko::models::{
    ChatCompletionRequestAssistantMessage, ChatCompletionRequestFunctionMessage,
    ChatCompletionRequestSystemMessage, ChatCompletionRequestToolMessage,
    ChatCompletionRequestUserMessage, ChatCompletionRequestUserMessageContent,
    ChatCompletionToolType, ImageUrl, ImageUrlDetail, Role, UploadedFile,
};

#[test]
fn enums_default_to_their_first_choice() {
    assert_eq!(SpeechModel::default(), SpeechModel::Tts1);
    assert_eq!(Voice::default(), Voice::Alloy);
    assert_eq!(SpeechResponseFormat::default(), SpeechResponseFormat::Mp3);
    assert_eq!(EncodingFormat::default(), EncodingFormat::Float);
    assert_eq!(ImageModel::default(), ImageModel::DallE2);
    assert_eq!(ImageQuality::default(), ImageQuality::Standard);
    assert_eq!(ImageStyle::default(), ImageStyle::Vivid);
    assert_eq!(ResponseFormat::default(), ResponseFormat::Url);
    assert_eq!(TextModerationModel::default(), TextModerationModel::Latest);
    assert_eq!(ChatCompletionToolType::default(), ChatCompletionToolType::Function);
    assert_eq!(ImageUrlDetail::default(), ImageUrlDetail::Auto);
}

#[test]
fn defaults_that_are_not_the_first_choice() {
    assert_eq!(Role::default(), Role::User);
    assert_eq!(NEpochs::default(), NEpochs::Auto);
    assert_eq!(ImageSize::default(), ImageSize::S1024x1024);
    assert_eq!(DallE2ImageSize::default(), DallE2ImageSize::S1024x1024);
    assert_eq!(Hyperparameters::default().n_epochs, NEpochs::Auto);
}

#[test]
fn requests_default_to_empty() {
    let embedding = CreateEmbeddingRequest::default();
    assert_eq!(embedding.model, "");
    assert!(embedding.input.is_none());
    assert!(embedding.encoding_format.is_none());
    assert!(embedding.user.is_none());

    let job = CreateFineTuningJobRequest::default();
    assert_eq!(job.model, "");
    assert_eq!(job.training_file, "");
    assert!(job.hyperparameters.is_none());
    assert!(job.suffix.is_none());
    assert!(job.validation_file.is_none());

    let image = CreateImageRequest::default();
    assert_eq!(image.prompt, "");
    assert!(image.model.is_none() && image.n.is_none() && image.quality.is_none());
    assert!(image.response_format.is_none() && image.size.is_none());
    assert!(image.style.is_none() && image.user.is_none());

    let moderation = CreateModerationRequest::default();
    assert!(moderation.input.is_none());
    assert!(moderation.model.is_none());
}

#[test]
fn messages_default_to_empty() {
    let system = ChatCompletionRequestSystemMessage::default();
    assert_eq!(system.content, "");
    assert_eq!(system.role, Role::User);
    assert!(system.name.is_none());

    let user = ChatCompletionRequestUserMessage::default();
    assert_eq!(user.content, ChatCompletionRequestUserMessageContent::Text(String::new()));
    assert_eq!(user.role, Role::User);

    let assistant = ChatCompletionRequestAssistantMessage::default();
    assert!(assistant.content.is_none());
    assert!(assistant.tool_calls.is_none());

    let tool = ChatCompletionRequestToolMessage::default();
    assert_eq!(tool.content, "");
    assert_eq!(tool.tool_call_id, "");

    let function = ChatCompletionRequestFunctionMessage::default();
    assert!(function.content.is_none());
    assert_eq!(function.name, "");

    let image = ImageUrl::default();
    assert_eq!(image.url, "");
    assert_eq!(image.detail, ImageUrlDetail::Auto);
}

#[test]
fn described_file_carries_its_media_type() {
    let file = UploadedFile::describe("ws", "notes.txt");
    assert_eq!(file.workspace, "ws");
    assert_eq!(file.file_name, "notes.txt");
    assert_eq!(file.mime_type, "text/plain");
    let copy = file.duplicate();
    assert_eq!(copy.workspace, "ws");
    assert_eq!(copy.file_name, "notes.txt");
    assert_eq!(copy.mime_type, "text/plain");
}
