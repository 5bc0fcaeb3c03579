use async_openai::types::chat::{
    ChatCompletionRequestMessage, ChatCompletionRequestSystemMessageContent,
    ChatCompletionRequestUserMessageContent,
};
use code_agent::chain::{stage1_turn, ChainKind};
use code_agent::request::prepare_request;

#[test]
fn prepared_request_carries_model_and_both_messages() {
    let turn = stage1_turn(ChainKind::Feature, "the report", "the feature");
    let req = prepare_request("gemini-2.5-pro", &turn).expect("assembled builders cannot fail");
    assert_eq!(req.model, "gemini-2.5-pro");
    assert_eq!(req.messages.len(), 2);
    match &req.messages[0] {
        ChatCompletionRequestMessage::System(m) => match &m.content {
            ChatCompletionRequestSystemMessageContent::Text(t) => {
                assert_eq!(t, &turn.system);
            }
            other => panic!("system content must be text, got {other:?}"),
        },
        other => panic!("first message must be system-role, got {other:?}"),
    }
    match &req.messages[1] {
        ChatCompletionRequestMessage::User(m) => match &m.content {
            ChatCompletionRequestUserMessageContent::Text(t) => {
                assert_eq!(t, &turn.user);
            }
            other => panic!("user content must be text, got {other:?}"),
        },
        other => panic!("second message must be user-role, got {other:?}"),
    }
}
