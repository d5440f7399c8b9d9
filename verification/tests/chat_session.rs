use agent_pipeline::chat::{frame_response, is_exit_command, ChatSession};
use agent_pipeline::completion::{Chat, Message, PromptError};

#[test]
fn exit_command_is_case_insensitive() {
    assert!(is_exit_command("exit"));
    assert!(is_exit_command("EXIT"));
    assert!(is_exit_command("Exit"));
    assert!(is_exit_command("eXiT"));
    assert!(!is_exit_command("quit"));
    assert!(!is_exit_command("exit now"));
    assert!(!is_exit_command(""));
    assert!(!is_exit_command("exi"));
}

#[test]
fn framed_response_keeps_reply_between_separators() {
    let lines = frame_response("fine, thanks");
    assert_eq!(lines.len(), 3);
    assert_eq!(
        lines[0],
        "========================== Response ============================"
    );
    assert_eq!(lines[1], "fine, thanks");
    assert_eq!(
        lines[2],
        "================================================================"
    );
}

#[test]
fn session_records_turns_oldest_first() {
    let mut session = ChatSession::new();
    session.push_exchange("hi", "hello");
    session.push_exchange("how are you", "fine");

    assert_eq!(session.history.len(), 4);
    assert_eq!(session.history[0].role, "user");
    assert_eq!(session.history[0].content, "hi");
    assert_eq!(session.history[1].role, "assistant");
    assert_eq!(session.history[1].content, "hello");
    assert_eq!(session.history[2].role, "user");
    assert_eq!(session.history[2].content, "how are you");
    assert_eq!(session.history[3].role, "assistant");
    assert_eq!(session.history[3].content, "fine");
}

/// A chat backend that answers with the message and the history length.
pub struct EchoChat;

impl Chat for EchoChat {
    fn chat(&self, message: &str, history: Vec<Message>) -> Result<String, PromptError> {
        Ok(format!("echo {} after {} messages", message, history.len()))
    }
}

#[test]
fn chat_backend_receives_accumulated_history() {
    let bot = EchoChat;
    let mut session = ChatSession::new();

    let reply = bot.chat("hi", session.history.clone()).unwrap();
    assert_eq!(reply, "echo hi after 0 messages");
    session.push_exchange("hi", &reply);

    let reply = bot.chat("again", session.history.clone()).unwrap();
    assert_eq!(reply, "echo again after 2 messages");
}
