use buyu::models::message::{ImageAttachment, PromptMessage};
use buyu::repo::message_repo::{build_prompt_messages, PromptRow, PromptRowBody};

fn text(node: &str, role: &str, body: &str) -> PromptRow {
    PromptRow { node_id: node.to_string(), role: role.to_string(), body: PromptRowBody::Text(body.to_string()) }
}

fn image(node: &str, role: &str, data: &str) -> PromptRow {
    PromptRow {
        node_id: node.to_string(),
        role: role.to_string(),
        body: PromptRowBody::Image(ImageAttachment { base64: data.to_string(), mime_type: "image/png".to_string() }),
    }
}

fn other(node: &str, role: &str) -> PromptRow {
    PromptRow { node_id: node.to_string(), role: role.to_string(), body: PromptRowBody::Other }
}

fn prompt(role: &str, content: &str, images: Vec<ImageAttachment>) -> PromptMessage {
    PromptMessage { role: role.to_string(), content: content.to_string(), images }
}

#[test]
fn chunks_of_one_node_are_joined() {
    let rows = vec![
        text("n1", "user", "Hel"),
        text("n1", "user", "lo"),
        text("n2", "assistant", "Hi"),
        other("n2", "assistant"),
        text("n2", "assistant", "!"),
    ];
    assert_eq!(
        build_prompt_messages(&rows),
        vec![prompt("user", "Hello", vec![]), prompt("assistant", "Hi!", vec![])]
    );
}

#[test]
fn images_travel_with_their_message() {
    let rows = vec![image("n1", "user", "AAA"), text("n1", "user", "look"), image("n1", "user", "BBB")];
    let messages = build_prompt_messages(&rows);
    assert_eq!(messages.len(), 1);
    assert_eq!(messages[0].content, "look");
    assert_eq!(messages[0].images.len(), 2);
    assert_eq!(messages[0].images[1].base64, "BBB");
}

#[test]
fn a_last_message_without_text_or_images_is_dropped_but_not_an_earlier_one() {
    let rows = vec![other("n1", "assistant"), text("n2", "user", "q"), other("n3", "assistant")];
    assert_eq!(
        build_prompt_messages(&rows),
        vec![prompt("assistant", "", vec![]), prompt("user", "q", vec![])]
    );
    assert!(build_prompt_messages(&[]).is_empty());
}

use buyu::repo::message_repo::{list_messages, load_contents_map, ContentRow, MessageNodeVersionRow};

fn chunk(version: &str, body: PromptRowBody) -> ContentRow {
    ContentRow { version_id: version.to_string(), body }
}

fn node_row(node: &str, active: Option<&str>, version: Option<&str>, status: Option<&str>, created: Option<i64>) -> MessageNodeVersionRow {
    MessageNodeVersionRow {
        node_id: node.to_string(),
        conversation_id: "conv".to_string(),
        author_agent_id: None,
        role: "assistant".to_string(),
        order_key: format!("k-{node}"),
        active_version_id: active.map(str::to_string),
        node_created_at: 100,
        version_id: version.map(str::to_string),
        status: status.map(str::to_string),
        model_name: None,
        prompt_tokens: None,
        completion_tokens: None,
        finish_reason: None,
        version_created_at: created,
    }
}

#[test]
fn version_contents_are_gathered_per_version() {
    let rows = vec![
        chunk("v1", PromptRowBody::Text("Hel".to_string())),
        chunk("v2", PromptRowBody::Thinking("hmm".to_string())),
        chunk("v1", PromptRowBody::Text("lo".to_string())),
        chunk("v1", PromptRowBody::Image(ImageAttachment { base64: "AA".to_string(), mime_type: "image/png".to_string() })),
        chunk("v2", PromptRowBody::Other),
    ];
    let contents = load_contents_map(&rows);
    assert_eq!(contents.len(), 2);
    assert_eq!(contents[0].version_id, "v1");
    assert_eq!(contents[0].text, "Hello");
    assert_eq!(contents[0].images.len(), 1);
    assert_eq!(contents[1].version_id, "v2");
    assert_eq!(contents[1].thinking, "hmm");
    assert_eq!(contents[1].text, "");
}

#[test]
fn a_page_groups_versions_under_their_nodes() {
    let contents = load_contents_map(&[
        chunk("v2", PromptRowBody::Text("answer".to_string())),
        chunk("v1", PromptRowBody::Text("old".to_string())),
    ]);
    let rows = vec![
        node_row("n1", Some("v2"), Some("v1"), Some("committed"), Some(10)),
        node_row("n1", Some("v2"), Some("v2"), None, None),
        node_row("n2", None, None, None, None),
    ];
    let nodes = list_messages(&rows, &contents);
    assert_eq!(nodes.len(), 2);
    assert_eq!(nodes[0].id, "n1");
    assert_eq!(nodes[0].versions.len(), 2);
    // Only the active version carries its content.
    assert_eq!(nodes[0].versions[0].content, None);
    assert_eq!(nodes[0].versions[0].created_at, 10);
    assert_eq!(nodes[0].versions[1].content.as_deref(), Some("answer"));
    assert_eq!(nodes[0].versions[1].thinking_content, None);
    assert_eq!(nodes[0].versions[1].status, "committed");
    assert_eq!(nodes[0].versions[1].created_at, 100);
    assert_eq!(nodes[1].id, "n2");
    assert!(nodes[1].versions.is_empty());
}
