use buyu::providers::common::{parse_sse_event, part_text, take_next_sse_event};
use buyu::services::generation_engine::{split_thinking_from_chunks, split_thinking_from_text, TextSegment, ThinkingTagDetector};
use buyu::domain::{ContentType, ProviderMessagePart, ProviderMessagePartKind, StoredContent};

fn collect(segments: Vec<TextSegment>, body: &mut String, thinking: &mut String) {
    for segment in segments {
        match segment {
            TextSegment::Normal(text) => body.push_str(&text),
            TextSegment::Thinking(text) => thinking.push_str(&text),
        }
    }
}

fn stream(chunks: &[&str], tags: &[&str]) -> (String, String) {
    let mut detector = ThinkingTagDetector::new(tags.iter().map(|t| t.to_string()).collect());
    let mut body = String::new();
    let mut thinking = String::new();
    for chunk in chunks {
        let segments = detector.feed(chunk);
        collect(segments, &mut body, &mut thinking);
    }
    collect(detector.finish(), &mut body, &mut thinking);
    (body, thinking)
}

#[test]
fn thinking_is_split_from_a_whole_text() {
    let tags = vec!["think".to_string()];
    let (body, thinking) = split_thinking_from_text("Hello <think>plan</think>World", &tags);
    assert_eq!(body, "Hello World");
    assert_eq!(thinking, "plan");
}

#[test]
fn without_tags_the_whole_text_is_the_reply() {
    let (body, thinking) = split_thinking_from_text("a <think>b</think>", &[]);
    assert_eq!(body, "a <think>b</think>");
    assert_eq!(thinking, "");
}

#[test]
fn tags_split_across_chunks_are_recognised() {
    let whole = split_thinking_from_text("Hello <think>plan</think>World", &["think".to_string()]);
    let chunked = stream(&["Hello <th", "ink>pl", "an</thi", "nk>World"], &["think"]);
    assert_eq!(chunked, whole);
    let one_by_one: Vec<String> = "Hello <think>plan</think>World".chars().map(|c| c.to_string()).collect();
    let refs: Vec<&str> = one_by_one.iter().map(|s| s.as_str()).collect();
    assert_eq!(stream(&refs, &["think"]), whole);
}

#[test]
fn the_earliest_of_several_tags_opens_and_only_its_own_tag_closes() {
    let (body, thinking) = stream(&["x<reason>a</think>b</reason>y<think>c</think>"], &["think", "reason"]);
    assert_eq!(body, "xy");
    assert_eq!(thinking, "a</think>bc");
}

#[test]
fn an_unclosed_tag_keeps_the_rest_as_thinking() {
    let (body, thinking) = stream(&["before<think>never closed"], &["think"]);
    assert_eq!(body, "before");
    assert_eq!(thinking, "never closed");
}

#[test]
fn held_back_text_is_released_at_the_end() {
    let mut detector = ThinkingTagDetector::new(vec!["think".to_string()]);
    let first = detector.feed("abcd<th");
    assert_eq!(first, vec![TextSegment::Normal("a".to_string())]);
    assert_eq!(detector.finish(), vec![TextSegment::Normal("bcd<th".to_string())]);
    assert_eq!(detector.finish(), Vec::<TextSegment>::new());
}

#[test]
fn sse_events_are_taken_one_at_a_time() {
    let mut buffer = "event: delta\ndata: {\"a\":1}\ndata:  two \n\nevent: done\ndata: x\n\npartial".to_string();
    let first = take_next_sse_event(&mut buffer).unwrap();
    assert_eq!(first.event.as_deref(), Some("delta"));
    assert_eq!(first.data, "{\"a\":1}\ntwo");
    let second = take_next_sse_event(&mut buffer).unwrap();
    assert_eq!(second.event.as_deref(), Some("done"));
    assert_eq!(second.data, "x");
    assert_eq!(buffer, "partial");
    assert!(take_next_sse_event(&mut buffer).is_none());
    assert_eq!(buffer, "partial");
}

#[test]
fn sse_event_without_name_and_comment_lines() {
    let (event, data) = parse_sse_event(": keep-alive\ndata: hi\r\nid: 7");
    assert_eq!(event, None);
    assert_eq!(data, "hi");
    let mut buffer = "\n\n".to_string();
    let empty = take_next_sse_event(&mut buffer).unwrap();
    assert_eq!(empty.event, None);
    assert_eq!(empty.data, "");
    assert_eq!(buffer, "");
}

#[test]
fn part_text_prefers_its_own_text() {
    let content = StoredContent {
        content_id: "c".to_string(),
        content_type: ContentType::Text,
        mime_type: None,
        size_bytes: 3,
        text_content: Some("from content".to_string()),
        preview_text: None,
        primary_storage_uri: None,
        config_json: "{}".to_string(),
    };
    let mut part = ProviderMessagePart {
        kind: ProviderMessagePartKind::Text,
        text: Some("own".to_string()),
        content: Some(content),
        metadata_json: "{}".to_string(),
    };
    assert_eq!(part_text(&part).as_deref(), Some("own"));
    part.text = None;
    assert_eq!(part_text(&part).as_deref(), Some("from content"));
    part.content = None;
    assert_eq!(part_text(&part), None);
}

#[test]
fn each_chunk_hands_out_one_segment_per_stretch_between_tags() {
    let mut detector = ThinkingTagDetector::new(vec!["think".to_string()]);
    assert_eq!(detector.feed("Hello <thi"), vec![TextSegment::Normal("Hell".to_string())]);
    assert_eq!(
        detector.feed("nk>secret</think>bye"),
        vec![TextSegment::Normal("o ".to_string()), TextSegment::Thinking("secret".to_string())]
    );
    assert_eq!(detector.finish(), vec![TextSegment::Normal("bye".to_string())]);
}

#[test]
fn an_empty_thinking_stretch_hands_out_no_segment() {
    let mut detector = ThinkingTagDetector::new(vec!["t".to_string()]);
    assert_eq!(
        detector.feed("a<t></t>bcdefg"),
        vec![TextSegment::Normal("a".to_string()), TextSegment::Normal("bcde".to_string())]
    );
    assert_eq!(detector.finish(), vec![TextSegment::Normal("fg".to_string())]);
}

#[test]
fn a_whole_text_splits_for_tag_names_with_angle_brackets() {
    let tags = vec!["a>b".to_string()];
    let (body, thinking) = split_thinking_from_text("x<a>b>y</a>b>z", &tags);
    assert_eq!(body, "xz");
    assert_eq!(thinking, "y");
}

#[test]
fn any_chunking_of_a_text_splits_as_the_whole_text() {
    let tags = vec!["think".to_string(), "reason".to_string()];
    let text = "a<think>b</think>c<reason>d</reason>e<think>never";
    let whole = split_thinking_from_text(text, &tags);
    assert_eq!(whole, ("ace".to_string(), "bdnever".to_string()));
    for size in 1..text.len() {
        let chunks: Vec<String> = text
            .chars()
            .collect::<Vec<char>>()
            .chunks(size)
            .map(|c| c.iter().collect())
            .collect();
        assert_eq!(split_thinking_from_chunks(&chunks, tags.clone()), whole);
    }
    assert_eq!(split_thinking_from_chunks(&Vec::new(), tags.clone()), (String::new(), String::new()));
}

#[test]
fn one_tag_with_angle_brackets_splits_the_same_in_chunks() {
    let tags = vec!["a>b".to_string()];
    let text = "x<a>b>y</a>b>z<a>b>w";
    let whole = split_thinking_from_text(text, &tags);
    assert_eq!(whole, ("xz".to_string(), "yw".to_string()));
    for size in 1..text.len() {
        let chunks: Vec<String> = text
            .chars()
            .collect::<Vec<char>>()
            .chunks(size)
            .map(|c| c.iter().collect())
            .collect();
        assert_eq!(split_thinking_from_chunks(&chunks, tags.clone()), whole);
    }
}
