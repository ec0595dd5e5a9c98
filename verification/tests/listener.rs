use lcu_bridge::decoder::LcuData;
use lcu_bridge::json::JsonValue;
use lcu_bridge::listener::{on_inbound, Inbound, ReaderAction, CHANNEL_CAPACITY};

fn frame_for(state: &str) -> String {
    format!(
        "[8, \"OnJsonApiEvent\", {{\"data\":\"{}\",\"eventType\":\"Update\",\"uri\":\"/lol-gameflow/v1/gameflow-phase\"}}]",
        state
    )
}

fn event_for(state: &str) -> LcuData {
    LcuData {
        data: JsonValue::parse(&format!("\"{}\"", state)).unwrap(),
        event_type: "Update".to_string(),
        uri: "/lol-gameflow/v1/gameflow-phase".to_string(),
    }
}

#[test]
fn frame_with_an_event_is_published() {
    assert_eq!(
        on_inbound(Inbound::Frame(&frame_for("Lobby"))),
        ReaderAction::Publish(event_for("Lobby"))
    );
}

#[test]
fn frame_without_an_event_is_skipped() {
    assert_eq!(on_inbound(Inbound::Frame("")), ReaderAction::Skip);
    assert_eq!(on_inbound(Inbound::Frame("[3, \"OnJsonApiEvent\", null]")), ReaderAction::Skip);
}

#[test]
fn malformed_frame_is_discarded() {
    assert_eq!(on_inbound(Inbound::Frame("{")), ReaderAction::Discard);
    assert_eq!(on_inbound(Inbound::Frame("[5, \"OnJsonApiEvent\"]")), ReaderAction::Discard);
}

#[test]
fn failure_and_end_of_stream_stop_the_reader() {
    assert_eq!(on_inbound(Inbound::Failed), ReaderAction::Stop);
    assert_eq!(on_inbound(Inbound::Closed), ReaderAction::Stop);
}

#[test]
fn events_are_published_in_arrival_order() {
    let frames = vec![
        frame_for("Lobby"),
        String::new(),
        frame_for("Matchmaking"),
        "garbage".to_string(),
        frame_for("ReadyCheck"),
        "[8, \"OnJsonApiEvent\", null]".to_string(),
        frame_for("ChampSelect"),
    ];
    let mut published = Vec::new();
    for frame in &frames {
        if let ReaderAction::Publish(event) = on_inbound(Inbound::Frame(frame)) {
            published.push(event);
        }
    }
    assert_eq!(
        published,
        vec![event_for("Lobby"), event_for("Matchmaking"), event_for("ReadyCheck"), event_for("ChampSelect")]
    );
}

#[test]
fn channel_capacity_is_one_hundred() {
    assert_eq!(CHANNEL_CAPACITY, 100);
}
