use bubbles_core::bubble::Bubble;
use bubbles_core::client::create_row;
use bubbles_core::client::Bubbles;
use bubbles_core::client::Command;
use bubbles_core::client::Message;
use bubbles_core::date::Date;
use bubbles_core::error::BubbleError;
use bubbles_core::status::BubbleStatus;

fn day(year: i32, month: u32, day: u32) -> Date {
    Date::from_ymd(year, month, day).unwrap()
}

fn fetched() -> Vec<Bubble> {
    let mut sleep = Bubble::new("Sleep", "");
    sleep.set_brief("zz/night");
    sleep.set_status(day(2024, 1, 6), BubbleStatus::HalfFull);
    let mut water = Bubble::new("Water", "");
    water.set_brief("h2o/all day");
    vec![sleep, water]
}

#[test]
fn before_noon_the_front_end_shows_today() {
    let (state, command) = Bubbles::new(11, day(2024, 1, 7));
    assert_eq!(state.day_offset(), 0);
    assert_eq!(state.day(), day(2024, 1, 7));
    assert_eq!(state.status_str(), "Fetching bubbles");
    assert_eq!(state.bubbles().len(), 0);
    assert!(matches!(command, Command::Fetch(0)));
}

#[test]
fn from_noon_on_the_front_end_shows_yesterday() {
    for hour in [12, 13, 23] {
        let (state, command) = Bubbles::new(hour, day(2024, 1, 7));
        assert_eq!(state.day_offset(), 1);
        assert_eq!(state.day(), day(2024, 1, 6));
        assert!(matches!(command, Command::Fetch(1)));
    }
    let (state, _) = Bubbles::new(0, day(2024, 1, 7));
    assert_eq!(state.day_offset(), 0);
}

#[test]
fn title_and_day_title() {
    let (state, _) = Bubbles::new(13, day(2024, 1, 7));
    assert_eq!(state.title(), "Bubbles");
    assert_eq!(state.day_title(), Some("Saturday, 2024-01-06".to_string()));
}

#[test]
fn received_bubbles_replace_the_held_ledger() {
    let (mut state, _) = Bubbles::new(13, day(2024, 1, 7));
    let command = state.update(Message::RecvBubbles(Ok(fetched())), day(2024, 1, 7));
    assert!(matches!(command, Command::Idle));
    assert_eq!(state.status_str(), "Unset bubbles");
    assert_eq!(state.bubbles().len(), 2);
    assert_eq!(state.bubbles()[0].name(), "Sleep");
    assert_eq!(state.bubbles()[0].status_on(day(2024, 1, 6)), BubbleStatus::HalfFull);
    assert_eq!(state.day(), day(2024, 1, 6));
    assert_eq!(state.day_offset(), 1);
}

#[test]
fn a_failed_fetch_keeps_the_ledger_and_says_so() {
    let (mut state, _) = Bubbles::new(13, day(2024, 1, 7));
    state.update(Message::RecvBubbles(Ok(fetched())), day(2024, 1, 7));
    let command = state.update(Message::RecvBubbles(Err(())), day(2024, 1, 7));
    assert!(matches!(command, Command::Idle));
    assert_eq!(state.status_str(), "Failed to fetch bubbles!");
    assert_eq!(state.bubbles().len(), 2);
}

#[test]
fn set_bubble_sets_the_shown_day_of_one_entry() {
    let (mut state, _) = Bubbles::new(13, day(2024, 1, 7));
    state.update(Message::RecvBubbles(Ok(fetched())), day(2024, 1, 7));
    let command = state.update(Message::SetBubble(BubbleStatus::Full, 1), day(2024, 1, 7));
    assert!(matches!(command, Command::Idle));
    assert_eq!(state.bubbles()[1].entries(), vec![(day(2024, 1, 6), BubbleStatus::Full)]);
    assert_eq!(state.bubbles()[0].entries(), vec![(day(2024, 1, 6), BubbleStatus::HalfFull)]);
    assert_eq!(state.status_str(), "Unset bubbles");
    state.update(Message::SetBubble(BubbleStatus::Empty, 0), day(2024, 1, 7));
    assert_eq!(state.bubbles()[0].entries(), vec![(day(2024, 1, 6), BubbleStatus::Empty)]);
}

#[test]
fn send_bubbles_hands_out_the_held_ledger() {
    let (mut state, _) = Bubbles::new(13, day(2024, 1, 7));
    state.update(Message::RecvBubbles(Ok(fetched())), day(2024, 1, 7));
    state.update(Message::SetBubble(BubbleStatus::Full, 0), day(2024, 1, 7));
    let command = state.update(Message::SendBubbles, day(2024, 1, 7));
    assert_eq!(state.status_str(), "Sending bubbles");
    match command {
        Command::Send(ledger) => {
            assert_eq!(ledger.len(), 2);
            assert_eq!(ledger[0].name(), "Sleep");
            assert_eq!(ledger[0].brief(), "zz/night");
            assert_eq!(ledger[0].entries(), vec![(day(2024, 1, 6), BubbleStatus::Full)]);
            assert_eq!(ledger[1].entries(), vec![]);
        }
        _ => panic!("the ledger is to be sent"),
    }
    assert_eq!(state.bubbles().len(), 2);
}

#[test]
fn bubble_receipt_tells_how_the_send_ended() {
    let (mut state, _) = Bubbles::new(13, day(2024, 1, 7));
    let command = state.update(Message::BubbleReceipt(true), day(2024, 1, 7));
    assert!(matches!(command, Command::Idle));
    assert_eq!(state.status_str(), "Set bubbles!");
    let command = state.update(Message::BubbleReceipt(false), day(2024, 1, 7));
    assert!(matches!(command, Command::Idle));
    assert_eq!(state.status_str(), "Bubbles failed to set!");
}

#[test]
fn offset_day_moves_the_shown_day_and_fetches() {
    let (mut state, _) = Bubbles::new(13, day(2024, 1, 7));
    let command = state.update(Message::OffsetDay(1), day(2024, 1, 7));
    assert!(matches!(command, Command::Fetch(2)));
    assert_eq!(state.day_offset(), 2);
    assert_eq!(state.day(), day(2024, 1, 5));
    assert_eq!(state.status_str(), "Fetching bubbles");
    let command = state.update(Message::OffsetDay(-1), day(2024, 1, 7));
    assert!(matches!(command, Command::Fetch(1)));
    assert_eq!(state.day(), day(2024, 1, 6));
    let command = state.update(Message::OffsetDay(30), day(2024, 1, 7));
    assert!(matches!(command, Command::Fetch(31)));
    assert_eq!(state.day(), day(2023, 12, 7));
}

#[test]
fn offset_day_does_not_pass_today() {
    let (mut state, _) = Bubbles::new(11, day(2024, 1, 7));
    let command = state.update(Message::OffsetDay(-1), day(2024, 1, 7));
    assert!(matches!(command, Command::Fetch(0)));
    assert_eq!(state.day_offset(), 0);
    assert_eq!(state.day(), day(2024, 1, 7));
    state.update(Message::OffsetDay(3), day(2024, 1, 7));
    let command = state.update(Message::OffsetDay(i32::MIN), day(2024, 1, 7));
    assert!(matches!(command, Command::Fetch(0)));
    assert_eq!(state.day(), day(2024, 1, 7));
}

#[test]
fn offset_day_follows_the_date_that_is_handed_in() {
    let (mut state, _) = Bubbles::new(13, day(2024, 1, 7));
    state.update(Message::OffsetDay(0), day(2024, 1, 8));
    assert_eq!(state.day_offset(), 1);
    assert_eq!(state.day(), day(2024, 1, 7));
}

#[test]
fn create_row_shows_name_brief_parts_and_selection() {
    let ledger = fetched();
    let row = create_row(0, &ledger[0], day(2024, 1, 6)).unwrap();
    assert_eq!(row.index, 0);
    assert_eq!(row.name, "Sleep");
    assert_eq!(row.brief_front, "zz");
    assert_eq!(row.brief_back, "night");
    assert_eq!(row.selected, BubbleStatus::HalfFull);
    let row = create_row(1, &ledger[1], day(2024, 1, 6)).unwrap();
    assert_eq!(row.index, 1);
    assert_eq!(row.brief_front, "h2o");
    assert_eq!(row.brief_back, "all day");
    assert_eq!(row.selected, BubbleStatus::Unknown);
}

#[test]
fn create_row_rejects_a_malformed_brief() {
    let bubble = Bubble::new("Sleep", "");
    assert_eq!(create_row(0, &bubble, day(2024, 1, 6)).err(), Some(BubbleError::DecodeError));
}

#[test]
fn rows_show_every_entry_on_the_shown_day() {
    let (mut state, _) = Bubbles::new(13, day(2024, 1, 7));
    state.update(Message::RecvBubbles(Ok(fetched())), day(2024, 1, 7));
    state.update(Message::SetBubble(BubbleStatus::Full, 1), day(2024, 1, 7));
    let rows = state.rows().unwrap();
    assert_eq!(rows.len(), 2);
    assert_eq!(rows[0].index, 0);
    assert_eq!(rows[0].name, "Sleep");
    assert_eq!(rows[0].brief_front, "zz");
    assert_eq!(rows[0].brief_back, "night");
    assert_eq!(rows[0].selected, BubbleStatus::HalfFull);
    assert_eq!(rows[1].index, 1);
    assert_eq!(rows[1].name, "Water");
    assert_eq!(rows[1].selected, BubbleStatus::Full);
}

#[test]
fn rows_of_an_empty_or_malformed_ledger() {
    let (mut state, _) = Bubbles::new(13, day(2024, 1, 7));
    assert_eq!(state.rows().unwrap().len(), 0);
    let mut ledger = fetched();
    ledger.push(Bubble::new("Diet", ""));
    state.update(Message::RecvBubbles(Ok(ledger)), day(2024, 1, 7));
    assert_eq!(state.rows().err(), Some(BubbleError::DecodeError));
}

#[test]
fn a_cloned_message_carries_the_same_ledger() {
    let message = Message::RecvBubbles(Ok(fetched()));
    match message.clone() {
        Message::RecvBubbles(Ok(ledger)) => {
            assert_eq!(ledger.len(), 2);
            assert_eq!(ledger[0].name(), "Sleep");
            assert_eq!(ledger[0].entries(), vec![(day(2024, 1, 6), BubbleStatus::HalfFull)]);
            assert_eq!(ledger[1].brief(), "h2o/all day");
        }
        _ => panic!("the copy is another message"),
    }
    assert!(matches!(
        Message::SetBubble(BubbleStatus::Full, 3).clone(),
        Message::SetBubble(BubbleStatus::Full, 3)
    ));
    assert!(matches!(Message::OffsetDay(-2).clone(), Message::OffsetDay(-2)));
    assert!(matches!(Message::BubbleReceipt(true).clone(), Message::BubbleReceipt(true)));
    assert!(matches!(Message::SendBubbles.clone(), Message::SendBubbles));
    assert!(matches!(Message::RecvBubbles(Err(())).clone(), Message::RecvBubbles(Err(()))));
}
