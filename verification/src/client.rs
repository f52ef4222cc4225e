//! The peer's side of the exchange: what a front end holds between two
//! events, and what each event makes of it. The front end shows one day of
//! the ledger, lets the user set that day's statuses, and sends them back.
//! Fetching, sending and drawing are the caller's part: `update` says what
//! is to be fetched or sent, and the caller reports back with a message.

use crate::bubble::is_two_part;
use crate::bubble::splits_at;
use crate::bubble::Bubble;
use crate::bubble::BubbleView;
use crate::date::formatted_day;
use crate::date::title_format;
use crate::date::Date;
use crate::error::BubbleError;
use crate::grid::all_two_part;
use crate::ledger::clone_ledger;
use crate::ledger::ledger_wf;
use crate::ledger::lemma_replace_entry;
use crate::ledger::views;
use crate::status::BubbleStatus;
use vstd::prelude::*;

verus! {

/// What the front end holds.
#[derive(Debug)]
pub struct Bubbles {
    /// The day that is shown and edited.
    day: Date,
    /// The ledger as it was fetched for that day, with the user's changes.
    bubbles: Vec<Bubble>,
    /// The line that tells the user where the exchange stands.
    status_str: String,
    /// How many days the shown day lies before today.
    day_offset: u32,
}

/// What a `Bubbles` stands for.
#[verifier::ext_equal]
pub struct BubblesView {
    pub day: Date,
    pub bubbles: Seq<BubbleView>,
    pub status: Seq<char>,
    pub day_offset: u32,
}

/// An event that reaches the front end.
#[derive(Debug)]
pub enum Message {
    /// A fetch ended: with the ledger, or in failure.
    RecvBubbles(Result<Vec<Bubble>, ()>),
    /// The user set the status of the shown day for the entry at an index.
    SetBubble(BubbleStatus, usize),
    /// The user asked to send the ledger.
    SendBubbles,
    /// The user moved the shown day: by this many days into the past, or,
    /// where it is negative, towards today.
    OffsetDay(i32),
    /// A send ended, and this is whether it succeeded.
    BubbleReceipt(bool),
}

/// What the caller is to do after an event.
#[derive(Debug)]
pub enum Command {
    /// Nothing.
    Idle,
    /// Fetch the ledger for the day that lies this many days before today,
    /// and report with `RecvBubbles`.
    Fetch(u32),
    /// Send this ledger, and report with `BubbleReceipt`.
    Send(Vec<Bubble>),
}

/// One entry of the ledger as the front end shows it.
#[derive(Debug)]
pub struct Row {
    /// The entry's place in the ledger.
    pub index: usize,
    pub name: String,
    /// The short label's first part.
    pub brief_front: String,
    /// The short label's second part.
    pub brief_back: String,
    /// The status that is selected for the shown day.
    pub selected: BubbleStatus,
}

/// What a `Message` stands for.
#[verifier::ext_equal]
pub enum MessageView {
    RecvBubbles(Result<Seq<BubbleView>, ()>),
    SetBubble(BubbleStatus, usize),
    SendBubbles,
    OffsetDay(i32),
    BubbleReceipt(bool),
}

/// What a `Command` stands for.
#[verifier::ext_equal]
pub enum CommandView {
    Idle,
    Fetch(u32),
    Send(Seq<BubbleView>),
}

impl View for Message {
    type V = MessageView;

    open spec fn view(&self) -> MessageView {
        match self {
            Message::RecvBubbles(Ok(ledger)) => MessageView::RecvBubbles(Ok(views(ledger@))),
            Message::RecvBubbles(Err(_)) => MessageView::RecvBubbles(Err(())),
            Message::SetBubble(status, index) => MessageView::SetBubble(*status, *index),
            Message::SendBubbles => MessageView::SendBubbles,
            Message::OffsetDay(by) => MessageView::OffsetDay(*by),
            Message::BubbleReceipt(succeeded) => MessageView::BubbleReceipt(*succeeded),
        }
    }
}

impl View for Command {
    type V = CommandView;

    open spec fn view(&self) -> CommandView {
        match self {
            Command::Idle => CommandView::Idle,
            Command::Fetch(day_offset) => CommandView::Fetch(*day_offset),
            Command::Send(ledger) => CommandView::Send(views(ledger@)),
        }
    }
}

impl Clone for Message {
    fn clone(&self) -> (copy: Message)
        ensures
            copy@ == self@,
    {
        match self {
            Message::RecvBubbles(Ok(ledger)) => Message::RecvBubbles(Ok(clone_ledger(ledger))),
            Message::RecvBubbles(Err(_)) => Message::RecvBubbles(Err(())),
            Message::SetBubble(status, index) => Message::SetBubble(*status, *index),
            Message::SendBubbles => Message::SendBubbles,
            Message::OffsetDay(by) => Message::OffsetDay(*by),
            Message::BubbleReceipt(succeeded) => Message::BubbleReceipt(*succeeded),
        }
    }
}

impl MessageView {
    /// Every entry that the message carries is well formed.
    pub open spec fn wf(self) -> bool {
        self matches MessageView::RecvBubbles(Ok(ledger)) ==> ledger_wf(ledger)
    }
}

impl BubblesView {
    /// Whether the state can take a message in when today is `today`: an
    /// index must name an entry of the held ledger, and the day that an
    /// offset leads to must have a number that an `i32` holds.
    pub open spec fn takes(self, message: MessageView, today: Date) -> bool {
        match message {
            MessageView::SetBubble(_, index) => index < self.bubbles.len(),
            MessageView::OffsetDay(by) => today.days - moved_offset(self.day_offset, by)
                >= i32::MIN,
            _ => true,
        }
    }
}

/// Whether a row shows the entry at place `index` as it is on `day`: its
/// name, the two parts of its short label, and the day's status.
pub open spec fn row_shows(row: Row, index: int, entry: BubbleView, day: Date) -> bool {
    &&& row.index == index
    &&& row.name@ == entry.name
    &&& row.selected == entry.status_on(day.days)
    &&& entry.brief == row.brief_front@ + seq!['/'] + row.brief_back@
    &&& splits_at(entry.brief, row.brief_front@.len() as int)
}

/// The status line while a fetch is under way.
pub open spec fn fetching_text() -> Seq<char> {
    "Fetching bubbles"@
}

/// The status line once a ledger has arrived.
pub open spec fn received_text() -> Seq<char> {
    "Unset bubbles"@
}

/// The status line after a fetch that failed.
pub open spec fn fetch_failed_text() -> Seq<char> {
    "Failed to fetch bubbles!"@
}

/// The status line while a send is under way.
pub open spec fn sending_text() -> Seq<char> {
    "Sending bubbles"@
}

/// The status line after a send that succeeded.
pub open spec fn sent_text() -> Seq<char> {
    "Set bubbles!"@
}

/// The status line after a send that failed.
pub open spec fn send_failed_text() -> Seq<char> {
    "Bubbles failed to set!"@
}

/// An offset moved by `by` days, kept within what a `u32` holds.
pub open spec fn moved_offset(day_offset: u32, by: i32) -> u32 {
    if day_offset + by < 0 {
        0
    } else if day_offset + by > u32::MAX {
        u32::MAX
    } else {
        (day_offset + by) as u32
    }
}

/// The offset a front end starts with: before noon it shows today, from
/// noon on yesterday.
pub open spec fn initial_offset(hour: u32) -> u32 {
    if hour < 12 {
        0
    } else {
        1
    }
}

/// What an event makes of the state, given today's date. Setting a status
/// touches one entry of the held ledger on the shown day. A ledger that
/// arrives replaces the held one. Moving the shown day changes offset and
/// day and leaves the held ledger as it is until the fetch reports. Every
/// event but the setting of a status leaves its mark in the status line.
pub open spec fn updated(state: BubblesView, message: MessageView, today: Date) -> BubblesView {
    match message {
        MessageView::SetBubble(status, index) => BubblesView {
            bubbles: state.bubbles.update(
                index as int,
                state.bubbles[index as int].with_status(state.day.days, status),
            ),
            ..state
        },
        MessageView::RecvBubbles(Ok(ledger)) => BubblesView {
            bubbles: ledger,
            status: received_text(),
            ..state
        },
        MessageView::RecvBubbles(Err(_)) => BubblesView { status: fetch_failed_text(), ..state },
        MessageView::SendBubbles => BubblesView { status: sending_text(), ..state },
        MessageView::BubbleReceipt(succeeded) => BubblesView {
            status: if succeeded {
                sent_text()
            } else {
                send_failed_text()
            },
            ..state
        },
        MessageView::OffsetDay(by) => BubblesView {
            day_offset: moved_offset(state.day_offset, by),
            day: Date { days: (today.days - moved_offset(state.day_offset, by)) as i32 },
            status: fetching_text(),
            ..state
        },
    }
}

/// What the caller is to do after an event: send the held ledger when the
/// user asked for it, fetch after the shown day moved, otherwise nothing.
pub open spec fn command_for(state: BubblesView, message: MessageView) -> CommandView {
    match message {
        MessageView::SendBubbles => CommandView::Send(state.bubbles),
        MessageView::OffsetDay(by) => CommandView::Fetch(moved_offset(state.day_offset, by)),
        _ => CommandView::Idle,
    }
}

impl View for Bubbles {
    type V = BubblesView;

    closed spec fn view(&self) -> BubblesView {
        BubblesView {
            day: self.day,
            bubbles: views(self.bubbles@),
            status: self.status_str@,
            day_offset: self.day_offset,
        }
    }
}

impl Bubbles {
    /// Every entry of the held ledger is well formed.
    pub open spec fn wf(&self) -> bool {
        ledger_wf(self@.bubbles)
    }

    /// The state a front end starts in at the given hour of `today`, and the
    /// fetch it starts with: it holds no ledger yet and shows today before
    /// noon, yesterday from noon on.
    pub fn new(hour: u32, today: Date) -> (start: (Bubbles, Command))
        requires
            today.days - 1 >= i32::MIN,
        ensures
            start.0@ == (BubblesView {
                day: Date { days: (today.days - initial_offset(hour)) as i32 },
                bubbles: Seq::<BubbleView>::empty(),
                status: fetching_text(),
                day_offset: initial_offset(hour),
            }),
            start.0.wf(),
            start.1@ == CommandView::Fetch(initial_offset(hour)),
    {
        let day_offset: u32 = if hour < 12 {
            0
        } else {
            1
        };
        let day = Date { days: today.days - day_offset as i32 };
        let state = Bubbles {
            day,
            bubbles: Vec::new(),
            status_str: String::from_str("Fetching bubbles"),
            day_offset,
        };
        assert(state@.bubbles =~= Seq::<BubbleView>::empty());
        (state, Command::Fetch(day_offset))
    }

    /// The title of the front end's window.
    pub fn title(&self) -> (title: String)
        ensures
            title@ == "Bubbles"@,
    {
        String::from_str("Bubbles")
    }

    /// Takes in one event. The state afterwards is `updated` of the state
    /// before, and the command is `command_for` it.
    pub fn update(&mut self, message: Message, today: Date) -> (command: Command)
        requires
            old(self).wf(),
            message@.wf(),
            old(self)@.takes(message@, today),
        ensures
            final(self)@ == updated(old(self)@, message@, today),
            command@ == command_for(old(self)@, message@),
            final(self).wf(),
    {
        match message {
            Message::SetBubble(status, index) => {
                let ghost before = self.bubbles@;
                assert(views(self.bubbles@)[index as int].wf());
                self.bubbles[index].set_status(self.day, status);
                proof {
                    lemma_replace_entry(before, self.bubbles@, index as int);
                }
                Command::Idle
            },
            Message::RecvBubbles(Ok(ledger)) => {
                self.bubbles = ledger;
                self.status_str = String::from_str("Unset bubbles");
                Command::Idle
            },
            Message::RecvBubbles(Err(_)) => {
                self.status_str = String::from_str("Failed to fetch bubbles!");
                Command::Idle
            },
            Message::SendBubbles => {
                self.status_str = String::from_str("Sending bubbles");
                Command::Send(clone_ledger(&self.bubbles))
            },
            Message::BubbleReceipt(succeeded) => {
                if succeeded {
                    self.status_str = String::from_str("Set bubbles!");
                } else {
                    self.status_str = String::from_str("Bubbles failed to set!");
                }
                Command::Idle
            },
            Message::OffsetDay(by) => {
                let moved: i64 = self.day_offset as i64 + by as i64;
                let day_offset: u32 = if moved < 0 {
                    0
                } else if moved > u32::MAX as i64 {
                    u32::MAX
                } else {
                    moved as u32
                };
                self.day_offset = day_offset;
                self.day = Date { days: (today.days as i64 - day_offset as i64) as i32 };
                self.status_str = String::from_str("Fetching bubbles");
                Command::Fetch(day_offset)
            },
        }
    }

    /// What the front end shows of the held ledger: one row per entry, in
    /// the order of the ledger, each for the shown day. A ledger with a short
    /// label that is not of two parts is malformed.
    pub fn rows(&self) -> (rows: Result<Vec<Row>, BubbleError>)
        ensures
            rows is Ok <==> all_two_part(self@.bubbles),
            rows matches Ok(list) ==> list@.len() == self@.bubbles.len() && forall|i: int|
                0 <= i < list@.len() ==> row_shows(
                    #[trigger] list@[i],
                    i,
                    self@.bubbles[i],
                    self@.day,
                ),
            rows matches Err(error) ==> error == BubbleError::DecodeError,
    {
        let mut list: Vec<Row> = Vec::new();
        let mut i: usize = 0;
        while i < self.bubbles.len()
            invariant
                0 <= i <= self.bubbles@.len(),
                list@.len() == i,
                forall|j: int| 0 <= j < i ==> is_two_part((#[trigger] self@.bubbles[j]).brief),
                forall|j: int|
                    0 <= j < i ==> row_shows(#[trigger] list@[j], j, self@.bubbles[j], self@.day),
            decreases self.bubbles@.len() - i,
        {
            match create_row(i, &self.bubbles[i], self.day) {
                Ok(row) => {
                    list.push(row);
                },
                Err(error) => {
                    assert(!is_two_part(self@.bubbles[i as int].brief));
                    return Err(error);
                },
            }
            i = i + 1;
        }
        Ok(list)
    }

    /// The shown day written out for the head of the view. `None` where
    /// `chrono` cannot represent the day.
    pub fn day_title(&self) -> (text: Option<String>)
        ensures
            text.is_some() == formatted_day(self@.day.days as int, title_format()).is_some(),
            text matches Some(t) ==> formatted_day(self@.day.days as int, title_format()) == Some(
                t@,
            ),
    {
        self.day.title()
    }

    /// The day that is shown and edited.
    pub fn day(&self) -> (day: Date)
        ensures
            day == self@.day,
    {
        self.day
    }

    /// How many days the shown day lies before today.
    pub fn day_offset(&self) -> (day_offset: u32)
        ensures
            day_offset == self@.day_offset,
    {
        self.day_offset
    }

    /// The line that tells the user where the exchange stands.
    pub fn status_str(&self) -> (status: &str)
        ensures
            status@ == self@.status,
    {
        self.status_str.as_str()
    }

    /// The held ledger.
    pub fn bubbles(&self) -> (ledger: &Vec<Bubble>)
        ensures
            views(ledger@) == self@.bubbles,
    {
        &self.bubbles
    }
}

/// What the front end shows of the entry at place `index` on `day`: its
/// name, the two parts of its short label, and the day's status as the
/// selected one. An entry whose short label is not of two parts is
/// malformed.
pub fn create_row(index: usize, entry: &Bubble, day: Date) -> (row: Result<Row, BubbleError>)
    ensures
        row is Ok <==> is_two_part(entry@.brief),
        row matches Ok(cells) ==> row_shows(cells, index as int, entry@, day),
        row matches Err(error) ==> error == BubbleError::DecodeError,
{
    let selected = entry.status_on(day);
    match entry.brief_parts() {
        Ok((brief_front, brief_back)) => Ok(
            Row { index, name: String::from_str(entry.name()), brief_front, brief_back, selected },
        ),
        Err(error) => Err(error),
    }
}

} // verus!
