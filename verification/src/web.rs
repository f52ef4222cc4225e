//! The exchange between a peer and the keeper of the stored ledger. A peer
//! fetches the ledger cut down to one day, or pushes a ledger whose records
//! are folded into the stored one. Each exchange is one round trip, and the
//! keeper decides here, from the request and from what the store gave it,
//! what to answer and what to write back. Reading and writing the store,
//! and keeping two exchanges from running into each other, is the caller's
//! part.

use crate::bubble::Bubble;
use crate::bubble::BubbleView;
use crate::date::Date;
use crate::error::BubbleError;
use crate::ledger::clone_ledger;
use crate::ledger::ledger_wf;
use crate::ledger::merge;
use crate::ledger::merged;
use crate::ledger::project;
use crate::ledger::projected;
use crate::ledger::views;
use vstd::prelude::*;

verus! {

/// What a peer asks of the keeper.
#[derive(Debug)]
pub enum Request {
    /// Fold the records of this ledger into the stored one.
    SetBubbles(Vec<Bubble>),
    /// Send the ledger, cut down to the day that lies this many days before
    /// today (0 for today, 1 for yesterday); without a number, with no
    /// record at all.
    GetInfo(Option<u64>),
}

/// What the keeper answers.
#[derive(Debug)]
pub enum Response {
    /// The pushed records are stored.
    Success,
    /// The request failed; the store is as it was.
    Error,
    /// The ledger that was asked for.
    Bubbles(Vec<Bubble>),
}

/// What the keeper does after it has read the store.
#[derive(Debug)]
pub enum Step {
    /// Answer; write nothing.
    Reply(Response),
    /// Write this ledger to the store, then answer by `finish_push`.
    Persist(Vec<Bubble>),
}

/// What a `Request` stands for.
#[verifier::ext_equal]
pub enum RequestView {
    SetBubbles(Seq<BubbleView>),
    GetInfo(Option<u64>),
}

/// What a `Response` stands for.
#[verifier::ext_equal]
pub enum ResponseView {
    Success,
    Error,
    Bubbles(Seq<BubbleView>),
}

/// What a `Step` stands for.
#[verifier::ext_equal]
pub enum StepView {
    Reply(ResponseView),
    Persist(Seq<BubbleView>),
}

impl View for Request {
    type V = RequestView;

    open spec fn view(&self) -> RequestView {
        match self {
            Request::SetBubbles(incoming) => RequestView::SetBubbles(views(incoming@)),
            Request::GetInfo(day_offset) => RequestView::GetInfo(*day_offset),
        }
    }
}

impl View for Response {
    type V = ResponseView;

    open spec fn view(&self) -> ResponseView {
        match self {
            Response::Success => ResponseView::Success,
            Response::Error => ResponseView::Error,
            Response::Bubbles(shown) => ResponseView::Bubbles(views(shown@)),
        }
    }
}

impl View for Step {
    type V = StepView;

    open spec fn view(&self) -> StepView {
        match self {
            Step::Reply(response) => StepView::Reply(response@),
            Step::Persist(next) => StepView::Persist(views(next@)),
        }
    }
}

impl Clone for Request {
    fn clone(&self) -> (copy: Request)
        ensures
            copy@ == self@,
    {
        match self {
            Request::SetBubbles(incoming) => Request::SetBubbles(clone_ledger(incoming)),
            Request::GetInfo(day_offset) => Request::GetInfo(*day_offset),
        }
    }
}

impl Clone for Response {
    fn clone(&self) -> (copy: Response)
        ensures
            copy@ == self@,
    {
        match self {
            Response::Success => Response::Success,
            Response::Error => Response::Error,
            Response::Bubbles(shown) => Response::Bubbles(clone_ledger(shown)),
        }
    }
}

impl RequestView {
    /// Every entry that the request carries is well formed.
    pub open spec fn wf(self) -> bool {
        self matches RequestView::SetBubbles(incoming) ==> ledger_wf(incoming)
    }
}

impl StepView {
    /// Every entry that the step carries is well formed.
    pub open spec fn wf(self) -> bool {
        match self {
            StepView::Reply(ResponseView::Bubbles(shown)) => ledger_wf(shown),
            StepView::Reply(_) => true,
            StepView::Persist(next) => ledger_wf(next),
        }
    }
}

/// The day that a fetch with `day_offset` exposes when today is `today`:
/// the day that many days back, where a number is given and the day it
/// leads to has a number of its own.
pub open spec fn fetch_target(today: Date, day_offset: Option<u64>) -> Option<Date> {
    match day_offset {
        Some(offset) => if today.days - offset >= i32::MIN {
            Some(Date { days: (today.days - offset) as i32 })
        } else {
            None
        },
        None => None,
    }
}

/// The ledger that reading the store gave, if it gave one.
pub open spec fn stored_of(loaded: Result<Vec<Bubble>, BubbleError>) -> Option<Seq<BubbleView>> {
    match loaded {
        Ok(stored) => Some(views(stored@)),
        Err(_) => None,
    }
}

/// What the keeper does for a request, given the stored ledger, or `None`
/// where the store could not be read. A store that could not be read is
/// answered with `Error`, whatever was asked. A fetch is answered with the
/// stored ledger cut down to the exposed day, and nothing is written. A
/// push leads to writing the stored ledger with the incoming one folded in.
pub open spec fn handled(request: RequestView, stored: Option<Seq<BubbleView>>, today: Date)
    -> StepView {
    match stored {
        None => StepView::Reply(ResponseView::Error),
        Some(ledger) => match request {
            RequestView::GetInfo(day_offset) => StepView::Reply(
                ResponseView::Bubbles(projected(ledger, fetch_target(today, day_offset))),
            ),
            RequestView::SetBubbles(incoming) => StepView::Persist(merged(ledger, incoming)),
        },
    }
}

/// The answer to a push after the write: `Success` where the store was
/// written, `Error` where it could not be.
pub open spec fn finished(persisted: Result<(), BubbleError>) -> ResponseView {
    match persisted {
        Ok(_) => ResponseView::Success,
        Err(_) => ResponseView::Error,
    }
}

/// The ledger as a fetch shows it: every entry cut down to its record of
/// the day that lies `day_offset` days before `today`. Without an offset,
/// and for every entry without a record of that day, no record is shown.
pub fn fetch(stored: Vec<Bubble>, day_offset: Option<u64>, today: Date) -> (shown: Vec<Bubble>)
    requires
        ledger_wf(views(stored@)),
    ensures
        views(shown@) == projected(views(stored@), fetch_target(today, day_offset)),
        shown@.len() == stored@.len(),
        ledger_wf(views(shown@)),
{
    let target = match day_offset {
        Some(offset) => today.minus_days(offset),
        None => None,
    };
    project(stored, target)
}

/// Decides one exchange from the request and from what reading the store
/// gave. The answer to a push waits for the outcome of the write: see
/// `finish_push`.
pub fn handle_request(
    request: Request,
    loaded: Result<Vec<Bubble>, BubbleError>,
    today: Date,
) -> (step: Step)
    requires
        request@.wf(),
        loaded matches Ok(stored) ==> ledger_wf(views(stored@)),
    ensures
        step@ == handled(request@, stored_of(loaded), today),
        step@.wf(),
{
    match loaded {
        Err(_) => Step::Reply(Response::Error),
        Ok(stored) => match request {
            Request::GetInfo(day_offset) => Step::Reply(
                Response::Bubbles(fetch(stored, day_offset, today)),
            ),
            Request::SetBubbles(incoming) => Step::Persist(merge(stored, &incoming)),
        },
    }
}

/// The answer to a push, once the store was written or could not be.
pub fn finish_push(persisted: Result<(), BubbleError>) -> (response: Response)
    ensures
        response@ == finished(persisted),
{
    match persisted {
        Ok(_) => Response::Success,
        Err(_) => Response::Error,
    }
}

} // verus!
