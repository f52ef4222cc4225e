//! One habit of the ledger and its history: a status for every day on which
//! something was recorded.

use crate::date::Date;
use crate::error::BubbleError;
use crate::status::BubbleStatus;
use std::collections::HashMap;
use vstd::prelude::*;
use vstd::std_specs::iter::IteratorSpec;

verus! {

broadcast use vstd::std_specs::hash::group_hash_axioms;

/// One habit with its history.
#[derive(Debug)]
pub struct Bubble {
    /// The name the habit is shown under. Two habits may share a name.
    name: String,
    /// What the habit is about, at length.
    description: String,
    /// A short label in two parts, which a `/` separates.
    brief: String,
    /// The recorded statuses, by the number of the day. A day without a
    /// record is not a key; `Unknown` is never a value.
    days: HashMap<i32, BubbleStatus>,
}

/// What a `Bubble` stands for.
#[verifier::ext_equal]
pub struct BubbleView {
    pub name: Seq<char>,
    pub description: Seq<char>,
    pub brief: Seq<char>,
    /// The recorded statuses, by the number of the day.
    pub days: Map<i32, BubbleStatus>,
}

impl BubbleView {
    /// No day is recorded as `Unknown`: such a day has no record at all.
    pub open spec fn wf(self) -> bool {
        forall|day: i32| self.days.contains_key(day) ==> self.days[day] != BubbleStatus::Unknown
    }

    /// The status on a day: the recorded one, or `Unknown` without a record.
    pub open spec fn status_on(self, day: i32) -> BubbleStatus {
        if self.days.contains_key(day) {
            self.days[day]
        } else {
            BubbleStatus::Unknown
        }
    }

    /// This habit with at most the record of one day left: that of `target`,
    /// where a target is given and the day has a record.
    pub open spec fn projected_on(self, target: Option<Date>) -> BubbleView {
        BubbleView {
            days: match target {
                Some(date) => if self.days.contains_key(date.days) {
                    Map::<i32, BubbleStatus>::empty().insert(date.days, self.days[date.days])
                } else {
                    Map::<i32, BubbleStatus>::empty()
                },
                None => Map::<i32, BubbleStatus>::empty(),
            },
            ..self
        }
    }

    /// The cells of this habit's row in a grid over `days`: the name, the
    /// short label, then the glyph of the status on each day, in the order
    /// of `days`.
    pub open spec fn row_of(self, days: Seq<Date>) -> Seq<Seq<char>> {
        seq![self.name, self.brief] + Seq::new(
            days.len(),
            |i: int| seq![self.status_on(days[i].days).glyph_of()],
        )
    }

    /// This habit with the records of `incoming` laid over its own: a day
    /// that both record takes the status from `incoming`.
    pub open spec fn merged_with(self, incoming: BubbleView) -> BubbleView {
        BubbleView { days: self.days.union_prefer_right(incoming.days), ..self }
    }

    /// This habit with the status of one day set. Setting `Unknown` removes
    /// the record of that day.
    pub open spec fn with_status(self, day: i32, status: BubbleStatus) -> BubbleView {
        BubbleView {
            days: if status == BubbleStatus::Unknown {
                self.days.remove(day)
            } else {
                self.days.insert(day, status)
            },
            ..self
        }
    }
}

/// The texts that a sequence of strings holds.
pub open spec fn texts(cells: Seq<String>) -> Seq<Seq<char>> {
    Seq::new(cells.len(), |i: int| cells[i]@)
}

/// Whether a short label is cut in two by the `/` at `cut`, its only one.
pub open spec fn splits_at(brief: Seq<char>, cut: int) -> bool {
    &&& 0 <= cut < brief.len()
    &&& brief[cut] == '/'
    &&& forall|j: int| 0 <= j < brief.len() && j != cut ==> brief[j] != '/'
}

/// Whether a short label consists of exactly two parts.
pub open spec fn is_two_part(brief: Seq<char>) -> bool {
    exists|cut: int| splits_at(brief, cut)
}

impl View for Bubble {
    type V = BubbleView;

    closed spec fn view(&self) -> BubbleView {
        BubbleView {
            name: self.name@,
            description: self.description@,
            brief: self.brief@,
            days: self.days@,
        }
    }
}

impl Clone for Bubble {
    fn clone(&self) -> (copy: Bubble)
        ensures
            copy@ == self@,
    {
        Bubble {
            name: self.name.clone(),
            description: self.description.clone(),
            brief: self.brief.clone(),
            days: self.days.clone(),
        }
    }
}

impl Bubble {
    /// No day is recorded as `Unknown`.
    pub open spec fn wf(&self) -> bool {
        self@.wf()
    }

    /// A habit without a short label and without history.
    pub fn new(name: &str, description: &str) -> (bubble: Bubble)
        ensures
            bubble@ == (BubbleView {
                name: name@,
                description: description@,
                brief: Seq::<char>::empty(),
                days: Map::<i32, BubbleStatus>::empty(),
            }),
            bubble.wf(),
    {
        Bubble {
            name: String::from_str(name),
            description: String::from_str(description),
            brief: String::new(),
            days: HashMap::new(),
        }
    }

    /// The status on a day: the recorded one, or `Unknown` without a record.
    pub fn status_on(&self, date: Date) -> (status: BubbleStatus)
        ensures
            status == self@.status_on(date.days),
    {
        match self.days.get(&date.days) {
            Some(status) => *status,
            None => BubbleStatus::Unknown,
        }
    }

    /// Records the status of one day, in place of what was recorded for it.
    /// Recording `Unknown` removes the day's record.
    pub fn set_status(&mut self, date: Date, status: BubbleStatus)
        requires
            old(self).wf(),
        ensures
            final(self)@ == old(self)@.with_status(date.days, status),
            final(self).wf(),
            final(self)@.status_on(date.days) == status,
            forall|day: i32|
                day != date.days ==> final(self)@.status_on(day) == old(self)@.status_on(day),
    {
        if status == BubbleStatus::Unknown {
            self.days.remove(&date.days);
        } else {
            self.days.insert(date.days, status);
        }
    }

    /// Lays the records of `incoming` over this habit's own: every day that
    /// `incoming` records gets its status from there, every other day keeps
    /// what it had. Name, description and short label stay.
    pub fn merge_from(&mut self, incoming: &Bubble)
        requires
            old(self).wf(),
            incoming.wf(),
        ensures
            final(self)@ == old(self)@.merged_with(incoming@),
            final(self).wf(),
    {
        let ghost before = self.days@;
        let ghost laid = incoming.days@;
        for pair in it: incoming.days.iter()
            invariant
                self.name == old(self).name,
                self.description == old(self).description,
                self.brief == old(self).brief,
                before == old(self).days@,
                laid == incoming.days@,
                it.seq() == incoming.days.iter().remaining(),
                forall|day: i32|
                    self.days@.contains_key(day) ==> before.contains_key(day) || laid.contains_key(
                        day,
                    ),
                forall|day: i32| before.contains_key(day) ==> self.days@.contains_key(day),
                forall|day: i32|
                    self.days@.contains_key(day) && !laid.contains_key(day) ==> self.days@[day]
                        == before[day],
                forall|day: i32|
                    self.days@.contains_key(day) && laid.contains_key(day) && !before.contains_key(
                        day,
                    ) ==> self.days@[day] == laid[day],
                forall|j: int|
                    0 <= j < it.index() ==> self.days@.contains_key(*(#[trigger] it.seq()[j]).0)
                        && self.days@[*it.seq()[j].0] == laid[*it.seq()[j].0],
        {
            let (day, status) = pair;
            self.days.insert(*day, *status);
        }
        proof {
            let merged = before.union_prefer_right(laid);
            assert forall|day: i32| laid.contains_key(day) implies self.days@.contains_key(day)
                && self.days@[day] == laid[day] by {
                let items = incoming.days.iter().remaining();
                assert(items.contains((&day, &laid[day])));
                let j = choose|j: int| 0 <= j < items.len() && items[j] == (&day, &laid[day]);
                assert(*items[j].0 == day);
            }
            assert(self.days@ =~= merged);
        }
    }

    /// Drops every record but that of `target`; without a target, or where
    /// the target has no record, no record is left.
    pub fn keep_only(&mut self, target: Option<Date>)
        requires
            old(self).wf(),
        ensures
            final(self)@ == old(self)@.projected_on(target),
            final(self).wf(),
    {
        let kept = match target {
            Some(date) => self.days.remove(&date.days),
            None => None,
        };
        self.days.clear();
        match (target, kept) {
            (Some(date), Some(status)) => {
                self.days.insert(date.days, status);
            },
            _ => {},
        }
        assert(self.days@ =~= old(self)@.projected_on(target).days);
    }

    /// The cells of this habit's row in a grid over `days`: the name, the
    /// short label, then the glyph of the status on each day, in the order
    /// of `days`.
    pub fn make_row(&self, days: &[Date]) -> (row: Vec<String>)
        ensures
            texts(row@) == self@.row_of(days@),
            row@.len() == 2 + days@.len(),
    {
        let mut row: Vec<String> = Vec::new();
        row.push(self.name.clone());
        row.push(self.brief.clone());
        let mut i: usize = 0;
        while i < days.len()
            invariant
                0 <= i <= days@.len(),
                row@.len() == 2 + i,
                row@[0]@ == self@.name,
                row@[1]@ == self@.brief,
                forall|j: int|
                    0 <= j < i ==> (#[trigger] row@[2 + j])@ == seq![
                        self@.status_on(days@[j].days).glyph_of(),
                    ],
            decreases days@.len() - i,
        {
            let status = self.status_on(days[i]);
            row.push(status.to_string());
            i = i + 1;
        }
        proof {
            let cells = self@.row_of(days@);
            assert(texts(row@).len() == cells.len());
            assert forall|j: int| 0 <= j < cells.len() implies texts(row@)[j] == cells[j] by {
                if j >= 2 {
                    assert(row@[2 + (j - 2)]@ == seq![
                        self@.status_on(days@[j - 2].days).glyph_of(),
                    ]);
                }
            }
            assert(texts(row@) =~= cells);
        }
        row
    }

    /// Every recorded day with its status, each once, in no particular order.
    pub fn entries(&self) -> (list: Vec<(Date, BubbleStatus)>)
        ensures
            list@.len() == self@.days.len(),
            forall|i: int|
                0 <= i < list@.len() ==> self@.days.contains_key((#[trigger] list@[i]).0.days)
                    && self@.days[list@[i].0.days] == list@[i].1,
            forall|day: i32|
                self@.days.contains_key(day) ==> exists|i: int|
                    0 <= i < list@.len() && (#[trigger] list@[i]).0.days == day,
            forall|i: int, j: int|
                0 <= i < j < list@.len() ==> (#[trigger] list@[i]).0 != (#[trigger] list@[j]).0,
    {
        let mut list: Vec<(Date, BubbleStatus)> = Vec::new();
        for pair in it: self.days.iter()
            invariant
                it.seq() == self.days.iter().remaining(),
                list@.len() == it.index(),
                forall|j: int|
                    0 <= j < it.index() ==> (#[trigger] list@[j]).0.days == *it.seq()[j].0
                        && list@[j].1 == *it.seq()[j].1,
        {
            let (day, status) = pair;
            list.push((Date { days: *day }, *status));
        }
        proof {
            let items = self.days.iter().remaining();
            assert(items.no_duplicates());
            assert forall|day: i32| self@.days.contains_key(day) implies exists|i: int|
                0 <= i < list@.len() && (#[trigger] list@[i]).0.days == day by {
                assert(items.contains((&day, &self.days@[day])));
                let i = choose|i: int| 0 <= i < items.len() && items[i] == (&day, &self.days@[day]);
                assert(list@[i].0.days == day);
            }
            assert forall|i: int, j: int| 0 <= i < j < list@.len() implies (#[trigger] list@[i]).0
                != (#[trigger] list@[j]).0 by {
                if list@[i].0 == list@[j].0 {
                    assert(*items[i].0 == *items[j].0);
                    assert(self.days@.contains_key(*items[i].0));
                    assert(self.days@.contains_key(*items[j].0));
                    assert(*items[i].1 == *items[j].1);
                    assert(items[i] == items[j]);
                }
            }
        }
        list
    }

    /// The two parts of the short label, without the `/` between them. A
    /// label that does not hold exactly one `/` is malformed.
    pub fn brief_parts(&self) -> (parts: Result<(String, String), BubbleError>)
        ensures
            parts is Ok <==> is_two_part(self@.brief),
            parts matches Ok((front, back)) ==> exists|cut: int|
                splits_at(self@.brief, cut) && front@ == self@.brief.subrange(0, cut) && back@
                    == self@.brief.subrange(cut + 1, self@.brief.len() as int),
            parts matches Ok((front, back)) ==> self@.brief == front@ + seq!['/'] + back@,
            parts matches Err(error) ==> error == BubbleError::DecodeError,
    {
        let brief = self.brief.as_str();
        let len = brief.unicode_len();
        let mut cut: usize = 0;
        while cut < len && brief.get_char(cut) != '/'
            invariant
                0 <= cut <= len,
                len == brief@.len(),
                forall|j: int| 0 <= j < cut ==> brief@[j] != '/',
            decreases len - cut,
        {
            cut = cut + 1;
        }
        if cut == len {
            assert(!is_two_part(brief@));
            return Err(BubbleError::DecodeError);
        }
        let mut rest: usize = cut + 1;
        while rest < len && brief.get_char(rest) != '/'
            invariant
                cut < rest <= len,
                len == brief@.len(),
                forall|j: int| cut < j < rest ==> brief@[j] != '/',
            decreases len - rest,
        {
            rest = rest + 1;
        }
        if rest < len {
            assert forall|other: int| !splits_at(brief@, other) by {
                if other == cut {
                    assert(brief@[rest as int] == '/');
                } else {
                    assert(brief@[cut as int] == '/');
                }
            }
            return Err(BubbleError::DecodeError);
        }
        assert(splits_at(brief@, cut as int));
        let front = String::from_str(brief.substring_char(0, cut));
        let back = String::from_str(brief.substring_char(cut + 1, len));
        assert(brief@ =~= front@ + seq!['/'] + back@);
        assert(splits_at(self@.brief, cut as int) && front@ == self@.brief.subrange(0, cut as int)
            && back@ == self@.brief.subrange(cut as int + 1, self@.brief.len() as int));
        Ok((front, back))
    }

    /// The name the habit is shown under.
    pub fn name(&self) -> (name: &str)
        ensures
            name@ == self@.name,
    {
        self.name.as_str()
    }

    /// What the habit is about, at length.
    pub fn description(&self) -> (description: &str)
        ensures
            description@ == self@.description,
    {
        self.description.as_str()
    }

    /// The short label.
    pub fn brief(&self) -> (brief: &str)
        ensures
            brief@ == self@.brief,
    {
        self.brief.as_str()
    }

    /// Replaces the short label.
    pub fn set_brief(&mut self, brief: &str)
        ensures
            final(self)@ == (BubbleView { brief: brief@, ..old(self)@ }),
    {
        self.brief = String::from_str(brief);
    }
}

} // verus!
