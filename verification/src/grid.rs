//! The ledger laid out for reading: the weekly grid with its heading row,
//! and the list of habits with their short labels aligned.

use crate::bubble::is_two_part;
use crate::bubble::splits_at;
use crate::bubble::texts;
use crate::bubble::Bubble;
use crate::bubble::BubbleView;
use crate::date::formatted_day;
use crate::date::heading_format;
use crate::date::Date;
use crate::error::BubbleError;
use crate::ledger::views;
use vstd::prelude::*;

verus! {

/// The texts of the cells of a table, row by row.
pub open spec fn table_texts(rows: Seq<Vec<String>>) -> Seq<Seq<Seq<char>>> {
    Seq::new(rows.len(), |i: int| texts(rows[i]@))
}

/// The row of one entry in the grid over `days`; the simple grid leaves the
/// short label out.
pub open spec fn grid_row(entry: BubbleView, days: Seq<Date>, simple: bool) -> Seq<Seq<char>> {
    if simple {
        entry.row_of(days).remove(1)
    } else {
        entry.row_of(days)
    }
}

/// The grid of a ledger over `days`: one row per entry, in the order of the
/// ledger, with one glyph per day, in the order of `days`.
pub open spec fn grid_of(ledger: Seq<BubbleView>, days: Seq<Date>, simple: bool) -> Seq<
    Seq<Seq<char>>,
> {
    Seq::new(ledger.len(), |i: int| grid_row(ledger[i], days, simple))
}

/// The cells of the grid of a ledger over `days`, oldest day first when
/// `days` is a rolling week: per entry the name, the short label unless the
/// grid is simple, and the glyph of each day's status.
pub fn display_grid(ledger: &Vec<Bubble>, days: &[Date], simple: bool) -> (rows: Vec<Vec<String>>)
    ensures
        table_texts(rows@) == grid_of(views(ledger@), days@, simple),
        rows@.len() == ledger@.len(),
{
    let mut rows: Vec<Vec<String>> = Vec::new();
    let mut i: usize = 0;
    while i < ledger.len()
        invariant
            0 <= i <= ledger@.len(),
            rows@.len() == i,
            forall|j: int|
                0 <= j < i ==> texts((#[trigger] rows@[j])@) == grid_row(
                    ledger@[j]@,
                    days@,
                    simple,
                ),
        decreases ledger@.len() - i,
    {
        let mut row = ledger[i].make_row(days);
        if simple {
            let ghost full = row@;
            row.remove(1);
            assert(texts(row@) =~= texts(full).remove(1));
        }
        rows.push(row);
        i = i + 1;
    }
    assert(table_texts(rows@) =~= grid_of(views(ledger@), days@, simple));
    rows
}

/// The cells of the heading row of the grid: the titles of the leading
/// columns, then one heading per day.
pub open spec fn heading_cells(simple: bool, day_headings: Seq<Seq<char>>) -> Seq<Seq<char>> {
    if simple {
        seq!["Tasks"@] + day_headings
    } else {
        seq!["Tasks"@, "Brief"@] + day_headings
    }
}

/// Puts the titles of the leading columns before the headings of the days.
pub fn heading_row(simple: bool, day_headings: Vec<String>) -> (row: Vec<String>)
    ensures
        texts(row@) == heading_cells(simple, texts(day_headings@)),
{
    let mut row: Vec<String> = Vec::new();
    row.push(String::from_str("Tasks"));
    if !simple {
        row.push(String::from_str("Brief"));
    }
    let mut day_headings = day_headings;
    let ghost lead = row@;
    let ghost tail = day_headings@;
    row.append(&mut day_headings);
    assert(row@ == lead + tail);
    assert(texts(row@) =~= heading_cells(simple, texts(tail)));
    row
}

/// The headings that `chrono` gives the days, where it can represent each.
pub open spec fn day_headings_of(days: Seq<Date>) -> Option<Seq<Seq<char>>> {
    if forall|i: int|
        0 <= i < days.len() ==> formatted_day(
            (#[trigger] days[i]).days as int,
            heading_format(),
        ) is Some {
        Some(
            Seq::new(
                days.len(),
                |i: int| formatted_day(days[i].days as int, heading_format())->0,
            ),
        )
    } else {
        None
    }
}

/// The heading row of the grid over `days`. There is none where one of the
/// days lies outside the dates that `chrono` can represent.
pub fn grid_headings(days: &[Date], simple: bool) -> (row: Option<Vec<String>>)
    ensures
        match row {
            Some(cells) => day_headings_of(days@) matches Some(headings) && texts(cells@)
                == heading_cells(simple, headings),
            None => day_headings_of(days@) is None,
        },
{
    let mut headings: Vec<String> = Vec::new();
    let mut i: usize = 0;
    while i < days.len()
        invariant
            0 <= i <= days@.len(),
            headings@.len() == i,
            forall|j: int|
                0 <= j < i ==> formatted_day((#[trigger] days@[j]).days as int, heading_format())
                    == Some(headings@[j]@),
        decreases days@.len() - i,
    {
        match days[i].column_heading() {
            Some(heading) => {
                headings.push(heading);
            },
            None => {
                assert(formatted_day(days@[i as int].days as int, heading_format()) is None);
                return None;
            },
        }
        i = i + 1;
    }
    assert(day_headings_of(days@)->0 =~= texts(headings@));
    Some(heading_row(simple, headings))
}

/// The place of the `/` in a short label of two parts.
pub open spec fn cut_of(brief: Seq<char>) -> int {
    choose|cut: int| splits_at(brief, cut)
}

/// The length of the part of a short label after its `/`.
pub open spec fn back_len(brief: Seq<char>) -> int {
    brief.len() - cut_of(brief) - 1
}

/// The length of the longest first part among the short labels of a ledger.
pub open spec fn widest_front(ledger: Seq<BubbleView>) -> int
    decreases ledger.len(),
{
    if ledger.len() == 0 {
        0
    } else if widest_front(ledger.drop_last()) >= cut_of(ledger.last().brief) {
        widest_front(ledger.drop_last())
    } else {
        cut_of(ledger.last().brief)
    }
}

/// The length of the longest second part among the short labels of a ledger.
pub open spec fn widest_back(ledger: Seq<BubbleView>) -> int
    decreases ledger.len(),
{
    if ledger.len() == 0 {
        0
    } else if widest_back(ledger.drop_last()) >= back_len(ledger.last().brief) {
        widest_back(ledger.drop_last())
    } else {
        back_len(ledger.last().brief)
    }
}

/// A run of `count` spaces.
pub open spec fn spaces(count: int) -> Seq<char> {
    Seq::new(count as nat, |i: int| ' ')
}

/// A short label padded on both sides, so that its first part is
/// `front_width` long and its second part `back_width`.
pub open spec fn aligned_brief(brief: Seq<char>, front_width: int, back_width: int) -> Seq<char> {
    spaces(front_width - cut_of(brief)) + brief + spaces(back_width - back_len(brief))
}

/// Every short label of the ledger consists of two parts.
pub open spec fn all_two_part(ledger: Seq<BubbleView>) -> bool {
    forall|i: int| 0 <= i < ledger.len() ==> is_two_part((#[trigger] ledger[i]).brief)
}

/// The list of habits: per entry the name, the short label and the
/// description. The short labels are padded so that their `/` stand in one
/// column and all are equally long.
pub open spec fn explained(ledger: Seq<BubbleView>) -> Seq<Seq<Seq<char>>> {
    Seq::new(
        ledger.len(),
        |i: int|
            seq![
                ledger[i].name,
                aligned_brief(ledger[i].brief, widest_front(ledger), widest_back(ledger)),
                ledger[i].description,
            ],
    )
}

/// A short label of two parts has its `/` at one place only.
pub proof fn lemma_cut_unique(brief: Seq<char>, cut: int)
    requires
        splits_at(brief, cut),
    ensures
        cut_of(brief) == cut,
        is_two_part(brief),
{
    let chosen = cut_of(brief);
    assert(splits_at(brief, chosen));
    if chosen != cut {
        assert(brief[chosen] != '/');
    }
}

/// No first part is longer than the widest first part, and no second part
/// longer than the widest second part.
pub proof fn lemma_widest_bounds(ledger: Seq<BubbleView>, place: int)
    requires
        0 <= place < ledger.len(),
    ensures
        cut_of(ledger[place].brief) <= widest_front(ledger),
        back_len(ledger[place].brief) <= widest_back(ledger),
    decreases ledger.len(),
{
    if place < ledger.len() - 1 {
        lemma_widest_bounds(ledger.drop_last(), place);
    }
}

/// A text of `count` spaces.
fn spaces_text(count: usize) -> (text: String)
    ensures
        text@ == spaces(count as int),
{
    proof {
        reveal_strlit(" ");
    }
    let mut text = String::new();
    let mut i: usize = 0;
    while i < count
        invariant
            0 <= i <= count,
            text@ == spaces(i as int),
            " "@ == seq![' '],
        decreases count - i,
    {
        text.append(" ");
        i = i + 1;
        assert(text@ =~= spaces(i as int));
    }
    text
}

/// The rows of the list of habits: per entry the name, the short label and
/// the description, the short labels padded with spaces so that their `/`
/// stand in one column. A ledger with a short label that is not of two
/// parts is malformed.
pub fn explain_rows(ledger: &Vec<Bubble>) -> (rows: Result<Vec<Vec<String>>, BubbleError>)
    ensures
        match rows {
            Ok(table) => all_two_part(views(ledger@)) && table_texts(table@) == explained(
                views(ledger@),
            ),
            Err(error) => error == BubbleError::DecodeError && !all_two_part(views(ledger@)),
        },
{
    let ghost all = views(ledger@);
    let mut front_width: usize = 0;
    let mut back_width: usize = 0;
    let mut lengths: Vec<(usize, usize)> = Vec::new();
    let mut i: usize = 0;
    while i < ledger.len()
        invariant
            0 <= i <= ledger@.len(),
            all == views(ledger@),
            lengths@.len() == i,
            front_width == widest_front(all.take(i as int)),
            back_width == widest_back(all.take(i as int)),
            forall|j: int| 0 <= j < i ==> is_two_part((#[trigger] all[j]).brief),
            forall|j: int|
                0 <= j < i ==> (#[trigger] lengths@[j]).0 == cut_of(all[j].brief) && lengths@[j].1
                    == back_len(all[j].brief),
        decreases ledger@.len() - i,
    {
        match ledger[i].brief_parts() {
            Ok((front, back)) => {
                let front_len = front.as_str().unicode_len();
                let back_len = back.as_str().unicode_len();
                proof {
                    let brief = all[i as int].brief;
                    let cut = choose|cut: int|
                        splits_at(brief, cut) && front@ == brief.subrange(0, cut) && back@
                            == brief.subrange(cut + 1, brief.len() as int);
                    lemma_cut_unique(brief, cut);
                    let next = all.take(i + 1);
                    assert(next.drop_last() =~= all.take(i as int));
                    assert(next.last() == all[i as int]);
                }
                if front_len > front_width {
                    front_width = front_len;
                }
                if back_len > back_width {
                    back_width = back_len;
                }
                lengths.push((front_len, back_len));
            },
            Err(error) => {
                assert(!is_two_part(all[i as int].brief));
                return Err(error);
            },
        }
        i = i + 1;
    }
    assert(all.take(ledger@.len() as int) =~= all);
    let mut table: Vec<Vec<String>> = Vec::new();
    let mut i: usize = 0;
    while i < ledger.len()
        invariant
            0 <= i <= ledger@.len(),
            all == views(ledger@),
            lengths@.len() == ledger@.len(),
            front_width == widest_front(all),
            back_width == widest_back(all),
            table@.len() == i,
            forall|j: int|
                0 <= j < ledger@.len() ==> (#[trigger] lengths@[j]).0 == cut_of(all[j].brief)
                    && lengths@[j].1 == back_len(all[j].brief),
            forall|j: int| 0 <= j < i ==> texts((#[trigger] table@[j])@) == explained(all)[j],
        decreases ledger@.len() - i,
    {
        proof {
            lemma_widest_bounds(all, i as int);
        }
        let (front_len, back_len) = lengths[i];
        let mut brief = spaces_text(front_width - front_len);
        brief.append(ledger[i].brief());
        let back_pad = spaces_text(back_width - back_len);
        brief.append(back_pad.as_str());
        let mut row: Vec<String> = Vec::new();
        row.push(String::from_str(ledger[i].name()));
        row.push(brief);
        row.push(String::from_str(ledger[i].description()));
        assert(texts(row@) =~= explained(all)[i as int]);
        table.push(row);
        i = i + 1;
    }
    assert(table_texts(table@) =~= explained(all));
    Ok(table)
}

} // verus!
