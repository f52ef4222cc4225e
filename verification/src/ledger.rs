//! The ledger: the habits in their fixed order. An entry is known by its
//! place in the sequence, not by its name, so every operation on two
//! ledgers pairs the entries that stand at the same place.

use crate::bubble::Bubble;
use crate::bubble::BubbleView;
use crate::date::last_occurrence_day;
use crate::date::last_occurrence_of_weekday;
use crate::date::Date;
use crate::date::Weekday;
use crate::error::BubbleError;
use crate::status::status_of_token;
use crate::status::BubbleStatus;
use vstd::prelude::*;

verus! {

/// What a ledger stands for: what each of its entries stands for, in order.
pub open spec fn views(ledger: Seq<Bubble>) -> Seq<BubbleView> {
    Seq::new(ledger.len(), |i: int| ledger[i]@)
}

/// Every entry is well formed.
pub open spec fn ledger_wf(ledger: Seq<BubbleView>) -> bool {
    forall|i: int| 0 <= i < ledger.len() ==> (#[trigger] ledger[i]).wf()
}

/// Replacing one entry of a ledger changes what the ledger stands for at
/// that place only, and a ledger that was well formed stays so where the
/// new entry is well formed.
pub proof fn lemma_replace_entry(before: Seq<Bubble>, after: Seq<Bubble>, place: int)
    requires
        0 <= place < before.len(),
        after == before.update(place, after[place]),
    ensures
        views(after) == views(before).update(place, after[place]@),
        ledger_wf(views(before)) && after[place]@.wf() ==> ledger_wf(views(after)),
{
    assert(views(after) =~= views(before).update(place, after[place]@));
    if ledger_wf(views(before)) && after[place]@.wf() {
        assert forall|j: int| 0 <= j < after.len() implies (#[trigger] views(after)[j]).wf() by {
            if j != place {
                assert(views(before)[j].wf());
            }
        }
    }
}

/// A copy of a ledger.
pub fn clone_ledger(ledger: &Vec<Bubble>) -> (copy: Vec<Bubble>)
    ensures
        views(copy@) == views(ledger@),
        copy@.len() == ledger@.len(),
{
    let mut copy: Vec<Bubble> = Vec::new();
    let mut i: usize = 0;
    while i < ledger.len()
        invariant
            0 <= i <= ledger@.len(),
            copy@.len() == i,
            forall|j: int| 0 <= j < i ==> (#[trigger] copy@[j])@ == ledger@[j]@,
        decreases ledger@.len() - i,
    {
        copy.push(ledger[i].clone());
        i = i + 1;
    }
    assert(views(copy@) =~= views(ledger@));
    copy
}

/// `stored` with `incoming` folded in, place by place. Entries are paired as
/// far as the shorter ledger reaches; what `stored` holds beyond that stays
/// as it is, and what `incoming` holds beyond that is ignored.
pub open spec fn merged(stored: Seq<BubbleView>, incoming: Seq<BubbleView>) -> Seq<BubbleView> {
    Seq::new(
        stored.len(),
        |i: int|
            if i < incoming.len() {
                stored[i].merged_with(incoming[i])
            } else {
                stored[i]
            },
    )
}

/// Folds `incoming` into `stored`, place by place: each stored entry takes
/// over the records of the incoming entry at its place and keeps its own
/// name, description and short label.
pub fn merge(stored: Vec<Bubble>, incoming: &Vec<Bubble>) -> (result: Vec<Bubble>)
    requires
        ledger_wf(views(stored@)),
        ledger_wf(views(incoming@)),
    ensures
        views(result@) == merged(views(stored@), views(incoming@)),
        result@.len() == stored@.len(),
        ledger_wf(views(result@)),
{
    let mut result = stored;
    let mut i: usize = 0;
    while i < result.len() && i < incoming.len()
        invariant
            result@.len() == stored@.len(),
            0 <= i <= result@.len(),
            i <= incoming@.len(),
            ledger_wf(views(incoming@)),
            ledger_wf(views(result@)),
            forall|j: int|
                0 <= j < i ==> (#[trigger] views(result@)[j]) == views(stored@)[j].merged_with(
                    views(incoming@)[j],
                ),
            forall|j: int|
                i <= j < result@.len() ==> (#[trigger] views(result@)[j]) == views(stored@)[j],
        decreases result@.len() - i,
    {
        let ghost before = result@;
        assert(views(incoming@)[i as int].wf());
        assert(views(result@)[i as int].wf());
        result[i].merge_from(&incoming[i]);
        proof {
            lemma_replace_entry(before, result@, i as int);
        }
        i = i + 1;
    }
    assert(views(result@) =~= merged(views(stored@), views(incoming@)));
    result
}

/// Re-applying an incoming ledger changes nothing: folding it in twice
/// gives what folding it in once gives.
pub proof fn lemma_merge_idempotent(stored: Seq<BubbleView>, incoming: Seq<BubbleView>)
    ensures
        merged(merged(stored, incoming), incoming) == merged(stored, incoming),
{
    let once = merged(stored, incoming);
    let twice = merged(once, incoming);
    assert forall|i: int| 0 <= i < once.len() implies twice[i] == once[i] by {
        if i < incoming.len() {
            assert(once[i].days.union_prefer_right(incoming[i].days) =~= once[i].days);
        }
    }
    assert(twice =~= once);
}

/// Where the incoming entry at a place records none of the days that the
/// stored entry records, the merged entry records the days of both, each
/// with the status it had.
pub proof fn lemma_merge_disjoint_is_union(
    stored: Seq<BubbleView>,
    incoming: Seq<BubbleView>,
    place: int,
)
    requires
        0 <= place < stored.len(),
        place < incoming.len(),
        stored[place].days.dom().disjoint(incoming[place].days.dom()),
    ensures
        ({
            let before = stored[place].days;
            let laid = incoming[place].days;
            let after = merged(stored, incoming)[place].days;
            &&& after.dom() == before.dom().union(laid.dom())
            &&& forall|day: i32| before.contains_key(day) ==> after[day] == before[day]
            &&& forall|day: i32| laid.contains_key(day) ==> after[day] == laid[day]
        }),
{
    let before = stored[place].days;
    let laid = incoming[place].days;
    let after = merged(stored, incoming)[place].days;
    assert(after.dom() =~= before.dom().union(laid.dom()));
    assert forall|day: i32| before.contains_key(day) implies !laid.contains_key(day) by {
        if laid.contains_key(day) {
            assert(before.dom().contains(day));
            assert(laid.dom().contains(day));
        }
    }
}

/// A day that the incoming entry at a place records has, after the merge,
/// the incoming status, whatever the stored entry recorded for it; every
/// other day keeps the stored status.
pub proof fn lemma_merge_incoming_wins(
    stored: Seq<BubbleView>,
    incoming: Seq<BubbleView>,
    place: int,
    day: i32,
)
    requires
        0 <= place < stored.len(),
        place < incoming.len(),
    ensures
        ({
            let before = stored[place];
            let laid = incoming[place];
            let after = merged(stored, incoming)[place];
            &&& laid.days.contains_key(day) ==> after.days.contains_key(day) && after.days[day]
                == laid.days[day]
            &&& !laid.days.contains_key(day) ==> after.status_on(day) == before.status_on(day)
        }),
{
}

/// The merge pairs entries only as far as the shorter ledger reaches: the
/// result is as long as `stored`, and every stored entry at a place that
/// `incoming` does not reach is unchanged. No entry changes its name,
/// description or short label.
pub proof fn lemma_merge_truncates(stored: Seq<BubbleView>, incoming: Seq<BubbleView>)
    ensures
        merged(stored, incoming).len() == stored.len(),
        forall|i: int|
            incoming.len() <= i < stored.len() ==> (#[trigger] merged(stored, incoming)[i])
                == stored[i],
        forall|i: int|
            0 <= i < stored.len() ==> (#[trigger] merged(stored, incoming)[i]).name
                == stored[i].name && merged(stored, incoming)[i].description
                == stored[i].description && merged(stored, incoming)[i].brief == stored[i].brief,
{
}

/// The ledger with every entry cut down to the record of `target`.
pub open spec fn projected(ledger: Seq<BubbleView>, target: Option<Date>) -> Seq<BubbleView> {
    Seq::new(ledger.len(), |i: int| ledger[i].projected_on(target))
}

/// Cuts every entry down to its record of `target`; without a target no
/// record is left in any entry. Order, names, descriptions and short labels
/// stay.
pub fn project(ledger: Vec<Bubble>, target: Option<Date>) -> (result: Vec<Bubble>)
    requires
        ledger_wf(views(ledger@)),
    ensures
        views(result@) == projected(views(ledger@), target),
        result@.len() == ledger@.len(),
        ledger_wf(views(result@)),
{
    let mut result = ledger;
    let mut i: usize = 0;
    while i < result.len()
        invariant
            result@.len() == ledger@.len(),
            0 <= i <= result@.len(),
            ledger_wf(views(result@)),
            forall|j: int|
                0 <= j < i ==> (#[trigger] views(result@)[j]) == views(ledger@)[j].projected_on(
                    target,
                ),
            forall|j: int|
                i <= j < result@.len() ==> (#[trigger] views(result@)[j]) == views(ledger@)[j],
        decreases result@.len() - i,
    {
        let ghost before = result@;
        assert(views(result@)[i as int].wf());
        result[i].keep_only(target);
        proof {
            lemma_replace_entry(before, result@, i as int);
        }
        i = i + 1;
    }
    assert(views(result@) =~= projected(views(ledger@), target));
    result
}

/// A projection shows, of every entry, the stored status of the target day
/// and nothing of any other day; without a target it shows nothing.
pub proof fn lemma_projection_shows_one_day(
    ledger: Seq<BubbleView>,
    target: Option<Date>,
    place: int,
    day: i32,
)
    requires
        0 <= place < ledger.len(),
    ensures
        projected(ledger, target).len() == ledger.len(),
        projected(ledger, target)[place].status_on(day) == (if target == Some(Date { days: day }) {
            ledger[place].status_on(day)
        } else {
            BubbleStatus::Unknown
        }),
        projected(ledger, target)[place].name == ledger[place].name,
        projected(ledger, target)[place].description == ledger[place].description,
        projected(ledger, target)[place].brief == ledger[place].brief,
{
}

/// Folding a projection of a ledger back into that ledger changes nothing:
/// a peer that sends back, untouched, what it fetched leaves the store as
/// it was.
pub proof fn lemma_merge_of_projection_changes_nothing(
    stored: Seq<BubbleView>,
    target: Option<Date>,
)
    ensures
        merged(stored, projected(stored, target)) == stored,
{
    let shown = projected(stored, target);
    let after = merged(stored, shown);
    assert forall|i: int| 0 <= i < stored.len() implies after[i] == stored[i] by {
        assert(stored[i].days.union_prefer_right(shown[i].days) =~= stored[i].days);
    }
    assert(after =~= stored);
}

/// Folding in a ledger that records nothing but one day leaves every other
/// day of every stored entry as it was: sending back what was fetched for a
/// day, changed or not, cannot destroy the rest of the history.
pub proof fn lemma_merge_of_one_day_keeps_history(
    stored: Seq<BubbleView>,
    incoming: Seq<BubbleView>,
    target: i32,
    place: int,
    day: i32,
)
    requires
        0 <= place < stored.len(),
        day != target,
        forall|i: int, recorded: i32|
            0 <= i < incoming.len() && (#[trigger] incoming[i].days.contains_key(recorded))
                ==> recorded == target,
    ensures
        merged(stored, incoming)[place].days.contains_key(day) == stored[place].days.contains_key(
            day,
        ),
        merged(stored, incoming)[place].status_on(day) == stored[place].status_on(day),
{
    if place < incoming.len() {
        assert(!incoming[place].days.contains_key(day));
    }
}

/// The statuses that a text of tokens stands for, one per character, if
/// every character is a token.
pub open spec fn statuses_of(tokens: Seq<char>) -> Option<Seq<BubbleStatus>> {
    if forall|i: int| 0 <= i < tokens.len() ==> status_of_token(#[trigger] tokens[i]) is Some {
        Some(Seq::new(tokens.len(), |i: int| status_of_token(tokens[i])->0))
    } else {
        None
    }
}

/// Reads a text of tokens, one status per character.
pub fn parse_tokens(tokens: &str) -> (parsed: Result<Vec<BubbleStatus>, BubbleError>)
    ensures
        match parsed {
            Ok(statuses) => statuses_of(tokens@) == Some(statuses@),
            Err(error) => error == BubbleError::InvalidToken && statuses_of(tokens@) is None,
        },
{
    let count = tokens.unicode_len();
    let mut statuses: Vec<BubbleStatus> = Vec::new();
    let mut i: usize = 0;
    while i < count
        invariant
            count == tokens@.len(),
            0 <= i <= count,
            statuses@.len() == i,
            forall|j: int|
                0 <= j < i ==> status_of_token(#[trigger] tokens@[j]) == Some(statuses@[j]),
        decreases count - i,
    {
        match BubbleStatus::parse(tokens.get_char(i)) {
            Ok(status) => {
                statuses.push(status);
            },
            Err(_) => {
                assert(status_of_token(tokens@[i as int]) is None);
                return Err(BubbleError::InvalidToken);
            },
        }
        i = i + 1;
    }
    assert(statuses_of(tokens@)->0 =~= statuses@);
    Ok(statuses)
}

/// The ledger with the status of one day set in every entry: entry `i`
/// gets `statuses[i]`.
pub open spec fn bulk_updated(
    ledger: Seq<BubbleView>,
    day: i32,
    statuses: Seq<BubbleStatus>,
) -> Seq<BubbleView> {
    Seq::new(ledger.len(), |i: int| ledger[i].with_status(day, statuses[i]))
}

/// Sets one day in every entry: entry `i` gets `statuses[i]`.
pub fn set_day(ledger: &mut Vec<Bubble>, date: Date, statuses: &Vec<BubbleStatus>)
    requires
        ledger_wf(views(old(ledger)@)),
        statuses@.len() == old(ledger)@.len(),
    ensures
        views(final(ledger)@) == bulk_updated(views(old(ledger)@), date.days, statuses@),
        final(ledger)@.len() == old(ledger)@.len(),
        ledger_wf(views(final(ledger)@)),
{
    let mut i: usize = 0;
    while i < ledger.len()
        invariant
            ledger@.len() == old(ledger)@.len(),
            statuses@.len() == ledger@.len(),
            0 <= i <= ledger@.len(),
            ledger_wf(views(ledger@)),
            forall|j: int|
                0 <= j < i ==> (#[trigger] views(ledger@)[j]) == views(old(ledger)@)[j].with_status(
                    date.days,
                    statuses@[j],
                ),
            forall|j: int|
                i <= j < ledger@.len() ==> (#[trigger] views(ledger@)[j]) == views(old(ledger)@)[j],
        decreases ledger@.len() - i,
    {
        let ghost before = ledger@;
        assert(views(ledger@)[i as int].wf());
        ledger[i].set_status(date, statuses[i]);
        proof {
            lemma_replace_entry(before, ledger@, i as int);
        }
        i = i + 1;
    }
    assert(views(ledger@) =~= bulk_updated(views(old(ledger)@), date.days, statuses@));
}

/// Enters a week's statuses for one weekday: `tokens` holds one token per
/// entry, token `i` for entry `i`, and the day they are entered for is the
/// most recent `weekday`, `reference` included. That day is returned.
///
/// A text whose length differs from the ledger's is rejected with
/// `InputLengthError`; one of the right length that holds a character that
/// is no token, with `InvalidToken`. A rejected update changes nothing.
pub fn bulk_update(
    ledger: &mut Vec<Bubble>,
    reference: Date,
    weekday: Weekday,
    tokens: &str,
) -> (outcome: Result<Date, BubbleError>)
    requires
        ledger_wf(views(old(ledger)@)),
        reference.days - 6 >= i32::MIN,
    ensures
        ledger_wf(views(final(ledger)@)),
        final(ledger)@.len() == old(ledger)@.len(),
        outcome is Ok <==> tokens@.len() == old(ledger)@.len() && statuses_of(tokens@) is Some,
        outcome matches Ok(date) ==> date.days == last_occurrence_day(
            reference.days as int,
            weekday,
        ) && views(final(ledger)@) == bulk_updated(
            views(old(ledger)@),
            date.days,
            statuses_of(tokens@)->0,
        ),
        outcome matches Err(error) ==> final(ledger)@ == old(ledger)@ && error == (if tokens@.len()
            != old(ledger)@.len() {
            BubbleError::InputLengthError
        } else {
            BubbleError::InvalidToken
        }),
{
    if tokens.unicode_len() != ledger.len() {
        return Err(BubbleError::InputLengthError);
    }
    let statuses = match parse_tokens(tokens) {
        Ok(statuses) => statuses,
        Err(error) => {
            return Err(error);
        },
    };
    let date = last_occurrence_of_weekday(reference, weekday);
    set_day(ledger, date, &statuses);
    Ok(date)
}

/// The number of entries whose status on a day is `Unknown`.
pub open spec fn unknown_count(ledger: Seq<BubbleView>, day: i32) -> nat
    decreases ledger.len(),
{
    if ledger.len() == 0 {
        0
    } else {
        unknown_count(ledger.drop_last(), day) + if ledger.last().status_on(day)
            == BubbleStatus::Unknown {
            1nat
        } else {
            0nat
        }
    }
}

/// Counts the entries for which nothing is recorded on a day.
pub fn count_unknown(ledger: &Vec<Bubble>, date: Date) -> (count: usize)
    ensures
        count == unknown_count(views(ledger@), date.days),
        count <= ledger@.len(),
{
    let mut count: usize = 0;
    let mut i: usize = 0;
    while i < ledger.len()
        invariant
            0 <= i <= ledger@.len(),
            count <= i,
            count == unknown_count(views(ledger@).take(i as int), date.days),
        decreases ledger@.len() - i,
    {
        proof {
            let next = views(ledger@).take(i + 1);
            assert(next.drop_last() =~= views(ledger@).take(i as int));
            assert(next.last() == ledger@[i as int]@);
        }
        if ledger[i].status_on(date) == BubbleStatus::Unknown {
            count = count + 1;
        }
        i = i + 1;
    }
    assert(views(ledger@).take(ledger@.len() as int) =~= views(ledger@));
    count
}

/// The names of the habits that a fresh ledger holds, in order.
pub open spec fn seed_names() -> Seq<Seq<char>> {
    seq![
        "Review"@,
        "Sleep"@,
        "Water"@,
        "Diet"@,
        "Stretch"@,
        "Walk"@,
        "Clean"@,
        "Exercise"@,
        "Breath"@,
        "Writing"@,
    ]
}

/// A fresh ledger: the fixed list of habits, each without description,
/// short label or history.
pub fn seed_ledger() -> (ledger: Vec<Bubble>)
    ensures
        ledger@.len() == seed_names().len(),
        forall|i: int|
            0 <= i < ledger@.len() ==> (#[trigger] views(ledger@)[i]) == (BubbleView {
                name: seed_names()[i],
                description: Seq::<char>::empty(),
                brief: Seq::<char>::empty(),
                days: Map::<i32, BubbleStatus>::empty(),
            }),
        ledger_wf(views(ledger@)),
{
    proof {
        reveal_strlit("");
    }
    let mut ledger: Vec<Bubble> = Vec::new();
    ledger.push(Bubble::new("Review", ""));
    ledger.push(Bubble::new("Sleep", ""));
    ledger.push(Bubble::new("Water", ""));
    ledger.push(Bubble::new("Diet", ""));
    ledger.push(Bubble::new("Stretch", ""));
    ledger.push(Bubble::new("Walk", ""));
    ledger.push(Bubble::new("Clean", ""));
    ledger.push(Bubble::new("Exercise", ""));
    ledger.push(Bubble::new("Breath", ""));
    ledger.push(Bubble::new("Writing", ""));
    assert(""@ =~= Seq::<char>::empty());
    ledger
}

} // verus!
