//! The contribution calendar and how a page is merged into it.

use crate::date::{parse_iso, Date};
use crate::error::MalformedDetail;
use crate::transport::RawDay;
use vstd::prelude::*;

verus! {

/// The number of contributions of one day.
#[derive(Clone, Copy, Debug, PartialEq, Eq, Structural)]
pub struct ContributionDay {
    pub date: Date,
    pub count: u64,
}

/// Every entry is dated earlier than all entries behind it.
pub open spec fn strictly_ascending(days: Seq<ContributionDay>) -> bool {
    forall|i: int, j: int| 0 <= i < j < days.len() ==> days[i].date.before(days[j].date)
}

/// Every entry is dated by a day that exists.
pub open spec fn all_valid(days: Seq<ContributionDay>) -> bool {
    forall|i: int| 0 <= i < days.len() ==> (#[trigger] days[i]).date.is_valid()
}

/// Whether some entry of `days` has the date `date`.
pub open spec fn has_date(days: Seq<ContributionDay>, date: Date) -> bool {
    exists|i: int| 0 <= i < days.len() && (#[trigger] days[i]).date == date
}

/// What forbids adding `entry` behind `days`, if anything: its date is no
/// calendar day, its count is negative, its date is already there, or it is
/// not later than the last entry's.
pub open spec fn entry_fault(days: Seq<ContributionDay>, entry: RawDay) -> Option<
    MalformedDetail,
> {
    match parse_iso(entry.date@) {
        None => Some(MalformedDetail::NotADay),
        Some(date) => {
            if entry.count < 0 {
                Some(MalformedDetail::NegativeCount)
            } else if has_date(days, date) {
                Some(MalformedDetail::DuplicateDate)
            } else if days.len() > 0 && !days.last().date.before(date) {
                Some(MalformedDetail::OutOfOrder)
            } else {
                None
            }
        },
    }
}

/// The calendar entry that a faultless raw entry stands for.
pub open spec fn accepted(entry: RawDay) -> ContributionDay {
    ContributionDay { date: parse_iso(entry.date@)->0, count: entry.count as u64 }
}

/// The calendar entries that the raw entries of a page stand for.
pub open spec fn accepted_all(entries: Seq<RawDay>) -> Seq<ContributionDay> {
    Seq::new(entries.len(), |i: int| accepted(entries[i]))
}

/// `days` with the entries of a page added one by one, or the fault of the
/// first entry that cannot be added.
pub open spec fn absorb(days: Seq<ContributionDay>, entries: Seq<RawDay>) -> Result<
    Seq<ContributionDay>,
    MalformedDetail,
>
    decreases entries.len(),
{
    if entries.len() == 0 {
        Ok(days)
    } else {
        match entry_fault(days, entries[0]) {
            Some(detail) => Err(detail),
            None => absorb(days.push(accepted(entries[0])), entries.drop_first()),
        }
    }
}

/// A user's contributions day by day, in chronological order.
#[derive(Debug, PartialEq, Eq)]
pub struct ContributionCalendar {
    days: Vec<ContributionDay>,
}

impl View for ContributionCalendar {
    type V = Seq<ContributionDay>;

    closed spec fn view(&self) -> Seq<ContributionDay> {
        self.days@
    }
}

/// Decides whether some entry of `days` has the date `date`.
fn contains_date(days: &Vec<ContributionDay>, date: Date) -> (found: bool)
    ensures
        found == has_date(days@, date),
{
    let mut i: usize = 0;
    while i < days.len()
        invariant
            i <= days.len(),
            forall|k: int| 0 <= k < i ==> (#[trigger] days@[k]).date != date,
        decreases days.len() - i,
    {
        if days[i].date == date {
            return true;
        }
        i = i + 1;
    }
    false
}

/// Checks one raw entry against the calendar so far and converts it.
fn check_entry(days: &Vec<ContributionDay>, entry: &RawDay) -> (checked: Result<
    ContributionDay,
    MalformedDetail,
>)
    requires
        strictly_ascending(days@),
    ensures
        checked == match entry_fault(days@, *entry) {
            Some(detail) => Err::<ContributionDay, MalformedDetail>(detail),
            None => Ok(accepted(*entry)),
        },
{
    let date = match Date::parse(entry.date.as_str()) {
        None => { return Err(MalformedDetail::NotADay); },
        Some(date) => date,
    };
    if entry.count < 0 {
        return Err(MalformedDetail::NegativeCount);
    }
    let n = days.len();
    if n > 0 && !days[n - 1].date.is_before(&date) {
        if contains_date(days, date) {
            return Err(MalformedDetail::DuplicateDate);
        }
        return Err(MalformedDetail::OutOfOrder);
    }
    proof {
        lemma_later_date_is_new(days@, date);
    }
    Ok(ContributionDay { date, count: entry.count as u64 })
}

impl ContributionCalendar {
    /// What holds of every calendar: the entries are in chronological order
    /// and each is dated by a day that exists.
    #[verifier::type_invariant]
    pub open spec fn wf(&self) -> bool {
        strictly_ascending(self@) && all_valid(self@)
    }

    /// The calendar without entries.
    pub fn new() -> (calendar: ContributionCalendar)
        ensures
            calendar@ == Seq::<ContributionDay>::empty(),
            calendar.wf(),
    {
        ContributionCalendar { days: Vec::new() }
    }

    /// Adds the entries of a page behind those that are there, or changes
    /// nothing and names the fault of the first entry that cannot be added.
    pub fn merge(&mut self, entries: &Vec<RawDay>) -> (merged: Result<(), MalformedDetail>)
        ensures
            final(self).wf(),
            match absorb(old(self)@, entries@) {
                Ok(days) => merged is Ok && final(self)@ == days,
                Err(detail) => merged == Err::<(), MalformedDetail>(detail) && final(self)@ == old(
                    self,
                )@,
            },
    {
        proof {
            use_type_invariant(&*self);
        }
        let ghost before = self.days@;
        let start = self.days.len();
        let mut days: Vec<ContributionDay> = Vec::new();
        std::mem::swap(&mut days, &mut self.days);
        let mut i: usize = 0;
        assert(entries@.subrange(0, entries@.len() as int) == entries@);
        assert(days@.subrange(0, start as int) == before);
        while i < entries.len()
            invariant
                i <= entries.len(),
                strictly_ascending(days@),
                all_valid(days@),
                strictly_ascending(before),
                all_valid(before),
                before == old(self)@,
                start == before.len(),
                days@.len() >= start,
                days@.subrange(0, start as int) == before,
                absorb(before, entries@) == absorb(
                    days@,
                    entries@.subrange(i as int, entries@.len() as int),
                ),
            decreases entries.len() - i,
        {
            let ghost rest = entries@.subrange(i as int, entries@.len() as int);
            assert(rest[0] == entries@[i as int]);
            assert(rest.drop_first() == entries@.subrange(i + 1, entries@.len() as int));
            assert(absorb(days@, rest) == match entry_fault(days@, rest[0]) {
                Some(detail) => Err::<Seq<ContributionDay>, MalformedDetail>(detail),
                None => absorb(days@.push(accepted(rest[0])), rest.drop_first()),
            });
            match check_entry(&days, &entries[i]) {
                Err(detail) => {
                    days.truncate(start);
                    self.days = days;
                    return Err(detail);
                },
                Ok(day) => {
                    proof {
                        lemma_accept_keeps_order(days@, entries@[i as int]);
                    }
                    days.push(day);
                    assert(days@.subrange(0, start as int) == before);
                },
            }
            i = i + 1;
        }
        assert(entries@.subrange(i as int, entries@.len() as int).len() == 0);
        self.days = days;
        Ok(())
    }

    /// The number of days in the calendar.
    pub fn len(&self) -> (n: usize)
        ensures
            n == self@.len(),
    {
        self.days.len()
    }

    /// The entry at `index`, counted from the earliest day.
    pub fn get(&self, index: usize) -> (day: Option<ContributionDay>)
        ensures
            day == if index < self@.len() {
                Some(self@[index as int])
            } else {
                None
            },
    {
        if index < self.days.len() {
            Some(self.days[index])
        } else {
            None
        }
    }

    /// The entries from the earliest day to the latest.
    pub fn days(&self) -> (days: &Vec<ContributionDay>)
        ensures
            days@ == self@,
            self.wf(),
    {
        proof {
            use_type_invariant(self);
        }
        &self.days
    }
}

impl Clone for ContributionCalendar {
    fn clone(&self) -> (copy: ContributionCalendar)
        ensures
            copy@ == self@,
    {
        proof {
            use_type_invariant(self);
        }
        let mut days: Vec<ContributionDay> = Vec::new();
        let mut i: usize = 0;
        while i < self.days.len()
            invariant
                i <= self.days.len(),
                days@ == self.days@.subrange(0, i as int),
            decreases self.days.len() - i,
        {
            days.push(self.days[i]);
            assert(days@ == self.days@.subrange(0, i + 1));
            i = i + 1;
        }
        assert(days@ == self.days@);
        ContributionCalendar { days }
    }
}

/// An ordered calendar without a day before or at `date` up to its last
/// entry holds no entry of that date.
proof fn lemma_later_date_is_new(days: Seq<ContributionDay>, date: Date)
    requires
        strictly_ascending(days),
        days.len() > 0 ==> days.last().date.before(date),
    ensures
        !has_date(days, date),
{
    if has_date(days, date) {
        let i = choose|i: int| 0 <= i < days.len() && (#[trigger] days[i]).date == date;
        if i < days.len() - 1 {
            assert(days[i].date.before(days[days.len() - 1].date));
        }
    }
}

/// Adding a faultless entry keeps the calendar ordered and valid.
proof fn lemma_accept_keeps_order(days: Seq<ContributionDay>, entry: RawDay)
    requires
        strictly_ascending(days),
        all_valid(days),
        entry_fault(days, entry) is None,
    ensures
        strictly_ascending(days.push(accepted(entry))),
        all_valid(days.push(accepted(entry))),
{
    let grown = days.push(accepted(entry));
    crate::date::law_text_inverts_parse(entry.date@);
    assert forall|i: int, j: int| 0 <= i < j < grown.len() implies grown[i].date.before(
        grown[j].date,
    ) by {
        if j < days.len() {
            assert(days[i].date.before(days[j].date));
        } else if i < days.len() - 1 {
            assert(days[i].date.before(days[days.len() - 1].date));
        }
    }
    assert forall|i: int| 0 <= i < grown.len() implies (#[trigger] grown[i]).date.is_valid() by {
        if i < days.len() {
            assert(days[i].date.is_valid());
        }
    }
}

/// A calendar in chronological order holds no date twice.
pub proof fn law_ascending_has_no_duplicates(days: Seq<ContributionDay>, i: int, j: int)
    requires
        strictly_ascending(days),
        0 <= i < days.len(),
        0 <= j < days.len(),
        i != j,
    ensures
        days[i].date != days[j].date,
{
    if i < j {
        assert(days[i].date.before(days[j].date));
    } else {
        assert(days[j].date.before(days[i].date));
    }
}

/// A page that is merged leaves what was there in place, adds one entry for
/// each of its own in the order it gave them, and the whole stays in
/// chronological order with every date valid.
pub proof fn law_absorb_appends_in_order(days: Seq<ContributionDay>, entries: Seq<RawDay>)
    requires
        strictly_ascending(days),
        all_valid(days),
        absorb(days, entries) is Ok,
    ensures
        absorb(days, entries)->Ok_0 == days + accepted_all(entries),
        strictly_ascending(absorb(days, entries)->Ok_0),
        all_valid(absorb(days, entries)->Ok_0),
    decreases entries.len(),
{
    let mapped = accepted_all(entries);
    if entries.len() == 0 {
        assert(days + mapped =~= days);
    } else {
        let grown = days.push(accepted(entries[0]));
        let rest = entries.drop_first();
        lemma_accept_keeps_order(days, entries[0]);
        law_absorb_appends_in_order(grown, rest);
        assert(grown + accepted_all(rest) =~= days + mapped);
    }
}

/// A page is merged whenever each of its entries is dated by a calendar day
/// and has a count of zero or more, and its entries, put behind what was
/// there, leave the whole in chronological order.
pub proof fn law_absorb_accepts_valid_pages(days: Seq<ContributionDay>, entries: Seq<RawDay>)
    requires
        strictly_ascending(days),
        forall|k: int|
            0 <= k < entries.len() ==> parse_iso((#[trigger] entries[k]).date@) is Some
                && entries[k].count >= 0,
        strictly_ascending(days + accepted_all(entries)),
    ensures
        absorb(days, entries) is Ok,
    decreases entries.len(),
{
    let mapped = accepted_all(entries);
    let whole = days + mapped;
    if entries.len() > 0 {
        let first = accepted(entries[0]);
        let grown = days.push(first);
        let rest = entries.drop_first();
        assert(whole[days.len() as int] == first);
        if days.len() > 0 {
            assert(whole[days.len() - 1].date.before(whole[days.len() as int].date));
            assert(whole[days.len() - 1] == days.last());
        }
        lemma_later_date_is_new(days, first.date);
        assert(entry_fault(days, entries[0]) is None);
        assert(grown + accepted_all(rest) =~= whole);
        assert(strictly_ascending(grown)) by {
            assert forall|i: int, j: int| 0 <= i < j < grown.len() implies grown[i].date.before(
                grown[j].date,
            ) by {
                assert(whole[i] == grown[i]);
                assert(whole[j] == grown[j]);
            }
        }
        assert forall|k: int| 0 <= k < rest.len() implies parse_iso(
            (#[trigger] rest[k]).date@,
        ) is Some && rest[k].count >= 0 by {
            assert(rest[k] == entries[k + 1]);
        }
        law_absorb_accepts_valid_pages(grown, rest);
    }
}

} // verus!
