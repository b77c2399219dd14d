//! The normalized contribution-calendar data model, and the flattening of
//! the upstream week-by-week shape into one chronological series.

use vstd::prelude::*;

verus! {

/// One day of the contribution calendar: an ISO-8601 date string and the
/// number of contributions made on that day. Immutable once constructed.
#[derive(Debug, PartialEq, Eq)]
pub struct ContributionDay {
    pub contribution_count: i64,
    pub date: String,
}

impl Clone for ContributionDay {
    /// A clone is equal to the original, field for field.
    fn clone(&self) -> (res: Self)
        ensures
            res == *self,
    {
        ContributionDay { contribution_count: self.contribution_count, date: self.date.clone() }
    }
}

/// One week of the calendar, as the upstream source groups days.
#[derive(Debug, PartialEq, Eq)]
pub struct Week {
    pub contribution_days: Vec<ContributionDay>,
}

/// The calendar itself: a grand total and the weeks it is split into.
#[derive(Debug, PartialEq, Eq)]
pub struct ContributionCalendar {
    pub total_contributions: i64,
    pub weeks: Vec<Week>,
}

/// The collection wrapper around the calendar in the upstream shape.
#[derive(Debug, PartialEq, Eq)]
pub struct ContributionsCollection {
    pub contribution_calendar: ContributionCalendar,
}

/// The queried user in the upstream shape.
#[derive(Debug, PartialEq, Eq)]
pub struct User {
    pub contributions_collection: ContributionsCollection,
}

/// The `data` envelope of the upstream shape.
#[derive(Debug, PartialEq, Eq)]
pub struct Data {
    pub user: User,
}

/// The full success shape of the upstream response, already decoded from
/// JSON into plain values.
#[derive(Debug, PartialEq, Eq)]
pub struct GithubContributionsResponse {
    pub data: Data,
}

/// The chronological series that a sequence of weeks flattens to: the days
/// of each week in order, week after week.
pub open spec fn flattened_weeks(weeks: Seq<Week>) -> Seq<ContributionDay>
    decreases weeks.len(),
{
    if weeks.len() == 0 {
        Seq::empty()
    } else {
        flattened_weeks(weeks.drop_last()) + weeks.last().contribution_days@
    }
}

/// Flattens a week-grouped calendar into one chronological series of days.
pub fn flatten_weeks(weeks: &Vec<Week>) -> (r: Vec<ContributionDay>)
    ensures
        r@ == flattened_weeks(weeks@),
{
    let mut r: Vec<ContributionDay> = Vec::new();
    let mut i: usize = 0;
    while i < weeks.len()
        invariant
            i <= weeks.len(),
            r@ == flattened_weeks(weeks@.take(i as int)),
        decreases weeks.len() - i,
    {
        let days = &weeks[i].contribution_days;
        let mut j: usize = 0;
        while j < days.len()
            invariant
                i < weeks.len(),
                j <= days.len(),
                days == &weeks[i as int].contribution_days,
                r@ == flattened_weeks(weeks@.take(i as int))
                    + weeks@[i as int].contribution_days@.take(j as int),
            decreases days.len() - j,
        {
            r.push(days[j].clone());
            proof {
                let ds = weeks@[i as int].contribution_days@;
                assert(ds.take(j as int + 1) =~= ds.take(j as int).push(ds[j as int]));
                assert(flattened_weeks(weeks@.take(i as int)) + ds.take(j as int + 1)
                    =~= (flattened_weeks(weeks@.take(i as int)) + ds.take(j as int)).push(
                    ds[j as int]));
            }
            j += 1;
        }
        proof {
            let ds = weeks@[i as int].contribution_days@;
            assert(ds.take(days@.len() as int) =~= ds);
            assert(weeks@.take(i as int + 1).drop_last() =~= weeks@.take(i as int));
            assert(weeks@.take(i as int + 1).last() == weeks@[i as int]);
        }
        i += 1;
    }
    proof {
        assert(weeks@.take(weeks@.len() as int) =~= weeks@);
    }
    r
}

/// Flattens the decoded upstream response into the chronological series the
/// service serves: each week's days in order, week after week.
pub fn flatten_response(response: &GithubContributionsResponse) -> (r: Vec<ContributionDay>)
    ensures
        r@ == flattened_weeks(
            response.data.user.contributions_collection.contribution_calendar.weeks@,
        ),
{
    flatten_weeks(&response.data.user.contributions_collection.contribution_calendar.weeks)
}

} // verus!
