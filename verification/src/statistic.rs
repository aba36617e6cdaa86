//! The coverage statistics: new users per day, as running totals.

use vstd::prelude::*;
use vstd::string::*;
use crate::text::{decimal_string, i32_to_string};

verus! {

/// New users of one day.
#[derive(Debug)]
pub struct DbStatistic {
    pub description: String,
    pub value: i32,
}

/// A figure as answered: its label and its value as text.
#[derive(Debug)]
pub struct Statistic {
    pub description: String,
    pub value: String,
}

/// The statistics answered: headline figures and the running totals of new users.
#[derive(Debug)]
pub struct GetStatistics {
    pub stats: Vec<Statistic>,
    pub new_users: Vec<Statistic>,
}

/// The sum of the first `k` daily counts.
pub open spec fn running_total(daily: Seq<DbStatistic>, k: int) -> int
    decreases k,
{
    if k <= 0 {
        0
    } else {
        running_total(daily, k - 1) + daily[k - 1].value
    }
}

/// Whether `v` is a value of `i32`.
pub open spec fn fits_i32(v: int) -> bool {
    i32::MIN <= v <= i32::MAX
}

/// Whether every running total of `daily` is a value of `i32`.
pub open spec fn totals_fit(daily: Seq<DbStatistic>) -> bool {
    forall|k: int| 1 <= k <= daily.len() ==> fits_i32(#[trigger] running_total(daily, k))
}

/// The statistics for the daily counts of new users, oldest first: the figure for
/// each day is the running total up to that day, and the headline figure is the
/// count of the last day. There must be at least one day. `None` when a running
/// total leaves `i32`.
pub fn build_statistics(daily: &Vec<DbStatistic>) -> (res: Option<GetStatistics>)
    requires
        daily@.len() > 0,
    ensures
        res is None <==> !totals_fit(daily@),
        res matches Some(r) ==> {
            &&& r.new_users@.len() == daily@.len()
            &&& forall|i: int|
                0 <= i < daily@.len() ==> {
                    &&& #[trigger] r.new_users@[i].description == daily@[i].description
                    &&& r.new_users@[i].value@ == decimal_string(running_total(daily@, i + 1))
                }
            &&& r.stats@.len() == 1
            &&& r.stats@[0].description@ == "Нови за днес"@
            &&& r.stats@[0].value@ == decimal_string(daily@.last().value as int)
        },
{
    let mut new_users: Vec<Statistic> = Vec::new();
    let mut total: i32 = 0;
    let mut i: usize = 0;
    while i < daily.len()
        invariant
            i <= daily@.len(),
            total == running_total(daily@, i as int),
            forall|k: int| 1 <= k <= i ==> fits_i32(#[trigger] running_total(daily@, k)),
            new_users@.len() == i,
            forall|j: int|
                0 <= j < i ==> {
                    &&& #[trigger] new_users@[j].description == daily@[j].description
                    &&& new_users@[j].value@ == decimal_string(running_total(daily@, j + 1))
                },
        decreases daily@.len() - i,
    {
        let statistic = &daily[i];
        let next = total.checked_add(statistic.value);
        match next {
            None => {
                assert(!fits_i32(running_total(daily@, i + 1)));
                return None;
            },
            Some(t) => {
                total = t;
            },
        }
        new_users.push(
            Statistic {
                description: statistic.description.clone(),
                value: i32_to_string(total),
            },
        );
        i = i + 1;
    }
    let last = &daily[daily.len() - 1];
    let mut stats: Vec<Statistic> = Vec::new();
    stats.push(
        Statistic { description: String::from_str("Нови за днес"), value: i32_to_string(last.value) },
    );
    Some(GetStatistics { stats, new_users })
}

/// With no negative daily count, running totals never decrease from day to day.
pub proof fn lemma_running_totals_grow(daily: Seq<DbStatistic>, i: int, j: int)
    requires
        forall|k: int| 0 <= k < daily.len() ==> #[trigger] daily[k].value >= 0,
        0 <= i <= j <= daily.len(),
    ensures
        running_total(daily, i) <= running_total(daily, j),
    decreases j - i,
{
    if i < j {
        lemma_running_totals_grow(daily, i, j - 1);
        assert(daily[j - 1].value >= 0);
    }
}

} // verus!
