//! Interests: the sections they are shown in for a user, their details, and the
//! statistics of the statuses users gave them.

use vstd::prelude::*;
use vstd::string::*;
use crate::error::{NarodenError, NarodenResult};

verus! {

/// An interest as stored; `id` is the key of its record.
#[derive(Debug)]
pub struct DbInterest {
    pub id: String,
    pub name: String,
    pub description: String,
    pub default_status: i32,
}

/// A status a user gave to the interest whose key is `out`.
#[derive(Debug)]
pub struct DbHasInterest {
    pub out: String,
    pub status: i32,
}

/// How many users gave an interest a status.
#[derive(Debug)]
pub struct DbInterestStatistics {
    pub count: i32,
    pub status: i32,
}

/// An interest as listed to a user.
#[derive(Debug)]
pub struct Interest {
    pub id: String,
    pub name: String,
    pub section: String,
}

/// The interests listed to a user.
#[derive(Debug)]
pub struct GetInterests {
    pub interests: Vec<Interest>,
}

/// A new status for an interest.
#[derive(Debug)]
pub struct PatchInterestRequest {
    pub status: i32,
}

/// How many users hold an interest forbidden, allowed and favourite.
#[derive(Debug)]
pub struct Statistics {
    pub section: String,
    pub favourite: i32,
    pub forbidden: i32,
    pub allowed: i32,
}

/// The details of an interest for a user.
#[derive(Debug)]
pub struct GetInterest {
    pub stats: Vec<Statistics>,
    pub status: i32,
    pub name: String,
    pub description: String,
}

/// Status of a forbidden interest.
pub const STATUS_FORBIDDEN: i32 = 0;

/// Status of an allowed interest.
pub const STATUS_ALLOWED: i32 = 1;

/// Status of a favourite interest.
pub const STATUS_FAVOURITE: i32 = 2;

/// The section an interest with `status` is listed under.
pub open spec fn section_of(status: i32) -> Seq<char> {
    if status == 0 {
        "Забранени"@
    } else if status == 1 {
        "Позволени"@
    } else if status == 2 {
        "Любими"@
    } else {
        "Други"@
    }
}

/// The section an interest with `status` is listed under.
pub fn status_to_section(status: i32) -> (section: String)
    ensures
        section@ == section_of(status),
{
    if status == STATUS_FORBIDDEN {
        String::from_str("Забранени")
    } else if status == STATUS_ALLOWED {
        String::from_str("Позволени")
    } else if status == STATUS_FAVOURITE {
        String::from_str("Любими")
    } else {
        String::from_str("Други")
    }
}

/// The status that the last of `relations` about the interest `id` gives it.
pub open spec fn latest_status(relations: Seq<DbHasInterest>, id: Seq<char>) -> Option<i32>
    decreases relations.len(),
{
    if relations.len() == 0 {
        None
    } else if relations.last().out@ == id {
        Some(relations.last().status)
    } else {
        latest_status(relations.drop_last(), id)
    }
}

/// The section of an interest for a user: the one of the status the user last
/// gave it, or else the one of its default status.
pub open spec fn interest_section(interest: DbInterest, relations: Seq<DbHasInterest>) -> Seq<char> {
    match latest_status(relations, interest.id@) {
        Some(status) => section_of(status),
        None => section_of(interest.default_status),
    }
}

fn find_latest_status(relations: &Vec<DbHasInterest>, id: &String) -> (status: Option<i32>)
    ensures
        status == latest_status(relations@, id@),
        status is None <==> forall|k: int| 0 <= k < relations@.len() ==> #[trigger] relations@[k].out@ != id@,
        forall|k: int|
            0 <= k < relations@.len() && #[trigger] relations@[k].out@ == id@ && (forall|j: int|
                k < j < relations@.len() ==> relations@[j].out@ != id@) ==> status == Some(
                relations@[k].status,
            ),
{
    proof {
        lemma_latest_status_is_last_relation(relations@, id@);
    }
    let mut i: usize = relations.len();
    assert(relations@.subrange(0, relations@.len() as int) =~= relations@);
    while i > 0
        invariant
            i <= relations@.len(),
            latest_status(relations@, id@) == latest_status(relations@.subrange(0, i as int), id@),
        decreases i,
    {
        assert(relations@.subrange(0, i as int).drop_last() =~= relations@.subrange(0, i - 1));
        if relations[i - 1].out == *id {
            proof {
                lemma_latest_status_is_last_relation(relations@, id@);
            }
            return Some(relations[i - 1].status);
        }
        i = i - 1;
    }
    None
}

/// The interests listed to a user, in order, each under its section for the user
/// (see `interest_section`); `relations` are the statuses the user gave, in the
/// order they were read.
pub fn create_interests_response(interests: &Vec<DbInterest>, relations: &Vec<DbHasInterest>) -> (response: GetInterests)
    ensures
        response.interests@.len() == interests@.len(),
        forall|i: int|
            0 <= i < interests@.len() ==> {
                &&& #[trigger] response.interests@[i].id == interests@[i].id
                &&& response.interests@[i].name == interests@[i].name
                &&& response.interests@[i].section@ == interest_section(interests@[i], relations@)
            },
{
    let mut response_interests: Vec<Interest> = Vec::new();
    let mut i: usize = 0;
    while i < interests.len()
        invariant
            i <= interests@.len(),
            response_interests@.len() == i,
            forall|j: int|
                0 <= j < i ==> {
                    &&& #[trigger] response_interests@[j].id == interests@[j].id
                    &&& response_interests@[j].name == interests@[j].name
                    &&& response_interests@[j].section@ == interest_section(
                        interests@[j],
                        relations@,
                    )
                },
        decreases interests@.len() - i,
    {
        let interest = &interests[i];
        let section = match find_latest_status(relations, &interest.id) {
            Some(status) => status_to_section(status),
            None => status_to_section(interest.default_status),
        };
        response_interests.push(
            Interest { id: interest.id.clone(), name: interest.name.clone(), section },
        );
        assert(response_interests@[i as int].section@ == interest_section(interests@[i as int], relations@));
        i = i + 1;
    }
    GetInterests { interests: response_interests }
}

/// Whether `listed` lists `interests`, in order, each under its section for the user.
pub open spec fn lists_interests(listed: Seq<Interest>, interests: Seq<DbInterest>, relations: Seq<DbHasInterest>) -> bool {
    &&& listed.len() == interests.len()
    &&& forall|i: int|
        0 <= i < interests.len() ==> {
            &&& #[trigger] listed[i].id == interests[i].id
            &&& listed[i].name == interests[i].name
            &&& listed[i].section@ == interest_section(interests[i], relations)
        }
}

/// The interest list, or a general error when the interests could not be read.
pub fn interests_response(interests: &Option<Vec<DbInterest>>, relations: &Vec<DbHasInterest>) -> (res: NarodenResult<GetInterests>)
    ensures
        match *interests {
            None => res matches Err(e) && e == NarodenError::GeneralError,
            Some(list) => res matches Ok(r) && lists_interests(r.interests@, list@, relations@),
        },
{
    match interests {
        None => Err(NarodenError::GeneralError),
        Some(list) => Ok(create_interests_response(list, relations)),
    }
}

/// The count that the last of `statistics` with `status` reports, or 0 when none does.
pub open spec fn reported_count(statistics: Seq<DbInterestStatistics>, status: i32) -> i32
    decreases statistics.len(),
{
    if statistics.len() == 0 {
        0
    } else if statistics.last().status == status {
        statistics.last().count
    } else {
        reported_count(statistics.drop_last(), status)
    }
}

/// Whether no row of `statistics` reports `status`.
pub open spec fn unreported(statistics: Seq<DbInterestStatistics>, status: i32) -> bool {
    forall|k: int| 0 <= k < statistics.len() ==> #[trigger] statistics[k].status != status
}

/// The totals over all users: for each of the forbidden, allowed and favourite
/// statuses, the count reported for it; 0 for a status no row reports.
pub fn all_users_statistics(statistics: &Vec<DbInterestStatistics>) -> (total: Statistics)
    ensures
        total.section@ == "Всички потребители"@,
        total.forbidden == reported_count(statistics@, STATUS_FORBIDDEN),
        total.allowed == reported_count(statistics@, STATUS_ALLOWED),
        total.favourite == reported_count(statistics@, STATUS_FAVOURITE),
        unreported(statistics@, STATUS_FORBIDDEN) ==> total.forbidden == 0,
        unreported(statistics@, STATUS_ALLOWED) ==> total.allowed == 0,
        unreported(statistics@, STATUS_FAVOURITE) ==> total.favourite == 0,
{
    proof {
        lemma_reported_count_is_last_row(statistics@, STATUS_FORBIDDEN);
        lemma_reported_count_is_last_row(statistics@, STATUS_ALLOWED);
        lemma_reported_count_is_last_row(statistics@, STATUS_FAVOURITE);
    }
    let mut total = Statistics {
        section: String::from_str("Всички потребители"),
        favourite: 0,
        forbidden: 0,
        allowed: 0,
    };
    let mut i: usize = 0;
    while i < statistics.len()
        invariant
            i <= statistics@.len(),
            total.section@ == "Всички потребители"@,
            total.forbidden == reported_count(statistics@.subrange(0, i as int), STATUS_FORBIDDEN),
            total.allowed == reported_count(statistics@.subrange(0, i as int), STATUS_ALLOWED),
            total.favourite == reported_count(statistics@.subrange(0, i as int), STATUS_FAVOURITE),
        decreases statistics@.len() - i,
    {
        assert(statistics@.subrange(0, i + 1).drop_last() =~= statistics@.subrange(0, i as int));
        let statistic = &statistics[i];
        if statistic.status == STATUS_FORBIDDEN {
            total.forbidden = statistic.count;
        } else if statistic.status == STATUS_ALLOWED {
            total.allowed = statistic.count;
        } else if statistic.status == STATUS_FAVOURITE {
            total.favourite = statistic.count;
        }
        i = i + 1;
    }
    assert(statistics@.subrange(0, statistics@.len() as int) =~= statistics@);
    total
}

/// The details of an interest for a user: its status is the one the user gave it,
/// or else its default; the statistics are the totals over all users.
pub fn interest_details(interest: DbInterest, user_status: Option<i32>, statistics: &Vec<DbInterestStatistics>) -> (details: GetInterest)
    ensures
        details.status == match user_status {
            Some(s) => s,
            None => interest.default_status,
        },
        details.name == interest.name,
        details.description == interest.description,
        details.stats@.len() == 1,
        details.stats@[0].section@ == "Всички потребители"@,
        details.stats@[0].forbidden == reported_count(statistics@, STATUS_FORBIDDEN),
        details.stats@[0].allowed == reported_count(statistics@, STATUS_ALLOWED),
        details.stats@[0].favourite == reported_count(statistics@, STATUS_FAVOURITE),
{
    let status = match user_status {
        Some(s) => s,
        None => interest.default_status,
    };
    let total = all_users_statistics(statistics);
    let mut stats: Vec<Statistics> = Vec::new();
    stats.push(total);
    GetInterest { stats, status, name: interest.name, description: interest.description }
}

/// The details of an interest, or a general error when it does not exist.
pub fn interest_details_response(interest: Option<DbInterest>, user_status: Option<i32>, statistics: &Vec<DbInterestStatistics>) -> (res: NarodenResult<GetInterest>)
    ensures
        match interest {
            None => res matches Err(e) && e == NarodenError::GeneralError,
            Some(it) => res matches Ok(d) && d.name == it.name && d.description == it.description
                && d.status == (match user_status {
                Some(s) => s,
                None => it.default_status,
            }) && d.stats@.len() == 1 && d.stats@[0].section@ == "Всички потребители"@
                && d.stats@[0].forbidden == reported_count(statistics@, STATUS_FORBIDDEN)
                && d.stats@[0].allowed == reported_count(statistics@, STATUS_ALLOWED)
                && d.stats@[0].favourite == reported_count(statistics@, STATUS_FAVOURITE),
        },
{
    match interest {
        None => Err(NarodenError::GeneralError),
        Some(it) => Ok(interest_details(it, user_status, statistics)),
    }
}

/// The section status of an interest is found by its relations alone: with no
/// relation naming the interest there is none; otherwise it is the status of the
/// last relation naming it, wherever that relation stands.
pub proof fn lemma_latest_status_is_last_relation(relations: Seq<DbHasInterest>, id: Seq<char>)
    ensures
        latest_status(relations, id) is None <==> forall|k: int|
            0 <= k < relations.len() ==> #[trigger] relations[k].out@ != id,
        forall|k: int|
            0 <= k < relations.len() && #[trigger] relations[k].out@ == id && (forall|j: int|
                k < j < relations.len() ==> relations[j].out@ != id) ==> latest_status(relations, id)
                == Some(relations[k].status),
    decreases relations.len(),
{
    if relations.len() > 0 {
        let rest = relations.drop_last();
        lemma_latest_status_is_last_relation(rest, id);
        assert forall|k: int| 0 <= k < rest.len() implies #[trigger] rest[k] == relations[k] by {}
        assert(relations.last() == relations[relations.len() - 1]);
        if latest_status(relations, id) is None {
            assert(relations[relations.len() - 1].out@ != id);
            assert forall|k: int| 0 <= k < relations.len() implies #[trigger] relations[k].out@
                != id by {
                if k < relations.len() - 1 {
                    assert(rest[k] == relations[k]);
                }
            }
        }
        if forall|k: int| 0 <= k < relations.len() ==> #[trigger] relations[k].out@ != id {
            assert(relations[relations.len() - 1].out@ != id);
            assert forall|k: int| 0 <= k < rest.len() implies #[trigger] rest[k].out@ != id by {
                assert(rest[k] == relations[k]);
            }
        }
        if relations.last().out@ != id {
            assert forall|k: int|
                0 <= k < relations.len() && #[trigger] relations[k].out@ == id && (forall|j: int|
                    k < j < relations.len() ==> relations[j].out@ != id) implies latest_status(
                relations,
                id,
            ) == Some(relations[k].status) by {
                assert(k < relations.len() - 1);
                assert(rest[k] == relations[k]);
                assert forall|j: int| k < j < rest.len() implies rest[j].out@ != id by {
                    assert(rest[j] == relations[j]);
                }
            }
        } else {
            assert forall|k: int|
                0 <= k < relations.len() && #[trigger] relations[k].out@ == id && (forall|j: int|
                    k < j < relations.len() ==> relations[j].out@ != id) implies latest_status(
                relations,
                id,
            ) == Some(relations[k].status) by {
                if k < relations.len() - 1 {
                    assert(relations[relations.len() - 1].out@ != id);
                }
            }
            assert(relations[relations.len() - 1].out@ == id);
        }
    }
}

/// An interest named by some of the user's relations is shown under the section of
/// the status in the last relation naming it, wherever that relation stands in the list.
pub proof fn lemma_section_follows_last_relation(interest: DbInterest, relations: Seq<DbHasInterest>, k: int)
    requires
        0 <= k < relations.len(),
        relations[k].out@ == interest.id@,
        forall|j: int| k < j < relations.len() ==> #[trigger] relations[j].out@ != interest.id@,
    ensures
        interest_section(interest, relations) == section_of(relations[k].status),
{
    lemma_latest_status_is_last_relation(relations, interest.id@);
}

/// An interest that none of the user's relations names is shown under the section
/// of its default status.
pub proof fn lemma_default_section_without_relation(interest: DbInterest, relations: Seq<DbHasInterest>)
    requires
        forall|k: int| 0 <= k < relations.len() ==> #[trigger] relations[k].out@ != interest.id@,
    ensures
        interest_section(interest, relations) == section_of(interest.default_status),
{
    lemma_latest_status_is_last_relation(relations, interest.id@);
}

/// The total for a status is 0 when no row reports that status, and otherwise the
/// count of the last row reporting it, wherever that row stands.
pub proof fn lemma_reported_count_is_last_row(statistics: Seq<DbInterestStatistics>, status: i32)
    ensures
        unreported(statistics, status) ==> reported_count(statistics, status) == 0,
        forall|k: int|
            0 <= k < statistics.len() && #[trigger] statistics[k].status == status && (forall|j: int|
                k < j < statistics.len() ==> statistics[j].status != status) ==> reported_count(
                statistics,
                status,
            ) == statistics[k].count,
    decreases statistics.len(),
{
    if statistics.len() > 0 {
        let rest = statistics.drop_last();
        lemma_reported_count_is_last_row(rest, status);
        assert forall|k: int| 0 <= k < rest.len() implies #[trigger] rest[k] == statistics[k] by {}
        if unreported(statistics, status) {
            assert(statistics[statistics.len() - 1].status != status);
            assert(unreported(rest, status));
        }
        if statistics.last().status != status {
            assert forall|k: int|
                0 <= k < statistics.len() && #[trigger] statistics[k].status == status && (forall|
                    j: int,
                | k < j < statistics.len() ==> statistics[j].status != status) implies reported_count(
                statistics,
                status,
            ) == statistics[k].count by {
                assert(k < statistics.len() - 1);
                assert(rest[k] == statistics[k]);
                assert forall|j: int| k < j < rest.len() implies rest[j].status != status by {
                    assert(rest[j] == statistics[j]);
                }
            }
        } else {
            assert forall|k: int|
                0 <= k < statistics.len() && #[trigger] statistics[k].status == status && (forall|
                    j: int,
                | k < j < statistics.len() ==> statistics[j].status != status) implies reported_count(
                statistics,
                status,
            ) == statistics[k].count by {
                if k < statistics.len() - 1 {
                    assert(statistics[statistics.len() - 1].status != status);
                }
            }
        }
    }
}

proof fn lemma_reported_count_unique(statistics: Seq<DbInterestStatistics>, k: int)
    requires
        0 <= k < statistics.len(),
        forall|j: int|
            0 <= j < statistics.len() && j != k ==> #[trigger] statistics[j].status
                != statistics[k].status,
    ensures
        reported_count(statistics, statistics[k].status) == statistics[k].count,
    decreases statistics.len(),
{
    if k != statistics.len() - 1 {
        let rest = statistics.drop_last();
        assert(statistics[statistics.len() - 1].status != statistics[k].status);
        assert forall|j: int| 0 <= j < rest.len() && j != k implies #[trigger] rest[j].status
            != rest[k].status by {
            assert(rest[j] == statistics[j]);
        }
        lemma_reported_count_unique(rest, k);
    }
}

/// When each status is reported once (as a grouped count is), the totals show the
/// count reported for each status.
pub proof fn lemma_statistics_show_reported_counts(statistics: Seq<DbInterestStatistics>, k: int)
    requires
        0 <= k < statistics.len(),
        forall|i: int, j: int|
            0 <= i < statistics.len() && 0 <= j < statistics.len() && i != j ==> #[trigger] statistics[i].status
                != #[trigger] statistics[j].status,
    ensures
        reported_count(statistics, statistics[k].status) == statistics[k].count,
{
    assert forall|j: int|
        0 <= j < statistics.len() && j != k implies #[trigger] statistics[j].status
        != statistics[k].status by {}
    lemma_reported_count_unique(statistics, k);
}

/// A status the user gave overrides the default: the section follows the status
/// the user gave last to the interest.
pub proof fn lemma_user_status_overrides_default(interest: DbInterest, relations: Seq<DbHasInterest>, relation: DbHasInterest)
    requires
        relation.out@ == interest.id@,
    ensures
        interest_section(interest, relations.push(relation)) == section_of(relation.status),
{
    assert(relations.push(relation).drop_last() =~= relations);
}

/// Each status is listed under a section of its own; every unknown status is
/// listed under the same "other" section.
pub proof fn lemma_sections_distinguish_statuses(a: i32, b: i32)
    requires
        0 <= a <= 2,
        a != b,
    ensures
        section_of(a) != section_of(b),
{
    reveal_strlit("Забранени");
    reveal_strlit("Позволени");
    reveal_strlit("Любими");
    reveal_strlit("Други");
    assert(section_of(a)[0] != section_of(b)[0] || section_of(a).len() != section_of(b).len());
}

} // verus!
