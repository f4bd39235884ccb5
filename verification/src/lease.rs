//! What the requests of the mutex do to a lease, under the table's rule for
//! conditional writes.
//!
//! The table decides each request on the item as it stands (`store`), one
//! request after another for a given key. The laws here follow a lease through
//! the requests that `lock_at` and `unlock_at` build.

use vstd::prelude::*;
use crate::attribute::{AttributeText, Attributes};
use crate::decimal::{lemma_decimal_reads_back, lemma_decimal_reads_back_unsigned, number_bound};
use crate::error::DynamoDbMutexError;
use crate::expression::{
    assigned, at_most, equal_values, lemma_column_names_differ, lemma_placeholder_names_differ,
    Column, Condition, Placeholder,
};
use crate::mutex::{
    lease_update, lock_outcome, readable, unlock_outcome, DynamoDbMutexResult, Settings,
};
use crate::request::UpdateItemAnswer;
use crate::status::{lemma_name_round_trip, DynamoDbMutexStatus};
use crate::store::{accepts, answer, item_after};

verus! {

/// The item holds a lease in `status` since the time `updated_at`.
pub open spec fn holds_lease(item: Attributes, status: DynamoDbMutexStatus, updated_at: int)
    -> bool {
    &&& item.contains_key(Column::MutexStatus.name())
    &&& item[Column::MutexStatus.name()] == AttributeText::string(status.name())
    &&& item.contains_key(Column::UpdatedAt.name())
    &&& item[Column::UpdatedAt.name()] == AttributeText::number(updated_at)
}

/// The key's item holds a lease in `status` since the time `updated_at`.
pub open spec fn leased(item: Option<Attributes>, status: DynamoDbMutexStatus, updated_at: int)
    -> bool {
    match item {
        Some(attributes) => holds_lease(attributes, status, updated_at),
        None => false,
    }
}

/// The key has never been locked: there is no item under it, or one without a
/// status.
pub open spec fn unleased(item: Option<Attributes>) -> bool {
    match item {
        Some(attributes) => !attributes.contains_key(Column::MutexStatus.name()),
        None => true,
    }
}

/// The items after each of the requests of `lock` at the given times, made in
/// that order on `item`; the first entry is `item` itself.
pub open spec fn items_through(
    settings: Settings,
    mutex_code: Seq<char>,
    item: Option<Attributes>,
    times: Seq<i64>,
) -> Seq<Option<Attributes>>
    decreases times.len(),
{
    if times.len() == 0 {
        seq![item]
    } else {
        let earlier = items_through(settings, mutex_code, item, times.drop_last());
        earlier.push(
            item_after(earlier.last(), settings.lock_request(mutex_code, times.last() as int)),
        )
    }
}

/// What each of those requests of `lock` brings its caller.
pub open spec fn outcomes_through(
    settings: Settings,
    mutex_code: Seq<char>,
    item: Option<Attributes>,
    times: Seq<i64>,
) -> Seq<Result<DynamoDbMutexResult, DynamoDbMutexError>> {
    Seq::new(
        times.len(),
        |i: int|
            lock_outcome(
                answer(
                    items_through(settings, mutex_code, item, times)[i],
                    settings.lock_request(mutex_code, times[i] as int),
                ),
            ),
    )
}

/// No two statuses share a name.
proof fn lemma_status_names_differ(a: DynamoDbMutexStatus, b: DynamoDbMutexStatus)
    ensures
        a.name() == b.name() ==> a == b,
{
    lemma_name_round_trip(a);
    lemma_name_round_trip(b);
}

/// The names of the placeholders, of the attributes and of the statuses are
/// each pairwise different.
proof fn lemma_names_differ()
    ensures
        forall|a: Placeholder, b: Placeholder| #[trigger] a.name() == #[trigger] b.name() ==> a == b,
        forall|a: Column, b: Column| #[trigger] a.name() == #[trigger] b.name() ==> a == b,
        forall|a: DynamoDbMutexStatus, b: DynamoDbMutexStatus| #[trigger]
            a.name() == #[trigger] b.name() ==> a == b,
{
    assert forall|a: Placeholder, b: Placeholder| #[trigger] a.name() == #[trigger] b.name() implies a
        == b by {
        lemma_placeholder_names_differ(a, b);
    }
    assert forall|a: Column, b: Column| #[trigger] a.name() == #[trigger] b.name() implies a == b by {
        lemma_column_names_differ(a, b);
    }
    assert forall|a: DynamoDbMutexStatus, b: DynamoDbMutexStatus| #[trigger]
        a.name() == #[trigger] b.name() implies a == b by {
        lemma_status_names_differ(a, b);
    }
}

/// What the update of both requests makes of an item.
proof fn lemma_lease_assigned(item: Attributes, values: Attributes)
    ensures
        assigned(item, lease_update(), values) == item.insert(
            Column::MutexStatus.name(),
            values[Placeholder::UpdateStatus.name()],
        ).insert(Column::UpdatedAt.name(), values[Placeholder::Now.name()]),
{
    let update = lease_update();
    let first = update.drop_last();
    assert(first.len() == 1);
    assert(first.drop_last().len() == 0);
    assert(assigned(item, first.drop_last(), values) == item);
    assert(first.last() == update[0]);
    assert(update.last() == update[1]);
    reveal_with_fuel(assigned, 3);
}

/// A string equals the name of a status as a value exactly if it is that name;
/// two numbers written in decimal compare as the numbers do.
proof fn lemma_compare(stored: DynamoDbMutexStatus, wanted: DynamoDbMutexStatus, x: int, y: int)
    requires
        -number_bound() < x < number_bound(),
        -number_bound() < y < number_bound(),
    ensures
        equal_values(AttributeText::string(stored.name()), AttributeText::string(wanted.name()))
            <==> stored == wanted,
        at_most(AttributeText::number(x), AttributeText::number(y)) <==> x <= y,
{
    lemma_status_names_differ(stored, wanted);
    lemma_decimal_reads_back(x);
    lemma_decimal_reads_back(y);
}

/// The table accepts the request of `lock` on an item that holds a lease
/// exactly if the lease is as old as the window of its status or older:
/// `updated_at <= now - window`.
pub proof fn lemma_lock_accepts(
    settings: Settings,
    mutex_code: Seq<char>,
    now: i64,
    item: Attributes,
    status: DynamoDbMutexStatus,
    updated_at: i64,
)
    requires
        holds_lease(item, status, updated_at as int),
    ensures
        accepts(Some(item), settings.lock_request(mutex_code, now as int)) <==> updated_at <= now
            - settings.window(status),
{
    lemma_names_differ();
    let values = settings.lock_values(now as int);
    lemma_compare(status, DynamoDbMutexStatus::Done, updated_at as int, now - settings.done_after);
    lemma_compare(
        status,
        DynamoDbMutexStatus::Failed,
        updated_at as int,
        now - settings.failed_after,
    );
    lemma_compare(
        status,
        DynamoDbMutexStatus::Running,
        updated_at as int,
        now - settings.running_after,
    );
    assert(values[Placeholder::ConditionDoneStatus.name()] == AttributeText::string(
        DynamoDbMutexStatus::Done.name(),
    ));
    assert(values[Placeholder::ConditionDoneMillis.name()] == AttributeText::number(
        now - settings.done_after,
    ));
    assert(values[Placeholder::ConditionFailedStatus.name()] == AttributeText::string(
        DynamoDbMutexStatus::Failed.name(),
    ));
    assert(values[Placeholder::ConditionFailedMillis.name()] == AttributeText::number(
        now - settings.failed_after,
    ));
    assert(values[Placeholder::ConditionRunningStatus.name()] == AttributeText::string(
        DynamoDbMutexStatus::Running.name(),
    ));
    assert(values[Placeholder::ConditionRunningMillis.name()] == AttributeText::number(
        now - settings.running_after,
    ));
    reveal_with_fuel(Condition::holds, 5);
}

/// Whatever the item was, a request of `lock` that the table accepts leaves a
/// running lease since the time of the request: status and time are written
/// together.
pub proof fn lemma_lock_writes(
    settings: Settings,
    mutex_code: Seq<char>,
    now: i64,
    item: Option<Attributes>,
)
    requires
        accepts(item, settings.lock_request(mutex_code, now as int)),
    ensures
        leased(
            item_after(item, settings.lock_request(mutex_code, now as int)),
            DynamoDbMutexStatus::Running,
            now as int,
        ),
{
    lemma_names_differ();
    let write = settings.lock_request(mutex_code, now as int);
    let start = match item {
        Some(attributes) => attributes,
        None => write.key,
    };
    lemma_lease_assigned(start, write.values);
}

/// A lease that this crate wrote at a time that is not negative reads back
/// from the table's reply as it was written.
pub proof fn lemma_lease_reads_back(item: Attributes, status: DynamoDbMutexStatus, updated_at: u64)
    requires
        holds_lease(item, status, updated_at as int),
    ensures
        readable(item),
        lock_outcome(UpdateItemAnswer::Updated(Some(item))) == Ok::<
            DynamoDbMutexResult,
            DynamoDbMutexError,
        >(DynamoDbMutexResult::Success(Some(status), updated_at)),
{
    lemma_name_round_trip(status);
    lemma_decimal_reads_back_unsigned(updated_at);
}

/// A key that has never been locked is locked by the first request: the
/// caller is told that the lease was taken and that there was none before, and
/// the item then holds a running lease since the time of the request.
pub proof fn lemma_lock_takes_new_lease(
    settings: Settings,
    mutex_code: Seq<char>,
    now: i64,
    item: Option<Attributes>,
)
    requires
        unleased(item),
    ensures
        accepts(item, settings.lock_request(mutex_code, now as int)),
        lock_outcome(answer(item, settings.lock_request(mutex_code, now as int))) == Ok::<
            DynamoDbMutexResult,
            DynamoDbMutexError,
        >(DynamoDbMutexResult::Success(None, 0)),
        leased(
            item_after(item, settings.lock_request(mutex_code, now as int)),
            DynamoDbMutexStatus::Running,
            now as int,
        ),
{
    reveal_with_fuel(Condition::holds, 2);
    lemma_lock_writes(settings, mutex_code, now, item);
}

/// A lease that has aged past the window of its status is taken: the item then
/// holds a running lease since the time of the request, and the caller is
/// told the status and the time that the lease had. The request reads the
/// lease as it was, so `update` can read its reply wherever that time is not
/// negative.
pub proof fn lemma_lock_takes_stale_lease(
    settings: Settings,
    mutex_code: Seq<char>,
    now: i64,
    item: Attributes,
    status: DynamoDbMutexStatus,
    updated_at: i64,
)
    requires
        holds_lease(item, status, updated_at as int),
        updated_at <= now - settings.window(status),
    ensures
        accepts(Some(item), settings.lock_request(mutex_code, now as int)),
        answer(Some(item), settings.lock_request(mutex_code, now as int))
            == UpdateItemAnswer::Updated(Some(item)),
        leased(
            item_after(Some(item), settings.lock_request(mutex_code, now as int)),
            DynamoDbMutexStatus::Running,
            now as int,
        ),
        0 <= updated_at ==> readable(item) && lock_outcome(
            answer(Some(item), settings.lock_request(mutex_code, now as int)),
        ) == Ok::<DynamoDbMutexResult, DynamoDbMutexError>(
            DynamoDbMutexResult::Success(Some(status), updated_at as u64),
        ),
{
    lemma_lock_accepts(settings, mutex_code, now, item, status, updated_at);
    lemma_lock_writes(settings, mutex_code, now, Some(item));
    if 0 <= updated_at {
        lemma_lease_reads_back(item, status, updated_at as u64);
    }
}

/// A lease that has not aged past the window of its status keeps others out:
/// the caller is told so, and the item stays as it was.
pub proof fn lemma_lock_respects_fresh_lease(
    settings: Settings,
    mutex_code: Seq<char>,
    now: i64,
    item: Attributes,
    status: DynamoDbMutexStatus,
    updated_at: i64,
)
    requires
        holds_lease(item, status, updated_at as int),
        updated_at > now - settings.window(status),
    ensures
        !accepts(Some(item), settings.lock_request(mutex_code, now as int)),
        lock_outcome(answer(Some(item), settings.lock_request(mutex_code, now as int))) == Ok::<
            DynamoDbMutexResult,
            DynamoDbMutexError,
        >(DynamoDbMutexResult::Failure),
        item_after(Some(item), settings.lock_request(mutex_code, now as int)) == Some(item),
{
    lemma_lock_accepts(settings, mutex_code, now, item, status, updated_at);
}

/// Whatever the item was, a request of `unlock` that the table accepts leaves a
/// lease in the status that the caller chose, since the time of the request.
pub proof fn lemma_unlock_writes(
    settings: Settings,
    mutex_code: Seq<char>,
    status: DynamoDbMutexStatus,
    now: i64,
    item: Option<Attributes>,
)
    requires
        accepts(item, settings.unlock_request(mutex_code, status, now as int)),
    ensures
        leased(
            item_after(item, settings.unlock_request(mutex_code, status, now as int)),
            status,
            now as int,
        ),
{
    lemma_names_differ();
    let write = settings.unlock_request(mutex_code, status, now as int);
    let start = match item {
        Some(attributes) => attributes,
        None => write.key,
    };
    lemma_lease_assigned(start, write.values);
}

/// A running lease is given back: the request succeeds, and the item then
/// holds a lease in the status that the caller chose, since the time of the
/// request.
pub proof fn lemma_unlock_running_lease(
    settings: Settings,
    mutex_code: Seq<char>,
    status: DynamoDbMutexStatus,
    now: i64,
    item: Attributes,
    updated_at: i64,
)
    requires
        holds_lease(item, DynamoDbMutexStatus::Running, updated_at as int),
    ensures
        accepts(Some(item), settings.unlock_request(mutex_code, status, now as int)),
        unlock_outcome(answer(Some(item), settings.unlock_request(mutex_code, status, now as int)))
            == Ok::<(), DynamoDbMutexError>(()),
        leased(
            item_after(Some(item), settings.unlock_request(mutex_code, status, now as int)),
            status,
            now as int,
        ),
{
    lemma_names_differ();
    lemma_unlock_writes(settings, mutex_code, status, now, Some(item));
}

/// A lease that is done or failed cannot be given back: the request fails
/// with `ConditionFailed`, and the item stays as it was.
pub proof fn lemma_unlock_finished_lease(
    settings: Settings,
    mutex_code: Seq<char>,
    status: DynamoDbMutexStatus,
    now: i64,
    item: Attributes,
    held: DynamoDbMutexStatus,
    updated_at: i64,
)
    requires
        holds_lease(item, held, updated_at as int),
        held != DynamoDbMutexStatus::Running,
    ensures
        !accepts(Some(item), settings.unlock_request(mutex_code, status, now as int)),
        unlock_outcome(answer(Some(item), settings.unlock_request(mutex_code, status, now as int)))
            == Err::<(), DynamoDbMutexError>(DynamoDbMutexError::ConditionFailed),
        item_after(Some(item), settings.unlock_request(mutex_code, status, now as int)) == Some(
            item,
        ),
{
    lemma_names_differ();
}

/// A key that has never been locked cannot be given back: the request fails
/// with `ConditionFailed`, and the key stays as it was.
pub proof fn lemma_unlock_without_lease(
    settings: Settings,
    mutex_code: Seq<char>,
    status: DynamoDbMutexStatus,
    now: i64,
    item: Option<Attributes>,
)
    requires
        unleased(item),
    ensures
        !accepts(item, settings.unlock_request(mutex_code, status, now as int)),
        unlock_outcome(answer(item, settings.unlock_request(mutex_code, status, now as int)))
            == Err::<(), DynamoDbMutexError>(DynamoDbMutexError::ConditionFailed),
        item_after(item, settings.unlock_request(mutex_code, status, now as int)) == item,
{
}

/// Of the requests of `lock` that reach the table for a key never locked,
/// each later one made before the lease of the first has run out, the first
/// takes the lease and every other is kept out.
pub proof fn lemma_one_lock_wins(
    settings: Settings,
    mutex_code: Seq<char>,
    item: Option<Attributes>,
    times: Seq<i64>,
)
    requires
        unleased(item),
        times.len() > 0,
        forall|i: int| 0 < i < times.len() ==> #[trigger] times[i] - settings.running_after < times[0],
    ensures
        outcomes_through(settings, mutex_code, item, times)[0] == Ok::<
            DynamoDbMutexResult,
            DynamoDbMutexError,
        >(DynamoDbMutexResult::Success(None, 0)),
        forall|i: int|
            0 < i < times.len() ==> #[trigger] outcomes_through(settings, mutex_code, item, times)[i]
                == Ok::<DynamoDbMutexResult, DynamoDbMutexError>(DynamoDbMutexResult::Failure),
{
    lemma_items_through(settings, mutex_code, item, times);
    let items = items_through(settings, mutex_code, item, times);
    lemma_lock_takes_new_lease(settings, mutex_code, times[0], item);
    assert forall|i: int| 0 < i < times.len() implies #[trigger] outcomes_through(
        settings,
        mutex_code,
        item,
        times,
    )[i] == Ok::<DynamoDbMutexResult, DynamoDbMutexError>(DynamoDbMutexResult::Failure) by {
        lemma_lock_respects_fresh_lease(
            settings,
            mutex_code,
            times[i],
            items[i]->0,
            DynamoDbMutexStatus::Running,
            times[0],
        );
    }
}

/// Under the conditions of `lemma_one_lock_wins`, the key holds the lease of
/// the first request from that request on.
proof fn lemma_items_through(
    settings: Settings,
    mutex_code: Seq<char>,
    item: Option<Attributes>,
    times: Seq<i64>,
)
    requires
        unleased(item),
        forall|i: int| 0 < i < times.len() ==> #[trigger] times[i] - settings.running_after < times[0],
    ensures
        items_through(settings, mutex_code, item, times).len() == times.len() + 1,
        items_through(settings, mutex_code, item, times)[0] == item,
        forall|i: int|
            0 < i <= times.len() ==> leased(
                #[trigger] items_through(settings, mutex_code, item, times)[i],
                DynamoDbMutexStatus::Running,
                times[0] as int,
            ),
    decreases times.len(),
{
    if times.len() > 0 {
        let shorter = times.drop_last();
        assert forall|i: int| 0 < i < shorter.len() implies #[trigger] shorter[i]
            - settings.running_after < shorter[0] by {
            assert(shorter[i] == times[i]);
            assert(shorter[0] == times[0]);
        }
        lemma_items_through(settings, mutex_code, item, shorter);
        let earlier = items_through(settings, mutex_code, item, shorter);
        let items = items_through(settings, mutex_code, item, times);
        assert(items == earlier.push(
            item_after(earlier.last(), settings.lock_request(mutex_code, times.last() as int)),
        ));
        if times.len() == 1 {
            lemma_lock_takes_new_lease(settings, mutex_code, times[0], item);
        } else {
            assert(shorter[0] == times[0]);
            let last = times.len() - 1;
            assert(times[last] - settings.running_after < times[0]);
            lemma_lock_respects_fresh_lease(
                settings,
                mutex_code,
                times[last],
                earlier.last()->0,
                DynamoDbMutexStatus::Running,
                times[0],
            );
        }
        assert forall|i: int| 0 < i <= times.len() implies leased(
            #[trigger] items[i],
            DynamoDbMutexStatus::Running,
            times[0] as int,
        ) by {
            if i < times.len() {
                assert(items[i] == earlier[i]);
                assert(shorter[0] == times[0]);
            }
        }
    }
}

} // verus!
