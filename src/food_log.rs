//! The food log: immutable entries per user, daily totals, a weekly calorie
//! series and the reset of a day.
use crate::clock::{current_timestamp, day_number, day_of, SECONDS_PER_WEEK};
use vstd::prelude::*;
use vstd::string::*;

verus! {

/// One logged meal. Amounts are in thousandths of kcal or grams.
#[derive(Clone, Debug)]
pub struct FoodLogEntry {
    pub user_id: i64,
    pub food_name: String,
    pub calories: Option<u64>,
    pub proteins: Option<u64>,
    pub fats: Option<u64>,
    pub carbs: Option<u64>,
    /// Seconds since the epoch, assigned when the entry is added.
    pub created_at: i64,
}

/// The entries of all users, in the order they were added. Entries are never
/// changed; they leave only by a reset of a day.
pub struct FoodLogStore {
    entries: Vec<FoodLogEntry>,
}

impl View for FoodLogStore {
    type V = Seq<FoodLogEntry>;

    closed spec fn view(&self) -> Seq<FoodLogEntry> {
        self.entries@
    }
}

pub open spec fn amount(v: Option<u64>) -> nat {
    match v {
        Some(x) => x as nat,
        None => 0,
    }
}

/// The sum of `value` over the entries of `log` that `keep` selects.
pub open spec fn total(
    log: Seq<FoodLogEntry>,
    keep: spec_fn(FoodLogEntry) -> bool,
    value: spec_fn(FoodLogEntry) -> nat,
) -> nat
    decreases log.len(),
{
    if log.len() == 0 {
        0
    } else {
        total(log.drop_last(), keep, value) + if keep(log.last()) {
            value(log.last())
        } else {
            0
        }
    }
}

/// How many entries of `log` `keep` selects.
pub open spec fn count(log: Seq<FoodLogEntry>, keep: spec_fn(FoodLogEntry) -> bool) -> nat {
    total(log, keep, |e: FoodLogEntry| 1nat)
}

pub open spec fn on_day(user: i64, day: int) -> spec_fn(FoodLogEntry) -> bool {
    |e: FoodLogEntry| e.user_id == user && day_of(e.created_at) == day
}

pub open spec fn calories_of() -> spec_fn(FoodLogEntry) -> nat {
    |e: FoodLogEntry| amount(e.calories)
}

pub open spec fn proteins_of() -> spec_fn(FoodLogEntry) -> nat {
    |e: FoodLogEntry| amount(e.proteins)
}

pub open spec fn fats_of() -> spec_fn(FoodLogEntry) -> nat {
    |e: FoodLogEntry| amount(e.fats)
}

pub open spec fn carbs_of() -> spec_fn(FoodLogEntry) -> nat {
    |e: FoodLogEntry| amount(e.carbs)
}

/// Calories, proteins, fats and carbs of a user's entries on a UTC day;
/// absent amounts count as zero.
pub open spec fn daily_totals(log: Seq<FoodLogEntry>, user: i64, day: int) -> (nat, nat, nat, nat) {
    (
        total(log, on_day(user, day), calories_of()),
        total(log, on_day(user, day), proteins_of()),
        total(log, on_day(user, day), fats_of()),
        total(log, on_day(user, day), carbs_of()),
    )
}

/// The entry is the given meal of `user`, added at `at`.
pub open spec fn entry_is(
    e: FoodLogEntry,
    user: i64,
    name: Seq<char>,
    calories: Option<u64>,
    proteins: Option<u64>,
    fats: Option<u64>,
    carbs: Option<u64>,
    at: i64,
) -> bool {
    &&& e.user_id == user
    &&& e.food_name@ == name
    &&& e.calories == calories
    &&& e.proteins == proteins
    &&& e.fats == fats
    &&& e.carbs == carbs
    &&& e.created_at == at
}

impl FoodLogStore {
    pub fn new() -> (r: FoodLogStore)
        ensures
            r@ == Seq::<FoodLogEntry>::empty(),
    {
        FoodLogStore { entries: Vec::new() }
    }

    /// The entries, oldest first.
    pub fn entries(&self) -> (r: &Vec<FoodLogEntry>)
        ensures
            r@ == self@,
    {
        &self.entries
    }
}

/// Adds one meal of `chat_id` at the instant `at`. Values are taken as given.
pub fn add_food_log_at(
    store: &mut FoodLogStore,
    chat_id: i64,
    food_name: &str,
    calories: Option<u64>,
    proteins: Option<u64>,
    fats: Option<u64>,
    carbs: Option<u64>,
    at: i64,
)
    ensures
        final(store)@.len() == old(store)@.len() + 1,
        final(store)@.drop_last() == old(store)@,
        entry_is(final(store)@.last(), chat_id, food_name@, calories, proteins, fats, carbs, at),
{
    let e = FoodLogEntry {
        user_id: chat_id,
        food_name: String::from_str(food_name),
        calories,
        proteins,
        fats,
        carbs,
        created_at: at,
    };
    store.entries.push(e);
    assert(store@.drop_last() =~= old(store)@);
}

/// Adds one meal of `chat_id`, stamped with the current time.
pub fn add_food_log(
    store: &mut FoodLogStore,
    chat_id: i64,
    food_name: &str,
    calories: Option<u64>,
    proteins: Option<u64>,
    fats: Option<u64>,
    carbs: Option<u64>,
)
    ensures
        final(store)@.len() == old(store)@.len() + 1,
        final(store)@.drop_last() == old(store)@,
        entry_is(
            final(store)@.last(),
            chat_id,
            food_name@,
            calories,
            proteins,
            fats,
            carbs,
            final(store)@.last().created_at,
        ),
{
    let now = current_timestamp();
    add_food_log_at(store, chat_id, food_name, calories, proteins, fats, carbs, now);
}

fn amount_exec(v: Option<u64>) -> (r: u64)
    ensures
        r == amount(v),
{
    match v {
        Some(x) => x,
        None => 0,
    }
}

/// Adds an amount to a running sum over at most `i + 1` entries.
fn add_amount(acc: u128, v: Option<u64>, i: usize) -> (r: u128)
    requires
        acc <= i * (u64::MAX as int),
    ensures
        r == acc + amount(v),
        r <= (i + 1) * (u64::MAX as int),
{
    let x = amount_exec(v);
    assert(acc + x <= (i + 1) * (u64::MAX as int) <= u128::MAX) by (nonlinear_arith)
        requires
            acc <= i * (u64::MAX as int),
            x <= u64::MAX,
            i <= usize::MAX,
    ;
    acc + x as u128
}

/// Totals of `chat_id`'s entries on the UTC day holding `as_of`.
pub fn get_daily_summary_at(store: &FoodLogStore, chat_id: i64, as_of: i64) -> (r: (
    u128,
    u128,
    u128,
    u128,
))
    ensures
        (r.0 as nat, r.1 as nat, r.2 as nat, r.3 as nat) == daily_totals(store@, chat_id, day_of(as_of)),
{
    let day = day_number(as_of);
    let ghost log = store@;
    let ghost keep = on_day(chat_id, day as int);
    let mut c: u128 = 0;
    let mut p: u128 = 0;
    let mut f: u128 = 0;
    let mut k: u128 = 0;
    let mut i: usize = 0;
    while i < store.entries.len()
        invariant
            log == store@,
            keep == on_day(chat_id, day as int),
            i <= log.len(),
            c == total(log.take(i as int), keep, calories_of()),
            p == total(log.take(i as int), keep, proteins_of()),
            f == total(log.take(i as int), keep, fats_of()),
            k == total(log.take(i as int), keep, carbs_of()),
            c <= i * (u64::MAX as int),
            p <= i * (u64::MAX as int),
            f <= i * (u64::MAX as int),
            k <= i * (u64::MAX as int),
        decreases log.len() - i,
    {
        let e = &store.entries[i];
        assert(log.take(i + 1).drop_last() =~= log.take(i as int));
        assert(log.take(i + 1).last() == *e);
        if e.user_id == chat_id && day_number(e.created_at) == day {
            c = add_amount(c, e.calories, i);
            p = add_amount(p, e.proteins, i);
            f = add_amount(f, e.fats, i);
            k = add_amount(k, e.carbs, i);
        } else {
            assert(i * (u64::MAX as int) <= (i + 1) * (u64::MAX as int)) by (nonlinear_arith);
        }
        i = i + 1;
    }
    assert(log.take(log.len() as int) =~= log);
    (c, p, f, k)
}

/// Totals of `chat_id`'s entries on the current UTC day.
pub fn get_daily_summary(store: &FoodLogStore, chat_id: i64) -> (r: (u128, u128, u128, u128))
    ensures
        exists|now: i64|
            (r.0 as nat, r.1 as nat, r.2 as nat, r.3 as nat) == daily_totals(
                store@,
                chat_id,
                day_of(now),
            ),
{
    let now = current_timestamp();
    get_daily_summary_at(store, chat_id, now)
}

/// An exact copy of an entry.
fn copy_entry(e: &FoodLogEntry) -> (r: FoodLogEntry)
    ensures
        r == *e,
{
    FoodLogEntry {
        user_id: e.user_id,
        food_name: e.food_name.clone(),
        calories: e.calories,
        proteins: e.proteins,
        fats: e.fats,
        carbs: e.carbs,
        created_at: e.created_at,
    }
}

/// Entries that survive a reset of `user`'s day `day`.
pub open spec fn survives_reset(user: i64, day: int) -> spec_fn(FoodLogEntry) -> bool {
    |e: FoodLogEntry| !(e.user_id == user && day_of(e.created_at) == day)
}

/// Deletes every entry of `chat_id` made on the UTC day holding `now`.
pub fn reset_today_logs_at(store: &mut FoodLogStore, chat_id: i64, now: i64)
    ensures
        final(store)@ == old(store)@.filter(survives_reset(chat_id, day_of(now))),
{
    let day = day_number(now);
    let ghost log = store@;
    let ghost keep = survives_reset(chat_id, day as int);
    let mut kept: Vec<FoodLogEntry> = Vec::new();
    let mut i: usize = 0;
    while i < store.entries.len()
        invariant
            log == store@,
            keep == survives_reset(chat_id, day as int),
            i <= log.len(),
            kept@ == log.take(i as int).filter(keep),
        decreases log.len() - i,
    {
        let e = &store.entries[i];
        proof {
            reveal(Seq::filter);
            assert(log.take(i + 1).drop_last() =~= log.take(i as int));
            assert(log.take(i + 1).last() == *e);
        }
        if !(e.user_id == chat_id && day_number(e.created_at) == day) {
            kept.push(copy_entry(e));
        }
        i = i + 1;
    }
    assert(log.take(log.len() as int) =~= log);
    store.entries = kept;
}

/// Deletes every entry of `chat_id` made on the current UTC day.
pub fn reset_today_logs(store: &mut FoodLogStore, chat_id: i64)
    ensures
        exists|now: i64| final(store)@ == old(store)@.filter(survives_reset(chat_id, day_of(now))),
{
    let now = current_timestamp();
    reset_today_logs_at(store, chat_id, now);
}

/// Entries of `user` in the trailing week ending at `now`.
pub open spec fn in_week(user: i64, now: i64) -> spec_fn(FoodLogEntry) -> bool {
    |e: FoodLogEntry| e.user_id == user && now - 604800 < e.created_at && e.created_at <= now
}

/// Entries of `user` in the trailing week ending at `now`, made on `day`.
pub open spec fn in_week_on(user: i64, now: i64, day: int) -> spec_fn(FoodLogEntry) -> bool {
    |e: FoodLogEntry|
        e.user_id == user && now - 604800 < e.created_at && e.created_at <= now && day_of(
            e.created_at,
        ) == day
}

/// `r` is the weekly calorie series of `user` at `now`: one point per UTC
/// day holding an entry of the trailing week, in ascending order of day,
/// each with the day's calorie total. Days without entries have no point.
pub open spec fn weekly_series(log: Seq<FoodLogEntry>, user: i64, now: i64, r: Seq<(i64, u128)>) -> bool {
    &&& forall|i: int, j: int| 0 <= i < j < r.len() ==> r[i].0 < r[j].0
    &&& forall|i: int|
        0 <= i < r.len() ==> count(log, #[trigger] in_week_on(user, now, r[i].0 as int)) > 0
            && r[i].1 == total(log, in_week_on(user, now, r[i].0 as int), calories_of())
    &&& forall|k: int|
        0 <= k < log.len() && #[trigger] in_week(user, now)(log[k]) ==> exists|i: int|
            0 <= i < r.len() && r[i].0 == day_of(log[k].created_at)
}

pub proof fn lemma_count_positive(log: Seq<FoodLogEntry>, keep: spec_fn(FoodLogEntry) -> bool, k: int)
    requires
        0 <= k < log.len(),
        keep(log[k]),
    ensures
        count(log, keep) > 0,
    decreases log.len(),
{
    if k < log.len() - 1 {
        assert(log.drop_last()[k] == log[k]);
        lemma_count_positive(log.drop_last(), keep, k);
    }
}

pub proof fn lemma_count_witness(log: Seq<FoodLogEntry>, keep: spec_fn(FoodLogEntry) -> bool)
    requires
        count(log, keep) > 0,
    ensures
        exists|k: int| 0 <= k < log.len() && keep(#[trigger] log[k]),
    decreases log.len(),
{
    if log.len() > 0 {
        if keep(log.last()) {
            assert(keep(log[log.len() - 1]));
        } else {
            lemma_count_witness(log.drop_last(), keep);
            let k = choose|k: int| 0 <= k < log.drop_last().len() && keep(#[trigger] log.drop_last()[k]);
            assert(log[k] == log.drop_last()[k]);
        }
    }
}

/// Whether `chat_id` has an entry in the week ending at `now` made on `day`,
/// and the calorie total of those entries.
fn week_day_total(store: &FoodLogStore, chat_id: i64, now: i64, day: i64) -> (r: (bool, u128))
    ensures
        r.0 == (count(store@, in_week_on(chat_id, now, day as int)) > 0),
        r.1 == total(store@, in_week_on(chat_id, now, day as int), calories_of()),
{
    let ghost log = store@;
    let ghost keep = in_week_on(chat_id, now, day as int);
    let mut found = false;
    let mut c: u128 = 0;
    let mut i: usize = 0;
    while i < store.entries.len()
        invariant
            log == store@,
            keep == in_week_on(chat_id, now, day as int),
            i <= log.len(),
            found == (count(log.take(i as int), keep) > 0),
            c == total(log.take(i as int), keep, calories_of()),
            c <= i * (u64::MAX as int),
        decreases log.len() - i,
    {
        let e = &store.entries[i];
        assert(log.take(i + 1).drop_last() =~= log.take(i as int));
        assert(log.take(i + 1).last() == *e);
        if e.user_id == chat_id && (now as i128) - (SECONDS_PER_WEEK as i128) < (e.created_at as i128)
            && e.created_at <= now && day_number(e.created_at) == day {
            c = add_amount(c, e.calories, i);
            found = true;
        } else {
            assert(i * (u64::MAX as int) <= (i + 1) * (u64::MAX as int)) by (nonlinear_arith);
        }
        i = i + 1;
    }
    assert(log.take(log.len() as int) =~= log);
    (found, c)
}

/// Per-day calorie totals of `chat_id` over the week ending at `now`.
pub fn get_weekly_calories_at(store: &FoodLogStore, chat_id: i64, now: i64) -> (r: Vec<(i64, u128)>)
    ensures
        weekly_series(store@, chat_id, now, r@),
{
    let ghost log = store@;
    let start: i64 = if now < i64::MIN + (SECONDS_PER_WEEK - 1) {
        i64::MIN
    } else {
        now - (SECONDS_PER_WEEK - 1)
    };
    let first = day_number(start);
    let last = day_number(now);
    let mut r: Vec<(i64, u128)> = Vec::new();
    let mut d: i64 = first;
    while d <= last
        invariant
            log == store@,
            first == day_of(start),
            last == day_of(now),
            start <= now,
            first <= d <= last + 1,
            forall|i: int, j: int| 0 <= i < j < r@.len() ==> r@[i].0 < r@[j].0,
            forall|i: int| 0 <= i < r@.len() ==> first <= #[trigger] r@[i].0 < d,
            forall|i: int|
                0 <= i < r@.len() ==> count(log, #[trigger] in_week_on(chat_id, now, r@[i].0 as int)) > 0
                    && r@[i].1 == total(log, in_week_on(chat_id, now, r@[i].0 as int), calories_of()),
            forall|dd: int|
                first <= dd < d && count(log, #[trigger] in_week_on(chat_id, now, dd)) > 0 ==> exists|i: int|
                    0 <= i < r@.len() && r@[i].0 == dd,
        decreases last + 1 - d,
    {
        let (found, sum) = week_day_total(store, chat_id, now, d);
        let ghost before = r@;
        if found {
            r.push((d, sum));
            assert(r@[r@.len() - 1].0 == d);
        }
        proof {
            assert forall|dd: int|
                first <= dd < d + 1 && count(log, #[trigger] in_week_on(chat_id, now, dd)) > 0 implies exists|i: int|
                0 <= i < r@.len() && r@[i].0 == dd by {
                if dd < d {
                    let i = choose|i: int| 0 <= i < before.len() && before[i].0 == dd;
                    assert(r@[i] == before[i]);
                } else {
                    assert(r@[r@.len() - 1].0 == d);
                }
            }
        }
        d = d + 1;
    }
    proof {
        assert forall|k: int| 0 <= k < log.len() && #[trigger] in_week(chat_id, now)(log[k]) implies exists|i: int|
            0 <= i < r@.len() && r@[i].0 == day_of(log[k].created_at) by {
            let t = log[k].created_at;
            assert(in_week_on(chat_id, now, day_of(t))(log[k]));
            lemma_count_positive(log, in_week_on(chat_id, now, day_of(t)), k);
            assert(start <= t);
            assert(day_of(start) <= day_of(t)) by (nonlinear_arith)
                requires start <= t;
            assert(day_of(t) <= day_of(now)) by (nonlinear_arith)
                requires t <= now;
        }
    }
    r
}

/// Per-day calorie totals of `chat_id` over the week ending now.
pub fn get_weekly_calories(store: &FoodLogStore, chat_id: i64) -> (r: Vec<(i64, u128)>)
    ensures
        exists|now: i64| weekly_series(store@, chat_id, now, r@),
{
    let now = current_timestamp();
    get_weekly_calories_at(store, chat_id, now)
}

pub proof fn lemma_total_zero(
    log: Seq<FoodLogEntry>,
    keep: spec_fn(FoodLogEntry) -> bool,
    value: spec_fn(FoodLogEntry) -> nat,
)
    requires
        forall|k: int| 0 <= k < log.len() ==> !keep(#[trigger] log[k]),
    ensures
        total(log, keep, value) == 0,
    decreases log.len(),
{
    if log.len() > 0 {
        assert(!keep(log[log.len() - 1]));
        assert forall|k: int| 0 <= k < log.drop_last().len() implies !keep(#[trigger] log.drop_last()[k]) by {
            assert(log.drop_last()[k] == log[k]);
        }
        lemma_total_zero(log.drop_last(), keep, value);
    }
}

/// A meal added to a day on which the user had no entry makes that day's
/// totals exactly the meal's amounts (absent amounts as zero).
pub proof fn lemma_single_meal_day(log: Seq<FoodLogEntry>, e: FoodLogEntry, day: int)
    requires
        forall|k: int| 0 <= k < log.len() ==> !#[trigger] on_day(e.user_id, day)(log[k]),
        day_of(e.created_at) == day,
    ensures
        daily_totals(log.push(e), e.user_id, day) == (
            amount(e.calories),
            amount(e.proteins),
            amount(e.fats),
            amount(e.carbs),
        ),
{
    let keep = on_day(e.user_id, day);
    lemma_total_zero(log, keep, calories_of());
    lemma_total_zero(log, keep, proteins_of());
    lemma_total_zero(log, keep, fats_of());
    lemma_total_zero(log, keep, carbs_of());
    assert(log.push(e).drop_last() =~= log);
}

/// After a reset of the day holding `now`, the user's totals for that day
/// are all zero.
pub proof fn lemma_reset_clears_day(log: Seq<FoodLogEntry>, user: i64, now: i64)
    ensures
        daily_totals(log.filter(survives_reset(user, day_of(now))), user, day_of(now)) == (
            0nat,
            0nat,
            0nat,
            0nat,
        ),
{
    let kept = log.filter(survives_reset(user, day_of(now)));
    let keep = on_day(user, day_of(now));
    broadcast use vstd::seq_lib::group_filter_ensures;
    assert forall|k: int| 0 <= k < kept.len() implies !keep(#[trigger] kept[k]) by {
        assert(survives_reset(user, day_of(now))(kept[k]));
    }
    lemma_total_zero(kept, keep, calories_of());
    lemma_total_zero(kept, keep, proteins_of());
    lemma_total_zero(kept, keep, fats_of());
    lemma_total_zero(kept, keep, carbs_of());
}

/// A week whose entries fall on exactly two days gives exactly two points,
/// the earlier day first.
pub proof fn lemma_week_of_two_days(
    log: Seq<FoodLogEntry>,
    user: i64,
    now: i64,
    r: Seq<(i64, u128)>,
    d1: int,
    d2: int,
    k1: int,
    k2: int,
)
    requires
        weekly_series(log, user, now, r),
        d1 < d2,
        forall|k: int|
            0 <= k < log.len() && #[trigger] in_week(user, now)(log[k]) ==> day_of(log[k].created_at)
                == d1 || day_of(log[k].created_at) == d2,
        0 <= k1 < log.len(),
        in_week(user, now)(log[k1]),
        day_of(log[k1].created_at) == d1,
        0 <= k2 < log.len(),
        in_week(user, now)(log[k2]),
        day_of(log[k2].created_at) == d2,
    ensures
        r.len() == 2,
        r[0].0 == d1,
        r[1].0 == d2,
{
    assert forall|i: int| 0 <= i < r.len() implies r[i].0 == d1 || r[i].0 == d2 by {
        let keep = in_week_on(user, now, r[i].0 as int);
        assert(count(log, keep) > 0);
        lemma_count_witness(log, keep);
        let k = choose|k: int| 0 <= k < log.len() && keep(#[trigger] log[k]);
        assert(in_week(user, now)(log[k]));
    }
    let i1 = choose|i: int| 0 <= i < r.len() && r[i].0 == day_of(log[k1].created_at);
    let i2 = choose|i: int| 0 <= i < r.len() && r[i].0 == day_of(log[k2].created_at);
    if r.len() > 2 {
        assert(r[0].0 < r[1].0 && r[1].0 < r[2].0);
        assert(r[0].0 == d1 || r[0].0 == d2);
        assert(r[1].0 == d1 || r[1].0 == d2);
        assert(r[2].0 == d1 || r[2].0 == d2);
    }
    assert(i1 != i2);
    assert(r[0].0 < r[1].0);
    assert(r[0].0 == d1 || r[0].0 == d2);
    assert(r[1].0 == d1 || r[1].0 == d2);
}

} // verus!
