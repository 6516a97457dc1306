use nutribot::clock::day_number;
use nutribot::food_log::{
    add_food_log, add_food_log_at, get_daily_summary, get_daily_summary_at, get_weekly_calories,
    get_weekly_calories_at, reset_today_logs, reset_today_logs_at, FoodLogStore,
};

const DAY: i64 = 86_400;
// 2024-01-10T12:00:00Z
const NOON: i64 = 1_704_888_000;

#[test]
fn day_numbers_floor_toward_the_past() {
    assert_eq!(day_number(0), 0);
    assert_eq!(day_number(86_399), 0);
    assert_eq!(day_number(86_400), 1);
    assert_eq!(day_number(-1), -1);
    assert_eq!(day_number(-86_400), -1);
    assert_eq!(day_number(-86_401), -2);
    assert_eq!(day_number(i64::MIN), i64::MIN.div_euclid(86_400));
}

#[test]
fn single_meal_then_reset() {
    let mut store = FoodLogStore::new();
    add_food_log_at(&mut store, 7, "pasta", Some(500_000), None, None, None, NOON);
    assert_eq!(get_daily_summary_at(&store, 7, NOON), (500_000, 0, 0, 0));
    reset_today_logs_at(&mut store, 7, NOON);
    assert_eq!(get_daily_summary_at(&store, 7, NOON), (0, 0, 0, 0));
}

#[test]
fn daily_totals_use_only_that_day_and_user() {
    let mut store = FoodLogStore::new();
    let start = NOON - 12 * 3600;
    add_food_log_at(&mut store, 1, "a", Some(100_000), Some(1_000), Some(2_000), Some(3_000), start);
    add_food_log_at(&mut store, 1, "b", Some(50_500), None, Some(500), None, start + DAY - 1);
    add_food_log_at(&mut store, 1, "c", Some(999_000), None, None, None, start + DAY);
    add_food_log_at(&mut store, 1, "d", Some(1_000), None, None, None, start - 1);
    add_food_log_at(&mut store, 2, "e", Some(7_000), None, None, None, NOON);
    assert_eq!(get_daily_summary_at(&store, 1, NOON), (150_500, 1_000, 2_500, 3_000));
    assert_eq!(get_daily_summary_at(&store, 2, NOON), (7_000, 0, 0, 0));
    assert_eq!(get_daily_summary_at(&store, 3, NOON), (0, 0, 0, 0));
}

#[test]
fn reset_keeps_other_days_and_users() {
    let mut store = FoodLogStore::new();
    add_food_log_at(&mut store, 1, "today", Some(10), None, None, None, NOON);
    add_food_log_at(&mut store, 1, "yesterday", Some(20), None, None, None, NOON - DAY);
    add_food_log_at(&mut store, 2, "other", Some(30), None, None, None, NOON);
    reset_today_logs_at(&mut store, 1, NOON);
    let names: Vec<&str> = store.entries().iter().map(|e| e.food_name.as_str()).collect();
    assert_eq!(names, vec!["yesterday", "other"]);
}

#[test]
fn entries_are_kept_as_given() {
    let mut store = FoodLogStore::new();
    add_food_log_at(&mut store, 9, "x", Some(u64::MAX), Some(0), None, Some(1), 5);
    let e = &store.entries()[0];
    assert_eq!(e.user_id, 9);
    assert_eq!(e.food_name, "x");
    assert_eq!(e.calories, Some(u64::MAX));
    assert_eq!(e.proteins, Some(0));
    assert_eq!(e.fats, None);
    assert_eq!(e.carbs, Some(1));
    assert_eq!(e.created_at, 5);
}

#[test]
fn large_amounts_do_not_overflow() {
    let mut store = FoodLogStore::new();
    add_food_log_at(&mut store, 1, "a", Some(u64::MAX), None, None, None, NOON);
    add_food_log_at(&mut store, 1, "b", Some(u64::MAX), None, None, None, NOON);
    assert_eq!(get_daily_summary_at(&store, 1, NOON).0, 2 * (u64::MAX as u128));
}

#[test]
fn week_with_two_days_gives_two_points() {
    let mut store = FoodLogStore::new();
    let now = NOON;
    add_food_log_at(&mut store, 1, "a", Some(300_000), None, None, None, now - 5 * DAY);
    add_food_log_at(&mut store, 1, "b", Some(200_000), None, None, None, now - DAY);
    add_food_log_at(&mut store, 1, "c", Some(100_000), None, None, None, now - 5 * DAY + 60);
    let series = get_weekly_calories_at(&store, 1, now);
    assert_eq!(
        series,
        vec![(day_number(now - 5 * DAY), 400_000), (day_number(now - DAY), 200_000)]
    );
}

#[test]
fn weekly_window_is_the_trailing_seven_days() {
    let mut store = FoodLogStore::new();
    let now = NOON;
    add_food_log_at(&mut store, 1, "too old", Some(1), None, None, None, now - 7 * DAY);
    add_food_log_at(&mut store, 1, "oldest", Some(2), None, None, None, now - 7 * DAY + 1);
    add_food_log_at(&mut store, 1, "now", Some(3), None, None, None, now);
    add_food_log_at(&mut store, 1, "future", Some(4), None, None, None, now + 1);
    add_food_log_at(&mut store, 2, "other user", Some(5), None, None, None, now);
    let series = get_weekly_calories_at(&store, 1, now);
    assert_eq!(series, vec![(day_number(now - 7 * DAY + 1), 2), (day_number(now), 3)]);
}

#[test]
fn day_without_calories_still_has_a_point() {
    let mut store = FoodLogStore::new();
    add_food_log_at(&mut store, 1, "water", None, None, None, None, NOON);
    assert_eq!(get_weekly_calories_at(&store, 1, NOON), vec![(day_number(NOON), 0)]);
    assert_eq!(get_weekly_calories_at(&store, 2, NOON), vec![]);
}

#[test]
fn current_time_operations_work_together() {
    let mut store = FoodLogStore::new();
    add_food_log(&mut store, 3, "tea", Some(40_000), None, None, Some(9_000));
    let (c, p, f, k) = get_daily_summary(&store, 3);
    assert!(c == 40_000 || c == 0);
    assert_eq!((p, f), (0, 0));
    assert!(k == 9_000 || k == 0);
    assert_eq!(get_weekly_calories(&store, 3).len(), 1);
    reset_today_logs(&mut store, 3);
    assert!(store.entries().len() <= 1);
}
