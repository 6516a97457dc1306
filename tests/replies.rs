use nutribot::reply::{
    amount_string, daily_summary_text, decimal_string, logged_meal_text, tenths_string, whole_string,
};

#[test]
fn decimal_digits() {
    assert_eq!(decimal_string(0), "0");
    assert_eq!(decimal_string(7), "7");
    assert_eq!(decimal_string(1050), "1050");
    assert_eq!(decimal_string(u128::MAX), u128::MAX.to_string());
}

#[test]
fn exact_amounts_drop_trailing_zeros() {
    assert_eq!(amount_string(0), "0");
    assert_eq!(amount_string(500_000), "500");
    assert_eq!(amount_string(12_500), "12.5");
    assert_eq!(amount_string(1_020), "1.02");
    assert_eq!(amount_string(1_234), "1.234");
    assert_eq!(amount_string(5), "0.005");
}

#[test]
fn rounded_amounts() {
    assert_eq!(whole_string(0), "0");
    assert_eq!(whole_string(1_499), "1");
    assert_eq!(whole_string(1_500), "2");
    assert_eq!(tenths_string(0), "0.0");
    assert_eq!(tenths_string(12_345), "12.3");
    assert_eq!(tenths_string(12_350), "12.4");
    assert_eq!(tenths_string(999_950), "1000.0");
}

#[test]
fn daily_summary_after_one_meal() {
    assert_eq!(
        daily_summary_text((500_000, 0, 0, 0)),
        "\u{1F4CA} *Daily Summary:*\nKcal: `500`\nProtein: `0`g\nFat: `0`g\nCarbs: `0`g"
    );
}

#[test]
fn logged_meal_reply() {
    assert_eq!(
        logged_meal_text("Soup", (250_400, 12_340, 5_000, 0)),
        "✅ Soup\n📊 Today: 250 kcal | 🥩 12.3P / 🧈 5.0F / 🍞 0.0C"
    );
}
