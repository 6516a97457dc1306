use nutribot::commands::{parse_command, Command};
use nutribot::locale::Locale;
use nutribot::messages::{
    callback_language_code, cancel_text_for, daily_tip_text_for, language_set_text_for,
    status_text_for, subscribe_text_for, subscription_required_text_for, Messages,
};

#[test]
fn locale_codes() {
    assert_eq!(Locale::from_code("ru"), Locale::Ru);
    assert_eq!(Locale::from_code("en"), Locale::En);
    assert_eq!(Locale::from_code("th"), Locale::Th);
    assert_eq!(Locale::from_code("zh"), Locale::Zh);
    assert_eq!(Locale::from_code("RU"), Locale::Fallback);
    assert_eq!(Locale::from_code("rus"), Locale::Fallback);
    assert_eq!(Locale::from_code(""), Locale::Fallback);
}

#[test]
fn messages_by_language() {
    assert_eq!(Messages::get("en").welcome, "Welcome!");
    assert_eq!(Messages::get("en").reset_done, "🔁 Your logs have been reset.");
    assert_eq!(Messages::get("ru").welcome, "Добро пожаловать!");
    assert_eq!(Messages::get("ru").error, "❌ Произошла ошибка.");
    assert_eq!(Messages::get("th").unknown, "ขออภัย ฉันไม่เข้าใจคำสั่งนั้น.");
    assert_eq!(Messages::get("zh").week_empty, "过去 7 天没有记录。");
    assert!(Messages::get("en").help_detailed.contains("/subscribe"));
    assert!(Messages::get("ru").help_detailed.starts_with("\n📋 *Помощь"));
}

#[test]
fn unknown_language_gets_fallback_messages() {
    let m = Messages::get("de");
    assert_eq!(m.welcome, "Welcome!");
    assert_eq!(m.reset_done, "🔁 Logs reset.");
    assert_eq!(m.week_empty, "No data for last week.");
    assert_eq!(m.graph_error, "❌ Chart error.");
    assert_eq!(m.help_detailed, Messages::get("en").help_detailed);
}

#[test]
fn chat_texts_by_language() {
    assert_eq!(subscribe_text_for("de"), subscribe_text_for("en"));
    assert_eq!(
        subscribe_text_for("en"),
        "🛒 Subscribe for 299 RUB/month to continue using the bot!"
    );
    assert_eq!(subscription_required_text_for("xx"), "🔒 Subscription required. Please subscribe.");
    assert_eq!(daily_tip_text_for("xx"), "💡 Tip: Stay hydrated and eat balanced meals.");
    assert_eq!(daily_tip_text_for("en"), "💡 Tip: Drink more water and mind your protein intake.");
    assert_eq!(cancel_text_for("xx"), cancel_text_for("en"));
    assert_eq!(status_text_for(true, "ru"), "✅ Ваша подписка активна.");
    assert_eq!(status_text_for(true, "th"), "✅ Your subscription is active.");
    assert_eq!(
        status_text_for(false, "en"),
        "❌ Subscription inactive. Please subscribe to continue."
    );
}

#[test]
fn language_buttons() {
    assert_eq!(callback_language_code("lang_en"), "en");
    assert_eq!(callback_language_code("lang_th"), "th");
    assert_eq!(callback_language_code("lang_zh"), "zh");
    assert_eq!(callback_language_code("lang_ru"), "ru");
    assert_eq!(callback_language_code("lang_de"), "ru");
    assert_eq!(language_set_text_for("en"), "🇬🇧 Language set to English.");
    assert_eq!(language_set_text_for("de"), "Language set.");
}

#[test]
fn commands_are_exact_words() {
    assert_eq!(parse_command("/start"), Command::Start);
    assert_eq!(parse_command("/help"), Command::Help);
    assert_eq!(parse_command("/stats"), Command::Stats);
    assert_eq!(parse_command("/reset"), Command::Reset);
    assert_eq!(parse_command("/week"), Command::Week);
    assert_eq!(parse_command("/subscribe"), Command::Subscribe);
    assert_eq!(parse_command("/status"), Command::Status);
    assert_eq!(parse_command("/cancel"), Command::Cancel);
    assert_eq!(parse_command("/start now"), Command::Food);
    assert_eq!(parse_command("рис 100 г"), Command::Food);
}
