use nutribot::extract::{chars_of, extract_field, find_keyed_number, parse_thousandths, same_text};
use nutribot::nutrition::{
    extract_summary, get_lang_prompt, image_prompt, require_transcript, summarize_image_answer,
    summarize_text_answer, text_prompt, NutritionError, PHOTO_FOOD_NAME,
};

fn summary(answer: &str) -> nutribot::nutrition::FoodSummary {
    extract_summary("meal".to_string(), answer)
}

#[test]
fn calories_with_dot_separator() {
    let s = summary("Estimate: 123.4 kcal in total.");
    assert_eq!(s.calories, Some(123_400));
}

#[test]
fn calories_with_comma_separator() {
    let s = summary("Итого: 123,4 ккал");
    assert_eq!(s.calories, Some(123_400));
}

#[test]
fn missing_calorie_keyword_is_absent_not_zero() {
    let s = summary("Chicken with rice: 30 protein, 10 fats, 45 carbs");
    assert_eq!(s.calories, None);
    assert_eq!(s.proteins, Some(30_000));
    assert_eq!(s.fats, Some(10_000));
    assert_eq!(s.carbs, Some(45_000));
}

#[test]
fn keywords_match_without_regard_to_case() {
    let s = summary("About 250 KCAL, 12 Protein, 8 FATS, 30 Carbs");
    assert_eq!(s.calories, Some(250_000));
    assert_eq!(s.proteins, Some(12_000));
    assert_eq!(s.fats, Some(8_000));
    assert_eq!(s.carbs, Some(30_000));
}

#[test]
fn cyrillic_keywords_in_capitals() {
    let s = summary("Калорийность 300 ККАЛ, 20 БЕЛКОВ, 5 жиров, 40 углеводов");
    assert_eq!(s.calories, Some(300_000));
    assert_eq!(s.proteins, Some(20_000));
    assert_eq!(s.fats, Some(5_000));
    assert_eq!(s.carbs, Some(40_000));
}

#[test]
fn first_occurrence_wins_across_keywords() {
    let s = summary("200 kcal now, later 100 ккал");
    assert_eq!(s.calories, Some(200_000));
    let s = summary("100 kcal, then 200 kcal");
    assert_eq!(s.calories, Some(100_000));
}

#[test]
fn number_glued_to_keyword_and_spaces() {
    assert_eq!(summary("90kcal").calories, Some(90_000));
    assert_eq!(summary("90 \u{A0} kcal").calories, Some(90_000));
    assert_eq!(summary("90\n\tkcal").calories, Some(90_000));
}

#[test]
fn number_after_keyword_is_not_taken() {
    assert_eq!(summary("kcal: 120").calories, None);
}

#[test]
fn malformed_number_fails_only_its_field() {
    let s = summary("1.2.3 kcal and 15 protein");
    assert_eq!(s.calories, None);
    assert_eq!(s.proteins, Some(15_000));
    assert_eq!(summary(". kcal").calories, None);
}

#[test]
fn decimal_forms() {
    assert_eq!(summary("5. kcal").calories, Some(5_000));
    assert_eq!(summary(".5 kcal").calories, Some(500));
    assert_eq!(summary("1.25 kcal").calories, Some(1_250));
    assert_eq!(summary("1.23456 kcal").calories, Some(1_234));
    assert_eq!(summary("0 kcal").calories, Some(0));
}

#[test]
fn too_large_number_is_absent() {
    assert_eq!(summary("99999999999999999999999 kcal").calories, None);
    assert_eq!(summary("18446744073709552 kcal").calories, None);
    assert_eq!(summary("18446744073709551.615 kcal").calories, Some(u64::MAX));
}

#[test]
fn thai_and_chinese_keywords() {
    assert_eq!(summary("ประมาณ 350 แคลอรี่").calories, Some(350_000));
    assert_eq!(summary("约 420千卡").calories, Some(420_000));
    assert_eq!(summary("12 蛋白质").proteins, Some(12_000));
}

#[test]
fn scanner_reports_run_bounds() {
    let t = chars_of("a 12,5 kcal");
    let keys = vec!["kcal".chars().collect::<Vec<char>>()];
    assert_eq!(find_keyed_number(&t, &keys), Some((2, 6)));
    assert_eq!(parse_thousandths(&t, 2, 6), Some(12_500));
    assert_eq!(extract_field(&t, &keys), Some(12_500));
}

#[test]
fn same_text_compares_characters() {
    assert!(same_text("ккал", "ккал"));
    assert!(!same_text("ккал", "ккалл"));
    assert!(!same_text("kcal", "kcaL"));
}

#[test]
fn text_answer_keeps_user_words_as_name() {
    let r = summarize_text_answer("борщ", Some("Борщ: 150 ккал, 5 белка".to_string()));
    let (s, raw) = r.unwrap();
    assert_eq!(s.name, "борщ");
    assert_eq!(s.calories, Some(150_000));
    assert_eq!(s.proteins, Some(5_000));
    assert_eq!(raw, "Борщ: 150 ккал, 5 белка");
}

#[test]
fn text_answer_without_content_is_malformed() {
    match summarize_text_answer("soup", None) {
        Err(NutritionError::MalformedResponse(m)) => assert_eq!(m, "No content"),
        other => panic!("unexpected {:?}", other),
    }
}

#[test]
fn image_answer_uses_photo_label() {
    let (s, _) = summarize_image_answer(Some("Pizza, 800 kcal".to_string())).unwrap();
    assert_eq!(s.name, PHOTO_FOOD_NAME);
    assert_eq!(s.name, "Еда с фото");
    assert_eq!(s.calories, Some(800_000));
    assert!(matches!(summarize_image_answer(None), Err(NutritionError::MalformedResponse(_))));
}

#[test]
fn transcript_is_required() {
    assert_eq!(require_transcript(Some("яблоко".to_string())).unwrap(), "яблоко");
    match require_transcript(None) {
        Err(NutritionError::MalformedResponse(m)) => assert_eq!(m, "No transcription text"),
        other => panic!("unexpected {:?}", other),
    }
}

#[test]
fn prompt_bundles_by_language() {
    assert_eq!(get_lang_prompt("ru").0, "Отвечай на русском языке.");
    assert_eq!(get_lang_prompt("en").2, "Calculate calories and Proteins Fats Carbohydrates for");
    assert_eq!(get_lang_prompt("th").0, "ตอบเป็นภาษาไทย.");
    assert_eq!(get_lang_prompt("zh").0, "请用中文回答。");
    assert_eq!(get_lang_prompt("de"), get_lang_prompt("en"));
    assert_eq!(get_lang_prompt(""), get_lang_prompt("en"));
}

#[test]
fn text_prompt_joins_directives_and_description() {
    let p = text_prompt("овсянка", "ru");
    assert_eq!(
        p.system,
        "Отвечай на русском языке. Ответ должен быть строго в формате JSON: {\"name\": \"...\", \"calories\": ..., \"proteins\": ..., \"fats\": ..., \"carbs\": ...}"
    );
    assert_eq!(p.user, "Рассчитай калории и БЖУ для: овсянка");
}

#[test]
fn image_prompt_starts_with_language_directive() {
    assert_eq!(
        image_prompt("fr"),
        "Answer in English. What is depicted on this food? How many calories and Proteins Fats Carbohydrates?"
    );
}
