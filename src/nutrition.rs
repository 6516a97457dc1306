//! Prompt bundles for the reasoning service, and the food summary built from
//! its answers.
use crate::extract::{
    all_keywords, any_keyword_at, chars_of, decimal_thousandths, digits_value, extract_field,
    field_value, first_keyed_number, fraction_thousandths, is_number_char, is_space, keyed_number,
    keyword_at, number_run, spaces_then_keyword, split_decimal,
};
use crate::locale::{locale_of, Locale};
use vstd::prelude::*;
use vstd::string::*;

verus! {

pub const LANG_RU: &'static str = "Отвечай на русском языке.";
pub const FORMAT_RU: &'static str = "Ответ должен быть строго в формате JSON: {\"name\": \"...\", \"calories\": ..., \"proteins\": ..., \"fats\": ..., \"carbs\": ...}";
pub const TASK_RU: &'static str = "Рассчитай калории и БЖУ для";

pub const LANG_EN: &'static str = "Answer in English.";
pub const FORMAT_EN: &'static str = "The answer must be strictly in JSON format: {\"name\": \"...\", \"calories\": ..., \"proteins\": ..., \"fats\": ..., \"carbs\": ...}";
pub const TASK_EN: &'static str = "Calculate calories and Proteins Fats Carbohydrates for";

pub const LANG_TH: &'static str = "ตอบเป็นภาษาไทย.";
pub const FORMAT_TH: &'static str = "คำตอบต้องอยู่ในรูปแบบ JSON เท่านั้น: {\"name\": \"...\", \"calories\": ..., \"proteins\": ..., \"fats\": ..., \"carbs\": ...}";
pub const TASK_TH: &'static str = "คำนวณแคลอรี่และโปรตีน ไขมัน คาร์โบไฮเดรตสำหรับ";

pub const LANG_ZH: &'static str = "请用中文回答。";
pub const FORMAT_ZH: &'static str = "回答必须严格采用 JSON 格式: {\"name\": \"...\", \"calories\": ..., \"proteins\": ..., \"fats\": ..., \"carbs\": ...}";
pub const TASK_ZH: &'static str = "计算卡路里和蛋白质脂肪碳水化合物";

/// Language directive, output-format directive and task phrase of a locale;
/// the fallback uses the English bundle.
pub open spec fn prompt_bundle(l: Locale) -> (Seq<char>, Seq<char>, Seq<char>) {
    match l {
        Locale::Ru => (LANG_RU@, FORMAT_RU@, TASK_RU@),
        Locale::Th => (LANG_TH@, FORMAT_TH@, TASK_TH@),
        Locale::Zh => (LANG_ZH@, FORMAT_ZH@, TASK_ZH@),
        _ => (LANG_EN@, FORMAT_EN@, TASK_EN@),
    }
}

/// The prompt bundle for a language code.
pub fn get_lang_prompt(lang: &str) -> (r: (&'static str, &'static str, &'static str))
    ensures
        (r.0@, r.1@, r.2@) == prompt_bundle(locale_of(lang@)),
{
    match Locale::from_code(lang) {
        Locale::Ru => (LANG_RU, FORMAT_RU, TASK_RU),
        Locale::Th => (LANG_TH, FORMAT_TH, TASK_TH),
        Locale::Zh => (LANG_ZH, FORMAT_ZH, TASK_ZH),
        _ => (LANG_EN, FORMAT_EN, TASK_EN),
    }
}

/// Calorie keywords: ккал, kcal, calories, แคลอรี่, 千卡, 大卡, 卡.
pub open spec fn calorie_keywords() -> Seq<Seq<char>> {
    seq![
        seq!['\u{43A}', '\u{43A}', '\u{430}', '\u{43B}'],
        seq!['k', 'c', 'a', 'l'],
        seq!['c', 'a', 'l', 'o', 'r', 'i', 'e', 's'],
        seq!['\u{E41}', '\u{E04}', '\u{E25}', '\u{E2D}', '\u{E23}', '\u{E35}', '\u{E48}'],
        seq!['\u{5343}', '\u{5361}'],
        seq!['\u{5927}', '\u{5361}'],
        seq!['\u{5361}'],
    ]
}

/// Protein keywords: белк, protein, โปรตีน, 蛋白质.
pub open spec fn protein_keywords() -> Seq<Seq<char>> {
    seq![
        seq!['\u{431}', '\u{435}', '\u{43B}', '\u{43A}'],
        seq!['p', 'r', 'o', 't', 'e', 'i', 'n'],
        seq!['\u{E42}', '\u{E1B}', '\u{E23}', '\u{E15}', '\u{E35}', '\u{E19}'],
        seq!['\u{86CB}', '\u{767D}', '\u{8D28}'],
    ]
}

/// Fat keywords: жир, fats, ไขมัน, 脂肪.
pub open spec fn fat_keywords() -> Seq<Seq<char>> {
    seq![
        seq!['\u{436}', '\u{438}', '\u{440}'],
        seq!['f', 'a', 't', 's'],
        seq!['\u{E44}', '\u{E02}', '\u{E21}', '\u{E31}', '\u{E19}'],
        seq!['\u{8102}', '\u{80AA}'],
    ]
}

/// Carbohydrate keywords: углев, carbs, คาร์โบ, 碳水.
pub open spec fn carb_keywords() -> Seq<Seq<char>> {
    seq![
        seq!['\u{443}', '\u{433}', '\u{43B}', '\u{435}', '\u{432}'],
        seq!['c', 'a', 'r', 'b', 's'],
        seq!['\u{E04}', '\u{E32}', '\u{E23}', '\u{E4C}', '\u{E42}', '\u{E1A}'],
        seq!['\u{78B3}', '\u{6C34}'],
    ]
}

pub proof fn lemma_keyword_sets()
    ensures
        all_keywords(calorie_keywords()),
        all_keywords(protein_keywords()),
        all_keywords(fat_keywords()),
        all_keywords(carb_keywords()),
{
}

fn calorie_keyword_list() -> (r: Vec<Vec<char>>)
    ensures
        r.deep_view() == calorie_keywords(),
{
    let r = vec![
        vec!['\u{43A}', '\u{43A}', '\u{430}', '\u{43B}'],
        vec!['k', 'c', 'a', 'l'],
        vec!['c', 'a', 'l', 'o', 'r', 'i', 'e', 's'],
        vec!['\u{E41}', '\u{E04}', '\u{E25}', '\u{E2D}', '\u{E23}', '\u{E35}', '\u{E48}'],
        vec!['\u{5343}', '\u{5361}'],
        vec!['\u{5927}', '\u{5361}'],
        vec!['\u{5361}'],
    ];
    assert(r.deep_view() =~~= calorie_keywords());
    r
}

fn protein_keyword_list() -> (r: Vec<Vec<char>>)
    ensures
        r.deep_view() == protein_keywords(),
{
    let r = vec![
        vec!['\u{431}', '\u{435}', '\u{43B}', '\u{43A}'],
        vec!['p', 'r', 'o', 't', 'e', 'i', 'n'],
        vec!['\u{E42}', '\u{E1B}', '\u{E23}', '\u{E15}', '\u{E35}', '\u{E19}'],
        vec!['\u{86CB}', '\u{767D}', '\u{8D28}'],
    ];
    assert(r.deep_view() =~~= protein_keywords());
    r
}

fn fat_keyword_list() -> (r: Vec<Vec<char>>)
    ensures
        r.deep_view() == fat_keywords(),
{
    let r = vec![
        vec!['\u{436}', '\u{438}', '\u{440}'],
        vec!['f', 'a', 't', 's'],
        vec!['\u{E44}', '\u{E02}', '\u{E21}', '\u{E31}', '\u{E19}'],
        vec!['\u{8102}', '\u{80AA}'],
    ];
    assert(r.deep_view() =~~= fat_keywords());
    r
}

fn carb_keyword_list() -> (r: Vec<Vec<char>>)
    ensures
        r.deep_view() == carb_keywords(),
{
    let r = vec![
        vec!['\u{443}', '\u{433}', '\u{43B}', '\u{435}', '\u{432}'],
        vec!['c', 'a', 'r', 'b', 's'],
        vec!['\u{E04}', '\u{E32}', '\u{E23}', '\u{E4C}', '\u{E42}', '\u{E1A}'],
        vec!['\u{78B3}', '\u{6C34}'],
    ];
    assert(r.deep_view() =~~= carb_keywords());
    r
}

/// Label given to food recognised from a photo.
pub const PHOTO_FOOD_NAME: &'static str = "Еда с фото";

/// Question asked about a photo, after the language directive.
pub const PHOTO_QUESTION: &'static str = " What is depicted on this food? How many calories and Proteins Fats Carbohydrates?";

pub const NO_CONTENT: &'static str = "No content";

pub const NO_TRANSCRIPT: &'static str = "No transcription text";

/// The structured result of one extraction: a name and four optional
/// amounts, each in thousandths of its unit (kcal or grams). An absent amount
/// means the answer did not state it, which differs from zero.
#[derive(Clone, Debug)]
pub struct FoodSummary {
    pub name: String,
    pub calories: Option<u64>,
    pub proteins: Option<u64>,
    pub fats: Option<u64>,
    pub carbs: Option<u64>,
}

/// Why a call to the reasoning service gave no answer.
#[derive(Clone, Debug)]
pub enum NutritionError {
    /// The service could not be reached, or the exchange failed on the way.
    Transport(String),
    /// A credential is missing or was refused.
    Auth(String),
    /// The service answered without a field that was expected.
    MalformedResponse(String),
}

/// `s` is the summary of `answer` under the name `name`.
pub open spec fn summarizes(s: FoodSummary, name: Seq<char>, answer: Seq<char>) -> bool {
    &&& s.name@ == name
    &&& s.calories == field_value(answer, calorie_keywords())
    &&& s.proteins == field_value(answer, protein_keywords())
    &&& s.fats == field_value(answer, fat_keywords())
    &&& s.carbs == field_value(answer, carb_keywords())
}

/// Extracts the four amounts of `answer`, each field on its own.
pub fn extract_summary(name: String, answer: &str) -> (r: FoodSummary)
    ensures
        summarizes(r, name@, answer@),
{
    proof {
        lemma_keyword_sets();
    }
    let t = chars_of(answer);
    let calories = extract_field(&t, &calorie_keyword_list());
    let proteins = extract_field(&t, &protein_keyword_list());
    let fats = extract_field(&t, &fat_keyword_list());
    let carbs = extract_field(&t, &carb_keyword_list());
    FoodSummary { name, calories, proteins, fats, carbs }
}

/// The result of a text analysis, from the answer's content if the service
/// gave one; the summary is named by the user's own words.
pub fn summarize_text_answer(text: &str, content: Option<String>) -> (r: Result<
    (FoodSummary, String),
    NutritionError,
>)
    ensures
        match content {
            Some(c) => r matches Ok((s, raw)) && summarizes(s, text@, c@) && raw@ == c@,
            None => r matches Err(NutritionError::MalformedResponse(m)) && m@ == NO_CONTENT@,
        },
{
    match content {
        Some(c) => {
            let s = extract_summary(String::from_str(text), c.as_str());
            Ok((s, c))
        },
        None => Err(NutritionError::MalformedResponse(String::from_str(NO_CONTENT))),
    }
}

/// The result of a photo analysis, from the answer's content if the service
/// gave one; the summary carries the fixed photo label.
pub fn summarize_image_answer(content: Option<String>) -> (r: Result<
    (FoodSummary, String),
    NutritionError,
>)
    ensures
        match content {
            Some(c) => r matches Ok((s, raw)) && summarizes(s, PHOTO_FOOD_NAME@, c@) && raw@
                == c@,
            None => r matches Err(NutritionError::MalformedResponse(m)) && m@ == NO_CONTENT@,
        },
{
    match content {
        Some(c) => {
            let s = extract_summary(String::from_str(PHOTO_FOOD_NAME), c.as_str());
            Ok((s, c))
        },
        None => Err(NutritionError::MalformedResponse(String::from_str(NO_CONTENT))),
    }
}

/// The transcript of a voice message, if the transcription service gave one.
pub fn require_transcript(text: Option<String>) -> (r: Result<String, NutritionError>)
    ensures
        match text {
            Some(t) => r matches Ok(u) && u@ == t@,
            None => r matches Err(NutritionError::MalformedResponse(m)) && m@ == NO_TRANSCRIPT@,
        },
{
    match text {
        Some(t) => Ok(t),
        None => Err(NutritionError::MalformedResponse(String::from_str(NO_TRANSCRIPT))),
    }
}

/// The two instructions of a text analysis request.
#[derive(Clone, Debug)]
pub struct ChatPrompt {
    /// Language and output-format directives.
    pub system: String,
    /// Task phrase and the user's description.
    pub user: String,
}

/// The system and user instructions for analysing the description `text`.
pub fn text_prompt(text: &str, lang: &str) -> (r: ChatPrompt)
    ensures
        r.system@ == prompt_bundle(locale_of(lang@)).0 + seq![' '] + prompt_bundle(
            locale_of(lang@),
        ).1,
        r.user@ == prompt_bundle(locale_of(lang@)).2 + seq![':', ' '] + text@,
{
    let (lang_prompt, format_prompt, task) = get_lang_prompt(lang);
    proof {
        reveal_strlit(" ");
        reveal_strlit(": ");
    }
    let system = String::from_str(lang_prompt).concat(" ").concat(format_prompt);
    let user = String::from_str(task).concat(": ").concat(text);
    ChatPrompt { system, user }
}

/// The instruction sent along with a photo.
pub fn image_prompt(lang: &str) -> (r: String)
    ensures
        r@ == prompt_bundle(locale_of(lang@)).0 + PHOTO_QUESTION@,
{
    let (lang_prompt, _, _) = get_lang_prompt(lang);
    String::from_str(lang_prompt).concat(PHOTO_QUESTION)
}

/// "123.4 kcal"
pub open spec fn calories_dot_marker() -> Seq<char> {
    seq!['1', '2', '3', '.', '4', ' ', 'k', 'c', 'a', 'l']
}

/// "123,4 ккал"
pub open spec fn calories_comma_marker() -> Seq<char> {
    seq!['1', '2', '3', ',', '4', ' ', '\u{43A}', '\u{43A}', '\u{430}', '\u{43B}']
}

/// A text in which "123.4 kcal" or "123,4 ккал" stands at `p`, as the first
/// calorie figure and not glued to a number before it, states 123.4 kcal
/// whichever decimal separator it uses.
pub proof fn lemma_calories_either_separator(t: Seq<char>, p: int, m: Seq<char>)
    requires
        m == calories_dot_marker() || m == calories_comma_marker(),
        0 <= p,
        p + 10 <= t.len(),
        t.subrange(p, p + 10) == m,
        p == 0 || !is_number_char(t[p - 1]),
        forall|s: int, e: int| s < p ==> !#[trigger] keyed_number(t, s, e, calorie_keywords()),
    ensures
        field_value(t, calorie_keywords()) == Some(123400u64),
{
    let keys = calorie_keywords();
    let j: int = if m == calories_dot_marker() {
        1
    } else {
        0
    };
    assert forall|i: int| 0 <= i < 10 implies t[p + i] == #[trigger] m[i] by {
        assert(t.subrange(p, p + 10)[i] == t[p + i]);
    }
    assert(t[p] == m[0] && t[p + 1] == m[1] && t[p + 2] == m[2] && t[p + 3] == m[3] && t[p + 4]
        == m[4] && t[p + 5] == m[5]);
    assert(number_run(t, p, p + 5));
    assert(keyword_at(t, p + 6, keys[j])) by {
        assert(t[p + 6] == m[6] && t[p + 7] == m[7] && t[p + 8] == m[8] && t[p + 9] == m[9]);
    }
    assert(any_keyword_at(t, p + 6, keys));
    assert(spaces_then_keyword(t, p + 5, keys));
    assert(keyed_number(t, p, p + 5, keys));
    assert(first_keyed_number(t, p, p + 5, keys));
    let (s, e) = choose|s: int, e: int| first_keyed_number(t, s, e, keys);
    assert(s == p);
    if e < p + 5 {
        assert(is_number_char(t[e]));
    } else if e > p + 5 {
        assert(is_number_char(t[p + 5]));
    }
    let r = t.subrange(p, p + 5);
    assert(r =~= m.take(5));
    assert(split_decimal(r, 3)) by {
        assert(r.take(3) =~= seq!['1', '2', '3']);
        assert(r.skip(4) =~= seq!['4']);
    }
    let p_other = choose|p_other: int| split_decimal(r, p_other);
    if p_other != 3 {
        if p_other < 3 {
            assert(r.skip(p_other + 1)[3 - p_other - 1] == r[3]);
        } else {
            assert(r.take(p_other)[3] == r[3]);
        }
    }
    assert(r.take(3) =~= seq!['1', '2', '3']);
    assert(r.skip(4) =~= seq!['4']);
    reveal_with_fuel(digits_value, 4);
    assert(seq!['1', '2', '3'].drop_last() =~= seq!['1', '2']);
    assert(seq!['1', '2'].drop_last() =~= seq!['1']);
    assert(seq!['1'].drop_last() =~= Seq::<char>::empty());
    assert(seq!['4'].drop_last() =~= Seq::<char>::empty());
    assert(digits_value(seq!['1', '2', '3']) == 123);
    assert(fraction_thousandths(seq!['4']) == 400);
    assert(decimal_thousandths(r) == Some(123400nat));
}

/// A text with no calorie keyword anywhere states no calories: the field is
/// absent, not zero. The other fields are read from the text on their own.
pub proof fn lemma_no_calorie_keyword(t: Seq<char>, name: Seq<char>, s: FoodSummary)
    requires
        forall|q: int, j: int|
            0 <= j < calorie_keywords().len() ==> !#[trigger] keyword_at(t, q, calorie_keywords()[j]),
        summarizes(s, name, t),
    ensures
        s.calories is None,
        s.proteins == field_value(t, protein_keywords()),
        s.fats == field_value(t, fat_keywords()),
        s.carbs == field_value(t, carb_keywords()),
{
    let keys = calorie_keywords();
    assert forall|a: int, b: int| !#[trigger] first_keyed_number(t, a, b, keys) by {
        if first_keyed_number(t, a, b, keys) {
            let q = choose|q: int|
                b <= q && (forall|i: int| b <= i < q ==> is_space(#[trigger] t[i]))
                    && #[trigger] any_keyword_at(t, q, keys);
            let j = choose|j: int| 0 <= j < keys.len() && #[trigger] keyword_at(t, q, keys[j]);
        }
    }
}

} // verus!
