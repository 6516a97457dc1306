//! The catalog of chat messages in each supported language.
use crate::extract::same_text;
use crate::locale::{locale_of, Locale};
use vstd::prelude::*;
use vstd::string::*;

verus! {

pub const WELCOME_RU: &'static str = "Добро пожаловать!";
pub const WELCOME_EN: &'static str = "Welcome!";
pub const WELCOME_TH: &'static str = "ยินดีต้อนรับสู่บอทคำนวณแคลอรี่ของคุณ!";
pub const WELCOME_ZH: &'static str = "欢迎使用您的卡路里助手！";

pub const HELP_RU: &'static str = "Этот бот помогает считать калории.";
pub const HELP_EN: &'static str = "This bot helps track calories.";
pub const HELP_TH: &'static str = "บอทนี้ช่วยคุณติดตามแคลอรี่และสารอาหารรายวัน.";
pub const HELP_ZH: &'static str = "这个机器人可以帮助您追踪每日摄入的卡路里和营养成分。";

pub const HELP_DETAILED_RU: &'static str = "\n📋 *Помощь по боту питания* 📋\nДобро пожаловать в бот питания\\! Отслеживайте свои приемы пищи и питательные вещества с легкостью\\.\n\n*Команды:*\n• `/start` Зарегистрируйтесь и выберите язык\\.\n• `/help` Показать это сообщение с помощью\\.\n• `/stats` Посмотреть сводку питания за сегодня \\(калории, белки, жиры, углеводы\\)\\.\n• `/reset` Очистить логи еды за сегодня\\.\n• `/week` Посмотреть график калорий за неделю\\.\n• `/subscribe` Оформить подписку для полного доступа \\(299 ₽\\/мес\\)\\.\n• `/status` Проверить статус подписки\\.\n• `/cancel` Узнать, как отменить подписку\\.\n\n*Как записывать еду:*\n• *Текст*: Отправьте сообщение, например, \"Я съел 100г курицы и риса\"\\.\n• *Фото*: Отправьте фото еды для анализа\\.\n• *Голос*: Отправьте голосовое сообщение с описанием еды\\.\n\n💡 *Совет*: Используйте `/start`, чтобы сменить язык в любое время\\.\n";
pub const HELP_DETAILED_EN: &'static str = "\n📋 *Nutrition Bot Help* 📋\nWelcome to the Nutrition Bot\\! Track your meals and monitor your nutrition with ease\\.\n\n*Commands:*\n• `/start` Register and choose your language\\.\n• `/help` Show this help message\\.\n• `/stats` View today’s nutrition summary \\(calories, protein, fats, carbs\\)\\.\n• `/reset` Clear today’s food logs\\.\n• `/week` See a chart of your weekly calorie intake\\.\n• `/subscribe` Subscribe for full access \\(299 RUB\\/month\\)\\.\n• `/status` Check your subscription status\\.\n• `/cancel` Learn how to cancel your subscription\\.\n\n*How to Log Food:*\n• *Text*: Send a message like \"I ate 100g chicken and rice\" to log a meal\\.\n• *Photo*: Send a food photo to analyze its contents\\.\n• *Voice*: Send a voice message describing your meal\\.\n\n💡 *Tip*: Use `/start` to change your language at any time\\.\n";
pub const HELP_DETAILED_TH: &'static str = "\n📋 *ความช่วยเหลือของบอทโภชนาการ* 📋\nยินดีต้อนรับสู่บอทโภชนาการ\\! ติดตามมื้ออาหารและสารอาหารของคุณได้อย่างง่ายดาย\n\n*คำสั่ง:*\n• `/start` ลงทะเบียนและเลือกภาษา\n• `/help` แสดงข้อความช่วยเหลือนี้\n• `/stats` ดูสรุปโภชนาการของวันนี้ \\(แคลอรี่, โปรตีน, ไขมัน, คาร์โบไฮเดรต\\)\n• `/reset` ล้างบันทึกอาหารของวันนี้\n• `/week` ดูกราฟแคลอรี่รายสัปดาห์\n• `/subscribe` สมัครสมาชิกเพื่อใช้งานเต็มรูปแบบ \\(299 รูเบิล\\/เดือน\\)\n• `/status` ตรวจสอบสถานะการสมัครสมาชิก\n• `/cancel` เรียนรู้วิธียกเลิกการสมัครสมาชิก\n\n*วิธีบันทึกอาหาร:*\n• *ข้อความ*: ส่งข้อความ เช่น \"ฉันกินไก่ 100 กรัมและข้าว\"\n• *รูปภาพ*: ส่งรูปภาพอาหารเพื่อวิเคราะห์\n• *เสียง*: ส่งข้อความเสียงที่อธิบายมื้ออาหาร\n\n💡 *เคล็ดลับ*: ใช้ `/start` เพื่อเปลี่ยนภาษาได้ตลอดเวลา\n";
pub const HELP_DETAILED_ZH: &'static str = "\n📋 *营养机器人帮助* 📋\n欢迎使用营养机器人\\! 轻松跟踪您的饮食和营养\\.\n\n*命令:*\n• `/start` 注册并选择语言\\.\n• `/help` 显示此帮助信息\\.\n• `/stats` 查看今日营养总结\\(卡路里、蛋白质、脂肪、碳水化合物\\)\\.\n• `/reset` 清除今日的饮食记录\\.\n• `/week` 查看每周卡路里摄入图表\\.\n• `/subscribe` 订阅以获得完整功能\\(299卢布\\/月\\)\\.\n• `/status` 检查订阅状态\\.\n• `/cancel` 了解如何取消订阅\\.\n\n*如何记录食物:*\n• *文本*: 发送消息，如“我吃了100克鸡肉和米饭”\\.\n• *图片*: 发送食物照片进行分析\\.\n• *语音*: 发送描述食物的语音消息\\.\n\n💡 *提示*: 随时使用 `/start` 更改语言\\.\n";

pub const UNKNOWN_RU: &'static str = "Я не понял команду.";
pub const UNKNOWN_EN: &'static str = "I didn't understand.";
pub const UNKNOWN_TH: &'static str = "ขออภัย ฉันไม่เข้าใจคำสั่งนั้น.";
pub const UNKNOWN_ZH: &'static str = "对不起，我不明白这条消息。";

pub const RESET_DONE_RU: &'static str = "🔁 Данные за сегодня сброшены.";
pub const RESET_DONE_EN: &'static str = "🔁 Your logs have been reset.";
pub const RESET_DONE_TH: &'static str = "🔁 รีเซ็ตข้อมูลของวันนี้เรียบร้อยแล้ว.";
pub const RESET_DONE_ZH: &'static str = "🔁 今天的数据已被重置。";
pub const RESET_DONE_OTHER: &'static str = "🔁 Logs reset.";

pub const WEEK_EMPTY_RU: &'static str = "Нет данных за последние 7 дней.";
pub const WEEK_EMPTY_EN: &'static str = "No data for the last 7 days.";
pub const WEEK_EMPTY_TH: &'static str = "ไม่มีข้อมูลในช่วง 7 วันที่ผ่านมา.";
pub const WEEK_EMPTY_ZH: &'static str = "过去 7 天没有记录。";
pub const WEEK_EMPTY_OTHER: &'static str = "No data for last week.";

pub const GRAPH_ERROR_RU: &'static str = "❌ Ошибка при построении графика.";
pub const GRAPH_ERROR_EN: &'static str = "❌ Error drawing the chart.";
pub const GRAPH_ERROR_TH: &'static str = "❌ เกิดข้อผิดพลาดในการสร้างกราฟ.";
pub const GRAPH_ERROR_ZH: &'static str = "❌ 绘图时出错。";
pub const GRAPH_ERROR_OTHER: &'static str = "❌ Chart error.";

pub const ERROR_RU: &'static str = "❌ Произошла ошибка.";
pub const ERROR_EN: &'static str = "❌ An error occurred.";
pub const ERROR_TH: &'static str = "❌ เกิดข้อผิดพลาด.";
pub const ERROR_ZH: &'static str = "❌ 发生错误。";

pub open spec fn welcome_text(l: Locale) -> Seq<char> {
    match l {
        Locale::Ru => WELCOME_RU@,
        Locale::En => WELCOME_EN@,
        Locale::Th => WELCOME_TH@,
        Locale::Zh => WELCOME_ZH@,
        Locale::Fallback => WELCOME_EN@,
    }
}

pub open spec fn help_text(l: Locale) -> Seq<char> {
    match l {
        Locale::Ru => HELP_RU@,
        Locale::En => HELP_EN@,
        Locale::Th => HELP_TH@,
        Locale::Zh => HELP_ZH@,
        Locale::Fallback => HELP_EN@,
    }
}

pub open spec fn help_detailed_text(l: Locale) -> Seq<char> {
    match l {
        Locale::Ru => HELP_DETAILED_RU@,
        Locale::En => HELP_DETAILED_EN@,
        Locale::Th => HELP_DETAILED_TH@,
        Locale::Zh => HELP_DETAILED_ZH@,
        Locale::Fallback => HELP_DETAILED_EN@,
    }
}

pub open spec fn unknown_text(l: Locale) -> Seq<char> {
    match l {
        Locale::Ru => UNKNOWN_RU@,
        Locale::En => UNKNOWN_EN@,
        Locale::Th => UNKNOWN_TH@,
        Locale::Zh => UNKNOWN_ZH@,
        Locale::Fallback => UNKNOWN_EN@,
    }
}

pub open spec fn reset_done_text(l: Locale) -> Seq<char> {
    match l {
        Locale::Ru => RESET_DONE_RU@,
        Locale::En => RESET_DONE_EN@,
        Locale::Th => RESET_DONE_TH@,
        Locale::Zh => RESET_DONE_ZH@,
        Locale::Fallback => RESET_DONE_OTHER@,
    }
}

pub open spec fn week_empty_text(l: Locale) -> Seq<char> {
    match l {
        Locale::Ru => WEEK_EMPTY_RU@,
        Locale::En => WEEK_EMPTY_EN@,
        Locale::Th => WEEK_EMPTY_TH@,
        Locale::Zh => WEEK_EMPTY_ZH@,
        Locale::Fallback => WEEK_EMPTY_OTHER@,
    }
}

pub open spec fn graph_error_text(l: Locale) -> Seq<char> {
    match l {
        Locale::Ru => GRAPH_ERROR_RU@,
        Locale::En => GRAPH_ERROR_EN@,
        Locale::Th => GRAPH_ERROR_TH@,
        Locale::Zh => GRAPH_ERROR_ZH@,
        Locale::Fallback => GRAPH_ERROR_OTHER@,
    }
}

pub open spec fn error_text(l: Locale) -> Seq<char> {
    match l {
        Locale::Ru => ERROR_RU@,
        Locale::En => ERROR_EN@,
        Locale::Th => ERROR_TH@,
        Locale::Zh => ERROR_ZH@,
        Locale::Fallback => ERROR_EN@,
    }
}

/// The messages of one language.
#[derive(Clone, Debug)]
pub struct Messages {
    pub welcome: String,
    pub help: String,
    pub help_detailed: String,
    pub unknown: String,
    pub reset_done: String,
    pub week_empty: String,
    pub graph_error: String,
    pub error: String,
}

/// `m` holds the messages of locale `l`.
pub open spec fn messages_of(m: Messages, l: Locale) -> bool {
    &&& m.welcome@ == welcome_text(l)
    &&& m.help@ == help_text(l)
    &&& m.help_detailed@ == help_detailed_text(l)
    &&& m.unknown@ == unknown_text(l)
    &&& m.reset_done@ == reset_done_text(l)
    &&& m.week_empty@ == week_empty_text(l)
    &&& m.graph_error@ == graph_error_text(l)
    &&& m.error@ == error_text(l)
}

impl Messages {
    /// The messages of a locale.
    pub fn for_locale(l: Locale) -> (r: Messages)
        ensures
            messages_of(r, l),
    {
        match l {
            Locale::Ru => Messages {
                welcome: String::from_str(WELCOME_RU),
                help: String::from_str(HELP_RU),
                help_detailed: String::from_str(HELP_DETAILED_RU),
                unknown: String::from_str(UNKNOWN_RU),
                reset_done: String::from_str(RESET_DONE_RU),
                week_empty: String::from_str(WEEK_EMPTY_RU),
                graph_error: String::from_str(GRAPH_ERROR_RU),
                error: String::from_str(ERROR_RU),
            },
            Locale::En => Messages {
                welcome: String::from_str(WELCOME_EN),
                help: String::from_str(HELP_EN),
                help_detailed: String::from_str(HELP_DETAILED_EN),
                unknown: String::from_str(UNKNOWN_EN),
                reset_done: String::from_str(RESET_DONE_EN),
                week_empty: String::from_str(WEEK_EMPTY_EN),
                graph_error: String::from_str(GRAPH_ERROR_EN),
                error: String::from_str(ERROR_EN),
            },
            Locale::Th => Messages {
                welcome: String::from_str(WELCOME_TH),
                help: String::from_str(HELP_TH),
                help_detailed: String::from_str(HELP_DETAILED_TH),
                unknown: String::from_str(UNKNOWN_TH),
                reset_done: String::from_str(RESET_DONE_TH),
                week_empty: String::from_str(WEEK_EMPTY_TH),
                graph_error: String::from_str(GRAPH_ERROR_TH),
                error: String::from_str(ERROR_TH),
            },
            Locale::Zh => Messages {
                welcome: String::from_str(WELCOME_ZH),
                help: String::from_str(HELP_ZH),
                help_detailed: String::from_str(HELP_DETAILED_ZH),
                unknown: String::from_str(UNKNOWN_ZH),
                reset_done: String::from_str(RESET_DONE_ZH),
                week_empty: String::from_str(WEEK_EMPTY_ZH),
                graph_error: String::from_str(GRAPH_ERROR_ZH),
                error: String::from_str(ERROR_ZH),
            },
            Locale::Fallback => Messages {
                welcome: String::from_str(WELCOME_EN),
                help: String::from_str(HELP_EN),
                help_detailed: String::from_str(HELP_DETAILED_EN),
                unknown: String::from_str(UNKNOWN_EN),
                reset_done: String::from_str(RESET_DONE_OTHER),
                week_empty: String::from_str(WEEK_EMPTY_OTHER),
                graph_error: String::from_str(GRAPH_ERROR_OTHER),
                error: String::from_str(ERROR_EN),
            },
        }
    }

    /// The messages for a language code; unknown codes get the fallback set.
    pub fn get(lang: &str) -> (r: Messages)
        ensures
            messages_of(r, locale_of(lang@)),
    {
        Messages::for_locale(Locale::from_code(lang))
    }
}

pub const SUBSCRIBE_RU: &'static str = "🛒 Оформите подписку за 299 ₽ в месяц, чтобы продолжить пользоваться ботом!";
pub const SUBSCRIBE_EN: &'static str = "🛒 Subscribe for 299 RUB/month to continue using the bot!";
pub const SUBSCRIBE_TH: &'static str = "🛒 สมัครสมาชิกในราคา 299 รูเบิล/เดือน เพื่อใช้งานบอทต่อ!";
pub const SUBSCRIBE_ZH: &'static str = "🛒 每月299卢布订阅，以继续使用机器人！";

pub open spec fn subscribe_text(l: Locale) -> Seq<char> {
    match l {
        Locale::Ru => SUBSCRIBE_RU@,
        Locale::En => SUBSCRIBE_EN@,
        Locale::Th => SUBSCRIBE_TH@,
        Locale::Zh => SUBSCRIBE_ZH@,
        Locale::Fallback => SUBSCRIBE_EN@,
    }
}

/// The offer to subscribe.
pub fn subscribe_text_for(lang: &str) -> (r: &'static str)
    ensures
        r@ == subscribe_text(locale_of(lang@)),
{
    match Locale::from_code(lang) {
        Locale::Ru => SUBSCRIBE_RU,
        Locale::En => SUBSCRIBE_EN,
        Locale::Th => SUBSCRIBE_TH,
        Locale::Zh => SUBSCRIBE_ZH,
        Locale::Fallback => SUBSCRIBE_EN,
    }
}

pub const SUBSCRIPTION_REQUIRED_RU: &'static str = "🔒 Доступно только по подписке. Подпишитесь за 299₽/мес для продолжения.";
pub const SUBSCRIPTION_REQUIRED_EN: &'static str = "🔒 Subscription required. Please subscribe for 299₽/month to continue.";
pub const SUBSCRIPTION_REQUIRED_TH: &'static str = "🔒 ต้องสมัครสมาชิก (299₽/เดือน) เพื่อใช้งานต่อ.";
pub const SUBSCRIPTION_REQUIRED_ZH: &'static str = "🔒 订阅需要。每月299₽继续使用。";
pub const SUBSCRIPTION_REQUIRED_OTHER: &'static str = "🔒 Subscription required. Please subscribe.";

pub open spec fn subscription_required_text(l: Locale) -> Seq<char> {
    match l {
        Locale::Ru => SUBSCRIPTION_REQUIRED_RU@,
        Locale::En => SUBSCRIPTION_REQUIRED_EN@,
        Locale::Th => SUBSCRIPTION_REQUIRED_TH@,
        Locale::Zh => SUBSCRIPTION_REQUIRED_ZH@,
        Locale::Fallback => SUBSCRIPTION_REQUIRED_OTHER@,
    }
}

/// The notice that a feature needs a subscription.
pub fn subscription_required_text_for(lang: &str) -> (r: &'static str)
    ensures
        r@ == subscription_required_text(locale_of(lang@)),
{
    match Locale::from_code(lang) {
        Locale::Ru => SUBSCRIPTION_REQUIRED_RU,
        Locale::En => SUBSCRIPTION_REQUIRED_EN,
        Locale::Th => SUBSCRIPTION_REQUIRED_TH,
        Locale::Zh => SUBSCRIPTION_REQUIRED_ZH,
        Locale::Fallback => SUBSCRIPTION_REQUIRED_OTHER,
    }
}

pub const DAILY_TIP_RU: &'static str = "💡 Совет дня: Пей больше воды и следи за белками в рационе.";
pub const DAILY_TIP_EN: &'static str = "💡 Tip: Drink more water and mind your protein intake.";
pub const DAILY_TIP_TH: &'static str = "💡 เคล็ดลับ: ดื่มน้ำให้มากขึ้นและระวังโปรตีนในอาหาร.";
pub const DAILY_TIP_ZH: &'static str = "💡 小贴士：多喝水，注意蛋白质摄入。";
pub const DAILY_TIP_OTHER: &'static str = "💡 Tip: Stay hydrated and eat balanced meals.";

pub open spec fn daily_tip_text(l: Locale) -> Seq<char> {
    match l {
        Locale::Ru => DAILY_TIP_RU@,
        Locale::En => DAILY_TIP_EN@,
        Locale::Th => DAILY_TIP_TH@,
        Locale::Zh => DAILY_TIP_ZH@,
        Locale::Fallback => DAILY_TIP_OTHER@,
    }
}

/// The tip of the day.
pub fn daily_tip_text_for(lang: &str) -> (r: &'static str)
    ensures
        r@ == daily_tip_text(locale_of(lang@)),
{
    match Locale::from_code(lang) {
        Locale::Ru => DAILY_TIP_RU,
        Locale::En => DAILY_TIP_EN,
        Locale::Th => DAILY_TIP_TH,
        Locale::Zh => DAILY_TIP_ZH,
        Locale::Fallback => DAILY_TIP_OTHER,
    }
}

pub const CANCEL_RU: &'static str = "❗ Отменить подписку можно в разделе подписок вашего платёжного провайдера.";
pub const CANCEL_EN: &'static str = "❗ To cancel, go to your payment provider’s subscription section.";
pub const CANCEL_TH: &'static str = "❗ คุณสามารถยกเลิกได้ที่หน้าการสมัครสมาชิกของผู้ให้บริการชำระเงินของคุณ.";
pub const CANCEL_ZH: &'static str = "❗ 要取消，请转到付款提供商的订阅部分。";

pub open spec fn cancel_text(l: Locale) -> Seq<char> {
    match l {
        Locale::Ru => CANCEL_RU@,
        Locale::En => CANCEL_EN@,
        Locale::Th => CANCEL_TH@,
        Locale::Zh => CANCEL_ZH@,
        Locale::Fallback => CANCEL_EN@,
    }
}

/// How to cancel a subscription.
pub fn cancel_text_for(lang: &str) -> (r: &'static str)
    ensures
        r@ == cancel_text(locale_of(lang@)),
{
    match Locale::from_code(lang) {
        Locale::Ru => CANCEL_RU,
        Locale::En => CANCEL_EN,
        Locale::Th => CANCEL_TH,
        Locale::Zh => CANCEL_ZH,
        Locale::Fallback => CANCEL_EN,
    }
}

pub const LANGUAGE_SET_RU: &'static str = "🇷🇺 Язык установлен: русский.";
pub const LANGUAGE_SET_EN: &'static str = "🇬🇧 Language set to English.";
pub const LANGUAGE_SET_TH: &'static str = "🇹🇭 ตั้งค่าภาษา: ไทย";
pub const LANGUAGE_SET_ZH: &'static str = "🇨🇳 设置语言为中文。";
pub const LANGUAGE_SET_OTHER: &'static str = "Language set.";

pub open spec fn language_set_text(l: Locale) -> Seq<char> {
    match l {
        Locale::Ru => LANGUAGE_SET_RU@,
        Locale::En => LANGUAGE_SET_EN@,
        Locale::Th => LANGUAGE_SET_TH@,
        Locale::Zh => LANGUAGE_SET_ZH@,
        Locale::Fallback => LANGUAGE_SET_OTHER@,
    }
}

/// The confirmation that the language was chosen.
pub fn language_set_text_for(lang: &str) -> (r: &'static str)
    ensures
        r@ == language_set_text(locale_of(lang@)),
{
    match Locale::from_code(lang) {
        Locale::Ru => LANGUAGE_SET_RU,
        Locale::En => LANGUAGE_SET_EN,
        Locale::Th => LANGUAGE_SET_TH,
        Locale::Zh => LANGUAGE_SET_ZH,
        Locale::Fallback => LANGUAGE_SET_OTHER,
    }
}

pub const STATUS_ACTIVE_RU: &'static str = "✅ Ваша подписка активна.";
pub const STATUS_ACTIVE_OTHER: &'static str = "✅ Your subscription is active.";
pub const STATUS_INACTIVE_RU: &'static str = "❌ Подписка не активна. Чтобы продолжить, оформите подписку.";
pub const STATUS_INACTIVE_OTHER: &'static str = "❌ Subscription inactive. Please subscribe to continue.";

pub open spec fn status_text(active: bool, l: Locale) -> Seq<char> {
    if active {
        if l == Locale::Ru {
            STATUS_ACTIVE_RU@
        } else {
            STATUS_ACTIVE_OTHER@
        }
    } else {
        if l == Locale::Ru {
            STATUS_INACTIVE_RU@
        } else {
            STATUS_INACTIVE_OTHER@
        }
    }
}

/// The subscription status; only Russian has its own wording.
pub fn status_text_for(active: bool, lang: &str) -> (r: &'static str)
    ensures
        r@ == status_text(active, locale_of(lang@)),
{
    let l = Locale::from_code(lang);
    if active {
        if l == Locale::Ru {
            STATUS_ACTIVE_RU
        } else {
            STATUS_ACTIVE_OTHER
        }
    } else {
        if l == Locale::Ru {
            STATUS_INACTIVE_RU
        } else {
            STATUS_INACTIVE_OTHER
        }
    }
}

/// Label of the button that opens the payment page.
pub const SUBSCRIBE_BUTTON: &'static str = "💳 Оформить подписку";

/// The language code chosen by a language button's callback data; anything
/// unknown chooses Russian.
pub open spec fn callback_language(data: Seq<char>) -> Seq<char> {
    if data == "lang_en"@ {
        "en"@
    } else if data == "lang_th"@ {
        "th"@
    } else if data == "lang_zh"@ {
        "zh"@
    } else {
        "ru"@
    }
}

/// The language code chosen by a language button's callback data.
pub fn callback_language_code(data: &str) -> (r: &'static str)
    ensures
        r@ == callback_language(data@),
{
    if same_text(data, "lang_en") {
        "en"
    } else if same_text(data, "lang_th") {
        "th"
    } else if same_text(data, "lang_zh") {
        "zh"
    } else {
        "ru"
    }
}

} // verus!
