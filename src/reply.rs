//! Replies that report the day's totals. Totals are sums of amounts in
//! thousandths; they are shown in decimal.
use vstd::prelude::*;
use vstd::string::*;

verus! {

pub open spec fn digit_char(d: nat) -> char {
    if d == 0 {
        '0'
    } else if d == 1 {
        '1'
    } else if d == 2 {
        '2'
    } else if d == 3 {
        '3'
    } else if d == 4 {
        '4'
    } else if d == 5 {
        '5'
    } else if d == 6 {
        '6'
    } else if d == 7 {
        '7'
    } else if d == 8 {
        '8'
    } else {
        '9'
    }
}

/// The decimal digits of `n`, without leading zeros.
pub open spec fn decimal_text(n: nat) -> Seq<char>
    decreases n,
{
    if n < 10 {
        seq![digit_char(n)]
    } else {
        decimal_text(n / 10).push(digit_char(n % 10))
    }
}

/// The digits after the point of `f` thousandths (`0 < f < 1000`), without
/// trailing zeros.
pub open spec fn fraction_text(f: nat) -> Seq<char> {
    if f % 10 != 0 {
        seq![digit_char(f / 100), digit_char(f / 10 % 10), digit_char(f % 10)]
    } else if f / 10 % 10 != 0 {
        seq![digit_char(f / 100), digit_char(f / 10 % 10)]
    } else {
        seq![digit_char(f / 100)]
    }
}

/// An amount given in thousandths, exactly: `12500` reads "12.5".
pub open spec fn amount_text(t: nat) -> Seq<char> {
    if t % 1000 == 0 {
        decimal_text(t / 1000)
    } else {
        decimal_text(t / 1000) + seq!['.'] + fraction_text(t % 1000)
    }
}

/// An amount given in thousandths, rounded half up to a whole unit.
pub open spec fn whole_text(t: nat) -> Seq<char> {
    decimal_text(t / 1000 + if t % 1000 >= 500 {
        1nat
    } else {
        0nat
    })
}

/// An amount given in thousandths, rounded half up to one decimal place.
pub open spec fn tenths_text(t: nat) -> Seq<char> {
    let u = t / 100 + if t % 100 >= 50 {
        1nat
    } else {
        0nat
    };
    decimal_text(u / 10) + seq!['.', digit_char(u % 10)]
}

fn digit_str(d: u128) -> (r: &'static str)
    requires
        d < 10,
    ensures
        r@ == seq![digit_char(d as nat)],
{
    proof {
        reveal_strlit("0");
        reveal_strlit("1");
        reveal_strlit("2");
        reveal_strlit("3");
        reveal_strlit("4");
        reveal_strlit("5");
        reveal_strlit("6");
        reveal_strlit("7");
        reveal_strlit("8");
        reveal_strlit("9");
    }
    let r = if d == 0 {
        "0"
    } else if d == 1 {
        "1"
    } else if d == 2 {
        "2"
    } else if d == 3 {
        "3"
    } else if d == 4 {
        "4"
    } else if d == 5 {
        "5"
    } else if d == 6 {
        "6"
    } else if d == 7 {
        "7"
    } else if d == 8 {
        "8"
    } else {
        "9"
    };
    assert(r@ =~= seq![digit_char(d as nat)]);
    r
}

/// The decimal digits of `n`.
pub fn decimal_string(n: u128) -> (r: String)
    ensures
        r@ == decimal_text(n as nat),
    decreases n,
{
    if n < 10 {
        String::from_str(digit_str(n))
    } else {
        let r = decimal_string(n / 10).concat(digit_str(n % 10));
        assert(r@ =~= decimal_text(n as nat));
        r
    }
}

/// An amount in thousandths, exactly, without trailing zeros.
pub fn amount_string(t: u128) -> (r: String)
    ensures
        r@ == amount_text(t as nat),
{
    let whole = decimal_string(t / 1000);
    let f = t % 1000;
    if f == 0 {
        return whole;
    }
    proof {
        reveal_strlit(".");
    }
    let s = whole.concat(".").concat(digit_str(f / 100));
    let r = if f % 10 != 0 {
        s.concat(digit_str(f / 10 % 10)).concat(digit_str(f % 10))
    } else if f / 10 % 10 != 0 {
        s.concat(digit_str(f / 10 % 10))
    } else {
        s
    };
    assert(r@ =~= amount_text(t as nat));
    r
}

/// An amount in thousandths, rounded half up to a whole unit.
pub fn whole_string(t: u128) -> (r: String)
    ensures
        r@ == whole_text(t as nat),
{
    let up: u128 = if t % 1000 >= 500 {
        1
    } else {
        0
    };
    decimal_string(t / 1000 + up)
}

/// An amount in thousandths, rounded half up to one decimal place.
pub fn tenths_string(t: u128) -> (r: String)
    ensures
        r@ == tenths_text(t as nat),
{
    let up: u128 = if t % 100 >= 50 {
        1
    } else {
        0
    };
    let u = t / 100 + up;
    proof {
        reveal_strlit(".");
    }
    let r = decimal_string(u / 10).concat(".").concat(digit_str(u % 10));
    assert(r@ =~= tenths_text(t as nat));
    r
}

pub const SUMMARY_HEAD: &'static str = "\u{1F4CA} *Daily Summary:*\nKcal: `";
pub const SUMMARY_PROTEIN: &'static str = "`\nProtein: `";
pub const SUMMARY_FAT: &'static str = "`g\nFat: `";
pub const SUMMARY_CARBS: &'static str = "`g\nCarbs: `";
pub const SUMMARY_TAIL: &'static str = "`g";

/// The text of the daily summary for totals in thousandths.
pub fn daily_summary_text(totals: (u128, u128, u128, u128)) -> (r: String)
    ensures
        r@ == SUMMARY_HEAD@ + amount_text(totals.0 as nat) + SUMMARY_PROTEIN@ + amount_text(
            totals.1 as nat,
        ) + SUMMARY_FAT@ + amount_text(totals.2 as nat) + SUMMARY_CARBS@ + amount_text(
            totals.3 as nat,
        ) + SUMMARY_TAIL@,
{
    let r = String::from_str(SUMMARY_HEAD).concat(amount_string(totals.0).as_str()).concat(
        SUMMARY_PROTEIN,
    ).concat(amount_string(totals.1).as_str()).concat(SUMMARY_FAT).concat(
        amount_string(totals.2).as_str(),
    ).concat(SUMMARY_CARBS).concat(amount_string(totals.3).as_str()).concat(SUMMARY_TAIL);
    r
}

pub const LOGGED_HEAD: &'static str = "✅ ";
pub const LOGGED_TODAY: &'static str = "\n📊 Today: ";
pub const LOGGED_PROTEIN: &'static str = " kcal | 🥩 ";
pub const LOGGED_FAT: &'static str = "P / 🧈 ";
pub const LOGGED_CARBS: &'static str = "F / 🍞 ";
pub const LOGGED_TAIL: &'static str = "C";

/// The reply to a logged meal: the service's answer, then the day's totals
/// (calories to the unit, the rest to a tenth).
pub fn logged_meal_text(answer: &str, totals: (u128, u128, u128, u128)) -> (r: String)
    ensures
        r@ == LOGGED_HEAD@ + answer@ + LOGGED_TODAY@ + whole_text(totals.0 as nat)
            + LOGGED_PROTEIN@ + tenths_text(totals.1 as nat) + LOGGED_FAT@ + tenths_text(
            totals.2 as nat,
        ) + LOGGED_CARBS@ + tenths_text(totals.3 as nat) + LOGGED_TAIL@,
{
    String::from_str(LOGGED_HEAD).concat(answer).concat(LOGGED_TODAY).concat(
        whole_string(totals.0).as_str(),
    ).concat(LOGGED_PROTEIN).concat(tenths_string(totals.1).as_str()).concat(LOGGED_FAT).concat(
        tenths_string(totals.2).as_str(),
    ).concat(LOGGED_CARBS).concat(tenths_string(totals.3).as_str()).concat(LOGGED_TAIL)
}

} // verus!
