//! Calendar dates, and what the date crates compute on them.
use vstd::prelude::*;
use chrono::Datelike;

verus! {

/// A day of the proleptic Gregorian calendar.
#[derive(Clone, Copy, PartialEq, Eq, Structural, Debug)]
pub struct Date {
    pub year: i32,
    pub month: u32,
    pub day: u32,
}

pub open spec fn is_leap_year(y: int) -> bool {
    (y % 4 == 0 && y % 100 != 0) || y % 400 == 0
}

pub open spec fn days_in_month(y: int, m: int) -> int {
    if m == 2 {
        if is_leap_year(y) { 29 } else { 28 }
    } else if m == 4 || m == 6 || m == 9 || m == 11 {
        30
    } else {
        31
    }
}

impl Date {
    /// A real day, within the years that chrono represents.
    pub open spec fn valid(self) -> bool {
        &&& -262143 <= self.year <= 262142
        &&& 1 <= self.month <= 12
        &&& 1 <= self.day <= days_in_month(self.year as int, self.month as int)
    }
}

/// The day that natural-language `text` names, read relative to the day `year`-`month`-`day`.
pub uninterp spec fn date_relative(text: Seq<char>, year: int, month: int, day: int) -> Option<Date>;

/// The date as chrono writes it with `%Y%m%d`.
pub uninterp spec fn compact_of(year: int, month: int, day: int) -> Seq<char>;

/// The date as chrono displays it, `%Y-%m-%d`.
pub uninterp spec fn iso_of(year: int, month: int, day: int) -> Seq<char>;

/// The decimal digits of `n`, zero-padded on the left to `width`.
pub open spec fn padded(n: nat, width: nat) -> Seq<char>
    decreases width,
{
    if width == 0 {
        Seq::empty()
    } else {
        padded(n / 10, (width - 1) as nat).push(((n % 10) + ('0' as nat)) as char)
    }
}

/// Relies on `chrono::Local::now`: today's date in the machine's time zone.
#[verifier::external_body]
pub(crate) fn local_today() -> (r: Date)
    ensures
        r.valid(),
{
    let now = chrono::Local::now().date_naive();
    Date { year: now.year(), month: now.month(), day: now.day() }
}

pub open spec fn is_ascii_digit(c: char) -> bool {
    '0' <= c <= '9'
}

pub open spec fn all_digits(s: Seq<char>) -> bool {
    forall|i: int| 0 <= i < s.len() ==> is_ascii_digit(#[trigger] s[i])
}

/// The decimal value of a run of digits.
pub open spec fn digits_value(s: Seq<char>) -> int
    decreases s.len(),
{
    if s.len() == 0 {
        0
    } else {
        digits_value(s.drop_last()) * 10 + (s.last() as int - '0' as int)
    }
}

/// `month`-`day` is a real day of `year`.
pub open spec fn real_day(year: int, month: int, day: int) -> bool {
    1 <= month <= 12 && 1 <= day <= days_in_month(year, month)
}

/// The word `month`, in any case, starts at `i`.
pub open spec fn month_word_at(t: Seq<char>, i: int) -> bool {
    &&& 0 <= i && i + 5 <= t.len()
    &&& (t[i] == 'm' || t[i] == 'M')
    &&& (t[i + 1] == 'o' || t[i + 1] == 'O')
    &&& (t[i + 2] == 'n' || t[i + 2] == 'N')
    &&& (t[i + 3] == 't' || t[i + 3] == 'T')
    &&& (t[i + 4] == 'h' || t[i + 4] == 'H')
}

/// A phrase with no number in it: plain ASCII, no digit, no word `month`. Such a phrase
/// resolves, if at all, to a day within two weeks of today.
pub open spec fn wordy_phrase(t: Seq<char>) -> bool {
    &&& forall|i: int| 0 <= i < t.len() ==> (#[trigger] t[i] as int) < 128
    &&& forall|i: int| 0 <= i < t.len() ==> !is_ascii_digit(#[trigger] t[i])
    &&& forall|i: int| 0 <= i < t.len() ==> !#[trigger] month_word_at(t, i)
}

/// Where the slash of a `month/day` phrase stands.
pub open spec fn slash_index(t: Seq<char>) -> int {
    if t.len() > 1 && t[1] == '/' { 1 } else { 2 }
}

/// A phrase `M/D` of one or two digits each that names a real day of `year`.
pub open spec fn month_day_phrase(t: Seq<char>, year: int) -> bool {
    let k = slash_index(t);
    &&& 3 <= t.len() <= 5
    &&& t[k] == '/'
    &&& 1 <= t.len() - k - 1 <= 2
    &&& all_digits(t.take(k))
    &&& all_digits(t.skip(k + 1))
    &&& real_day(year, digits_value(t.take(k)), digits_value(t.skip(k + 1)))
}

/// The phrases that the date parser reads without panicking, relative to `today`: `today`
/// is far from the ends of chrono's range, and the phrase either holds no number or is a
/// real `month/day` of this year.
pub open spec fn readable_phrase(t: Seq<char>, today: Date) -> bool {
    &&& -262000 <= today.year <= 262000
    &&& (wordy_phrase(t) || month_day_phrase(t, today.year as int))
}

/// Tests `readable_phrase`.
pub fn is_readable_phrase(text: &str, today: &Date) -> (r: bool)
    ensures
        r == readable_phrase(text@, *today),
{
    if today.year < -262000 || today.year > 262000 {
        return false;
    }
    let t = Ghost(text@);
    let n = text.unicode_len();
    let mut wordy = true;
    let mut i: usize = 0;
    while i < n
        invariant
            n == t@.len(),
            t@ == text@,
            i <= n,
            wordy == (forall|j: int|
                0 <= j < i ==> (#[trigger] t@[j] as int) < 128 && !is_ascii_digit(t@[j])
                    && !month_word_at(t@, j)),
        decreases n - i,
    {
        let c = text.get_char(i);
        let mut month_here = false;
        if n - i >= 5 {
            let c1 = text.get_char(i + 1);
            let c2 = text.get_char(i + 2);
            let c3 = text.get_char(i + 3);
            let c4 = text.get_char(i + 4);
            month_here = (c == 'm' || c == 'M') && (c1 == 'o' || c1 == 'O') && (c2 == 'n' || c2
                == 'N') && (c3 == 't' || c3 == 'T') && (c4 == 'h' || c4 == 'H');
        }
        assert(month_here == month_word_at(t@, i as int));
        if (c as u32) >= 128 || ('0' <= c && c <= '9') || month_here {
            wordy = false;
        }
        i = i + 1;
    }
    if wordy {
        return true;
    }
    proof {
        assert(!wordy_phrase(t@));
    }
    if n < 3 || n > 5 {
        return false;
    }
    let k: usize = if text.get_char(1) == '/' { 1 } else { 2 };
    assert(k as int == slash_index(t@));
    if text.get_char(k) != '/' || n - k - 1 > 2 {
        return false;
    }
    let ghost head = t@.take(k as int);
    let ghost tail = t@.skip(k + 1);
    let mut month: u32 = 0;
    let mut j: usize = 0;
    while j < k
        invariant
            j <= k <= 2,
            k < n,
            t@ == text@,
            n == t@.len(),
            head == t@.take(k as int),
            k as int == slash_index(t@),
            !wordy_phrase(t@),
            -262000 <= today.year <= 262000,
            all_digits(head.take(j as int)),
            month as int == digits_value(head.take(j as int)),
            j == 0 ==> month == 0,
            j == 1 ==> month < 10,
            month < 100,
        decreases k - j,
    {
        let c = text.get_char(j);
        if !('0' <= c && c <= '9') {
            assert(head[j as int] == c);
            assert(!all_digits(head));
            assert(!month_day_phrase(t@, today.year as int));
            return false;
        }
        assert(head.take(j + 1).drop_last() == head.take(j as int));
        month = month * 10 + (c as u32 - '0' as u32);
        j = j + 1;
    }
    assert(head.take(k as int) == head);
    let mut day: u32 = 0;
    let mut j: usize = k + 1;
    while j < n
        invariant
            k + 1 <= j <= n,
            n - k - 1 <= 2,
            t@ == text@,
            n == t@.len(),
            tail == t@.skip(k + 1),
            k as int == slash_index(t@),
            !wordy_phrase(t@),
            -262000 <= today.year <= 262000,
            all_digits(tail.take(j - k - 1)),
            day as int == digits_value(tail.take(j - k - 1)),
            j == k + 1 ==> day == 0,
            j == k + 2 ==> day < 10,
            day < 100,
        decreases n - j,
    {
        let c = text.get_char(j);
        if !('0' <= c && c <= '9') {
            assert(tail[j - k - 1] == c);
            assert(!all_digits(tail));
            assert(!month_day_phrase(t@, today.year as int));
            return false;
        }
        assert(tail.take(j - k).drop_last() == tail.take(j - k - 1));
        assert(tail.take(j - k).last() == c);
        day = day * 10 + (c as u32 - '0' as u32);
        j = j + 1;
    }
    assert(tail.take(n - k - 1) == tail);
    if month < 1 || month > 12 || day < 1 {
        return false;
    }
    let y = today.year;
    let leap = (y % 4 == 0 && y % 100 != 0) || y % 400 == 0;
    let last: u32 = if month == 2 {
        if leap { 29 } else { 28 }
    } else if month == 4 || month == 6 || month == 9 || month == 11 {
        30
    } else {
        31
    };
    assert(leap == is_leap_year(y as int)) by {
        assert((y % 4 == 0) == ((y as int) % 4 == 0));
    }
    day <= last
}

/// Relies on `date_time_parser::DateParser::parse_relative`: the date that `text` names,
/// relative to `today`. It panics on some phrases (an impossible day, a month number
/// past twelve, a month step that overflows, a non-ASCII digit); `readable_phrase`
/// admits none of them.
#[verifier::external_body]
pub(crate) fn parse_relative(text: &str, today: &Date) -> (r: Option<Date>)
    requires
        today.valid(),
        readable_phrase(text@, *today),
    ensures
        r == date_relative(text@, today.year as int, today.month as int, today.day as int),
        r matches Some(d) ==> d.valid(),
{
    let now = chrono::NaiveDate::from_ymd_opt(today.year, today.month, today.day).unwrap();
    date_time_parser::DateParser::parse_relative(text, now).map(
        |d| Date { year: d.year(), month: d.month(), day: d.day() },
    )
}

/// Relies on chrono's `NaiveDate::format` with `%Y%m%d`: four digits of year, two of
/// month, two of day, for the years 0 to 9999.
#[verifier::external_body]
pub(crate) fn compact_text(d: &Date) -> (r: String)
    requires
        d.valid(),
    ensures
        r@ == compact_of(d.year as int, d.month as int, d.day as int),
        0 <= d.year <= 9999 ==> r@ == padded(d.year as nat, 4) + padded(d.month as nat, 2)
            + padded(d.day as nat, 2),
{
    chrono::NaiveDate::from_ymd_opt(d.year, d.month, d.day).unwrap().format("%Y%m%d").to_string()
}

/// Relies on chrono's `Display` of `NaiveDate`: `%Y-%m-%d`, for the years 0 to 9999.
#[verifier::external_body]
pub(crate) fn iso_text(d: &Date) -> (r: String)
    requires
        d.valid(),
    ensures
        r@ == iso_of(d.year as int, d.month as int, d.day as int),
        0 <= d.year <= 9999 ==> r@ == padded(d.year as nat, 4) + seq!['-'] + padded(
            d.month as nat,
            2,
        ) + seq!['-'] + padded(d.day as nat, 2),
{
    chrono::NaiveDate::from_ymd_opt(d.year, d.month, d.day).unwrap().to_string()
}

} // verus!
