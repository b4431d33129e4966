//! The save filename: `Clipboard YYYY-MM-DD_HH.MM.SS.png`, derived from the
//! local wall-clock time at second granularity and joined to the resolved
//! directory. Nothing beyond that granularity keeps two filenames apart: two
//! captures within the same second name the same file, a documented
//! limitation.

use chrono::Datelike;
use chrono::Timelike;
use vstd::prelude::*;

use crate::paths::path_join;
use crate::paths::path_join_chars;

verus! {

/// A local civil timestamp at second granularity. The year is the absolute
/// (common-era) year number.
#[derive(Clone, Copy, Debug, PartialEq, Eq, Structural)]
pub struct Timestamp {
    pub year: u32,
    pub month: u32,
    pub day: u32,
    pub hour: u32,
    pub minute: u32,
    pub second: u32,
}

impl Timestamp {
    /// The component ranges a civil clock reading satisfies.
    pub open spec fn wf(self) -> bool {
        &&& 1 <= self.month <= 12
        &&& 1 <= self.day <= 31
        &&& self.hour < 24
        &&& self.minute < 60
        &&& self.second < 60
    }
}

/// The decimal digit character for a value below ten.
pub open spec fn digit_char(d: int) -> char {
    if d == 0 {
        '0'
    } else if d == 1 {
        '1'
    } else if d == 2 {
        '2'
    } else if d == 3 {
        '3'
    } else if d == 4 {
        '4'
    } else if d == 5 {
        '5'
    } else if d == 6 {
        '6'
    } else if d == 7 {
        '7'
    } else if d == 8 {
        '8'
    } else {
        '9'
    }
}

/// The decimal digits of a number, most significant first, no leading zero.
pub open spec fn dec_chars(n: nat) -> Seq<char>
    decreases n,
{
    if n < 10 {
        seq![digit_char(n as int)]
    } else {
        dec_chars(n / 10) + seq![digit_char((n % 10) as int)]
    }
}

/// A number below one hundred, zero-padded to two digits.
pub open spec fn two_digit_chars(n: nat) -> Seq<char> {
    if n < 10 {
        seq!['0'] + dec_chars(n)
    } else {
        dec_chars(n)
    }
}

/// A year, zero-padded to at least four digits.
pub open spec fn year_chars(y: nat) -> Seq<char> {
    if y < 10 {
        seq!['0', '0', '0'] + dec_chars(y)
    } else if y < 100 {
        seq!['0', '0'] + dec_chars(y)
    } else if y < 1000 {
        seq!['0'] + dec_chars(y)
    } else {
        dec_chars(y)
    }
}

/// The single digit character of a value below ten.
fn digit_str(d: u32) -> (r: &'static str)
    requires
        d < 10,
    ensures
        r@ == seq![digit_char(d as int)],
{
    let r: &'static str = match d {
        0 => "0",
        1 => "1",
        2 => "2",
        3 => "3",
        4 => "4",
        5 => "5",
        6 => "6",
        7 => "7",
        8 => "8",
        _ => "9",
    };
    proof {
        reveal_strlit("0");
        reveal_strlit("1");
        reveal_strlit("2");
        reveal_strlit("3");
        reveal_strlit("4");
        reveal_strlit("5");
        reveal_strlit("6");
        reveal_strlit("7");
        reveal_strlit("8");
        reveal_strlit("9");
        assert(r@ =~= seq![digit_char(d as int)]);
    }
    r
}

/// The decimal rendering of a number, most significant digit first.
pub fn dec_string(n: u32) -> (r: String)
    ensures
        r@ == dec_chars(n as nat),
    decreases n,
{
    if n < 10 {
        digit_str(n).to_owned()
    } else {
        let mut s = dec_string(n / 10);
        s.append(digit_str(n % 10));
        proof {
            assert(s@ =~= dec_chars(n as nat));
        }
        s
    }
}

/// The two-digit zero-padded rendering of a value below one hundred.
pub fn two_digit_string(n: u32) -> (r: String)
    requires
        n < 100,
    ensures
        r@ == two_digit_chars(n as nat),
{
    if n < 10 {
        let mut s = "0".to_owned();
        s.append(digit_str(n));
        proof {
            reveal_strlit("0");
            assert(s@ =~= two_digit_chars(n as nat));
        }
        s
    } else {
        dec_string(n)
    }
}

/// The rendering of a year, zero-padded to at least four digits.
pub fn year_string(y: u32) -> (r: String)
    ensures
        r@ == year_chars(y as nat),
{
    if y < 10 {
        let mut s = "000".to_owned();
        s.append(digit_str(y));
        proof {
            reveal_strlit("000");
            assert(s@ =~= year_chars(y as nat));
        }
        s
    } else if y < 100 {
        let mut s = "00".to_owned();
        s.append(dec_string(y).as_str());
        proof {
            reveal_strlit("00");
            assert(s@ =~= year_chars(y as nat));
        }
        s
    } else if y < 1000 {
        let mut s = "0".to_owned();
        s.append(dec_string(y).as_str());
        proof {
            reveal_strlit("0");
            assert(s@ =~= year_chars(y as nat));
        }
        s
    } else {
        dec_string(y)
    }
}

/// The bare filename for a capture taken at the given instant.
pub open spec fn filename_chars(ts: Timestamp) -> Seq<char> {
    "Clipboard "@ + year_chars(ts.year as nat) + seq!['-'] + two_digit_chars(ts.month as nat)
        + seq!['-'] + two_digit_chars(ts.day as nat) + seq!['_'] + two_digit_chars(ts.hour as nat)
        + seq!['.'] + two_digit_chars(ts.minute as nat) + seq!['.'] + two_digit_chars(
        ts.second as nat,
    ) + ".png"@
}

/// The full save path: the resolved directory joined with the filename for
/// the given instant.
pub open spec fn save_path_chars(directory: Seq<char>, ts: Timestamp) -> Seq<char> {
    path_join_chars(directory, filename_chars(ts))
}

/// Renders the filename for a capture taken at the given instant.
pub fn format_filename(ts: &Timestamp) -> (r: String)
    requires
        ts.wf(),
    ensures
        r@ == filename_chars(*ts),
{
    let mut s = "Clipboard ".to_owned();
    s.append(year_string(ts.year).as_str());
    s.append("-");
    s.append(two_digit_string(ts.month).as_str());
    s.append("-");
    s.append(two_digit_string(ts.day).as_str());
    s.append("_");
    s.append(two_digit_string(ts.hour).as_str());
    s.append(".");
    s.append(two_digit_string(ts.minute).as_str());
    s.append(".");
    s.append(two_digit_string(ts.second).as_str());
    s.append(".png");
    proof {
        reveal_strlit("Clipboard ");
        reveal_strlit("-");
        reveal_strlit("_");
        reveal_strlit(".");
        reveal_strlit(".png");
        assert(("-")@ =~= seq!['-']);
        assert(("_")@ =~= seq!['_']);
        assert((".")@ =~= seq!['.']);
        assert(s@ =~= filename_chars(*ts));
    }
    s
}

/// Relies on `chrono::Local::now` with the `Datelike` and `Timelike`
/// accessors: the current local civil time, whose month, day, hour, minute
/// and second lie in their documented ranges; the year is the absolute
/// common-era year number from `year_ce`. Which instant comes back depends on
/// the clock alone; on a system clock set before 1970 the read aborts rather
/// than returns.
#[verifier::external_body]
fn local_now() -> (r: Timestamp)
    ensures
        r.wf(),
{
    let now = chrono::Local::now();
    Timestamp {
        year: now.year_ce().1,
        month: now.month(),
        day: now.day(),
        hour: now.hour(),
        minute: now.minute(),
        second: now.second(),
    }
}

/// The save path for a capture taken at the given instant.
pub fn save_filename_at(directory: &str, ts: &Timestamp) -> (r: String)
    requires
        ts.wf(),
    ensures
        r@ == save_path_chars(directory@, *ts),
{
    let name = format_filename(ts);
    path_join(directory, name.as_str())
}

/// The save path for a capture taken now: the directory joined with a
/// timestamped filename for some valid instant the clock reported.
pub fn get_save_filename(directory: &str) -> (r: String)
    ensures
        exists|ts: Timestamp| ts.wf() && r@ == save_path_chars(directory@, ts),
{
    let ts = local_now();
    let r = save_filename_at(directory, &ts);
    proof {
        assert(ts.wf() && r@ == save_path_chars(directory@, ts));
    }
    r
}

/// Two captures within the same wall-clock second (equal timestamp
/// components) name the identical file: the filename carries nothing finer
/// than the second, so the later write overwrites the earlier one.
pub proof fn lemma_same_second_same_filename(directory: Seq<char>, t1: Timestamp, t2: Timestamp)
    requires
        t1.year == t2.year,
        t1.month == t2.month,
        t1.day == t2.day,
        t1.hour == t2.hour,
        t1.minute == t2.minute,
        t1.second == t2.second,
    ensures
        save_path_chars(directory, t1) == save_path_chars(directory, t2),
{
    assert(t1 == t2);
}

} // verus!
