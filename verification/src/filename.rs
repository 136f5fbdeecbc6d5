//! Timestamped output file names.
//!
//! Photos are saved as `photo_<YYYYMMDD_HHMMSS>.jpg` and video clips as
//! `video_<YYYYMMDD_HHMMSS>.mp4`. The digits come from a wall-clock
//! timestamp; the formatting itself — decimal digits, zero padding, the
//! fixed prefixes and extensions — is verified against the spec functions
//! below.

use vstd::prelude::*;
use vstd::string::StringExecFns;

verus! {

/// A wall-clock instant broken into calendar fields.
#[derive(Clone, Copy, PartialEq, Eq, Structural, Debug)]
pub struct Timestamp {
    pub year: i32,
    pub month: u32,
    pub day: u32,
    pub hour: u32,
    pub minute: u32,
    pub second: u32,
}

impl Timestamp {
    /// The fields lie in the calendar ranges the clock reports.
    pub open spec fn wf(&self) -> bool {
        &&& 1 <= self.month <= 12
        &&& 1 <= self.day <= 31
        &&& self.hour < 24
        &&& self.minute < 60
        &&& self.second < 60
    }
}

/// The character for one decimal digit.
pub open spec fn digit_char(d: nat) -> char {
    if d == 0 {
        '0'
    } else if d == 1 {
        '1'
    } else if d == 2 {
        '2'
    } else if d == 3 {
        '3'
    } else if d == 4 {
        '4'
    } else if d == 5 {
        '5'
    } else if d == 6 {
        '6'
    } else if d == 7 {
        '7'
    } else if d == 8 {
        '8'
    } else {
        '9'
    }
}

/// The decimal digits of `n`, most significant first, no leading zeros.
pub open spec fn dec_digits(n: nat) -> Seq<char>
    decreases n,
{
    if n < 10 {
        seq![digit_char(n)]
    } else {
        dec_digits(n / 10) + seq![digit_char(n % 10)]
    }
}

/// The decimal digits of `n`, left-padded with zeros to at least `width`
/// characters.
pub open spec fn zero_padded(n: nat, width: nat) -> Seq<char> {
    if dec_digits(n).len() >= width {
        dec_digits(n)
    } else {
        Seq::new((width - dec_digits(n).len()) as nat, |i: int| '0') + dec_digits(n)
    }
}

/// The year as at least four digits, with a leading minus sign for years
/// before the epoch.
pub open spec fn year_digits(y: int) -> Seq<char> {
    if y >= 0 {
        zero_padded(y as nat, 4)
    } else {
        seq!['-'] + zero_padded((-y) as nat, 4)
    }
}

/// The `YYYYMMDD_HHMMSS` digit block of a timestamp.
pub open spec fn stamp_digits(t: Timestamp) -> Seq<char> {
    year_digits(t.year as int) + zero_padded(t.month as nat, 2) + zero_padded(t.day as nat, 2)
        + seq!['_'] + zero_padded(t.hour as nat, 2) + zero_padded(t.minute as nat, 2)
        + zero_padded(t.second as nat, 2)
}

/// The file name of a photo taken at `t`.
pub open spec fn photo_file_name(t: Timestamp) -> Seq<char> {
    "photo_"@ + stamp_digits(t) + ".jpg"@
}

/// The file name of a video clip started at `t`.
pub open spec fn video_file_name(t: Timestamp) -> Seq<char> {
    "video_"@ + stamp_digits(t) + ".mp4"@
}

/// How many characters `dec_digits` yields for small and large values.
pub proof fn lemma_dec_digits_len(n: nat)
    ensures
        1 <= dec_digits(n).len(),
        n < 10 ==> dec_digits(n).len() == 1,
        n < 100 ==> dec_digits(n).len() <= 2,
        n < 1000 ==> dec_digits(n).len() <= 3,
        n >= 10 ==> dec_digits(n).len() >= 2,
        n >= 100 ==> dec_digits(n).len() >= 3,
        n >= 1000 ==> dec_digits(n).len() >= 4,
    decreases n,
{
    if n >= 10 {
        lemma_dec_digits_len(n / 10);
    }
}

/// The one-character string for a decimal digit.
fn digit_str(d: u64) -> (r: &'static str)
    requires
        d < 10,
    ensures
        r@ == seq![digit_char(d as nat)],
{
    proof {
        reveal_strlit("0");
        reveal_strlit("1");
        reveal_strlit("2");
        reveal_strlit("3");
        reveal_strlit("4");
        reveal_strlit("5");
        reveal_strlit("6");
        reveal_strlit("7");
        reveal_strlit("8");
        reveal_strlit("9");
    }
    let r = match d {
        0 => "0",
        1 => "1",
        2 => "2",
        3 => "3",
        4 => "4",
        5 => "5",
        6 => "6",
        7 => "7",
        8 => "8",
        _ => "9",
    };
    proof {
        assert(r@ =~= seq![digit_char(d as nat)]);
    }
    r
}

/// Appends the decimal digits of `n` to `s`.
fn push_decimal(s: &mut String, n: u64)
    ensures
        final(s)@ == old(s)@ + dec_digits(n as nat),
    decreases n,
{
    if n >= 10 {
        push_decimal(s, n / 10);
        let d = digit_str(n % 10);
        s.append(d);
        proof {
            assert(s@ =~= old(s)@ + dec_digits(n as nat));
        }
    } else {
        let d = digit_str(n);
        s.append(d);
    }
}

/// Appends `n` zero-padded to at least two digits.
fn push_padded2(s: &mut String, n: u64)
    ensures
        final(s)@ == old(s)@ + zero_padded(n as nat, 2),
{
    proof {
        lemma_dec_digits_len(n as nat);
        reveal_strlit("0");
    }
    if n < 10 {
        s.append("0");
    }
    push_decimal(s, n);
    proof {
        assert(s@ =~= old(s)@ + zero_padded(n as nat, 2));
    }
}

/// Appends `n` zero-padded to at least four digits.
fn push_padded4(s: &mut String, n: u64)
    ensures
        final(s)@ == old(s)@ + zero_padded(n as nat, 4),
{
    proof {
        lemma_dec_digits_len(n as nat);
        reveal_strlit("0");
    }
    if n < 1000 {
        s.append("0");
    }
    if n < 100 {
        s.append("0");
    }
    if n < 10 {
        s.append("0");
    }
    push_decimal(s, n);
    proof {
        assert(s@ =~= old(s)@ + zero_padded(n as nat, 4));
    }
}

/// Appends the year, signed and padded to at least four digits.
fn push_year(s: &mut String, y: i32)
    ensures
        final(s)@ == old(s)@ + year_digits(y as int),
{
    if y < 0 {
        s.append("-");
        let m: u64 = (-(y as i64)) as u64;
        push_padded4(s, m);
        proof {
            reveal_strlit("-");
            assert(s@ =~= old(s)@ + year_digits(y as int));
        }
    } else {
        push_padded4(s, y as u64);
    }
}

/// Appends the `YYYYMMDD_HHMMSS` block of `t`.
fn push_stamp(s: &mut String, t: &Timestamp)
    ensures
        final(s)@ == old(s)@ + stamp_digits(*t),
{
    push_year(s, t.year);
    push_padded2(s, t.month as u64);
    push_padded2(s, t.day as u64);
    s.append("_");
    push_padded2(s, t.hour as u64);
    push_padded2(s, t.minute as u64);
    push_padded2(s, t.second as u64);
    proof {
        reveal_strlit("_");
        assert(s@ =~= old(s)@ + stamp_digits(*t));
    }
}

/// The name under which a photo taken at `t` is saved.
pub fn photo_filename(t: &Timestamp) -> (r: String)
    ensures
        r@ == photo_file_name(*t),
{
    let mut s: String = "photo_".to_owned();
    push_stamp(&mut s, t);
    s.append(".jpg");
    proof {
        assert(s@ =~= photo_file_name(*t));
    }
    s
}

/// The name under which a video clip started at `t` is saved.
pub fn video_filename(t: &Timestamp) -> (r: String)
    ensures
        r@ == video_file_name(*t),
{
    let mut s: String = "video_".to_owned();
    push_stamp(&mut s, t);
    s.append(".mp4");
    proof {
        assert(s@ =~= video_file_name(*t));
    }
    s
}

/// Relies on `chrono::Local::now` and the `chrono::Datelike` /
/// `chrono::Timelike` accessors of the returned moment: `month()` is 1 to
/// 12, `day()` 1 to 31, `hour()` 0 to 23, `minute()` 0 to 59 and
/// `second()` 0 to 59.
#[verifier::external_body]
pub(crate) fn local_timestamp() -> (t: Timestamp)
    ensures
        t.wf(),
{
    let now = chrono::Local::now();
    Timestamp {
        year: chrono::Datelike::year(&now),
        month: chrono::Datelike::month(&now),
        day: chrono::Datelike::day(&now),
        hour: chrono::Timelike::hour(&now),
        minute: chrono::Timelike::minute(&now),
        second: chrono::Timelike::second(&now),
    }
}

} // verus!
