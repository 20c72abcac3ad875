//! Folders of the dataset and the time stamps that name saved images.

use std::time::{Duration, SystemTime};

use vstd::prelude::*;

verus! {

/// A folder of the dataset.
#[derive(Clone, Copy, Debug, PartialEq, Eq, Structural)]
pub enum DatasetDir {
    Root,
    Recordings,
    Rune,
}

/// The name of a dataset folder's subfolder of the dataset root, if any.
pub open spec fn subfolder_name(dir: DatasetDir) -> Option<Seq<char>> {
    match dir {
        DatasetDir::Root => None,
        DatasetDir::Recordings => Some("recordings"@),
        DatasetDir::Rune => Some("rune"@),
    }
}

/// Whether `s` is a non-empty run of lowercase ASCII letters.
pub open spec fn is_plain_name(s: Seq<char>) -> bool {
    s.len() > 0 && forall|i: int| 0 <= i < s.len() ==> 'a' <= #[trigger] s[i] <= 'z'
}

/// Whether `s` starts with the verbatim path prefix `\\?\`, under which
/// Windows normalises a path that something is pushed onto.
pub open spec fn has_verbatim_prefix(s: Seq<char>) -> bool {
    s.len() >= 4 && s[0] == '\\' && s[1] == '\\' && s[2] == '?' && s[3] == '\\'
}

/// Whether `r` is the path `base` joined with the relative name `name`: the
/// name at the end; for an empty base the name alone; for a base without a
/// verbatim prefix the base, a separator `/` or `\` where one is needed,
/// and the name. A separator is needed unless the base ends with one, and is
/// always added after a base that ends with neither a separator nor `:`.
pub open spec fn is_joined(base: Seq<char>, name: Seq<char>, r: Seq<char>) -> bool {
    &&& name.len() <= r.len()
    &&& r.subrange(r.len() - name.len(), r.len() as int) == name
    &&& base.len() == 0 ==> r == name
    &&& (base.len() > 0 && !has_verbatim_prefix(base)) ==> {
        let last = base[base.len() - 1];
        &&& r == base + name || r == base + seq!['/'] + name || r == base + seq!['\\'] + name
        &&& last == '/' ==> r == base + name
        &&& (last != '/' && last != '\\' && last != ':') ==> (r == base + seq!['/'] + name || r
            == base + seq!['\\'] + name)
    }
}

/// Joins a relative folder name to a path with [`std::path::Path::join`],
/// which pushes the name onto the path: the path, then a separator if one is
/// needed, then the name. The separator is the platform's, `/` or `\`. How a
/// base with a verbatim prefix is normalised is not stated; the result still
/// ends with the name.
#[verifier::external_body]
fn path_join(base: &str, name: &str) -> (r: String)
    requires
        is_plain_name(name@),
    ensures
        is_joined(base@, name@, r@),
{
    std::path::Path::new(base).join(name).to_string_lossy().into_owned()
}

impl DatasetDir {
    /// The folder of this dataset folder under the dataset root `root`.
    pub fn to_folder(&self, root: &str) -> (r: String)
        ensures
            match subfolder_name(*self) {
                None => r@ == root@,
                Some(name) => is_joined(root@, name, r@),
            },
    {
        match self {
            DatasetDir::Root => String::from_str(root),
            DatasetDir::Recordings => {
                proof {
                    reveal_strlit("recordings");
                }
                path_join(root, "recordings")
            },
            DatasetDir::Rune => {
                proof {
                    reveal_strlit("rune");
                }
                path_join(root, "rune")
            },
        }
    }
}

/// The decimal digit `d`.
pub open spec fn digit_char(d: int) -> char {
    if d == 0 {
        '0'
    } else if d == 1 {
        '1'
    } else if d == 2 {
        '2'
    } else if d == 3 {
        '3'
    } else if d == 4 {
        '4'
    } else if d == 5 {
        '5'
    } else if d == 6 {
        '6'
    } else if d == 7 {
        '7'
    } else if d == 8 {
        '8'
    } else {
        '9'
    }
}

/// The decimal representation of `n`, without leading zeros.
pub open spec fn decimal(n: nat) -> Seq<char>
    decreases n,
{
    if n < 10 {
        seq![digit_char(n as int)]
    } else {
        decimal(n / 10) + seq![digit_char((n % 10) as int)]
    }
}

fn digit_str(d: u128) -> (s: &'static str)
    requires
        d < 10,
    ensures
        s@ == seq![digit_char(d as int)],
{
    proof {
        reveal_strlit("0");
        reveal_strlit("1");
        reveal_strlit("2");
        reveal_strlit("3");
        reveal_strlit("4");
        reveal_strlit("5");
        reveal_strlit("6");
        reveal_strlit("7");
        reveal_strlit("8");
        reveal_strlit("9");
    }
    if d == 0 {
        "0"
    } else if d == 1 {
        "1"
    } else if d == 2 {
        "2"
    } else if d == 3 {
        "3"
    } else if d == 4 {
        "4"
    } else if d == 5 {
        "5"
    } else if d == 6 {
        "6"
    } else if d == 7 {
        "7"
    } else if d == 8 {
        "8"
    } else {
        "9"
    }
}

/// The decimal representation of `n`.
pub fn decimal_string(n: u128) -> (s: String)
    ensures
        s@ == decimal(n as nat),
    decreases n,
{
    if n < 10 {
        String::from_str(digit_str(n))
    } else {
        let prefix = decimal_string(n / 10);
        prefix.concat(digit_str(n % 10))
    }
}

#[verifier::external_type_specification]
#[verifier::external_body]
pub struct ExSystemTime(SystemTime);

/// Reads the clock with [`SystemTime::now`]; nothing is claimed of the time.
#[verifier::external_body]
fn system_time_now() -> SystemTime {
    SystemTime::now()
}

/// The time elapsed from the Unix epoch to `t` with
/// [`SystemTime::duration_since`]; `None` where `t` is before the epoch. Nothing
/// is claimed of the duration.
#[verifier::external_body]
fn duration_since_epoch(t: SystemTime) -> Option<Duration> {
    t.duration_since(SystemTime::UNIX_EPOCH).ok()
}

/// The whole milliseconds of `d` with [`Duration::as_millis`]; nothing is
/// claimed of the value.
#[verifier::external_body]
fn duration_millis(d: Duration) -> u128 {
    d.as_millis()
}

/// The milliseconds since the Unix epoch, in decimal; `None` where the clock
/// is before the epoch.
pub fn epoch_millis_as_string() -> (r: Option<String>)
    ensures
        r matches Some(s) ==> exists|n: u128| s@ == decimal(n as nat),
{
    match duration_since_epoch(system_time_now()) {
        Some(d) => {
            let millis = duration_millis(d);
            let s = decimal_string(millis);
            Some(s)
        },
        None => None,
    }
}

/// The file name of an image saved at `millis` milliseconds since the epoch.
pub open spec fn image_file_name(millis: nat) -> Seq<char> {
    decimal(millis) + ".png"@
}

/// The file name of an image saved at `millis` milliseconds since the epoch.
pub fn image_file_name_at(millis: u128) -> (r: String)
    ensures
        r@ == image_file_name(millis as nat),
{
    let s = decimal_string(millis);
    s.concat(".png")
}

} // verus!

verus! {

/// `digits` padded with zeros on the left to at least two characters.
pub open spec fn pad2(digits: Seq<char>) -> Seq<char> {
    if digits.len() < 2 {
        seq!['0'] + digits
    } else {
        digits
    }
}

/// `hours:minutes:seconds` of a duration of `secs` seconds, each at least two digits.
pub open spec fn clock_text(secs: nat) -> Seq<char> {
    pad2(decimal(secs / 3600)) + ":"@ + pad2(decimal((secs / 60) % 60)) + ":"@ + pad2(
        decimal(secs % 60),
    )
}

fn padded(n: u64) -> (s: String)
    ensures
        s@ == pad2(decimal(n as nat)),
{
    let digits = decimal_string(n as u128);
    if digits.as_str().unicode_len() < 2 {
        let zero = String::from_str("0");
        proof {
            reveal_strlit("0");
        }
        zero.concat(digits.as_str())
    } else {
        digits
    }
}

/// Formats a duration of `secs` seconds as `hours:minutes:seconds`.
pub fn duration_from(secs: u64) -> (s: String)
    ensures
        s@ == clock_text(secs as nat),
{
    let seconds = secs % 60;
    let minutes = (secs / 60) % 60;
    let hours = (secs / 60) / 60;
    assert((secs as nat / 60) / 60 == secs as nat / 3600) by (nonlinear_arith);
    let text = padded(hours);
    let text = text.concat(":");
    let text = text.concat(padded(minutes).as_str());
    let text = text.concat(":");
    let text = text.concat(padded(seconds).as_str());
    proof {
        reveal_strlit(":");
    }
    text
}

} // verus!
