//! Text: numbers in decimal, and views of the texts in a value.

use vstd::prelude::*;
use vstd::string::{StrSliceExecFns, StringExecFns};

verus! {

/// The character of a decimal digit.
pub open spec fn digit_char(d: nat) -> char {
    ('0' as nat + d) as char
}

/// A number in decimal, without leading zeros.
pub open spec fn decimal(n: nat) -> Seq<char>
    decreases n,
{
    if n < 10 {
        seq![digit_char(n)]
    } else {
        decimal(n / 10).push(digit_char(n % 10))
    }
}

/// A number in decimal, with a minus sign where it is negative.
pub open spec fn signed_decimal(n: int) -> Seq<char> {
    if n < 0 {
        "-"@ + decimal((-n) as nat)
    } else {
        decimal(n as nat)
    }
}

fn digit(d: u8) -> (r: &'static str)
    requires
        d < 10,
    ensures
        r@ == seq![digit_char(d as nat)],
{
    proof {
        reveal_strlit("0");
        reveal_strlit("1");
        reveal_strlit("2");
        reveal_strlit("3");
        reveal_strlit("4");
        reveal_strlit("5");
        reveal_strlit("6");
        reveal_strlit("7");
        reveal_strlit("8");
        reveal_strlit("9");
    }
    let r: &'static str = match d {
        0 => "0",
        1 => "1",
        2 => "2",
        3 => "3",
        4 => "4",
        5 => "5",
        6 => "6",
        7 => "7",
        8 => "8",
        _ => "9",
    };
    assert(r@ =~= seq![digit_char(d as nat)]);
    r
}

/// Writes a number in decimal.
pub fn decimal_text(n: u128) -> (r: String)
    ensures
        r@ == decimal(n as nat),
    decreases n,
{
    if n < 10 {
        digit(n as u8).to_owned()
    } else {
        let mut s = decimal_text(n / 10);
        let ghost head = s@;
        s.append(digit((n % 10) as u8));
        assert(s@ =~= head.push(digit_char((n % 10) as nat)));
        s
    }
}

/// Writes a number in decimal, with a minus sign where it is negative.
pub fn signed_text(n: i64) -> (r: String)
    ensures
        r@ == signed_decimal(n as int),
{
    if n < 0 {
        let mut s = "-".to_owned();
        let magnitude: u128 = (-(n as i128)) as u128;
        s.append(decimal_text(magnitude).as_str());
        s
    } else {
        decimal_text(n as u128)
    }
}

/// Two numbers that are written alike are equal.
pub proof fn decimal_tells_apart(a: nat, b: nat)
    requires
        decimal(a) == decimal(b),
    ensures
        a == b,
    decreases a,
{
    let da = decimal(a);
    let db = decimal(b);
    assert(da.last() == digit_char(a % 10));
    assert(db.last() == digit_char(b % 10));
    if a < 10 && b < 10 {
    } else if a >= 10 && b >= 10 {
        assert(da.drop_last() =~= decimal(a / 10));
        assert(db.drop_last() =~= decimal(b / 10));
        decimal_tells_apart(a / 10, b / 10);
    } else {
        let big = if a < 10 { b } else { a };
        decimal_is_not_empty(big / 10);
        assert(decimal(big).len() >= 2);
    }
}

/// A number that is not negative is written without a dash.
pub proof fn decimal_holds_no_dash(n: nat)
    ensures
        forall|i: int| 0 <= i < decimal(n).len() ==> #[trigger] decimal(n)[i] != '-',
    decreases n,
{
    if n >= 10 {
        decimal_holds_no_dash(n / 10);
        assert forall|i: int| 0 <= i < decimal(n).len() implies #[trigger] decimal(n)[i] != '-' by {
            if i < decimal(n / 10).len() {
                assert(decimal(n)[i] == decimal(n / 10)[i]);
            }
        }
    }
}

proof fn decimal_is_not_empty(n: nat)
    ensures
        decimal(n).len() > 0,
{
}

/// Writes two texts one after the other.
pub(crate) fn cat2(a: &str, b: &str) -> (r: String)
    ensures
        r@ == a@ + b@,
{
    let mut s = a.to_owned();
    s.append(b);
    s
}

/// Writes three texts one after the other.
pub(crate) fn cat3(a: &str, b: &str, c: &str) -> (r: String)
    ensures
        r@ == a@ + b@ + c@,
{
    let mut s = cat2(a, b);
    s.append(c);
    s
}

/// Writes four texts one after the other.
pub(crate) fn cat4(a: &str, b: &str, c: &str, d: &str) -> (r: String)
    ensures
        r@ == a@ + b@ + c@ + d@,
{
    let mut s = cat3(a, b, c);
    s.append(d);
    s
}

/// Writes five texts one after the other.
pub(crate) fn cat5(a: &str, b: &str, c: &str, d: &str, e: &str) -> (r: String)
    ensures
        r@ == a@ + b@ + c@ + d@ + e@,
{
    let mut s = cat4(a, b, c, d);
    s.append(e);
    s
}

/// A text between quotation marks, as the debug form of a string shows it.
pub uninterp spec fn quoted(s: Seq<char>) -> Seq<char>;

/// The `Debug` impl of `str`: the text between quotation marks, with what needs
/// it escaped.
#[verifier::external_body]
pub(crate) fn quote(s: &str) -> (r: String)
    ensures
        r@ == quoted(s@),
{
    format!("{s:?}")
}

/// A time span as its debug form shows it, such as `60s` or `1.5s`.
pub uninterp spec fn span_text(secs: u64, nanos: u32) -> Seq<char>;

/// The `Debug` impl of `std::time::Duration`, of the span that `Duration::new`
/// makes. It carries whole seconds out of `nanos`, which it is not given here.
#[verifier::external_body]
pub(crate) fn span_debug(secs: u64, nanos: u32) -> (r: String)
    requires
        nanos < 1_000_000_000,
    ensures
        r@ == span_text(secs, nanos),
{
    format!("{:?}", std::time::Duration::new(secs, nanos))
}

/// Where `file` lies in the directory `dir`: an absolute path stands for
/// itself, any other is put behind the directory and one slash.
pub open spec fn path_in(dir: Seq<char>, file: Seq<char>) -> Seq<char> {
    if file.len() > 0 && file[0] == '/' {
        file
    } else if dir.len() == 0 || dir.last() == '/' {
        dir + file
    } else {
        dir + "/"@ + file
    }
}

/// Where `file` lies in the directory `dir`.
pub fn join_path(dir: &str, file: &str) -> (r: String)
    ensures
        r@ == path_in(dir@, file@),
{
    let file_len: usize = file.unicode_len();
    let dir_len: usize = dir.unicode_len();
    if file_len > 0 && file.get_char(0) == '/' {
        file.to_owned()
    } else if dir_len == 0 || dir.get_char(dir_len - 1) == '/' {
        cat2(dir, file)
    } else {
        cat3(dir, "/", file)
    }
}

/// The views of a list of texts, one by one.
pub open spec fn views(texts: Seq<String>) -> Seq<Seq<char>> {
    texts.map_values(|s: String| s@)
}

/// The view of a text that may be absent.
pub open spec fn option_view(o: Option<String>) -> Option<Seq<char>> {
    match o {
        Some(s) => Some(s@),
        None => None,
    }
}

/// A text that may be absent, and then is empty.
pub open spec fn or_empty(o: Option<Seq<char>>) -> Seq<char> {
    match o {
        Some(s) => s,
        None => Seq::empty(),
    }
}

/// The view of a result that is a text either way.
pub open spec fn result_view(r: Result<String, String>) -> Result<Seq<char>, Seq<char>> {
    match r {
        Ok(s) => Ok(s@),
        Err(e) => Err(e@),
    }
}

/// The number that a text of decimal digits says.
pub open spec fn said(s: Seq<char>) -> int
    decreases s.len(),
{
    if s.len() == 0 {
        0
    } else {
        10 * said(s.drop_last()) + (s.last() as int - '0' as int)
    }
}

/// What is written in decimal says the number that it was written for, in digits
/// alone and without a leading zero.
pub proof fn decimal_reads_back(n: nat)
    ensures
        said(decimal(n)) == n,
        decimal(n).len() > 0,
        forall|i: int| 0 <= i < decimal(n).len() ==> '0' <= #[trigger] decimal(n)[i] <= '9',
        n > 0 ==> decimal(n)[0] != '0',
    decreases n,
{
    if n < 10 {
        assert(decimal(n).drop_last() =~= Seq::<char>::empty());
        assert(said(Seq::<char>::empty()) == 0);
        assert(decimal(n).last() == digit_char(n));
    } else {
        decimal_reads_back(n / 10);
        assert(decimal(n).drop_last() =~= decimal(n / 10));
        assert(decimal(n).last() == digit_char(n % 10));
        assert forall|i: int| 0 <= i < decimal(n).len() implies '0' <= #[trigger] decimal(n)[i]
            <= '9' by {
            if i < decimal(n / 10).len() {
                assert(decimal(n)[i] == decimal(n / 10)[i]);
            }
        }
        assert(decimal(n)[0] == decimal(n / 10)[0]);
    }
}

/// A path in a directory ends with the file and begins with the directory, with
/// a slash where they meet; an absolute path is in no directory but its own.
pub proof fn a_path_lies_in_its_directory(dir: Seq<char>, file: Seq<char>)
    ensures
        ({
            let path = path_in(dir, file);
            let n = path.len() - file.len();
            &&& n >= 0 && path.skip(n as int) == file
            &&& file.len() > 0 && file[0] == '/' ==> path == file
            &&& !(file.len() > 0 && file[0] == '/') ==> path.take(dir.len() as int) == dir && (
            dir.len() > 0 ==> path[n - 1] == '/') && (dir.len() == 0 || dir.last() == '/' ==> n
                == dir.len()) && (dir.len() > 0 && dir.last() != '/' ==> n == dir.len() + 1)
        }),
{
    reveal_strlit("/");
    let path = path_in(dir, file);
    let n: int = path.len() - file.len();
    assert(path.skip(n) =~= file);
    if !(file.len() > 0 && file[0] == '/') {
        assert(path.take(dir.len() as int) =~= dir);
    }
}

} // verus!
