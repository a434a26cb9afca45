//! Discord identifiers as the bot stores them: unsigned 64-bit numbers written
//! in decimal, and read back with the rules of `str::parse::<u64>`.
use vstd::prelude::*;

verus! {

/// Whether `c` is an ASCII decimal digit.
pub open spec fn is_digit(c: char) -> bool {
    '0' <= c && c <= '9'
}

/// The value of an ASCII decimal digit.
pub open spec fn digit_value(c: char) -> nat {
    (c as int - '0' as int) as nat
}

/// The ASCII digit that stands for `d` (for `d < 10`).
pub open spec fn digit_char(d: nat) -> char {
    ('0' as int + d) as char
}

/// The decimal numeral of `n`, without sign or leading zeros.
pub open spec fn decimal(n: nat) -> Seq<char>
    decreases n,
{
    if n < 10 {
        seq![digit_char(n)]
    } else {
        decimal(n / 10).push(digit_char(n % 10))
    }
}

/// Why a text is not an identifier; the same three cases as `ParseIntError`
/// gives for `u64`.
#[derive(Debug, Clone, Copy, PartialEq, Eq)]
pub enum IdError {
    /// The text is empty.
    Empty,
    /// The text holds something other than an optional leading `+` and digits.
    InvalidDigit,
    /// The digits stand for a number above `u64::MAX`.
    TooLarge,
}

/// Reading a run of digits from left to right, as `u64::from_str` does: the first
/// character that is not a digit, or the first digit that takes the number past
/// `u64::MAX`, decides the error.
pub open spec fn scan_digits(s: Seq<char>) -> Result<nat, IdError>
    decreases s.len(),
{
    if s.len() == 0 {
        Ok(0)
    } else {
        match scan_digits(s.drop_last()) {
            Err(e) => Err(e),
            Ok(v) => if !is_digit(s.last()) {
                Err(IdError::InvalidDigit)
            } else if v * 10 + digit_value(s.last()) > u64::MAX {
                Err(IdError::TooLarge)
            } else {
                Ok(v * 10 + digit_value(s.last()))
            },
        }
    }
}

/// What `str::parse::<u64>` gives for the text `s`.
pub open spec fn parse_id_spec(s: Seq<char>) -> Result<nat, IdError> {
    if s.len() == 0 {
        Err(IdError::Empty)
    } else if s.len() == 1 && (s[0] == '+' || s[0] == '-') {
        Err(IdError::InvalidDigit)
    } else if s[0] == '+' {
        scan_digits(s.drop_first())
    } else {
        scan_digits(s)
    }
}

/// The message that `ParseIntError` shows for each case.
pub open spec fn id_error_text(e: IdError) -> Seq<char> {
    match e {
        IdError::Empty => "cannot parse integer from empty string"@,
        IdError::InvalidDigit => "invalid digit found in string"@,
        IdError::TooLarge => "number too large to fit in target type"@,
    }
}

impl IdError {
    /// The message shown for this error.
    pub fn message(&self) -> (m: String)
        ensures
            m@ == id_error_text(*self),
    {
        match self {
            IdError::Empty => String::from_str("cannot parse integer from empty string"),
            IdError::InvalidDigit => String::from_str("invalid digit found in string"),
            IdError::TooLarge => String::from_str("number too large to fit in target type"),
        }
    }
}

/// The one-character text of the digit `d`.
fn digit_text(d: u64) -> (t: &'static str)
    requires
        d < 10,
    ensures
        t@ == seq![digit_char(d as nat)],
{
    if d == 0 {
        proof { reveal_strlit("0"); }
        "0"
    } else if d == 1 {
        proof { reveal_strlit("1"); }
        "1"
    } else if d == 2 {
        proof { reveal_strlit("2"); }
        "2"
    } else if d == 3 {
        proof { reveal_strlit("3"); }
        "3"
    } else if d == 4 {
        proof { reveal_strlit("4"); }
        "4"
    } else if d == 5 {
        proof { reveal_strlit("5"); }
        "5"
    } else if d == 6 {
        proof { reveal_strlit("6"); }
        "6"
    } else if d == 7 {
        proof { reveal_strlit("7"); }
        "7"
    } else if d == 8 {
        proof { reveal_strlit("8"); }
        "8"
    } else {
        proof { reveal_strlit("9"); }
        "9"
    }
}

/// The text under which the bot stores an identifier: its decimal numeral.
pub fn id_text(n: u64) -> (t: String)
    ensures
        t@ == decimal(n as nat),
    decreases n,
{
    if n < 10 {
        String::from_str(digit_text(n))
    } else {
        let mut t = id_text(n / 10);
        t.append(digit_text(n % 10));
        t
    }
}

/// Reads an identifier back from its text, with the rules of `str::parse::<u64>`.
pub fn parse_id(s: &str) -> (r: Result<u64, IdError>)
    ensures
        match parse_id_spec(s@) {
            Ok(v) => r == Ok::<u64, IdError>(v as u64),
            Err(e) => r == Err::<u64, IdError>(e),
        },
{
    let len = s.unicode_len();
    if len == 0 {
        return Err(IdError::Empty);
    }
    let first = s.get_char(0);
    if len == 1 && (first == '+' || first == '-') {
        return Err(IdError::InvalidDigit);
    }
    let start: usize = if first == '+' { 1 } else { 0 };
    let ghost digits = s@.subrange(start as int, len as int);
    assert(parse_id_spec(s@) == scan_digits(digits)) by {
        if first == '+' {
            assert(digits =~= s@.drop_first());
        } else {
            assert(digits =~= s@);
        }
    }
    assert(digits.subrange(0, 0) =~= Seq::<char>::empty());
    let mut value: u64 = 0;
    let mut i: usize = start;
    while i < len
        invariant
            start <= i <= len,
            len == s@.len(),
            digits == s@.subrange(start as int, len as int),
            parse_id_spec(s@) == scan_digits(digits),
            scan_digits(digits.subrange(0, i - start)) == Ok::<nat, IdError>(value as nat),
        decreases len - i,
    {
        let c = s.get_char(i);
        let ghost k: int = i - start;
        let ghost next = digits.subrange(0, k + 1);
        assert(next.drop_last() =~= digits.subrange(0, k));
        assert(next.last() == c);
        if !('0' <= c && c <= '9') {
            assert(scan_digits(next) == Err::<nat, IdError>(IdError::InvalidDigit));
            proof { lemma_scan_error_sticks(digits, k as nat, IdError::InvalidDigit); }
            return Err(IdError::InvalidDigit);
        }
        let d: u64 = (c as u64) - ('0' as u64);
        assert(d == digit_value(c));
        if value > 1844674407370955161 || (value == 1844674407370955161 && d > 5) {
            assert(value * 10 + d > u64::MAX);
            assert(scan_digits(next) == Err::<nat, IdError>(IdError::TooLarge));
            proof { lemma_scan_error_sticks(digits, k as nat, IdError::TooLarge); }
            return Err(IdError::TooLarge);
        }
        value = value * 10 + d;
        i = i + 1;
    }
    assert(digits.subrange(0, len - start) =~= digits);
    Ok(value)
}

/// Once the scan of a prefix has failed, the scan of every longer text fails
/// the same way.
proof fn lemma_scan_error_sticks(s: Seq<char>, k: nat, e: IdError)
    requires
        k < s.len(),
        scan_digits(s.subrange(0, k as int + 1)) == Err::<nat, IdError>(e),
    ensures
        scan_digits(s) == Err::<nat, IdError>(e),
    decreases s.len() - k,
{
    if k + 1 == s.len() {
        assert(s.subrange(0, k as int + 1) =~= s);
    } else {
        let t = s.subrange(0, k as int + 2);
        assert(t.drop_last() =~= s.subrange(0, k as int + 1));
        lemma_scan_error_sticks(s, k + 1, e);
    }
}

proof fn lemma_digit_char(d: nat)
    requires
        d < 10,
    ensures
        is_digit(digit_char(d)),
        digit_value(digit_char(d)) == d,
{
    let c = digit_char(d);
    assert(c as int == '0' as int + d);
}

/// The decimal numeral of `n` is a nonempty run of digits that scans back to `n`.
proof fn lemma_decimal_scans(n: nat)
    requires
        n <= u64::MAX,
    ensures
        decimal(n).len() > 0,
        is_digit(decimal(n)[0]),
        scan_digits(decimal(n)) == Ok::<nat, IdError>(n),
    decreases n,
{
    lemma_digit_char(n % 10);
    if n < 10 {
        assert(seq![digit_char(n)].drop_last() =~= Seq::<char>::empty());
        assert(scan_digits(Seq::<char>::empty()) == Ok::<nat, IdError>(0));
    } else {
        lemma_decimal_scans(n / 10);
        let s = decimal(n);
        assert(s.drop_last() =~= decimal(n / 10));
        assert(s[0] == decimal(n / 10)[0]);
        assert((n / 10) * 10 + n % 10 == n);
    }
}

/// Law: every identifier reads back from the text it is stored under.
pub proof fn law_id_text_round_trip(n: u64)
    ensures
        parse_id_spec(decimal(n as nat)) == Ok::<nat, IdError>(n as nat),
{
    lemma_decimal_scans(n as nat);
}

/// A scan of digits that succeeds reads only digits and yields a number within
/// `u64`.
proof fn lemma_scan_ok(s: Seq<char>)
    ensures
        scan_digits(s) matches Ok(v) ==> v <= u64::MAX && forall|i: int| 0 <= i < s.len() ==> is_digit(#[trigger] s[i]),
    decreases s.len(),
{
    if s.len() > 0 {
        lemma_scan_ok(s.drop_last());
        if let Ok(v) = scan_digits(s) {
            assert forall|i: int| 0 <= i < s.len() implies is_digit(#[trigger] s[i]) by {
                if i < s.len() - 1 {
                    assert(s.drop_last()[i] == s[i]);
                }
            }
        }
    }
}

/// Law: a text reads as an identifier only if it is a run of digits, with at
/// most a leading `+`, standing for a number that fits in `u64`; the empty text
/// is the only one refused as empty.
pub proof fn law_parse_id_accepts_only_digits(s: Seq<char>)
    ensures
        parse_id_spec(s) == Err::<nat, IdError>(IdError::Empty) <==> s.len() == 0,
        parse_id_spec(s) matches Ok(v) ==> {
            &&& v <= u64::MAX
            &&& s.len() > 0
            &&& forall|i: int| 0 <= i < s.len() && !(i == 0 && s[0] == '+') ==> is_digit(#[trigger] s[i])
            &&& exists|i: int| 0 <= i < s.len() && is_digit(s[i])
        },
{
    if s.len() > 0 {
        if s[0] == '+' {
            let d = s.drop_first();
            lemma_scan_ok(d);
            lemma_scan_never_empty(d);
            if let Ok(v) = parse_id_spec(s) {
                assert(s.len() > 1);
                assert forall|i: int| 0 <= i < s.len() && !(i == 0 && s[0] == '+') implies is_digit(#[trigger] s[i]) by {
                    assert(d[i - 1] == s[i]);
                }
                assert(d[0] == s[1]);
                assert(is_digit(s[1]));
            }
        } else {
            lemma_scan_ok(s);
            lemma_scan_never_empty(s);
            if let Ok(v) = parse_id_spec(s) {
                assert(is_digit(s[0]));
            }
        }
    }
}

/// Scanning digits never reports an empty text.
proof fn lemma_scan_never_empty(s: Seq<char>)
    ensures
        scan_digits(s) != Err::<nat, IdError>(IdError::Empty),
    decreases s.len(),
{
    if s.len() > 0 {
        lemma_scan_never_empty(s.drop_last());
    }
}

} // verus!
