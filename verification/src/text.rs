//! Strings as sequences of characters, and decimal numbers in them.
use vstd::prelude::*;

verus! {

/// `String::push` appends one character at the end of the string.
pub assume_specification[ String::push ](s: &mut String, c: char)
    ensures
        final(s)@ == old(s)@.push(c),
;

/// The characters of a string, in order.
pub fn chars_of(s: &str) -> (v: Vec<char>)
    ensures
        v@ == s@,
{
    let mut v: Vec<char> = Vec::new();
    for c in it: s.chars()
        invariant
            v@ == s@.take(it.index()),
            it.seq() == s@,
    {
        assert(s@.take(it.index() + 1) == s@.take(it.index()).push(c));
        v.push(c);
    }
    assert(s@.take(s@.len() as int) == s@);
    v
}

/// The string made of the characters at `from..to`.
pub fn string_of(v: &Vec<char>, from: usize, to: usize) -> (s: String)
    requires
        from <= to <= v@.len(),
    ensures
        s@ == v@.subrange(from as int, to as int),
{
    let mut s = String::new();
    let mut i: usize = from;
    assert(v@.subrange(from as int, from as int) == Seq::<char>::empty());
    while i < to
        invariant
            from <= i <= to <= v@.len(),
            s@ == v@.subrange(from as int, i as int),
        decreases to - i,
    {
        assert(v@.subrange(from as int, i + 1) == v@.subrange(from as int, i as int).push(v@[i as int]));
        s.push(v[i]);
        i = i + 1;
    }
    s
}

/// Whether two strings hold the same characters.
pub fn same_text(a: &str, b: &str) -> (r: bool)
    ensures
        r == (a@ == b@),
{
    let x = chars_of(a);
    let y = chars_of(b);
    if x.len() != y.len() {
        return false;
    }
    let mut i: usize = 0;
    while i < x.len()
        invariant
            i <= x@.len(),
            x@.len() == y@.len(),
            x@ == a@,
            y@ == b@,
            forall|j: int| 0 <= j < i ==> x@[j] == y@[j],
        decreases x@.len() - i,
    {
        if x[i] != y[i] {
            return false;
        }
        i = i + 1;
    }
    assert(a@ =~= b@);
    true
}

/// What an optional string holds.
pub open spec fn opt_text(s: Option<String>) -> Option<Seq<char>> {
    match s {
        Some(text) => Some(text@),
        None => None,
    }
}

/// The digit for a number below ten.
pub open spec fn digit_char(d: nat) -> char {
    (48 + d) as char
}

/// The number that a decimal digit stands for.
pub open spec fn digit_value(c: char) -> Option<nat> {
    if '0' <= c <= '9' {
        Some((c as int - 48) as nat)
    } else {
        None
    }
}

/// A number in decimal, without leading zeros.
pub open spec fn decimal(n: nat) -> Seq<char>
    decreases n,
{
    if n < 10 {
        seq![digit_char(n)]
    } else {
        decimal(n / 10).push(digit_char(n % 10))
    }
}

/// Why a text is not a number.
#[derive(Clone, Copy, Debug, PartialEq, Eq, Structural)]
pub enum NumberError {
    /// There is no text.
    Empty,
    /// A character is not a digit, or there is a sign and no digit.
    InvalidDigit,
    /// The number is too large.
    Overflow,
}

impl NumberError {
    /// The reason in words.
    pub open spec fn words(self) -> Seq<char> {
        match self {
            NumberError::Empty => "cannot parse integer from empty string"@,
            NumberError::InvalidDigit => "invalid digit found in string"@,
            NumberError::Overflow => "number too large to fit in target type"@,
        }
    }

    /// The reason in words.
    pub fn message(self) -> (message: String)
        ensures
            message@ == self.words(),
    {
        match self {
            NumberError::Empty => "cannot parse integer from empty string".to_owned(),
            NumberError::InvalidDigit => "invalid digit found in string".to_owned(),
            NumberError::Overflow => "number too large to fit in target type".to_owned(),
        }
    }
}

/// The number that digits stand for, read from the left. The first character
/// that is no digit, or that takes the number above `max`, decides.
pub open spec fn scan(digits: Seq<char>, max: nat) -> Result<nat, NumberError>
    decreases digits.len(),
{
    if digits.len() == 0 {
        Ok(0)
    } else {
        match scan(digits.drop_last(), max) {
            Err(e) => Err(e),
            Ok(n) => match digit_value(digits.last()) {
                None => Err(NumberError::InvalidDigit),
                Some(d) => if n * 10 + d > max {
                    Err(NumberError::Overflow)
                } else {
                    Ok(n * 10 + d)
                },
            },
        }
    }
}

/// The number that a text stands for: digits, with a plus sign before them or
/// without.
pub open spec fn number(s: Seq<char>, max: nat) -> Result<nat, NumberError> {
    if s.len() == 0 {
        Err(NumberError::Empty)
    } else if s[0] == '+' {
        if s.len() == 1 {
            Err(NumberError::InvalidDigit)
        } else {
            scan(s.skip(1), max)
        }
    } else {
        scan(s, max)
    }
}

/// Once the characters read so far decide against a number, those after them
/// change nothing.
proof fn lemma_scan_stops(digits: Seq<char>, upto: int, max: nat)
    requires
        0 <= upto <= digits.len(),
        scan(digits.take(upto), max) is Err,
    ensures
        scan(digits, max) == scan(digits.take(upto), max),
    decreases digits.len() - upto,
{
    if upto < digits.len() {
        assert(digits.take(upto + 1).drop_last() =~= digits.take(upto));
        lemma_scan_stops(digits, upto + 1, max);
    } else {
        assert(digits.take(upto) =~= digits);
    }
}

/// Reads a number that is at most `max`.
pub fn parse_number(s: &str, max: u32) -> (r: Result<u32, NumberError>)
    ensures
        match number(s@, max as nat) {
            Ok(n) => r matches Ok(m) && m == n,
            Err(e) => r matches Err(f) && f == e,
        },
{
    let chars = chars_of(s);
    if chars.len() == 0 {
        return Err(NumberError::Empty);
    }
    let signed = chars[0] == '+';
    if signed && chars.len() == 1 {
        return Err(NumberError::InvalidDigit);
    }
    let start: usize = if signed { 1 } else { 0 };
    let ghost digits = chars@.skip(start as int);
    assert(number(s@, max as nat) == scan(digits, max as nat)) by {
        assert(chars@.skip(0) =~= chars@);
    }
    let mut n: u32 = 0;
    let mut i: usize = start;
    assert(digits.take(0) =~= Seq::<char>::empty());
    while i < chars.len()
        invariant
            start <= i <= chars@.len(),
            digits == chars@.skip(start as int),
            n <= max,
            scan(digits.take(i - start), max as nat) == Ok::<nat, NumberError>(n as nat),
            number(s@, max as nat) == scan(digits, max as nat),
        decreases chars@.len() - i,
    {
        let c = chars[i];
        proof {
            let next = digits.take(i - start + 1);
            assert(next.drop_last() =~= digits.take(i - start));
            assert(next.last() == c);
            if scan(next, max as nat) is Err {
                lemma_scan_stops(digits, i - start + 1, max as nat);
            }
        }
        if c < '0' || '9' < c {
            return Err(NumberError::InvalidDigit);
        }
        let grown: u64 = n as u64 * 10 + (c as u32 - 48) as u64;
        if grown > max as u64 {
            return Err(NumberError::Overflow);
        }
        n = grown as u32;
        i = i + 1;
    }
    assert(digits.take(chars@.len() - start) =~= digits);
    Ok(n)
}

/// Reads a number of sixteen bits.
pub fn parse_u16(s: &str) -> (r: Result<u16, NumberError>)
    ensures
        match number(s@, u16::MAX as nat) {
            Ok(n) => r matches Ok(m) && m == n,
            Err(e) => r matches Err(f) && f == e,
        },
{
    match parse_number(s, 65535) {
        Ok(n) => Ok(n as u16),
        Err(e) => Err(e),
    }
}

/// Writes a number in decimal.
pub fn to_decimal(n: u16) -> (s: String)
    ensures
        s@ == decimal(n as nat),
    decreases n,
{
    let digit = (48u8 + (n % 10) as u8) as char;
    let mut s = if n < 10 {
        String::new()
    } else {
        to_decimal(n / 10)
    };
    s.push(digit);
    assert(s@ =~= decimal(n as nat));
    s
}

proof fn lemma_scan_decimal(n: nat, max: nat)
    requires
        n <= max,
    ensures
        scan(decimal(n), max) == Ok::<nat, NumberError>(n),
        decimal(n).len() > 0,
        digit_value(decimal(n)[0]) is Some,
    decreases n,
{
    let front = decimal(n).drop_last();
    if n < 10 {
        assert(front =~= Seq::<char>::empty());
        assert(scan(front, max) == Ok::<nat, NumberError>(0));
    } else {
        lemma_scan_decimal(n / 10, max);
        assert(front =~= decimal(n / 10));
    }
    assert(decimal(n).last() == digit_char(n % 10));
    assert(digit_value(digit_char(n % 10)) == Some(n % 10));
}

/// A number written in decimal is read back as that number.
pub proof fn law_decimal_reads_back(n: nat, max: nat)
    requires
        n <= max,
    ensures
        number(decimal(n), max) == Ok::<nat, NumberError>(n),
{
    lemma_scan_decimal(n, max);
}

/// A number that is read is in its range.
pub proof fn law_number_is_in_range(s: Seq<char>, max: nat)
    ensures
        number(s, max) matches Ok(n) ==> n <= max,
{
}

/// A text without characters is no number, and one character is a number
/// exactly where it is a digit.
pub proof fn law_shortest_numbers(c: char, max: nat)
    ensures
        number(Seq::empty(), max) == Err::<nat, NumberError>(NumberError::Empty),
        number(seq![c], max) == if !('0' <= c <= '9') {
            Err(NumberError::InvalidDigit)
        } else if c as int - '0' as int > max {
            Err(NumberError::Overflow)
        } else {
            Ok((c as int - '0' as int) as nat)
        },
{
    assert(seq![c].drop_last() =~= Seq::<char>::empty());
    assert(seq![c].last() == c);
    assert(scan(Seq::<char>::empty(), max) == Ok::<nat, NumberError>(0));
    if c == '+' {
    } else {
        assert(number(seq![c], max) == scan(seq![c], max));
    }
}

/// One character more makes a number ten times as large and adds its digit, as
/// long as that is not too large; a text that is no number stays none, for the
/// same reason.
pub proof fn law_number_grows_by_digits(s: Seq<char>, c: char, max: nat)
    requires
        s.len() > 0,
        s != seq!['+'],
    ensures
        number(s.push(c), max) == match number(s, max) {
            Err(reason) => Err(reason),
            Ok(n) => if !('0' <= c <= '9') {
                Err(NumberError::InvalidDigit)
            } else if 10 * n + (c as int - '0' as int) > max {
                Err(NumberError::Overflow)
            } else {
                Ok((10 * n + (c as int - '0' as int)) as nat)
            },
        },
{
    let longer = s.push(c);
    assert(longer[0] == s[0]);
    assert(longer.drop_last() =~= s);
    if s[0] == '+' {
        if s.len() == 1 {
            assert(s =~= seq!['+']);
        }
        assert(longer.skip(1).drop_last() =~= s.skip(1));
        assert(longer.skip(1).last() == c);
    }
}

/// One plus sign before a number changes nothing; more than one is no number.
pub proof fn law_plus_sign_may_lead(s: Seq<char>, max: nat)
    requires
        s.len() > 0,
    ensures
        number(seq!['+'] + s, max) == if s[0] == '+' {
            Err(NumberError::InvalidDigit)
        } else {
            number(s, max)
        },
{
    assert((seq!['+'] + s).skip(1) =~= s);
    if s[0] == '+' {
        law_shortest_numbers('+', max);
        let first = s.take(1);
        assert(first.drop_last() =~= Seq::<char>::empty());
        assert(first.last() == '+');
        assert(scan(first.drop_last(), max) == Ok::<nat, NumberError>(0));
        assert(scan(first, max) == Err::<nat, NumberError>(NumberError::InvalidDigit));
        lemma_scan_stops(s, 1, max);
    }
}

/// A number in decimal has digits only, and no zero before other digits.
pub proof fn law_decimal_is_plain(n: nat)
    ensures
        decimal(n).len() > 0,
        forall|i: int| 0 <= i < decimal(n).len() ==> '0' <= #[trigger] decimal(n)[i] <= '9',
        n > 0 ==> decimal(n)[0] != '0',
        n < 10 ==> decimal(n).len() == 1,
    decreases n,
{
    assert('0' <= digit_char(n % 10) <= '9');
    if n >= 10 {
        law_decimal_is_plain(n / 10);
        assert(decimal(n)[0] == decimal(n / 10)[0]);
        assert forall|i: int| 0 <= i < decimal(n).len() implies '0' <= #[trigger] decimal(n)[i]
            <= '9' by {
            if i < decimal(n).len() - 1 {
                assert(decimal(n)[i] == decimal(n / 10)[i]);
            }
        }
    }
}

/// What is said of a text that is no number.
pub proof fn law_number_errors_in_words()
    ensures
        NumberError::Empty.words() == "cannot parse integer from empty string"@,
        NumberError::InvalidDigit.words() == "invalid digit found in string"@,
        NumberError::Overflow.words() == "number too large to fit in target type"@,
{
}

} // verus!
