use vstd::prelude::*;
use vstd::string::StringExecFns;

verus! {

/// The error every operation of the library reports.
///
/// `code` is the status libyuv returned (or `-1` where the library refused the
/// input before calling it), `function` names the libyuv entry point the
/// operation stands for, and `reason`, when present, says which check failed.
#[derive(Debug)]
pub struct Error {
    code: i32,
    function: &'static str,
    reason: Option<&'static str>,
}

impl Error {
    /// The error value with the given parts.
    pub closed spec fn spec_new(code: i32, function: &'static str, reason: Option<&'static str>) -> Error {
        Error { code, function, reason }
    }

    /// The status code of this error.
    pub closed spec fn spec_code(self) -> i32 {
        self.code
    }

    /// The function this error names.
    pub closed spec fn spec_function(self) -> &'static str {
        self.function
    }

    /// The reason this error carries, if any.
    pub closed spec fn spec_reason(self) -> Option<&'static str> {
        self.reason
    }

    /// Each part of an error can be read back from it.
    pub broadcast proof fn lemma_spec_new_parts(code: i32, function: &'static str, reason: Option<&'static str>)
        ensures
            #[trigger] Error::spec_new(code, function, reason).spec_code() == code,
            Error::spec_new(code, function, reason).spec_function() == function,
            Error::spec_new(code, function, reason).spec_reason() == reason,
    {
    }

    pub fn new(code: i32, function: &'static str, reason: Option<&'static str>) -> (e: Error)
        ensures
            e == Error::spec_new(code, function, reason),
    {
        Error { code, function, reason }
    }

    pub fn with_reason(code: i32, function: &'static str, reason: &'static str) -> (e: Error)
        ensures
            e == Error::spec_new(code, function, Some(reason)),
    {
        Error::new(code, function, Some(reason))
    }

    /// Turns a libyuv status code into a result: `0` is success, any other
    /// value is an error carrying that code and no reason.
    pub fn check(code: i32, function: &'static str) -> (r: Result<(), Error>)
        ensures
            r == status_result(code, function),
    {
        if code == 0 {
            Ok(())
        } else {
            Err(Error::new(code, function, None))
        }
    }

    /// The status code.
    pub fn code(&self) -> (c: i32)
        ensures
            c == self.spec_code(),
    {
        self.code
    }

    /// The name of the libyuv function the error stands for.
    pub fn function(&self) -> (f: &'static str)
        ensures
            f == self.spec_function(),
    {
        self.function
    }

    /// The text that describes the error, e.g.
    /// `I420ToARGB() failed: code=-1, reason=source Y buffer too small`.
    pub fn message(&self) -> (m: String)
        ensures
            m@ == error_message(
                self.spec_function()@,
                self.spec_code(),
                match self.spec_reason() {
                    Some(r) => Some(r@),
                    None => None,
                },
            ),
    {
        let mut m = String::from_str(self.function);
        m.append("() failed: code=");
        if self.code < 0 {
            proof {
                reveal_strlit("-");
            }
            m.append("-");
            let magnitude: i64 = -(self.code as i64);
            append_decimal_digits(&mut m, magnitude as u64);
            assert(m@ == self.function@ + "() failed: code="@ + (seq!['-'] + decimal_digits((-(self.code as int)) as nat)));
        } else {
            append_decimal_digits(&mut m, self.code as u64);
        }
        match self.reason {
            Some(r) => {
                m.append(", reason=");
                m.append(r);
            },
            None => {},
        }
        m
    }

    /// The reason the library refused the input, if it refused it.
    pub fn reason(&self) -> (r: Option<&'static str>)
        ensures
            r == self.spec_reason(),
    {
        self.reason
    }
}

/// The character of a decimal digit.
pub open spec fn digit_char(d: int) -> char {
    if d == 0 { '0' }
    else if d == 1 { '1' }
    else if d == 2 { '2' }
    else if d == 3 { '3' }
    else if d == 4 { '4' }
    else if d == 5 { '5' }
    else if d == 6 { '6' }
    else if d == 7 { '7' }
    else if d == 8 { '8' }
    else { '9' }
}

/// The decimal digits of `n`, most significant first.
pub open spec fn decimal_digits(n: nat) -> Seq<char>
    decreases n,
{
    if n < 10 {
        seq![digit_char(n as int)]
    } else {
        decimal_digits(n / 10) + seq![digit_char((n % 10) as int)]
    }
}

/// The decimal form of `n`, with a leading `-` when it is negative.
pub open spec fn decimal(n: int) -> Seq<char> {
    if n < 0 {
        seq!['-'] + decimal_digits((-n) as nat)
    } else {
        decimal_digits(n as nat)
    }
}

/// The text that describes an error:
/// `"{function}() failed: code={code}"`, followed by `", reason={reason}"`
/// when the error carries a reason.
pub open spec fn error_message(function: Seq<char>, code: i32, reason: Option<Seq<char>>) -> Seq<char> {
    let head = function + "() failed: code="@ + decimal(code as int);
    match reason {
        Some(r) => head + ", reason="@ + r,
        None => head,
    }
}

fn digit_str(d: u64) -> (s: &'static str)
    requires
        d < 10,
    ensures
        s@ == seq![digit_char(d as int)],
{
    proof {
        reveal_strlit("0");
        reveal_strlit("1");
        reveal_strlit("2");
        reveal_strlit("3");
        reveal_strlit("4");
        reveal_strlit("5");
        reveal_strlit("6");
        reveal_strlit("7");
        reveal_strlit("8");
        reveal_strlit("9");
    }
    if d == 0 { "0" }
    else if d == 1 { "1" }
    else if d == 2 { "2" }
    else if d == 3 { "3" }
    else if d == 4 { "4" }
    else if d == 5 { "5" }
    else if d == 6 { "6" }
    else if d == 7 { "7" }
    else if d == 8 { "8" }
    else { "9" }
}

/// Appends the decimal digits of `n` to `out`.
fn append_decimal_digits(out: &mut String, n: u64)
    ensures
        final(out)@ == old(out)@ + decimal_digits(n as nat),
    decreases n,
{
    if n >= 10 {
        append_decimal_digits(out, n / 10);
        let ghost mid = out@;
        out.append(digit_str(n % 10));
        assert(out@ == old(out)@ + (decimal_digits((n / 10) as nat) + seq![digit_char((n % 10) as int)]));
    } else {
        out.append(digit_str(n));
    }
}

/// The result a libyuv status code stands for.
pub open spec fn status_result(code: i32, function: &'static str) -> Result<(), Error> {
    if code == 0 {
        Ok(())
    } else {
        Err(Error::spec_new(code, function, None))
    }
}

/// The error the library reports when it refuses an input before calling libyuv.
pub open spec fn refusal(function: &'static str, reason: &'static str) -> Error {
    Error::spec_new(-1i32, function, Some(reason))
}

/// A result refused with `reason`.
pub open spec fn refused<T>(function: &'static str, reason: &'static str) -> Result<T, Error> {
    Err(refusal(function, reason))
}

/// The first error of two checks performed in turn, or `Ok` when both pass.
pub open spec fn first_error(first: Result<(), Error>, second: Result<(), Error>) -> Result<(), Error> {
    match first {
        Err(e) => Err(e),
        Ok(_) => second,
    }
}

/// `Error::check` succeeds exactly on status `0`, and an error it reports keeps
/// the status code it was given.
pub proof fn law_status_zero_is_success(code: i32, function: &'static str)
    ensures
        status_result(code, function) is Ok <==> code == 0,
        status_result(code, function) matches Err(e) ==> e.spec_code() == code
            && e.spec_function() == function && e.spec_reason() is None,
{
    Error::lemma_spec_new_parts(code, function, None);
}

/// The number a string of decimal digits reads as, most significant first.
pub open spec fn digits_value(s: Seq<char>) -> int
    decreases s.len(),
{
    if s.len() == 0 {
        0
    } else {
        digits_value(s.drop_last()) * 10 + (s.last() as int - '0' as int)
    }
}

/// The decimal form of a number is made of the characters `0` to `9`, has no
/// leading zero (but for 0 itself), and reads back as the number.
pub proof fn law_decimal_reads_back(n: nat)
    ensures
        digits_value(decimal_digits(n)) == n,
        forall|i: int| 0 <= i < decimal_digits(n).len() ==> '0' <= #[trigger] decimal_digits(n)[i] <= '9',
        decimal_digits(n).len() >= 1,
        n > 0 ==> decimal_digits(n)[0] != '0',
    decreases n,
{
    if n < 10 {
        assert(digit_char(n as int) as int - '0' as int == n);
        let s = decimal_digits(n);
        assert(s.drop_last() =~= Seq::<char>::empty());
        assert(digits_value(s.drop_last()) == 0);
    } else {
        law_decimal_reads_back(n / 10);
        let d = (n % 10) as int;
        let s = decimal_digits(n);
        assert(s.drop_last() =~= decimal_digits(n / 10));
        assert(digit_char(d) as int - '0' as int == d);
        assert(n == (n / 10) * 10 + d);
        assert(s.last() == digit_char(d));
        assert(digits_value(s) == digits_value(decimal_digits(n / 10)) * 10 + d);
        assert(s[0] == decimal_digits(n / 10)[0]);
    }
}

/// An error the library reports when it refuses an input has code `-1` and
/// carries the function it was refused for and the reason.
pub proof fn law_refusal_parts(function: &'static str, reason: &'static str)
    ensures
        refusal(function, reason).spec_code() == -1,
        refusal(function, reason).spec_function() == function,
        refusal(function, reason).spec_reason() == Some(reason),
{
    Error::lemma_spec_new_parts(-1i32, function, Some(reason));
}

} // verus!
