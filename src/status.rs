use vstd::prelude::*;
use vstd::std_specs::cmp::{PartialEqSpec, PartialOrdSpec};
use vstd::string::StringSliceAdditionalSpecFns;

verus! {

/// The largest value a status code may hold.
pub const MAX_CODE: u16 = 40000;

/// The ASCII code of the digit zero.
pub const ASCII_ZERO: u8 = 48;

/// The value of an ASCII decimal digit.
pub open spec fn digit_value(b: u8) -> int {
    b - ASCII_ZERO
}

/// Whether `b` is an ASCII digit no greater than `max`.
pub open spec fn is_digit_upto(b: u8, max: int) -> bool {
    ASCII_ZERO <= b && digit_value(b) <= max
}

/// The code that five ASCII digits denote, the first of them in `0..=3`;
/// `None` for any other byte sequence.
pub open spec fn parse_code(s: Seq<u8>) -> Option<u16> {
    if s.len() == 5 && is_digit_upto(s[0], 3) && is_digit_upto(s[1], 9) && is_digit_upto(s[2], 9)
        && is_digit_upto(s[3], 9) && is_digit_upto(s[4], 9) {
        Some(
            (digit_value(s[0]) * 10000 + digit_value(s[1]) * 1000 + digit_value(s[2]) * 100
                + digit_value(s[3]) * 10 + digit_value(s[4])) as u16,
        )
    } else {
        None
    }
}

/// Whether a code reports success: only zero does.
pub open spec fn is_success_code(code: u16) -> bool {
    code == 0
}

/// The five ASCII digits of `n`, with leading zeros.
pub open spec fn five_digits(n: u16) -> Seq<u8> {
    seq![
        (ASCII_ZERO + n / 10000) as u8,
        (ASCII_ZERO + n / 1000 % 10) as u8,
        (ASCII_ZERO + n / 100 % 10) as u8,
        (ASCII_ZERO + n / 10 % 10) as u8,
        (ASCII_ZERO + n % 10) as u8,
    ]
}

/// The canonical reason phrase of each catalogued code.
pub open spec fn reason_of(code: u16) -> Option<Seq<char>> {
    match code {
        0 => Some("Ok"@),
        10001 => Some("Client Error"@),
        10100 => Some("Register Failed"@),
        10101 => Some("Did Not Agree to the Privacy Agreement"@),
        10102 => Some("Country or Region not allowed"@),
        10110 => Some("Username Failed"@),
        10111 => Some("Username Already Exists"@),
        10112 => Some("Username Contains Sensitive Word"@),
        10113 => Some("Username Contains Special Character"@),
        10120 => Some("Password Failed"@),
        10121 => Some("Password is To Short"@),
        10122 => Some("Password is to WEAK"@),
        10130 => Some("Verification Code Failed"@),
        10131 => Some("Sms Verification Code Failed"@),
        10132 => Some("Email Verification Code Failed"@),
        10133 => Some("Voice Verification Code Failed"@),
        _ => None,
    }
}

/// The character of a decimal digit `d < 10`.
pub open spec fn digit_char(d: nat) -> char {
    if d == 0 {
        '0'
    } else if d == 1 {
        '1'
    } else if d == 2 {
        '2'
    } else if d == 3 {
        '3'
    } else if d == 4 {
        '4'
    } else if d == 5 {
        '5'
    } else if d == 6 {
        '6'
    } else if d == 7 {
        '7'
    } else if d == 8 {
        '8'
    } else {
        '9'
    }
}

/// The decimal numeral of `n`, without leading zeros.
pub open spec fn decimal(n: nat) -> Seq<char>
    decreases n,
{
    if n < 10 {
        seq![digit_char(n)]
    } else {
        decimal(n / 10).push(digit_char(n % 10))
    }
}

/// The human-readable form: the number, a space, and the reason phrase or a
/// marker for an uncatalogued code.
pub open spec fn display_of(code: u16) -> Seq<char> {
    decimal(code as nat) + " "@ + match reason_of(code) {
        Some(p) => p,
        None => "<unknown status code>"@,
    }
}

/// An application status code, always in `0..=MAX_CODE`.
#[derive(Clone, Copy, Debug, Eq, Ord, Hash)]
pub struct StatusCode(u16);

/// The error returned when a status code fails validation.
#[derive(Clone, Copy, Debug)]
pub struct InvalidStatusCode {
    _priv: (),
}

impl View for StatusCode {
    type V = u16;

    closed spec fn view(&self) -> u16 {
        self.0
    }
}

impl StatusCode {
    #[verifier::type_invariant]
    closed spec fn in_range(&self) -> bool {
        self.0 <= MAX_CODE
    }

    /// Builds a status code from an integer, rejecting values above `MAX_CODE`.
    pub fn from_u16(src: u16) -> (r: Result<StatusCode, InvalidStatusCode>)
        ensures
            src <= MAX_CODE <==> r is Ok,
            r matches Ok(s) ==> s@ == src,
    {
        if src > MAX_CODE {
            return Err(InvalidStatusCode::new());
        }
        Ok(StatusCode(src))
    }

    /// The wrapped integer.
    pub fn as_u16(&self) -> (r: u16)
        ensures
            r == self@,
            r <= MAX_CODE,
    {
        proof {
            use_type_invariant(self);
        }
        self.0
    }

    /// Parses five ASCII digits, the first of them in `0..=3`.
    pub fn from_bytes(src: &[u8]) -> (r: Result<StatusCode, InvalidStatusCode>)
        ensures
            match r {
                Ok(s) => parse_code(src@) == Some(s@),
                Err(_) => parse_code(src@) is None,
            },
    {
        if src.len() != 5 {
            return Err(InvalidStatusCode::new());
        }
        let a: u16 = src[0].wrapping_sub(ASCII_ZERO) as u16;
        let b: u16 = src[1].wrapping_sub(ASCII_ZERO) as u16;
        let c: u16 = src[2].wrapping_sub(ASCII_ZERO) as u16;
        let d: u16 = src[3].wrapping_sub(ASCII_ZERO) as u16;
        let e: u16 = src[4].wrapping_sub(ASCII_ZERO) as u16;
        if a >= 4 || b > 9 || c > 9 || d > 9 || e > 9 {
            return Err(InvalidStatusCode::new());
        }
        let status: u16 = (a * 10000) + (b * 1000) + (c * 100) + (d * 10) + e;
        Ok(StatusCode(status))
    }

    /// The canonical reason phrase, if the code is catalogued.
    pub fn canonical_reason(&self) -> (r: Option<&'static str>)
        ensures
            match r {
                Some(p) => reason_of(self@) == Some(p@),
                None => reason_of(self@) is None,
            },
    {
        canonical_reason(self.0)
    }

    /// Whether this is the one success code, `OK`.
    pub fn is_success(&self) -> (r: bool)
        ensures
            r == is_success_code(self@),
    {
        self.0 == 0
    }

    /// The number followed by the reason phrase, e.g. `0 Ok`.
    pub fn to_string(&self) -> (r: String)
        ensures
            r@ == display_of(self@),
    {
        let mut out = String::new();
        write_decimal(&mut out, self.0);
        out.append(" ");
        match self.canonical_reason() {
            Some(p) => out.append(p),
            None => out.append("<unknown status code>"),
        }
        out
    }

    /// The number alone, as the debugging form.
    pub fn to_debug_string(&self) -> (r: String)
        ensures
            r@ == decimal(self@ as nat),
    {
        let mut out = String::new();
        write_decimal(&mut out, self.0);
        out
    }
}

fn canonical_reason(num: u16) -> (r: Option<&'static str>)
    ensures
        match r {
            Some(p) => reason_of(num) == Some(p@),
            None => reason_of(num) is None,
        },
{
    match num {
        0 => Some("Ok"),
        10001 => Some("Client Error"),
        10100 => Some("Register Failed"),
        10101 => Some("Did Not Agree to the Privacy Agreement"),
        10102 => Some("Country or Region not allowed"),
        10110 => Some("Username Failed"),
        10111 => Some("Username Already Exists"),
        10112 => Some("Username Contains Sensitive Word"),
        10113 => Some("Username Contains Special Character"),
        10120 => Some("Password Failed"),
        10121 => Some("Password is To Short"),
        10122 => Some("Password is to WEAK"),
        10130 => Some("Verification Code Failed"),
        10131 => Some("Sms Verification Code Failed"),
        10132 => Some("Email Verification Code Failed"),
        10133 => Some("Voice Verification Code Failed"),
        _ => None,
    }
}

fn digit_text(d: u16) -> (r: &'static str)
    requires
        d < 10,
    ensures
        r@ == seq![digit_char(d as nat)],
{
    proof {
        reveal_strlit("0");
        reveal_strlit("1");
        reveal_strlit("2");
        reveal_strlit("3");
        reveal_strlit("4");
        reveal_strlit("5");
        reveal_strlit("6");
        reveal_strlit("7");
        reveal_strlit("8");
        reveal_strlit("9");
    }
    match d {
        0 => "0",
        1 => "1",
        2 => "2",
        3 => "3",
        4 => "4",
        5 => "5",
        6 => "6",
        7 => "7",
        8 => "8",
        _ => "9",
    }
}

fn write_decimal(out: &mut String, n: u16)
    ensures
        final(out)@ == old(out)@ + decimal(n as nat),
    decreases n,
{
    if n >= 10 {
        write_decimal(out, n / 10);
    }
    out.append(digit_text(n % 10));
    proof {
        assert(decimal(n as nat) =~= if n < 10 { seq![digit_char(n as nat)] } else {
            decimal((n / 10) as nat).push(digit_char((n % 10) as nat))
        });
    }
}

/// The catalogued codes, each with its reason phrase.
impl StatusCode {
    /// The catalogued code `0`, "Ok".
    #[allow(non_snake_case)]
    pub fn OK() -> (r: StatusCode)
        ensures
            r@ == 0,
    {
        StatusCode(0)
    }

    /// The catalogued code `10001`, "Client Error".
    #[allow(non_snake_case)]
    pub fn CLIENT_ERROR() -> (r: StatusCode)
        ensures
            r@ == 10001,
    {
        StatusCode(10001)
    }

    /// The catalogued code `10100`, "Register Failed".
    #[allow(non_snake_case)]
    pub fn REGISTER_FAILED() -> (r: StatusCode)
        ensures
            r@ == 10100,
    {
        StatusCode(10100)
    }

    /// The catalogued code `10101`, "Did Not Agree to the Privacy Agreement".
    #[allow(non_snake_case)]
    pub fn NOT_AGREE_PRIVACY() -> (r: StatusCode)
        ensures
            r@ == 10101,
    {
        StatusCode(10101)
    }

    /// The catalogued code `10102`, "Country or Region not allowed".
    #[allow(non_snake_case)]
    pub fn COUNTRY_OR_REGION_NOT_ALLOWED() -> (r: StatusCode)
        ensures
            r@ == 10102,
    {
        StatusCode(10102)
    }

    /// The catalogued code `10110`, "Username Failed".
    #[allow(non_snake_case)]
    pub fn USERNAME_FAILED() -> (r: StatusCode)
        ensures
            r@ == 10110,
    {
        StatusCode(10110)
    }

    /// The catalogued code `10111`, "Username Already Exists".
    #[allow(non_snake_case)]
    pub fn USERNAME_EXISTS() -> (r: StatusCode)
        ensures
            r@ == 10111,
    {
        StatusCode(10111)
    }

    /// The catalogued code `10112`, "Username Contains Sensitive Word".
    #[allow(non_snake_case)]
    pub fn USERNAME_CONTAINS_SENSITIVE_WORD() -> (r: StatusCode)
        ensures
            r@ == 10112,
    {
        StatusCode(10112)
    }

    /// The catalogued code `10113`, "Username Contains Special Character".
    #[allow(non_snake_case)]
    pub fn USERNAME_CONTAINS_SPECIAL_CHAR() -> (r: StatusCode)
        ensures
            r@ == 10113,
    {
        StatusCode(10113)
    }

    /// The catalogued code `10120`, "Password Failed".
    #[allow(non_snake_case)]
    pub fn PASSWORD_FAILED() -> (r: StatusCode)
        ensures
            r@ == 10120,
    {
        StatusCode(10120)
    }

    /// The catalogued code `10121`, "Password is To Short".
    #[allow(non_snake_case)]
    pub fn PASSWORD_TO_SHORT() -> (r: StatusCode)
        ensures
            r@ == 10121,
    {
        StatusCode(10121)
    }

    /// The catalogued code `10122`, "Password is to WEAK".
    #[allow(non_snake_case)]
    pub fn PASSWORD_TO_WEAK() -> (r: StatusCode)
        ensures
            r@ == 10122,
    {
        StatusCode(10122)
    }

    /// The catalogued code `10130`, "Verification Code Failed".
    #[allow(non_snake_case)]
    pub fn VERIFICATION_CODE_FAILED() -> (r: StatusCode)
        ensures
            r@ == 10130,
    {
        StatusCode(10130)
    }

    /// The catalogued code `10131`, "Sms Verification Code Failed".
    #[allow(non_snake_case)]
    pub fn SMS_VERIFICATION_CODE_FAILED() -> (r: StatusCode)
        ensures
            r@ == 10131,
    {
        StatusCode(10131)
    }

    /// The catalogued code `10132`, "Email Verification Code Failed".
    #[allow(non_snake_case)]
    pub fn EMAIL_VERIFICATION_CODE_FAILED() -> (r: StatusCode)
        ensures
            r@ == 10132,
    {
        StatusCode(10132)
    }

    /// The catalogued code `10133`, "Voice Verification Code Failed".
    #[allow(non_snake_case)]
    pub fn VOICE_VERIFICATION_CODE_FAILED() -> (r: StatusCode)
        ensures
            r@ == 10133,
    {
        StatusCode(10133)
    }
}

impl InvalidStatusCode {
    fn new() -> (r: InvalidStatusCode)
        ensures
            r == (InvalidStatusCode { _priv: () }),
    {
        InvalidStatusCode { _priv: () }
    }
}

impl PartialEq for StatusCode {
    fn eq(&self, other: &StatusCode) -> (r: bool)
        ensures
            r == (self@ == other@),
    {
        self.0 == other.0
    }
}

impl vstd::std_specs::cmp::PartialEqSpecImpl for StatusCode {
    open spec fn obeys_eq_spec() -> bool {
        true
    }

    open spec fn eq_spec(&self, other: &StatusCode) -> bool {
        self@ == other@
    }
}

impl PartialEq<u16> for StatusCode {
    fn eq(&self, other: &u16) -> (r: bool)
        ensures
            r == (self@ == *other),
    {
        self.as_u16() == *other
    }
}

impl vstd::std_specs::cmp::PartialEqSpecImpl<u16> for StatusCode {
    open spec fn obeys_eq_spec() -> bool {
        true
    }

    open spec fn eq_spec(&self, other: &u16) -> bool {
        self@ == *other
    }
}

impl PartialEq<StatusCode> for u16 {
    fn eq(&self, other: &StatusCode) -> (r: bool)
        ensures
            r == (*self == other@),
    {
        *self == other.as_u16()
    }
}

impl vstd::std_specs::cmp::PartialEqSpecImpl<StatusCode> for u16 {
    open spec fn obeys_eq_spec() -> bool {
        true
    }

    open spec fn eq_spec(&self, other: &StatusCode) -> bool {
        *self == other@
    }
}

/// How two codes compare, by their numbers.
pub open spec fn compare_codes(a: u16, b: u16) -> Option<core::cmp::Ordering> {
    if a < b {
        Some(core::cmp::Ordering::Less)
    } else if a == b {
        Some(core::cmp::Ordering::Equal)
    } else {
        Some(core::cmp::Ordering::Greater)
    }
}

impl PartialOrd for StatusCode {
    fn partial_cmp(&self, other: &StatusCode) -> (r: Option<core::cmp::Ordering>)
        ensures
            r == compare_codes(self@, other@),
    {
        if self.0 < other.0 {
            Some(core::cmp::Ordering::Less)
        } else if self.0 == other.0 {
            Some(core::cmp::Ordering::Equal)
        } else {
            Some(core::cmp::Ordering::Greater)
        }
    }
}

impl vstd::std_specs::cmp::PartialOrdSpecImpl for StatusCode {
    open spec fn obeys_partial_cmp_spec() -> bool {
        true
    }

    open spec fn partial_cmp_spec(&self, other: &StatusCode) -> Option<core::cmp::Ordering> {
        compare_codes(self@, other@)
    }
}

impl Default for StatusCode {
    fn default() -> (r: StatusCode)
        ensures
            r@ == 0,
    {
        StatusCode::OK()
    }
}

impl From<StatusCode> for u16 {
    fn from(status: StatusCode) -> (r: u16)
        ensures
            r == status@,
    {
        status.as_u16()
    }
}

impl vstd::std_specs::convert::FromSpecImpl<StatusCode> for u16 {
    open spec fn obeys_from_spec() -> bool {
        true
    }

    open spec fn from_spec(v: StatusCode) -> u16 {
        v@
    }
}

impl<'a> From<&'a StatusCode> for StatusCode {
    fn from(t: &'a StatusCode) -> (r: StatusCode)
        ensures
            r == *t,
    {
        *t
    }
}

impl<'a> vstd::std_specs::convert::FromSpecImpl<&'a StatusCode> for StatusCode {
    open spec fn obeys_from_spec() -> bool {
        true
    }

    open spec fn from_spec(v: &'a StatusCode) -> StatusCode {
        *v
    }
}

impl TryFrom<u16> for StatusCode {
    type Error = InvalidStatusCode;

    fn try_from(t: u16) -> (r: Result<StatusCode, InvalidStatusCode>)
        ensures
            t <= MAX_CODE <==> r is Ok,
            r matches Ok(s) ==> s@ == t,
    {
        match StatusCode::from_u16(t) {
            Ok(s) => Ok(s),
            Err(_) => Err(InvalidStatusCode::new()),
        }
    }
}

impl vstd::std_specs::convert::TryFromSpecImpl<u16> for StatusCode {
    open spec fn obeys_try_from_spec() -> bool {
        true
    }

    closed spec fn try_from_spec(v: u16) -> Result<StatusCode, InvalidStatusCode> {
        if v <= MAX_CODE {
            Ok(StatusCode(v))
        } else {
            Err(InvalidStatusCode { _priv: () })
        }
    }
}

impl<'a> TryFrom<&'a str> for StatusCode {
    type Error = InvalidStatusCode;

    fn try_from(t: &'a str) -> (r: Result<StatusCode, InvalidStatusCode>)
        ensures
            match r {
                Ok(s) => parse_code(t.spec_bytes()) == Some(s@),
                Err(_) => parse_code(t.spec_bytes()) is None,
            },
    {
        match StatusCode::from_bytes(t.as_bytes()) {
            Ok(s) => Ok(s),
            Err(_) => Err(InvalidStatusCode::new()),
        }
    }
}

impl<'a> vstd::std_specs::convert::TryFromSpecImpl<&'a str> for StatusCode {
    open spec fn obeys_try_from_spec() -> bool {
        true
    }

    closed spec fn try_from_spec(v: &'a str) -> Result<StatusCode, InvalidStatusCode> {
        match parse_code(v.spec_bytes()) {
            Some(c) => Ok(StatusCode(c)),
            None => Err(InvalidStatusCode { _priv: () }),
        }
    }
}

impl core::str::FromStr for StatusCode {
    type Err = InvalidStatusCode;

    fn from_str(s: &str) -> (r: Result<StatusCode, InvalidStatusCode>)
        ensures
            match r {
                Ok(c) => parse_code(s.spec_bytes()) == Some(c@),
                Err(_) => parse_code(s.spec_bytes()) is None,
            },
    {
        StatusCode::from_bytes(s.as_bytes())
    }
}

impl InvalidStatusCode {
    /// The human-readable message.
    pub fn to_string(&self) -> (r: String)
        ensures
            r@ == "invalid status code"@,
    {
        String::from_str("invalid status code")
    }
}

/// Every code read from text lies in the valid range, so building it from
/// its number succeeds too.
pub proof fn lemma_parsed_code_in_range(s: Seq<u8>)
    requires
        parse_code(s) is Some,
    ensures
        parse_code(s).unwrap() <= MAX_CODE,
{
}

/// Every code below 40000 reads back from its five-digit text, and that text
/// is the only one that reads as it.
pub proof fn lemma_five_digits_round_trip(n: u16, s: Seq<u8>)
    requires
        n < MAX_CODE,
    ensures
        parse_code(five_digits(n)) == Some(n),
        parse_code(s) == Some(n) ==> s == five_digits(n),
{
    let t = five_digits(n);
    assert(parse_code(t) == Some(n)) by (nonlinear_arith)
        requires
            n < 40000,
            t.len() == 5,
            t[0] == 48 + n / 10000,
            t[1] == 48 + n / 1000 % 10,
            t[2] == 48 + n / 100 % 10,
            t[3] == 48 + n / 10 % 10,
            t[4] == 48 + n % 10,
            ASCII_ZERO == 48,
    {
    }
    if parse_code(s) == Some(n) {
        let a = s[0] - 48;
        let b = s[1] - 48;
        let c = s[2] - 48;
        let d = s[3] - 48;
        let e = s[4] - 48;
        assert(n == a * 10000 + b * 1000 + c * 100 + d * 10 + e);
        assert(n / 10000 == a && n / 1000 % 10 == b && n / 100 % 10 == c && n / 10 % 10 == d
            && n % 10 == e) by (nonlinear_arith)
            requires
                n == a * 10000 + b * 1000 + c * 100 + d * 10 + e,
                0 <= a <= 3,
                0 <= b <= 9,
                0 <= c <= 9,
                0 <= d <= 9,
                0 <= e <= 9,
        {
        }
        assert(s =~= t);
    }
}

/// A status code equals its own number, whichever side the number is on.
pub proof fn lemma_equals_own_number(v: StatusCode)
    ensures
        v.eq_spec(&v@),
        (v@).eq_spec(&v),
{
}

/// Two status codes with the same number are the same value, and compare
/// equal under `==` and under the ordering.
pub proof fn lemma_same_number_same_code(a: StatusCode, b: StatusCode)
    requires
        a@ == b@,
    ensures
        a == b,
        a.eq_spec(&b),
        a.partial_cmp_spec(&b) == Some(core::cmp::Ordering::Equal),
{
}

/// `OK` reports success, and every other named code reports failure.
pub proof fn lemma_only_ok_succeeds()
    ensures
        is_success_code(0),
        !is_success_code(10001),
        !is_success_code(10100),
        !is_success_code(10101),
        !is_success_code(10102),
        !is_success_code(10110),
        !is_success_code(10111),
        !is_success_code(10112),
        !is_success_code(10113),
        !is_success_code(10120),
        !is_success_code(10121),
        !is_success_code(10122),
        !is_success_code(10130),
        !is_success_code(10131),
        !is_success_code(10132),
        !is_success_code(10133),
{
}

} // verus!
