use vstd::prelude::*;
use vstd::string::StrSliceExecFns;

use bigdecimal::{BigDecimal, RoundingMode, ToPrimitive};

verus! {

/// Number of fractional decimal digits kept for every amount.
pub const AMOUNT_SCALE: i64 = 4;

/// Largest magnitude, in ten-thousandths, that a balance may reach.
/// Twice this value still fits in an `i128`, so `available + held` never overflows.
pub const MAX_BALANCE: i128 = 85070591730234615865843651857942052863;

/// Whether a number of ten-thousandths is a balance the ledger can hold.
pub open spec fn in_balance_range(v: int) -> bool {
    -MAX_BALANCE <= v <= MAX_BALANCE
}

/// Identifier of a client account.
#[derive(Debug, Clone, Copy, PartialEq, Eq, Structural, PartialOrd, Ord, Hash)]
pub struct ClientId(pub u16);

/// Identifier of a transaction, unique over a whole input.
#[derive(Debug, Clone, Copy, PartialEq, Eq, Structural, PartialOrd, Ord, Hash)]
pub struct TxId(pub u32);

impl ClientId {
    pub fn to_string(&self) -> (r: String)
        ensures
            r@ == decimal_text(self.0 as nat),
    {
        u16_text(self.0)
    }
}

impl TxId {
    pub fn to_string(&self) -> (r: String)
        ensures
            r@ == decimal_text(self.0 as nat),
    {
        u32_text(self.0)
    }
}

/// Decimal text of an unsigned integer, most significant digit first.
pub open spec fn decimal_text(n: nat) -> Seq<char>
    decreases n,
{
    if n < 10 {
        seq![digit_char(n)]
    } else {
        decimal_text(n / 10).push(digit_char(n % 10))
    }
}

pub open spec fn digit_char(d: nat) -> char {
    if d == 0 { '0' } else if d == 1 { '1' } else if d == 2 { '2' } else if d == 3 { '3' }
    else if d == 4 { '4' } else if d == 5 { '5' } else if d == 6 { '6' } else if d == 7 { '7' }
    else if d == 8 { '8' } else { '9' }
}

/// Relies on `u16`'s `ToString`: its decimal digits.
#[verifier::external_body]
fn u16_text(n: u16) -> (r: String)
    ensures
        r@ == decimal_text(n as nat),
{
    n.to_string()
}

/// Relies on `u32`'s `ToString`: its decimal digits.
#[verifier::external_body]
fn u32_text(n: u32) -> (r: String)
    ensures
        r@ == decimal_text(n as nat),
{
    n.to_string()
}

impl From<u16> for ClientId {
    fn from(value: u16) -> (r: ClientId) {
        ClientId(value)
    }
}

impl vstd::std_specs::convert::FromSpecImpl<u16> for ClientId {
    open spec fn obeys_from_spec() -> bool {
        true
    }

    open spec fn from_spec(v: u16) -> ClientId {
        ClientId(v)
    }
}

impl From<ClientId> for u16 {
    fn from(value: ClientId) -> (r: u16) {
        value.0
    }
}

impl vstd::std_specs::convert::FromSpecImpl<ClientId> for u16 {
    open spec fn obeys_from_spec() -> bool {
        true
    }

    open spec fn from_spec(v: ClientId) -> u16 {
        v.0
    }
}

impl From<u32> for TxId {
    fn from(value: u32) -> (r: TxId) {
        TxId(value)
    }
}

impl vstd::std_specs::convert::FromSpecImpl<u32> for TxId {
    open spec fn obeys_from_spec() -> bool {
        true
    }

    open spec fn from_spec(v: u32) -> TxId {
        TxId(v)
    }
}

impl From<TxId> for u32 {
    fn from(value: TxId) -> (r: u32) {
        value.0
    }
}

impl vstd::std_specs::convert::FromSpecImpl<TxId> for u32 {
    open spec fn obeys_from_spec() -> bool {
        true
    }

    open spec fn from_spec(v: TxId) -> u32 {
        v.0
    }
}

/// The kind of an input record.
#[derive(Debug, Clone, Copy, PartialEq, Eq, Structural)]
pub enum TxType {
    Deposit,
    Withdrawal,
    Dispute,
    Resolve,
    Chargeback,
}

/// An exact decimal amount, held as a whole number of ten-thousandths.
#[derive(Debug, Clone, Copy, PartialEq, Eq, Structural)]
pub struct Amount {
    pub units: i128,
}

impl Amount {
    pub fn zero() -> (r: Amount)
        ensures
            r.units == 0,
    {
        Amount { units: 0 }
    }

    /// The amount of `units` ten-thousandths.
    pub fn from_units(units: i128) -> (r: Amount)
        ensures
            r.units == units,
    {
        Amount { units }
    }

    pub fn units(&self) -> (r: i128)
        ensures
            r == self.units,
    {
        self.units
    }
}

/// One input record: a kind, a client, a transaction id and, for deposits
/// and withdrawals, an amount.
#[derive(Debug, Clone, Copy, PartialEq, Eq, Structural)]
pub struct CSVRecord {
    pub kind: TxType,
    pub client: ClientId,
    pub tx: TxId,
    pub amount: Option<Amount>,
}

/// Whether `c` has Unicode's White_Space property, which is what `str::trim` drops.
pub open spec fn is_blank(c: char) -> bool {
    ('\u{9}' <= c && c <= '\u{d}') || c == ' ' || c == '\u{85}' || c == '\u{a0}' || c
        == '\u{1680}' || ('\u{2000}' <= c && c <= '\u{200a}') || c == '\u{2028}' || c
        == '\u{2029}' || c == '\u{202f}' || c == '\u{205f}' || c == '\u{3000}'
}

fn is_blank_char(c: char) -> (r: bool)
    ensures
        r == is_blank(c),
{
    ('\u{9}' <= c && c <= '\u{d}') || c == ' ' || c == '\u{85}' || c == '\u{a0}' || c
        == '\u{1680}' || ('\u{2000}' <= c && c <= '\u{200a}') || c == '\u{2028}' || c
        == '\u{2029}' || c == '\u{202f}' || c == '\u{205f}' || c == '\u{3000}'
}

/// Whether `c` may stand in decimal text: a digit, a sign, a decimal point,
/// a digit separator or an exponent marker.
pub open spec fn is_decimal_char(c: char) -> bool {
    ('0' <= c && c <= '9') || c == '+' || c == '-' || c == '.' || c == '_' || c == 'e' || c == 'E'
}

fn is_decimal_char_exec(c: char) -> (r: bool)
    ensures
        r == is_decimal_char(c),
{
    ('0' <= c && c <= '9') || c == '+' || c == '-' || c == '.' || c == '_' || c == 'e' || c == 'E'
}

/// Decimal text whose exponent, if any, has at most three characters after
/// its marker, so that it names a scale of at most a few thousand digits.
pub open spec fn is_bounded_decimal(text: Seq<char>) -> bool {
    forall|i: int|
        0 <= i < text.len() ==> is_decimal_char(#[trigger] text[i]) && ((text[i] == 'e' || text[i]
            == 'E') ==> text.len() - i <= 4)
}

/// `text` without its leading and trailing blanks.
pub open spec fn trimmed(text: Seq<char>) -> Seq<char>
    decreases text.len(),
{
    if text.len() > 0 && is_blank(text[0]) {
        trimmed(text.subrange(1, text.len() as int))
    } else if text.len() > 0 && is_blank(text.last()) {
        trimmed(text.drop_last())
    } else {
        text
    }
}

/// What `text` reads as in base ten, rounded half to even to `scale`
/// fractional digits and counted in units of that last digit, where it is a
/// number and that count fits in an `i128`.
pub uninterp spec fn decimal_units_of(text: Seq<char>, scale: i64) -> Option<i128>;

/// Relies on `BigDecimal::parse_bytes` (base ten) and
/// `BigDecimal::with_scale_round` with `RoundingMode::HalfEven`; the rounded
/// digits are read back as an `i128` through `ToPrimitive::to_i128`.
/// A long exponent, and a large scale, are kept out: either can ask for
/// unbounded work.
#[verifier::external_body]
fn decimal_units(text: &str, scale: i64) -> (r: Option<i128>)
    requires
        is_bounded_decimal(text@),
        0 <= scale <= 18,
    ensures
        r == decimal_units_of(text@, scale),
{
    match BigDecimal::parse_bytes(text.as_bytes(), 10) {
        Some(d) => d.with_scale_round(scale, RoundingMode::HalfEven).into_bigint_and_scale().0.to_i128(),
        None => None,
    }
}

/// The amount for a count read from decimal text: `None` (not a number, or
/// too large) is an invalid amount.
pub fn amount_from_units(units: Option<i128>) -> (r: Result<Amount, crate::transaction::TransactionError>)
    ensures
        r == match units {
            Some(u) => Ok::<Amount, crate::transaction::TransactionError>(Amount { units: u }),
            None => Err(crate::transaction::TransactionError::InvalidAmount),
        },
{
    match units {
        Some(u) => Ok(Amount { units: u }),
        None => Err(crate::transaction::TransactionError::InvalidAmount),
    }
}

/// Reads an amount field. Blanks around the text are dropped; an empty field
/// is no amount. Otherwise the text must be decimal, with an exponent of at
/// most three characters, and it is rounded half to even to four fractional
/// digits.
pub fn parse_amount(text: &str) -> (r: Result<Option<Amount>, crate::transaction::TransactionError>)
    ensures
        ({
            let t = trimmed(text@);
            r == if t.len() == 0 {
                Ok(None)
            } else if !is_bounded_decimal(t) {
                Err(crate::transaction::TransactionError::InvalidAmount)
            } else {
                match decimal_units_of(t, AMOUNT_SCALE) {
                    Some(u) => Ok(Some(Amount { units: u })),
                    None => Err(crate::transaction::TransactionError::InvalidAmount),
                }
            }
        }),
{
    let t = trim_blanks(text);
    let n = t.unicode_len();
    if n == 0 {
        return Ok(None);
    }
    let mut i: usize = 0;
    while i < n
        invariant
            0 <= i <= n == t@.len(),
            t@ == trimmed(text@),
            forall|j: int|
                0 <= j < i ==> is_decimal_char(#[trigger] t@[j]) && ((t@[j] == 'e' || t@[j]
                    == 'E') ==> t@.len() - j <= 4),
        decreases n - i,
    {
        let c = t.get_char(i);
        if !is_decimal_char_exec(c) || ((c == 'e' || c == 'E') && n - i > 4) {
            proof {
                assert(!(is_decimal_char(t@[i as int]) && ((t@[i as int] == 'e' || t@[i as int]
                    == 'E') ==> t@.len() - i <= 4)));
            }
            return Err(crate::transaction::TransactionError::InvalidAmount);
        }
        i = i + 1;
    }
    match amount_from_units(decimal_units(t, AMOUNT_SCALE)) {
        Ok(a) => Ok(Some(a)),
        Err(e) => Err(e),
    }
}

/// `text` without its leading and trailing blanks.
pub fn trim_blanks(text: &str) -> (r: &str)
    ensures
        r@ == trimmed(text@),
{
    let n = text.unicode_len();
    let mut start: usize = 0;
    let mut end: usize = n;
    proof {
        assert(text@.subrange(0, text@.len() as int) =~= text@);
    }
    while start < end && is_blank_char(text.get_char(start))
        invariant
            0 <= start <= end == n == text@.len(),
            trimmed(text@.subrange(start as int, end as int)) == trimmed(text@),
        decreases end - start,
    {
        proof {
            let s = text@.subrange(start as int, end as int);
            assert(s.subrange(1, s.len() as int) =~= text@.subrange(start + 1, end as int));
        }
        start = start + 1;
    }
    while start < end && is_blank_char(text.get_char(end - 1))
        invariant
            0 <= start <= end <= n == text@.len(),
            trimmed(text@.subrange(start as int, end as int)) == trimmed(text@),
            start < end ==> !is_blank(text@[start as int]),
        decreases end - start,
    {
        proof {
            let s = text@.subrange(start as int, end as int);
            assert(s.drop_last() =~= text@.subrange(start as int, end - 1));
        }
        end = end - 1;
    }
    let r = text.substring_char(start, end);
    proof {
        let s = text@.subrange(start as int, end as int);
        assert(r@ =~= s);
    }
    r
}

} // verus!
