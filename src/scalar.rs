//! Scalar field types and the textual parsing of their values.

use vstd::prelude::*;

verus! {

/// The integer types a scalar field may have.
#[derive(Clone, Copy, Debug, PartialEq, Eq, Structural)]
pub enum IntType {
    I8,
    I16,
    I32,
    I64,
    I128,
    Isize,
    U8,
    U16,
    U32,
    U64,
    U128,
    Usize,
}

/// The type of a scalar field, which decides how its text is parsed.
#[derive(Clone, Copy, Debug, PartialEq, Eq, Structural)]
pub enum ScalarType {
    /// The text itself.
    Text,
    /// `true` or `false`.
    Bool,
    /// A single character.
    Char,
    /// A decimal integer of the given type.
    Int(IntType),
}

/// A parsed scalar value.
#[derive(Clone, Debug, PartialEq, Eq)]
pub enum ScalarValue {
    Text(String),
    Bool(bool),
    Char(char),
    I8(i8),
    I16(i16),
    I32(i32),
    I64(i64),
    I128(i128),
    Isize(isize),
    U8(u8),
    U16(u16),
    U32(u32),
    U64(u64),
    U128(u128),
    Usize(usize),
}

/// The mathematical meaning of a scalar value.
pub enum ScalarView {
    Text(Seq<char>),
    Bool(bool),
    Char(char),
    /// An integer together with the type that holds it.
    Int(IntType, int),
}

impl IntType {
    pub open spec fn is_signed(self) -> bool {
        match self {
            IntType::I8 | IntType::I16 | IntType::I32 | IntType::I64 | IntType::I128
            | IntType::Isize => true,
            _ => false,
        }
    }

    /// The least value of the type.
    pub open spec fn min_value(self) -> int {
        match self {
            IntType::I8 => i8::MIN as int,
            IntType::I16 => i16::MIN as int,
            IntType::I32 => i32::MIN as int,
            IntType::I64 => i64::MIN as int,
            IntType::I128 => i128::MIN as int,
            IntType::Isize => isize::MIN as int,
            _ => 0,
        }
    }

    /// The greatest value of the type.
    pub open spec fn max_value(self) -> int {
        match self {
            IntType::I8 => i8::MAX as int,
            IntType::I16 => i16::MAX as int,
            IntType::I32 => i32::MAX as int,
            IntType::I64 => i64::MAX as int,
            IntType::I128 => i128::MAX as int,
            IntType::Isize => isize::MAX as int,
            IntType::U8 => u8::MAX as int,
            IntType::U16 => u16::MAX as int,
            IntType::U32 => u32::MAX as int,
            IntType::U64 => u64::MAX as int,
            IntType::U128 => u128::MAX as int,
            IntType::Usize => usize::MAX as int,
        }
    }

    /// The name of the type as it is written in Rust.
    pub open spec fn spec_name(self) -> Seq<char> {
        match self {
            IntType::I8 => "i8"@,
            IntType::I16 => "i16"@,
            IntType::I32 => "i32"@,
            IntType::I64 => "i64"@,
            IntType::I128 => "i128"@,
            IntType::Isize => "isize"@,
            IntType::U8 => "u8"@,
            IntType::U16 => "u16"@,
            IntType::U32 => "u32"@,
            IntType::U64 => "u64"@,
            IntType::U128 => "u128"@,
            IntType::Usize => "usize"@,
        }
    }

    pub fn signed(&self) -> (r: bool)
        ensures
            r == self.is_signed(),
    {
        match self {
            IntType::I8 | IntType::I16 | IntType::I32 | IntType::I64 | IntType::I128
            | IntType::Isize => true,
            _ => false,
        }
    }

    /// The greatest value of the type, as a magnitude.
    fn max_magnitude(&self) -> (r: u128)
        ensures
            r as int == self.max_value(),
    {
        match self {
            IntType::I8 => i8::MAX as u128,
            IntType::I16 => i16::MAX as u128,
            IntType::I32 => i32::MAX as u128,
            IntType::I64 => i64::MAX as u128,
            IntType::I128 => i128::MAX as u128,
            IntType::Isize => isize::MAX as u128,
            IntType::U8 => u8::MAX as u128,
            IntType::U16 => u16::MAX as u128,
            IntType::U32 => u32::MAX as u128,
            IntType::U64 => u64::MAX as u128,
            IntType::U128 => u128::MAX,
            IntType::Usize => usize::MAX as u128,
        }
    }

    /// The magnitude of the least value of the type.
    fn min_magnitude(&self) -> (r: u128)
        ensures
            r as int == -self.min_value(),
    {
        match self {
            IntType::I8 => 128,
            IntType::I16 => 32768,
            IntType::I32 => 0x8000_0000,
            IntType::I64 => 0x8000_0000_0000_0000,
            IntType::I128 => 0x8000_0000_0000_0000_0000_0000_0000_0000,
            IntType::Isize => (isize::MAX as u128) + 1,
            _ => 0,
        }
    }

    /// The name of the type as it is written in Rust.
    pub fn name(&self) -> (r: String)
        ensures
            r@ == self.spec_name(),
    {
        match self {
            IntType::I8 => "i8".to_string(),
            IntType::I16 => "i16".to_string(),
            IntType::I32 => "i32".to_string(),
            IntType::I64 => "i64".to_string(),
            IntType::I128 => "i128".to_string(),
            IntType::Isize => "isize".to_string(),
            IntType::U8 => "u8".to_string(),
            IntType::U16 => "u16".to_string(),
            IntType::U32 => "u32".to_string(),
            IntType::U64 => "u64".to_string(),
            IntType::U128 => "u128".to_string(),
            IntType::Usize => "usize".to_string(),
        }
    }
}

impl ScalarType {
    /// The name of the type as it is written in Rust, used in parse errors.
    pub open spec fn spec_name(self) -> Seq<char> {
        match self {
            ScalarType::Text => "String"@,
            ScalarType::Bool => "bool"@,
            ScalarType::Char => "char"@,
            ScalarType::Int(t) => t.spec_name(),
        }
    }

    /// The name of the type as it is written in Rust.
    pub fn name(&self) -> (r: String)
        ensures
            r@ == self.spec_name(),
    {
        match self {
            ScalarType::Text => "String".to_string(),
            ScalarType::Bool => "bool".to_string(),
            ScalarType::Char => "char".to_string(),
            ScalarType::Int(t) => t.name(),
        }
    }
}

impl View for ScalarValue {
    type V = ScalarView;

    open spec fn view(&self) -> ScalarView {
        match self {
            ScalarValue::Text(s) => ScalarView::Text(s@),
            ScalarValue::Bool(b) => ScalarView::Bool(*b),
            ScalarValue::Char(c) => ScalarView::Char(*c),
            ScalarValue::I8(v) => ScalarView::Int(IntType::I8, *v as int),
            ScalarValue::I16(v) => ScalarView::Int(IntType::I16, *v as int),
            ScalarValue::I32(v) => ScalarView::Int(IntType::I32, *v as int),
            ScalarValue::I64(v) => ScalarView::Int(IntType::I64, *v as int),
            ScalarValue::I128(v) => ScalarView::Int(IntType::I128, *v as int),
            ScalarValue::Isize(v) => ScalarView::Int(IntType::Isize, *v as int),
            ScalarValue::U8(v) => ScalarView::Int(IntType::U8, *v as int),
            ScalarValue::U16(v) => ScalarView::Int(IntType::U16, *v as int),
            ScalarValue::U32(v) => ScalarView::Int(IntType::U32, *v as int),
            ScalarValue::U64(v) => ScalarView::Int(IntType::U64, *v as int),
            ScalarValue::U128(v) => ScalarView::Int(IntType::U128, *v as int),
            ScalarValue::Usize(v) => ScalarView::Int(IntType::Usize, *v as int),
        }
    }
}

pub open spec fn is_digit(c: char) -> bool {
    '0' <= c && c <= '9'
}

/// A non-empty run of decimal digits.
pub open spec fn is_numeral(s: Seq<char>) -> bool {
    s.len() > 0 && forall|i: int| 0 <= i < s.len() ==> is_digit(#[trigger] s[i])
}

/// The number that a run of decimal digits writes.
pub open spec fn digits_value(s: Seq<char>) -> int
    decreases s.len(),
{
    if s.len() == 0 {
        0
    } else {
        10 * digits_value(s.drop_last()) + ((s.last() as u32) - 48)
    }
}

/// The integer that `s` writes in decimal: digits with an optional leading
/// `+`, or `-` where the type is signed; nothing else.
pub open spec fn decimal_value(s: Seq<char>, signed: bool) -> Option<int> {
    if s.len() > 0 && s[0] == '+' {
        if is_numeral(s.drop_first()) {
            Some(digits_value(s.drop_first()))
        } else {
            None
        }
    } else if signed && s.len() > 0 && s[0] == '-' {
        if is_numeral(s.drop_first()) {
            Some(-digits_value(s.drop_first()))
        } else {
            None
        }
    } else if is_numeral(s) {
        Some(digits_value(s))
    } else {
        None
    }
}

/// What the text `s` parses to as a value of type `ty`, or `None` where it is
/// not a valid text of that type.
pub open spec fn parse_scalar(ty: ScalarType, s: Seq<char>) -> Option<ScalarView> {
    match ty {
        ScalarType::Text => Some(ScalarView::Text(s)),
        ScalarType::Bool => {
            if s == "true"@ {
                Some(ScalarView::Bool(true))
            } else if s == "false"@ {
                Some(ScalarView::Bool(false))
            } else {
                None
            }
        },
        ScalarType::Char => {
            if s.len() == 1 {
                Some(ScalarView::Char(s[0]))
            } else {
                None
            }
        },
        ScalarType::Int(t) => match decimal_value(s, t.is_signed()) {
            Some(v) => {
                if t.min_value() <= v && v <= t.max_value() {
                    Some(ScalarView::Int(t, v))
                } else {
                    None
                }
            },
            None => None,
        },
    }
}

/// A run of digits writes at least what any of its prefixes writes.
proof fn lemma_digits_value_grows(s: Seq<char>, k: int)
    requires
        0 <= k <= s.len(),
        forall|i: int| 0 <= i < s.len() ==> is_digit(#[trigger] s[i]),
    ensures
        digits_value(s.take(k)) <= digits_value(s),
        0 <= digits_value(s),
    decreases s.len(),
{
    if s.len() > 0 {
        lemma_digits_value_grows(s.drop_last(), if k == s.len() { k - 1 } else { k });
        if k < s.len() {
            assert(s.drop_last().take(k) == s.take(k));
        } else {
            assert(s.take(k) == s);
        }
    }
}

/// The magnitude written by the digits of `s` from `start` on, or `None` when
/// `s` has a non-digit there or the magnitude exceeds `u128::MAX`.
fn parse_magnitude(s: &str, start: usize) -> (r: Option<u128>)
    requires
        start < s@.len(),
    ensures
        match r {
            Some(m) => is_numeral(s@.skip(start as int)) && m as int == digits_value(
                s@.skip(start as int),
            ),
            None => !is_numeral(s@.skip(start as int)) || digits_value(s@.skip(start as int))
                > u128::MAX,
        },
{
    let n = s.unicode_len();
    let ghost tail = s@.skip(start as int);
    let mut mag: u128 = 0;
    let mut i: usize = start;
    let mut overflow = false;
    while i < n
        invariant
            n == s@.len(),
            start <= i <= n,
            tail == s@.skip(start as int),
            forall|j: int| start <= j < i ==> is_digit(#[trigger] s@[j]),
            !overflow ==> mag as int == digits_value(tail.take(i - start)),
            overflow ==> digits_value(tail.take(i - start)) > u128::MAX,
        decreases n - i,
    {
        let c = s.get_char(i);
        if !('0' <= c && c <= '9') {
            assert(!is_digit(tail[i - start]));
            return None;
        }
        let d = (c as u32 - 48) as u128;
        proof {
            assert(tail.take(i + 1 - start).drop_last() == tail.take(i - start));
            assert(tail.take(i + 1 - start).last() == c);
            assert forall|j: int| 0 <= j < i - start implies is_digit(
                #[trigger] tail.take(i - start)[j],
            ) by {
                assert(tail.take(i - start)[j] == s@[start + j]);
            }
            lemma_digits_value_grows(tail.take(i - start), 0);
        }
        if !overflow {
            match mag.checked_mul(10) {
                Some(m) => match m.checked_add(d) {
                    Some(v) => {
                        mag = v;
                    },
                    None => {
                        overflow = true;
                    },
                },
                None => {
                    overflow = true;
                },
            }
        }
        i = i + 1;
    }
    assert(tail.take(n - start) == tail);
    assert forall|j: int| 0 <= j < tail.len() implies is_digit(#[trigger] tail[j]) by {
        assert(tail[j] == s@[start + j]);
    }
    if overflow {
        None
    } else {
        Some(mag)
    }
}

/// The view of an optional scalar value.
pub open spec fn opt_view(r: Option<ScalarValue>) -> Option<ScalarView> {
    match r {
        Some(v) => Some(v@),
        None => None,
    }
}

/// The value `v` in the signed integer type `t`.
fn signed_value(t: IntType, v: i128) -> (r: ScalarValue)
    requires
        t.is_signed(),
        t.min_value() <= v <= t.max_value(),
    ensures
        r@ == ScalarView::Int(t, v as int),
{
    match t {
        IntType::I8 => ScalarValue::I8(v as i8),
        IntType::I16 => ScalarValue::I16(v as i16),
        IntType::I32 => ScalarValue::I32(v as i32),
        IntType::I64 => ScalarValue::I64(v as i64),
        IntType::Isize => ScalarValue::Isize(v as isize),
        _ => ScalarValue::I128(v),
    }
}

/// The value `m` in the unsigned integer type `t`.
fn unsigned_value(t: IntType, m: u128) -> (r: ScalarValue)
    requires
        !t.is_signed(),
        m <= t.max_value(),
    ensures
        r@ == ScalarView::Int(t, m as int),
{
    match t {
        IntType::U8 => ScalarValue::U8(m as u8),
        IntType::U16 => ScalarValue::U16(m as u16),
        IntType::U32 => ScalarValue::U32(m as u32),
        IntType::U64 => ScalarValue::U64(m as u64),
        IntType::Usize => ScalarValue::Usize(m as usize),
        _ => ScalarValue::U128(m),
    }
}

/// Parses `s` as a decimal integer of type `t`.
fn parse_int(s: &str, t: IntType) -> (r: Option<ScalarValue>)
    ensures
        opt_view(r) == parse_scalar(ScalarType::Int(t), s@),
{
    let n = s.unicode_len();
    if n == 0 {
        return None;
    }
    let first = s.get_char(0);
    let negative = first == '-' && t.signed();
    let start: usize = if first == '+' || negative {
        1
    } else {
        0
    };
    assert(s@.skip(1) == s@.drop_first());
    assert(s@.skip(0) == s@);
    if start >= n {
        return None;
    }
    let mag = match parse_magnitude(s, start) {
        Some(m) => m,
        None => {
            return None;
        },
    };
    if negative {
        if mag > t.min_magnitude() {
            return None;
        }
        let v: i128 = if mag == 0 {
            0
        } else {
            -((mag - 1) as i128) - 1
        };
        Some(signed_value(t, v))
    } else {
        if mag > t.max_magnitude() {
            return None;
        }
        if t.signed() {
            Some(signed_value(t, mag as i128))
        } else {
            Some(unsigned_value(t, mag))
        }
    }
}

/// Parses `s` as a value of type `ty`; `None` where `s` is not a valid text
/// of that type.
pub fn parse(ty: ScalarType, s: &str) -> (r: Option<ScalarValue>)
    ensures
        opt_view(r) == parse_scalar(ty, s@),
{
    match ty {
        ScalarType::Text => Some(ScalarValue::Text(s.to_string())),
        ScalarType::Bool => {
            let text = s.to_string();
            if text == "true".to_string() {
                Some(ScalarValue::Bool(true))
            } else if text == "false".to_string() {
                Some(ScalarValue::Bool(false))
            } else {
                None
            }
        },
        ScalarType::Char => {
            if s.unicode_len() == 1 {
                Some(ScalarValue::Char(s.get_char(0)))
            } else {
                None
            }
        },
        ScalarType::Int(t) => parse_int(s, t),
    }
}

} // verus!
