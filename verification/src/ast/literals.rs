use vstd::prelude::*;

use crate::ast::AstStatement;
use crate::text::{i32_to_string, i128_to_string, int_decimal, u32_to_string};

verus! {

pub const BOOL_TYPE: &'static str = "BOOL";

pub const SINT_TYPE: &'static str = "SINT";

pub const INT_TYPE: &'static str = "INT";

pub const DINT_TYPE: &'static str = "DINT";

pub const LINT_TYPE: &'static str = "LINT";

pub const USINT_TYPE: &'static str = "USINT";

pub const UINT_TYPE: &'static str = "UINT";

pub const UDINT_TYPE: &'static str = "UDINT";

pub const ULINT_TYPE: &'static str = "ULINT";

pub const VOID_TYPE: &'static str = "VOID";

pub const WSTRING_TYPE: &'static str = "WSTRING";

pub const STRING_TYPE: &'static str = "STRING";

pub const LREAL_TYPE: &'static str = "LREAL";

pub const DATE_TYPE: &'static str = "DATE";

pub const DATE_AND_TIME_TYPE: &'static str = "DATE_AND_TIME";

pub const TIME_TYPE: &'static str = "TIME";

pub const TIME_OF_DAY_TYPE: &'static str = "TIME_OF_DAY";

/// A literal value. The fractional parts of a `LiteralTime` are held as the
/// bit patterns of their `f64` values.
#[derive(Debug, Clone, PartialEq)]
pub enum LiteralKind {
    LiteralNull,
    LiteralInteger { value: i128 },
    LiteralDate { year: i32, month: u32, day: u32 },
    LiteralDateAndTime { year: i32, month: u32, day: u32, hour: u32, min: u32, sec: u32, nano: u32 },
    LiteralTimeOfDay { hour: u32, min: u32, sec: u32, nano: u32 },
    LiteralTime {
        day: u64,
        hour: u64,
        min: u64,
        sec: u64,
        milli: u64,
        micro: u64,
        nano: u32,
        negative: bool,
    },
    LiteralReal { value: String },
    LiteralBool { value: bool },
    LiteralString { value: String, is_wide: bool },
    LiteralArray {
        elements: Option<Box<AstStatement>>,  // expression-list
    },
}

/// `lo <= v <= hi`: the range of an integer type covers `v`.
pub open spec fn covered_by(v: int, lo: int, hi: int) -> bool {
    lo <= v && v <= hi
}

/// The name of the smallest type that holds an integer literal: `BOOL` for 0
/// and 1, else the smallest signed (or unsigned) integer type, else `VOID`.
pub open spec fn integer_literal_type_name(value: int, signed: bool) -> Seq<char> {
    if value == 0 || value == 1 {
        BOOL_TYPE@
    } else if signed {
        if covered_by(value, i8::MIN as int, i8::MAX as int) {
            SINT_TYPE@
        } else if covered_by(value, i16::MIN as int, i16::MAX as int) {
            INT_TYPE@
        } else if covered_by(value, i32::MIN as int, i32::MAX as int) {
            DINT_TYPE@
        } else if covered_by(value, i64::MIN as int, i64::MAX as int) {
            LINT_TYPE@
        } else {
            VOID_TYPE@
        }
    } else {
        if covered_by(value, 0, u8::MAX as int) {
            USINT_TYPE@
        } else if covered_by(value, 0, u16::MAX as int) {
            UINT_TYPE@
        } else if covered_by(value, 0, u32::MAX as int) {
            UDINT_TYPE@
        } else if covered_by(value, 0, u64::MAX as int) {
            ULINT_TYPE@
        } else {
            VOID_TYPE@
        }
    }
}

impl LiteralKind {
    /// The name of the type of the literal; `None` for `null` and arrays.
    pub open spec fn actual_type_name(self, signed: bool) -> Option<Seq<char>> {
        match self {
            LiteralKind::LiteralInteger { value } => Some(
                integer_literal_type_name(value as int, signed),
            ),
            LiteralKind::LiteralBool { .. } => Some(BOOL_TYPE@),
            LiteralKind::LiteralString { is_wide, .. } => if is_wide {
                Some(WSTRING_TYPE@)
            } else {
                Some(STRING_TYPE@)
            },
            LiteralKind::LiteralReal { .. } => Some(LREAL_TYPE@),
            LiteralKind::LiteralDate { .. } => Some(DATE_TYPE@),
            LiteralKind::LiteralDateAndTime { .. } => Some(DATE_AND_TIME_TYPE@),
            LiteralKind::LiteralTime { .. } => Some(TIME_TYPE@),
            LiteralKind::LiteralTimeOfDay { .. } => Some(TIME_OF_DAY_TYPE@),
            _ => None,
        }
    }

    pub fn new_array(elements: Option<Box<AstStatement>>) -> (r: Self)
        ensures
            r == (LiteralKind::LiteralArray { elements }),
    {
        LiteralKind::LiteralArray { elements }
    }

    pub fn get_literal_actual_signed_type_name(&self, signed: bool) -> (r: Option<&str>)
        ensures
            match r {
                Some(n) => self.actual_type_name(signed) == Some(n@),
                None => self.actual_type_name(signed) is None,
            },
    {
        match self {
            LiteralKind::LiteralInteger { value, .. } => {
                let v = *value;
                if v == 0 || v == 1 {
                    Some(BOOL_TYPE)
                } else if signed {
                    if i8::MIN as i128 <= v && v <= i8::MAX as i128 {
                        Some(SINT_TYPE)
                    } else if i16::MIN as i128 <= v && v <= i16::MAX as i128 {
                        Some(INT_TYPE)
                    } else if i32::MIN as i128 <= v && v <= i32::MAX as i128 {
                        Some(DINT_TYPE)
                    } else if i64::MIN as i128 <= v && v <= i64::MAX as i128 {
                        Some(LINT_TYPE)
                    } else {
                        Some(VOID_TYPE)
                    }
                } else {
                    if 0 <= v && v <= u8::MAX as i128 {
                        Some(USINT_TYPE)
                    } else if 0 <= v && v <= u16::MAX as i128 {
                        Some(UINT_TYPE)
                    } else if 0 <= v && v <= u32::MAX as i128 {
                        Some(UDINT_TYPE)
                    } else if 0 <= v && v <= u64::MAX as i128 {
                        Some(ULINT_TYPE)
                    } else {
                        Some(VOID_TYPE)
                    }
                }
            },
            LiteralKind::LiteralBool { .. } => Some(BOOL_TYPE),
            LiteralKind::LiteralString { is_wide: true, .. } => Some(WSTRING_TYPE),
            LiteralKind::LiteralString { is_wide: false, .. } => Some(STRING_TYPE),
            LiteralKind::LiteralReal { .. } => Some(LREAL_TYPE),
            LiteralKind::LiteralDate { .. } => Some(DATE_TYPE),
            LiteralKind::LiteralDateAndTime { .. } => Some(DATE_AND_TIME_TYPE),
            LiteralKind::LiteralTime { .. } => Some(TIME_TYPE),
            LiteralKind::LiteralTimeOfDay { .. } => Some(TIME_OF_DAY_TYPE),
            _ => None,
        }
    }

    /// Whether a literal of this kind may carry a type prefix (`INT#5`).
    pub open spec fn cast_prefix_eligible(self) -> bool {
        match self {
            LiteralKind::LiteralBool { .. } | LiteralKind::LiteralInteger { .. }
            | LiteralKind::LiteralReal { .. } | LiteralKind::LiteralString { .. }
            | LiteralKind::LiteralTime { .. } | LiteralKind::LiteralDate { .. }
            | LiteralKind::LiteralTimeOfDay { .. } | LiteralKind::LiteralDateAndTime { .. } => true,
            _ => false,
        }
    }

    pub fn is_cast_prefix_eligible(&self) -> (r: bool)
        ensures
            r == self.cast_prefix_eligible(),
    {
        match self {
            LiteralKind::LiteralBool { .. } | LiteralKind::LiteralInteger { .. }
            | LiteralKind::LiteralReal { .. } | LiteralKind::LiteralString { .. }
            | LiteralKind::LiteralTime { .. } | LiteralKind::LiteralDate { .. }
            | LiteralKind::LiteralTimeOfDay { .. } | LiteralKind::LiteralDateAndTime { .. } => true,
            _ => false,
        }
    }

    /// The text of the literal as it is written in source: a wide string in
    /// double quotes, a string in single quotes, a boolean as `true`/`false`,
    /// a number in decimal; the other kinds as their multi-line debug
    /// description. `None` for a duration (whose fields are floating point)
    /// and an array (whose text is that of its elements' syntax tree).
    pub open spec fn literal_text_of(self) -> Option<Seq<char>> {
        match self {
            LiteralKind::LiteralString { value, is_wide } => if is_wide {
                Some(seq!['"'] + value@ + seq!['"'])
            } else {
                Some(seq!['\''] + value@ + seq!['\''])
            },
            LiteralKind::LiteralBool { value } => Some(
                if value {
                    "true"@
                } else {
                    "false"@
                },
            ),
            LiteralKind::LiteralInteger { value } => Some(int_decimal(value as int)),
            LiteralKind::LiteralReal { value } => Some(value@),
            LiteralKind::LiteralNull => Some("LiteralNull"@),
            LiteralKind::LiteralDate { year, month, day } => Some(
                debug_record(
                    "LiteralDate"@,
                    seq![
                        field_line("year"@, int_decimal(year as int)),
                        field_line("month"@, int_decimal(month as int)),
                        field_line("day"@, int_decimal(day as int)),
                    ],
                ),
            ),
            LiteralKind::LiteralDateAndTime { year, month, day, hour, min, sec, nano } => Some(
                debug_record(
                    "LiteralDateAndTime"@,
                    seq![
                        field_line("year"@, int_decimal(year as int)),
                        field_line("month"@, int_decimal(month as int)),
                        field_line("day"@, int_decimal(day as int)),
                        field_line("hour"@, int_decimal(hour as int)),
                        field_line("min"@, int_decimal(min as int)),
                        field_line("sec"@, int_decimal(sec as int)),
                        field_line("nano"@, int_decimal(nano as int)),
                    ],
                ),
            ),
            LiteralKind::LiteralTimeOfDay { hour, min, sec, nano } => Some(
                debug_record(
                    "LiteralTimeOfDay"@,
                    seq![
                        field_line("hour"@, int_decimal(hour as int)),
                        field_line("min"@, int_decimal(min as int)),
                        field_line("sec"@, int_decimal(sec as int)),
                        field_line("nano"@, int_decimal(nano as int)),
                    ],
                ),
            ),
            LiteralKind::LiteralTime { .. } => None,
            LiteralKind::LiteralArray { .. } => None,
        }
    }
}

/// One line of a multi-line debug description: `    name: value,` and a
/// line break.
pub open spec fn field_line(name: Seq<char>, value: Seq<char>) -> Seq<char> {
    "    "@ + name + ": "@ + value + ",\n"@
}

/// The lines of a multi-line debug description, one after the other.
pub open spec fn joined_lines(lines: Seq<Seq<char>>) -> Seq<char>
    decreases lines.len(),
{
    if lines.len() == 0 {
        seq![]
    } else {
        joined_lines(lines.drop_last()) + lines.last()
    }
}

/// A multi-line debug description of a record: `Name {`, its field lines,
/// and `}`.
pub open spec fn debug_record(name: Seq<char>, lines: Seq<Seq<char>>) -> Seq<char> {
    name + " {\n"@ + joined_lines(lines) + "}"@
}

/// The text of a field line of a debug description.
fn field_line_text(name: &str, value: String) -> (r: String)
    ensures
        r@ == field_line(name@, value@),
{
    proof {
        reveal_strlit("    ");
        reveal_strlit(": ");
        reveal_strlit(",\n");
    }
    String::from_str("    ").concat(name).concat(": ").concat(value.as_str()).concat(",\n")
}

/// The text of a multi-line debug description of a record.
fn record_text(name: &str, lines: Vec<String>) -> (r: String)
    ensures
        r@ == debug_record(name@, lines@.map_values(|l: String| l@)),
{
    let ghost texts = lines@.map_values(|l: String| l@);
    let mut body = String::new();
    let mut i: usize = 0;
    while i < lines.len()
        invariant
            i <= lines.len(),
            texts == lines@.map_values(|l: String| l@),
            body@ == joined_lines(texts.subrange(0, i as int)),
        decreases lines.len() - i,
    {
        body.append(lines[i].as_str());
        i = i + 1;
        assert(texts.subrange(0, i as int).drop_last() =~= texts.subrange(0, i - 1));
    }
    assert(texts.subrange(0, lines.len() as int) =~= texts);
    proof {
        reveal_strlit(" {\n");
        reveal_strlit("}");
    }
    String::from_str(name).concat(" {\n").concat(body.as_str()).concat("}")
}

impl LiteralKind {
    /// The text of the literal (see `literal_text_of`); `None` for a duration
    /// and an array.
    pub fn literal_text(&self) -> (r: Option<String>)
        ensures
            match r {
                Some(t) => self.literal_text_of() == Some(t@),
                None => self.literal_text_of() is None,
            },
    {
        proof {
            reveal_strlit("\"");
            reveal_strlit("'");
            reveal_strlit("true");
            reveal_strlit("false");
            reveal_strlit("LiteralNull");
        }
        match self {
            LiteralKind::LiteralString { value, is_wide: true } => Some(
                String::from_str("\"").concat(value.as_str()).concat("\""),
            ),
            LiteralKind::LiteralString { value, is_wide: false } => Some(
                String::from_str("'").concat(value.as_str()).concat("'"),
            ),
            LiteralKind::LiteralBool { value } => Some(
                if *value {
                    String::from_str("true")
                } else {
                    String::from_str("false")
                },
            ),
            LiteralKind::LiteralInteger { value } => Some(i128_to_string(*value)),
            LiteralKind::LiteralReal { value } => Some(value.clone()),
            LiteralKind::LiteralNull => Some(String::from_str("LiteralNull")),
            LiteralKind::LiteralDate { year, month, day } => {
                let lines = vec![
                    field_line_text("year", i32_to_string(*year)),
                    field_line_text("month", u32_to_string(*month)),
                    field_line_text("day", u32_to_string(*day)),
                ];
                let r = record_text("LiteralDate", lines);
                assert(lines@.map_values(|l: String| l@) =~= seq![
                    field_line("year"@, int_decimal(*year as int)),
                    field_line("month"@, int_decimal(*month as int)),
                    field_line("day"@, int_decimal(*day as int)),
                ]);
                Some(r)
            },
            LiteralKind::LiteralDateAndTime { year, month, day, hour, min, sec, nano } => {
                let lines = vec![
                    field_line_text("year", i32_to_string(*year)),
                    field_line_text("month", u32_to_string(*month)),
                    field_line_text("day", u32_to_string(*day)),
                    field_line_text("hour", u32_to_string(*hour)),
                    field_line_text("min", u32_to_string(*min)),
                    field_line_text("sec", u32_to_string(*sec)),
                    field_line_text("nano", u32_to_string(*nano)),
                ];
                let r = record_text("LiteralDateAndTime", lines);
                assert(lines@.map_values(|l: String| l@) =~= seq![
                    field_line("year"@, int_decimal(*year as int)),
                    field_line("month"@, int_decimal(*month as int)),
                    field_line("day"@, int_decimal(*day as int)),
                    field_line("hour"@, int_decimal(*hour as int)),
                    field_line("min"@, int_decimal(*min as int)),
                    field_line("sec"@, int_decimal(*sec as int)),
                    field_line("nano"@, int_decimal(*nano as int)),
                ]);
                Some(r)
            },
            LiteralKind::LiteralTimeOfDay { hour, min, sec, nano } => {
                let lines = vec![
                    field_line_text("hour", u32_to_string(*hour)),
                    field_line_text("min", u32_to_string(*min)),
                    field_line_text("sec", u32_to_string(*sec)),
                    field_line_text("nano", u32_to_string(*nano)),
                ];
                let r = record_text("LiteralTimeOfDay", lines);
                assert(lines@.map_values(|l: String| l@) =~= seq![
                    field_line("hour"@, int_decimal(*hour as int)),
                    field_line("min"@, int_decimal(*min as int)),
                    field_line("sec"@, int_decimal(*sec as int)),
                    field_line("nano"@, int_decimal(*nano as int)),
                ]);
                Some(r)
            },
            LiteralKind::LiteralTime { .. } => None,
            LiteralKind::LiteralArray { .. } => None,
        }
    }
}

/// The names of the integer types, character by character.
proof fn lemma_integer_type_names()
    ensures
        BOOL_TYPE@ =~= seq!['B', 'O', 'O', 'L'],
        SINT_TYPE@ =~= seq!['S', 'I', 'N', 'T'],
        INT_TYPE@ =~= seq!['I', 'N', 'T'],
        DINT_TYPE@ =~= seq!['D', 'I', 'N', 'T'],
        LINT_TYPE@ =~= seq!['L', 'I', 'N', 'T'],
        USINT_TYPE@ =~= seq!['U', 'S', 'I', 'N', 'T'],
        UINT_TYPE@ =~= seq!['U', 'I', 'N', 'T'],
        UDINT_TYPE@ =~= seq!['U', 'D', 'I', 'N', 'T'],
        ULINT_TYPE@ =~= seq!['U', 'L', 'I', 'N', 'T'],
        VOID_TYPE@ =~= seq!['V', 'O', 'I', 'D'],
{
    reveal_strlit("BOOL");
    reveal_strlit("SINT");
    reveal_strlit("INT");
    reveal_strlit("DINT");
    reveal_strlit("LINT");
    reveal_strlit("USINT");
    reveal_strlit("UINT");
    reveal_strlit("UDINT");
    reveal_strlit("ULINT");
    reveal_strlit("VOID");
}

/// The type of a signed integer literal is the smallest signed integer type
/// whose range holds it, `BOOL` for 0 and 1, and `VOID` beyond 64 bits.
pub proof fn lemma_signed_literal_type(value: int)
    ensures
        (integer_literal_type_name(value, true) == "BOOL"@) <==> (value == 0 || value == 1),
        (integer_literal_type_name(value, true) == "SINT"@) <==> (value != 0 && value != 1 && -128
            <= value <= 127),
        (integer_literal_type_name(value, true) == "INT"@) <==> (!(-128 <= value <= 127) && -32768
            <= value <= 32767),
        (integer_literal_type_name(value, true) == "DINT"@) <==> (!(-32768 <= value <= 32767)
            && -2147483648 <= value <= 2147483647),
        (integer_literal_type_name(value, true) == "LINT"@) <==> (!(-2147483648 <= value
            <= 2147483647) && -9223372036854775808 <= value <= 9223372036854775807),
        (integer_literal_type_name(value, true) == "VOID"@) <==> !(-9223372036854775808 <= value
            <= 9223372036854775807),
{
    lemma_integer_type_names();
    reveal_strlit("BOOL");
    reveal_strlit("SINT");
    reveal_strlit("INT");
    reveal_strlit("DINT");
    reveal_strlit("LINT");
    reveal_strlit("USINT");
    reveal_strlit("UINT");
    reveal_strlit("UDINT");
    reveal_strlit("ULINT");
    reveal_strlit("VOID");
}

/// The type of an unsigned integer literal is the smallest unsigned integer
/// type whose range holds it, `BOOL` for 0 and 1, and `VOID` for a negative
/// value or one beyond 64 bits.
pub proof fn lemma_unsigned_literal_type(value: int)
    ensures
        (integer_literal_type_name(value, false) == "BOOL"@) <==> (value == 0 || value == 1),
        (integer_literal_type_name(value, false) == "USINT"@) <==> (2 <= value <= 255),
        (integer_literal_type_name(value, false) == "UINT"@) <==> (256 <= value <= 65535),
        (integer_literal_type_name(value, false) == "UDINT"@) <==> (65536 <= value <= 4294967295),
        (integer_literal_type_name(value, false) == "ULINT"@) <==> (4294967296 <= value
            <= 18446744073709551615),
        (integer_literal_type_name(value, false) == "VOID"@) <==> (value < 0 || value
            > 18446744073709551615),
{
    lemma_integer_type_names();
    reveal_strlit("BOOL");
    reveal_strlit("SINT");
    reveal_strlit("INT");
    reveal_strlit("DINT");
    reveal_strlit("LINT");
    reveal_strlit("USINT");
    reveal_strlit("UINT");
    reveal_strlit("UDINT");
    reveal_strlit("ULINT");
    reveal_strlit("VOID");
}

/// The names of the other literal types, character by character.
proof fn lemma_other_type_names()
    ensures
        BOOL_TYPE@ =~= seq!['B', 'O', 'O', 'L'],
        WSTRING_TYPE@ =~= seq!['W', 'S', 'T', 'R', 'I', 'N', 'G'],
        STRING_TYPE@ =~= seq!['S', 'T', 'R', 'I', 'N', 'G'],
        LREAL_TYPE@ =~= seq!['L', 'R', 'E', 'A', 'L'],
        DATE_TYPE@ =~= seq!['D', 'A', 'T', 'E'],
        DATE_AND_TIME_TYPE@ =~= seq!['D', 'A', 'T', 'E', '_', 'A', 'N', 'D', '_', 'T', 'I', 'M', 'E'],
        TIME_TYPE@ =~= seq!['T', 'I', 'M', 'E'],
        TIME_OF_DAY_TYPE@ =~= seq!['T', 'I', 'M', 'E', '_', 'O', 'F', '_', 'D', 'A', 'Y'],
{
    reveal_strlit("BOOL");
    reveal_strlit("WSTRING");
    reveal_strlit("STRING");
    reveal_strlit("LREAL");
    reveal_strlit("DATE");
    reveal_strlit("DATE_AND_TIME");
    reveal_strlit("TIME");
    reveal_strlit("TIME_OF_DAY");
}

/// The type of a literal that is no integer: `BOOL` for a boolean,
/// `WSTRING` for a wide string and `STRING` for another, `LREAL` for a real,
/// `DATE`, `DATE_AND_TIME`, `TIME` and `TIME_OF_DAY` for the points and
/// spans of time; none for `NULL` and arrays.
pub proof fn lemma_other_literal_types(kind: LiteralKind, signed: bool)
    ensures
        kind is LiteralBool ==> kind.actual_type_name(signed) == Some("BOOL"@),
        kind matches LiteralKind::LiteralString { is_wide, .. } ==> kind.actual_type_name(signed)
            == Some(
            if is_wide {
                "WSTRING"@
            } else {
                "STRING"@
            },
        ),
        kind is LiteralReal ==> kind.actual_type_name(signed) == Some("LREAL"@),
        kind is LiteralDate ==> kind.actual_type_name(signed) == Some("DATE"@),
        kind is LiteralDateAndTime ==> kind.actual_type_name(signed) == Some("DATE_AND_TIME"@),
        kind is LiteralTime ==> kind.actual_type_name(signed) == Some("TIME"@),
        kind is LiteralTimeOfDay ==> kind.actual_type_name(signed) == Some("TIME_OF_DAY"@),
        kind is LiteralNull || kind is LiteralArray ==> kind.actual_type_name(signed) is None,
{
    lemma_other_type_names();
    reveal_strlit("BOOL");
    reveal_strlit("WSTRING");
    reveal_strlit("STRING");
    reveal_strlit("LREAL");
    reveal_strlit("DATE");
    reveal_strlit("DATE_AND_TIME");
    reveal_strlit("TIME");
    reveal_strlit("TIME_OF_DAY");
}

/// The text of a boolean literal is `true` or `false` after its value, so
/// the two boolean literals have different texts.
pub proof fn lemma_bool_literal_text(value: bool)
    ensures
        (LiteralKind::LiteralBool { value }).literal_text_of() == Some(
            if value {
                seq!['t', 'r', 'u', 'e']
            } else {
                seq!['f', 'a', 'l', 's', 'e']
            },
        ),
        (LiteralKind::LiteralBool { value: true }).literal_text_of() != (LiteralKind::LiteralBool {
            value: false,
        }).literal_text_of(),
{
    reveal_strlit("true");
    reveal_strlit("false");
    assert(seq!['t', 'r', 'u', 'e'].len() != seq!['f', 'a', 'l', 's', 'e'].len());
    assert((LiteralKind::LiteralBool { value: true }).literal_text_of() == Some(
        seq!['t', 'r', 'u', 'e'],
    ));
    assert((LiteralKind::LiteralBool { value: false }).literal_text_of() == Some(
        seq!['f', 'a', 'l', 's', 'e'],
    ));
}

/// A string literal stands between single quotes, a wide one between double
/// quotes.
pub proof fn lemma_string_literal_text(value: String, is_wide: bool)
    ensures
        (LiteralKind::LiteralString { value, is_wide }).literal_text_of() == Some(
            if is_wide {
                seq!['"'] + value@ + seq!['"']
            } else {
                seq!['\''] + value@ + seq!['\'']
            },
        ),
{
}

/// An integer literal is written in decimal, a real one as it was written,
/// `NULL` as `LiteralNull`; durations and arrays have no text here.
pub proof fn lemma_other_literal_texts(value: i128, written: String)
    ensures
        (LiteralKind::LiteralInteger { value }).literal_text_of() == Some(int_decimal(value as int)),
        (LiteralKind::LiteralReal { value: written }).literal_text_of() == Some(written@),
        LiteralKind::LiteralNull.literal_text_of() == Some(
            seq!['L', 'i', 't', 'e', 'r', 'a', 'l', 'N', 'u', 'l', 'l'],
        ),
        ((LiteralKind::LiteralArray { elements: None }).literal_text_of() is None),
{
    reveal_strlit("LiteralNull");
}

/// A date literal is written as a record of its year, month and day, one
/// field per line, in that order.
pub proof fn lemma_date_literal_text(year: i32, month: u32, day: u32)
    ensures
        (LiteralKind::LiteralDate { year, month, day }).literal_text_of() == Some(
            seq!['L', 'i', 't', 'e', 'r', 'a', 'l', 'D', 'a', 't', 'e', ' ', '{', '\n'] + seq![
                ' ',
                ' ',
                ' ',
                ' ',
                'y',
                'e',
                'a',
                'r',
                ':',
                ' ',
            ] + int_decimal(year as int) + seq![',', '\n'] + seq![
                ' ',
                ' ',
                ' ',
                ' ',
                'm',
                'o',
                'n',
                't',
                'h',
                ':',
                ' ',
            ] + int_decimal(month as int) + seq![',', '\n'] + seq![
                ' ',
                ' ',
                ' ',
                ' ',
                'd',
                'a',
                'y',
                ':',
                ' ',
            ] + int_decimal(day as int) + seq![',', '\n', '}'],
        ),
{
    reveal_strlit("LiteralDate");
    reveal_strlit("year");
    reveal_strlit("month");
    reveal_strlit("day");
    reveal_strlit("    ");
    reveal_strlit(": ");
    reveal_strlit(",\n");
    reveal_strlit(" {\n");
    reveal_strlit("}");
    let lines = seq![
        field_line("year"@, int_decimal(year as int)),
        field_line("month"@, int_decimal(month as int)),
        field_line("day"@, int_decimal(day as int)),
    ];
    let l1 = seq![lines[0]];
    let l2 = seq![lines[0], lines[1]];
    assert(l1.drop_last() =~= Seq::<Seq<char>>::empty());
    assert(joined_lines(l1) == joined_lines(l1.drop_last()) + l1.last());
    assert(joined_lines(l1) =~= lines[0]);
    assert(l2.drop_last() =~= l1);
    assert(joined_lines(l2) =~= lines[0] + lines[1]);
    assert(lines.drop_last() =~= l2);
    assert(joined_lines(lines) =~= lines[0] + lines[1] + lines[2]);
    assert((LiteralKind::LiteralDate { year, month, day }).literal_text_of() == Some(
        debug_record("LiteralDate"@, lines),
    ));
}

/// The record `LiteralTimeOfDay` of the given field texts, one field per line.
proof fn lemma_time_of_day_record(hour: Seq<char>, min: Seq<char>, sec: Seq<char>, nano: Seq<char>)
    ensures
        debug_record("LiteralTimeOfDay"@, seq![
        field_line("hour"@, hour),
        field_line("min"@, min),
        field_line("sec"@, sec),
        field_line("nano"@, nano),
        ]) == seq!['L', 'i', 't', 'e', 'r', 'a', 'l', 'T', 'i', 'm', 'e', 'O', 'f', 'D', 'a', 'y', ' ', '{', '\n'] + ((seq![' ', ' ', ' ', ' ', 'h', 'o', 'u', 'r', ':', ' '] + hour + seq![',', '\n'])
                + (seq![' ', ' ', ' ', ' ', 'm', 'i', 'n', ':', ' '] + min + seq![',', '\n'])
                + (seq![' ', ' ', ' ', ' ', 's', 'e', 'c', ':', ' '] + sec + seq![',', '\n'])
                + (seq![' ', ' ', ' ', ' ', 'n', 'a', 'n', 'o', ':', ' '] + nano + seq![',', '\n'])) + seq!['}'],
{
    let lines = seq![
        field_line("hour"@, hour),
        field_line("min"@, min),
        field_line("sec"@, sec),
        field_line("nano"@, nano),
    ];
    assert(lines[0] == seq![' ', ' ', ' ', ' ', 'h', 'o', 'u', 'r', ':', ' '] + hour + seq![',', '\n']) by {
        reveal_strlit("    ");
        reveal_strlit("hour");
        reveal_strlit(": ");
        reveal_strlit(",\n");
        assert("    "@ + "hour"@ + ": "@ =~= seq![' ', ' ', ' ', ' ', 'h', 'o', 'u', 'r', ':', ' ']);
    }
    assert(lines[1] == seq![' ', ' ', ' ', ' ', 'm', 'i', 'n', ':', ' '] + min + seq![',', '\n']) by {
        reveal_strlit("    ");
        reveal_strlit("min");
        reveal_strlit(": ");
        reveal_strlit(",\n");
        assert("    "@ + "min"@ + ": "@ =~= seq![' ', ' ', ' ', ' ', 'm', 'i', 'n', ':', ' ']);
    }
    assert(lines[2] == seq![' ', ' ', ' ', ' ', 's', 'e', 'c', ':', ' '] + sec + seq![',', '\n']) by {
        reveal_strlit("    ");
        reveal_strlit("sec");
        reveal_strlit(": ");
        reveal_strlit(",\n");
        assert("    "@ + "sec"@ + ": "@ =~= seq![' ', ' ', ' ', ' ', 's', 'e', 'c', ':', ' ']);
    }
    assert(lines[3] == seq![' ', ' ', ' ', ' ', 'n', 'a', 'n', 'o', ':', ' '] + nano + seq![',', '\n']) by {
        reveal_strlit("    ");
        reveal_strlit("nano");
        reveal_strlit(": ");
        reveal_strlit(",\n");
        assert("    "@ + "nano"@ + ": "@ =~= seq![' ', ' ', ' ', ' ', 'n', 'a', 'n', 'o', ':', ' ']);
    }
    let l1 = seq![lines[0]];
    assert(l1.drop_last() =~= Seq::<Seq<char>>::empty());
    assert(joined_lines(l1) == joined_lines(l1.drop_last()) + l1.last());
    assert(joined_lines(l1) =~= lines[0]);
    let l2 = seq![lines[0], lines[1]];
    assert(l2.drop_last() =~= l1);
    assert(joined_lines(l2) == lines[0] + lines[1]);
    let l3 = seq![lines[0], lines[1], lines[2]];
    assert(l3.drop_last() =~= l2);
    assert(joined_lines(l3) == lines[0] + lines[1] + lines[2]);
    assert(lines.drop_last() =~= l3);
    assert(joined_lines(lines) == lines[0] + lines[1] + lines[2] + lines[3]);
    assert("LiteralTimeOfDay"@ + " {\n"@ =~= seq!['L', 'i', 't', 'e', 'r', 'a', 'l', 'T', 'i', 'm', 'e', 'O', 'f', 'D', 'a', 'y', ' ', '{', '\n']) by {
        reveal_strlit("LiteralTimeOfDay");
        reveal_strlit(" {\n");
    }
    assert("}"@ =~= seq!['}']) by {
        reveal_strlit("}");
    }
}

/// A time-of-day literal is written as a record of its hour, minute, second and
/// nanosecond, one field per line, in that order.
pub proof fn lemma_time_of_day_literal_text(hour: u32, min: u32, sec: u32, nano: u32)
    ensures
        (LiteralKind::LiteralTimeOfDay { hour, min, sec, nano }).literal_text_of() == Some(
            seq!['L', 'i', 't', 'e', 'r', 'a', 'l', 'T', 'i', 'm', 'e', 'O', 'f', 'D', 'a', 'y', ' ', '{', '\n'] + ((seq![' ', ' ', ' ', ' ', 'h', 'o', 'u', 'r', ':', ' '] + int_decimal(hour as int) + seq![',', '\n'])
                + (seq![' ', ' ', ' ', ' ', 'm', 'i', 'n', ':', ' '] + int_decimal(min as int) + seq![',', '\n'])
                + (seq![' ', ' ', ' ', ' ', 's', 'e', 'c', ':', ' '] + int_decimal(sec as int) + seq![',', '\n'])
                + (seq![' ', ' ', ' ', ' ', 'n', 'a', 'n', 'o', ':', ' '] + int_decimal(nano as int) + seq![',', '\n'])) + seq!['}'],
        ),
{
    lemma_time_of_day_record(
        int_decimal(hour as int),
        int_decimal(min as int),
        int_decimal(sec as int),
        int_decimal(nano as int),
    );
}

/// The record `LiteralDateAndTime` of the given field texts, one field per line.
proof fn lemma_date_and_time_record(
    year: Seq<char>,
    month: Seq<char>,
    day: Seq<char>,
    hour: Seq<char>,
    min: Seq<char>,
    sec: Seq<char>,
    nano: Seq<char>,
)
    ensures
        debug_record("LiteralDateAndTime"@, seq![
        field_line("year"@, year),
        field_line("month"@, month),
        field_line("day"@, day),
        field_line("hour"@, hour),
        field_line("min"@, min),
        field_line("sec"@, sec),
        field_line("nano"@, nano),
        ]) == seq!['L', 'i', 't', 'e', 'r', 'a', 'l', 'D', 'a', 't', 'e', 'A', 'n', 'd', 'T', 'i', 'm', 'e', ' ', '{', '\n'] + ((seq![' ', ' ', ' ', ' ', 'y', 'e', 'a', 'r', ':', ' '] + year + seq![',', '\n'])
                + (seq![' ', ' ', ' ', ' ', 'm', 'o', 'n', 't', 'h', ':', ' '] + month + seq![',', '\n'])
                + (seq![' ', ' ', ' ', ' ', 'd', 'a', 'y', ':', ' '] + day + seq![',', '\n'])
                + (seq![' ', ' ', ' ', ' ', 'h', 'o', 'u', 'r', ':', ' '] + hour + seq![',', '\n'])
                + (seq![' ', ' ', ' ', ' ', 'm', 'i', 'n', ':', ' '] + min + seq![',', '\n'])
                + (seq![' ', ' ', ' ', ' ', 's', 'e', 'c', ':', ' '] + sec + seq![',', '\n'])
                + (seq![' ', ' ', ' ', ' ', 'n', 'a', 'n', 'o', ':', ' '] + nano + seq![',', '\n'])) + seq!['}'],
{
    let lines = seq![
        field_line("year"@, year),
        field_line("month"@, month),
        field_line("day"@, day),
        field_line("hour"@, hour),
        field_line("min"@, min),
        field_line("sec"@, sec),
        field_line("nano"@, nano),
    ];
    assert(lines[0] == seq![' ', ' ', ' ', ' ', 'y', 'e', 'a', 'r', ':', ' '] + year + seq![',', '\n']) by {
        reveal_strlit("    ");
        reveal_strlit("year");
        reveal_strlit(": ");
        reveal_strlit(",\n");
        assert("    "@ + "year"@ + ": "@ =~= seq![' ', ' ', ' ', ' ', 'y', 'e', 'a', 'r', ':', ' ']);
    }
    assert(lines[1] == seq![' ', ' ', ' ', ' ', 'm', 'o', 'n', 't', 'h', ':', ' '] + month + seq![',', '\n']) by {
        reveal_strlit("    ");
        reveal_strlit("month");
        reveal_strlit(": ");
        reveal_strlit(",\n");
        assert("    "@ + "month"@ + ": "@ =~= seq![' ', ' ', ' ', ' ', 'm', 'o', 'n', 't', 'h', ':', ' ']);
    }
    assert(lines[2] == seq![' ', ' ', ' ', ' ', 'd', 'a', 'y', ':', ' '] + day + seq![',', '\n']) by {
        reveal_strlit("    ");
        reveal_strlit("day");
        reveal_strlit(": ");
        reveal_strlit(",\n");
        assert("    "@ + "day"@ + ": "@ =~= seq![' ', ' ', ' ', ' ', 'd', 'a', 'y', ':', ' ']);
    }
    assert(lines[3] == seq![' ', ' ', ' ', ' ', 'h', 'o', 'u', 'r', ':', ' '] + hour + seq![',', '\n']) by {
        reveal_strlit("    ");
        reveal_strlit("hour");
        reveal_strlit(": ");
        reveal_strlit(",\n");
        assert("    "@ + "hour"@ + ": "@ =~= seq![' ', ' ', ' ', ' ', 'h', 'o', 'u', 'r', ':', ' ']);
    }
    assert(lines[4] == seq![' ', ' ', ' ', ' ', 'm', 'i', 'n', ':', ' '] + min + seq![',', '\n']) by {
        reveal_strlit("    ");
        reveal_strlit("min");
        reveal_strlit(": ");
        reveal_strlit(",\n");
        assert("    "@ + "min"@ + ": "@ =~= seq![' ', ' ', ' ', ' ', 'm', 'i', 'n', ':', ' ']);
    }
    assert(lines[5] == seq![' ', ' ', ' ', ' ', 's', 'e', 'c', ':', ' '] + sec + seq![',', '\n']) by {
        reveal_strlit("    ");
        reveal_strlit("sec");
        reveal_strlit(": ");
        reveal_strlit(",\n");
        assert("    "@ + "sec"@ + ": "@ =~= seq![' ', ' ', ' ', ' ', 's', 'e', 'c', ':', ' ']);
    }
    assert(lines[6] == seq![' ', ' ', ' ', ' ', 'n', 'a', 'n', 'o', ':', ' '] + nano + seq![',', '\n']) by {
        reveal_strlit("    ");
        reveal_strlit("nano");
        reveal_strlit(": ");
        reveal_strlit(",\n");
        assert("    "@ + "nano"@ + ": "@ =~= seq![' ', ' ', ' ', ' ', 'n', 'a', 'n', 'o', ':', ' ']);
    }
    let l1 = seq![lines[0]];
    assert(l1.drop_last() =~= Seq::<Seq<char>>::empty());
    assert(joined_lines(l1) == joined_lines(l1.drop_last()) + l1.last());
    assert(joined_lines(l1) =~= lines[0]);
    let l2 = seq![lines[0], lines[1]];
    assert(l2.drop_last() =~= l1);
    assert(joined_lines(l2) == lines[0] + lines[1]);
    let l3 = seq![lines[0], lines[1], lines[2]];
    assert(l3.drop_last() =~= l2);
    assert(joined_lines(l3) == lines[0] + lines[1] + lines[2]);
    let l4 = seq![lines[0], lines[1], lines[2], lines[3]];
    assert(l4.drop_last() =~= l3);
    assert(joined_lines(l4) == lines[0] + lines[1] + lines[2] + lines[3]);
    let l5 = seq![lines[0], lines[1], lines[2], lines[3], lines[4]];
    assert(l5.drop_last() =~= l4);
    assert(joined_lines(l5) == lines[0] + lines[1] + lines[2] + lines[3] + lines[4]);
    let l6 = seq![lines[0], lines[1], lines[2], lines[3], lines[4], lines[5]];
    assert(l6.drop_last() =~= l5);
    assert(joined_lines(l6) == lines[0] + lines[1] + lines[2] + lines[3] + lines[4] + lines[5]);
    assert(lines.drop_last() =~= l6);
    assert(joined_lines(lines) == lines[0] + lines[1] + lines[2] + lines[3] + lines[4] + lines[5] + lines[6]);
    assert("LiteralDateAndTime"@ + " {\n"@ =~= seq!['L', 'i', 't', 'e', 'r', 'a', 'l', 'D', 'a', 't', 'e', 'A', 'n', 'd', 'T', 'i', 'm', 'e', ' ', '{', '\n']) by {
        reveal_strlit("LiteralDateAndTime");
        reveal_strlit(" {\n");
    }
    assert("}"@ =~= seq!['}']) by {
        reveal_strlit("}");
    }
}

/// A date-and-time literal is written as a record of its year, month, day,
/// hour, minute, second and nanosecond, one field per line, in that order.
pub proof fn lemma_date_and_time_literal_text(
    year: i32,
    month: u32,
    day: u32,
    hour: u32,
    min: u32,
    sec: u32,
    nano: u32,
)
    ensures
        (LiteralKind::LiteralDateAndTime { year, month, day, hour, min, sec, nano }).literal_text_of() == Some(
            seq!['L', 'i', 't', 'e', 'r', 'a', 'l', 'D', 'a', 't', 'e', 'A', 'n', 'd', 'T', 'i', 'm', 'e', ' ', '{', '\n'] + ((seq![' ', ' ', ' ', ' ', 'y', 'e', 'a', 'r', ':', ' '] + int_decimal(year as int) + seq![',', '\n'])
                + (seq![' ', ' ', ' ', ' ', 'm', 'o', 'n', 't', 'h', ':', ' '] + int_decimal(month as int) + seq![',', '\n'])
                + (seq![' ', ' ', ' ', ' ', 'd', 'a', 'y', ':', ' '] + int_decimal(day as int) + seq![',', '\n'])
                + (seq![' ', ' ', ' ', ' ', 'h', 'o', 'u', 'r', ':', ' '] + int_decimal(hour as int) + seq![',', '\n'])
                + (seq![' ', ' ', ' ', ' ', 'm', 'i', 'n', ':', ' '] + int_decimal(min as int) + seq![',', '\n'])
                + (seq![' ', ' ', ' ', ' ', 's', 'e', 'c', ':', ' '] + int_decimal(sec as int) + seq![',', '\n'])
                + (seq![' ', ' ', ' ', ' ', 'n', 'a', 'n', 'o', ':', ' '] + int_decimal(nano as int) + seq![',', '\n'])) + seq!['}'],
        ),
{
    lemma_date_and_time_record(
        int_decimal(year as int),
        int_decimal(month as int),
        int_decimal(day as int),
        int_decimal(hour as int),
        int_decimal(min as int),
        int_decimal(sec as int),
        int_decimal(nano as int),
    );
}

} // verus!
