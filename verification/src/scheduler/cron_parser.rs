//! Validation and field extraction of five-field cron expressions.
//!
//! An expression is trimmed and split on whitespace; it must have exactly
//! five fields, and `"0 "` followed by it must be accepted by the `cron`
//! crate's six-field parser.
use crate::text::{
    chars_of, chars_of_string, decimal, lemma_trim_idempotent, extend_chars, i64_decimal, signed_decimal,
    split_whitespace, split_whitespace_chars, str_then_chars, string_of, trim, trim_chars,
    u64_decimal, views,
};
use std::str::FromStr;
use vstd::prelude::*;

verus! {

/// Cron expression parsing errors.
#[derive(Debug, Clone, PartialEq, Eq)]
pub enum CronError {
    /// Invalid number of fields (expected 5).
    InvalidFieldCount { expected: usize, actual: usize },
    /// Field value out of valid range.
    OutOfRange { field: String, value: i32, min: i32, max: i32 },
    /// Invalid cron syntax.
    InvalidSyntax { message: String },
    /// Empty expression.
    EmptyExpression,
}

/// Why a cron expression is refused, as plain values.
pub enum CronFailure {
    Empty,
    FieldCount(nat),
    Syntax(Seq<char>),
}

impl CronError {
    /// The text this error displays.
    pub open spec fn message(&self) -> Seq<char> {
        match self {
            CronError::InvalidFieldCount { expected, actual } => "Invalid field count: expected "@
                + decimal(*expected as nat) + ", got "@ + decimal(*actual as nat),
            CronError::OutOfRange { field, value, min, max } => "Field '"@ + field@ + "' value "@
                + signed_decimal(*value as int) + " out of range ["@ + signed_decimal(*min as int)
                + ", "@ + signed_decimal(*max as int) + "]"@,
            CronError::InvalidSyntax { message } => "Invalid cron syntax: "@ + message@,
            CronError::EmptyExpression => "Cron expression cannot be empty"@,
        }
    }

    /// This error reports `f`.
    pub open spec fn reports(&self, f: CronFailure) -> bool {
        match f {
            CronFailure::Empty => *self is EmptyExpression,
            CronFailure::FieldCount(n) => *self matches CronError::InvalidFieldCount {
                expected,
                actual,
            } && expected == 5 && actual == n,
            CronFailure::Syntax(text) => *self matches CronError::InvalidSyntax { message }
                && message@ == "Failed to parse cron expression: "@ + text,
        }
    }

    /// The text this error displays.
    pub fn to_string(&self) -> (r: String)
        ensures
            r@ == self.message(),
    {
        let v = match self {
            CronError::InvalidFieldCount { expected, actual } => {
                let mut v = chars_of("Invalid field count: expected ");
                extend_chars(&mut v, u64_decimal(*expected as u64).as_slice());
                extend_chars(&mut v, chars_of(", got ").as_slice());
                extend_chars(&mut v, u64_decimal(*actual as u64).as_slice());
                v
            },
            CronError::OutOfRange { field, value, min, max } => {
                let mut v = chars_of("Field '");
                extend_chars(&mut v, chars_of_string(field).as_slice());
                extend_chars(&mut v, chars_of("' value ").as_slice());
                extend_chars(&mut v, i64_decimal(*value as i64).as_slice());
                extend_chars(&mut v, chars_of(" out of range [").as_slice());
                extend_chars(&mut v, i64_decimal(*min as i64).as_slice());
                extend_chars(&mut v, chars_of(", ").as_slice());
                extend_chars(&mut v, i64_decimal(*max as i64).as_slice());
                extend_chars(&mut v, chars_of("]").as_slice());
                v
            },
            CronError::InvalidSyntax { message } => {
                str_then_chars("Invalid cron syntax: ", chars_of_string(message).as_slice())
            },
            CronError::EmptyExpression => chars_of("Cron expression cannot be empty"),
        };
        string_of(v.as_slice())
    }
}

/// Parsed cron schedule with field information.
#[derive(Debug, Clone, PartialEq, Eq)]
pub struct CronSchedule {
    /// The cron expression, trimmed.
    pub expression: String,
    /// Minute field (0-59).
    pub minute: String,
    /// Hour field (0-23).
    pub hour: String,
    /// Day of month field (1-31).
    pub day_of_month: String,
    /// Month field (1-12).
    pub month: String,
    /// Day of week field (1-7).
    pub day_of_week: String,
}

impl CronSchedule {
    /// The text `describe` returns.
    pub open spec fn description(&self) -> Seq<char> {
        "Minute: "@ + self.minute@ + ", Hour: "@ + self.hour@ + ", Day of Month: "@
            + self.day_of_month@ + ", Month: "@ + self.month@ + ", Day of Week: "@
            + self.day_of_week@
    }

    /// A human-readable description of the schedule.
    pub fn describe(&self) -> (r: String)
        ensures
            r@ == self.description(),
    {
        let mut v = str_then_chars("Minute: ", chars_of_string(&self.minute).as_slice());
        extend_chars(&mut v, chars_of(", Hour: ").as_slice());
        extend_chars(&mut v, chars_of_string(&self.hour).as_slice());
        extend_chars(&mut v, chars_of(", Day of Month: ").as_slice());
        extend_chars(&mut v, chars_of_string(&self.day_of_month).as_slice());
        extend_chars(&mut v, chars_of(", Month: ").as_slice());
        extend_chars(&mut v, chars_of_string(&self.month).as_slice());
        extend_chars(&mut v, chars_of(", Day of Week: ").as_slice());
        extend_chars(&mut v, chars_of_string(&self.day_of_week).as_slice());
        string_of(v.as_slice())
    }
}

/// What `cron::Schedule::from_str` reports on `expr`: `None` when it accepts
/// the expression, the text of its error otherwise.
pub uninterp spec fn cron_schedule_error(expr: Seq<char>) -> Option<Seq<char>>;

/// Calls `cron::Schedule::from_str` on `expr`. Claimed: the result is `None`
/// exactly when the crate accepts the expression, and otherwise the error's
/// display text; both are `cron_schedule_error(expr)`.
#[verifier::external_body]
fn cron_schedule_check(expr: &str) -> (r: Option<String>)
    ensures
        (match r {
            Some(m) => Some(m@),
            None => None,
        }) == cron_schedule_error(expr@),
{
    match cron::Schedule::from_str(expr) {
        Ok(_) => None,
        Err(e) => Some(e.to_string()),
    }
}

/// The whitespace-separated fields of a cron expression.
pub open spec fn cron_fields(expression: Seq<char>) -> Seq<Seq<char>> {
    split_whitespace(trim(expression))
}

/// Why `expression` is refused, or `None` when it is a valid five-field
/// cron expression.
pub open spec fn cron_failure(expression: Seq<char>) -> Option<CronFailure> {
    let t = trim(expression);
    if t.len() == 0 {
        Some(CronFailure::Empty)
    } else if cron_fields(expression).len() != 5 {
        Some(CronFailure::FieldCount(cron_fields(expression).len()))
    } else {
        match cron_schedule_error("0 "@ + t) {
            Some(text) => Some(CronFailure::Syntax(text)),
            None => None,
        }
    }
}

/// The trimmed expression, its fields, and the verdict of the cron crate.
fn check_expression(expression: &str) -> (r: (Vec<char>, Vec<Vec<char>>, Result<(), CronError>))
    ensures
        r.0@ == trim(expression@),
        views(r.1@) == cron_fields(expression@),
        match cron_failure(expression@) {
            None => r.2 is Ok,
            Some(f) => r.2 matches Err(e) && e.reports(f),
        },
{
    let chars = chars_of(expression);
    let trimmed = trim_chars(chars.as_slice());
    let fields = split_whitespace_chars(trimmed.as_slice());
    if trimmed.len() == 0 {
        return (trimmed, fields, Err(CronError::EmptyExpression));
    }
    if fields.len() != 5 {
        let n = fields.len();
        return (trimmed, fields, Err(CronError::InvalidFieldCount { expected: 5, actual: n }));
    }
    let six = str_then_chars("0 ", trimmed.as_slice());
    let six_field_expr = string_of(six.as_slice());
    match cron_schedule_check(six_field_expr.as_str()) {
        None => (trimmed, fields, Ok(())),
        Some(m) => {
            let text = str_then_chars(
                "Failed to parse cron expression: ",
                chars_of_string(&m).as_slice(),
            );
            let message = string_of(text.as_slice());
            (trimmed, fields, Err(CronError::InvalidSyntax { message }))
        },
    }
}

/// Validates a cron expression without returning parsed data.
///
/// `Ok(())` exactly when the trimmed expression is non-empty, has five
/// fields, and is accepted by the cron crate; otherwise the error names the
/// first of those checks that failed.
pub fn validate_cron(expression: &str) -> (r: Result<(), CronError>)
    ensures
        match cron_failure(expression@) {
            None => r is Ok,
            Some(f) => r matches Err(e) && e.reports(f),
        },
{
    let (_, _, verdict) = check_expression(expression);
    verdict
}

/// Parses a cron expression and returns its fields.
///
/// Succeeds on exactly the expressions `validate_cron` accepts; the schedule
/// holds the trimmed expression and its five fields in order.
pub fn parse_cron(expression: &str) -> (r: Result<CronSchedule, CronError>)
    ensures
        match cron_failure(expression@) {
            None => r matches Ok(s) && s.expression@ == trim(expression@) && s.minute@ == cron_fields(
                expression@,
            )[0] && s.hour@ == cron_fields(expression@)[1] && s.day_of_month@ == cron_fields(
                expression@,
            )[2] && s.month@ == cron_fields(expression@)[3] && s.day_of_week@ == cron_fields(
                expression@,
            )[4],
            Some(f) => r matches Err(e) && e.reports(f),
        },
{
    let (trimmed, fields, verdict) = check_expression(expression);
    match verdict {
        Err(e) => Err(e),
        Ok(()) => {
            assert(fields@[0]@ == cron_fields(expression@)[0]);
            assert(fields@[1]@ == cron_fields(expression@)[1]);
            assert(fields@[2]@ == cron_fields(expression@)[2]);
            assert(fields@[3]@ == cron_fields(expression@)[3]);
            assert(fields@[4]@ == cron_fields(expression@)[4]);
            Ok(
                CronSchedule {
                    expression: string_of(trimmed.as_slice()),
                    minute: string_of(fields[0].as_slice()),
                    hour: string_of(fields[1].as_slice()),
                    day_of_month: string_of(fields[2].as_slice()),
                    month: string_of(fields[3].as_slice()),
                    day_of_week: string_of(fields[4].as_slice()),
                },
            )
        },
    }
}

/// A parsed schedule's expression is canonical: parsing it again gives the
/// same verdict and the same fields, so `parse_cron(schedule.expression)`
/// reproduces the schedule.
pub proof fn law_parsed_expression_is_canonical(expression: Seq<char>)
    ensures
        trim(trim(expression)) == trim(expression),
        cron_fields(trim(expression)) == cron_fields(expression),
        cron_failure(trim(expression)) == cron_failure(expression),
{
    lemma_trim_idempotent(expression);
}

/// Every expression that validates has exactly five fields.
pub proof fn law_valid_expression_has_five_fields(expression: Seq<char>)
    requires
        cron_failure(expression) is None,
    ensures
        cron_fields(expression).len() == 5,
        trim(expression).len() > 0,
{
}

} // verus!
