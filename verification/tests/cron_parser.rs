use mywork::scheduler::cron_parser::{parse_cron, validate_cron, CronError};


#[test]
fn test_validate_valid_simple() {
    assert!(validate_cron("* * * * *").is_ok());
    assert!(validate_cron("*/5 * * * *").is_ok());
    assert!(validate_cron("0 * * * *").is_ok());
    assert!(validate_cron("0 0 * * *").is_ok());
    assert!(validate_cron("0 0 1 * *").is_ok());
    assert!(validate_cron("0 0 1 1 *").is_ok());
    assert!(validate_cron("0 0 * * 1").is_ok());
}

#[test]
fn test_validate_valid_ranges() {
    assert!(validate_cron("0-59 * * * *").is_ok());
    assert!(validate_cron("* 0-23 * * *").is_ok());
    assert!(validate_cron("* * 1-31 * *").is_ok());
    assert!(validate_cron("* * * 1-12 *").is_ok());
    assert!(validate_cron("* * * * 1-7").is_ok());
}

#[test]
fn test_validate_valid_lists() {
    assert!(validate_cron("0,15,30,45 * * * *").is_ok());
    assert!(validate_cron("* 0,6,12,18 * * *").is_ok());
    assert!(validate_cron("* * 1,15 * *").is_ok());
    assert!(validate_cron("* * * 1,6,12 *").is_ok());
    assert!(validate_cron("* * * * 1,3,5").is_ok());
}

#[test]
fn test_validate_valid_steps() {
    assert!(validate_cron("*/5 * * * *").is_ok());
    assert!(validate_cron("* */2 * * *").is_ok());
    assert!(validate_cron("* * */5 * *").is_ok());
    assert!(validate_cron("* * * */3 *").is_ok());
    assert!(validate_cron("* * * * */2").is_ok());
}

#[test]
fn test_validate_valid_complex_common_patterns() {
    assert!(validate_cron("0 9 * * 1-5").is_ok());
    assert!(validate_cron("*/15 9-17 * * 1-5").is_ok());
    assert!(validate_cron("0 0 1 1 *").is_ok());
    assert!(validate_cron("0 0 29 2 *").is_ok());
    assert!(validate_cron("0,30 0,12 * * *").is_ok());
}

#[test]
fn test_validate_with_whitespace() {
    assert!(validate_cron("  * * * * *  ").is_ok());
    assert!(validate_cron("*  *  *  *  *").is_ok());
    assert!(validate_cron("\t*\t*\t*\t*\t*").is_ok());
}

#[test]
fn test_validate_empty() {
    assert_eq!(validate_cron(""), Err(CronError::EmptyExpression));
    assert_eq!(validate_cron("   "), Err(CronError::EmptyExpression));
    assert_eq!(validate_cron("\t\n"), Err(CronError::EmptyExpression));
}

#[test]
fn test_validate_invalid_field_count() {
    assert!(matches!(
        validate_cron("*"),
        Err(CronError::InvalidFieldCount {
            expected: 5,
            actual: 1
        })
    ));
    assert!(matches!(
        validate_cron("* *"),
        Err(CronError::InvalidFieldCount {
            expected: 5,
            actual: 2
        })
    ));
    assert!(matches!(
        validate_cron("* * *"),
        Err(CronError::InvalidFieldCount {
            expected: 5,
            actual: 3
        })
    ));
    assert!(matches!(
        validate_cron("* * * *"),
        Err(CronError::InvalidFieldCount {
            expected: 5,
            actual: 4
        })
    ));
    assert!(matches!(
        validate_cron("* * * * * *"),
        Err(CronError::InvalidFieldCount {
            expected: 5,
            actual: 6
        })
    ));
    assert!(matches!(
        validate_cron("* * * * * * *"),
        Err(CronError::InvalidFieldCount {
            expected: 5,
            actual: 7
        })
    ));
}

#[test]
fn test_validate_invalid_syntax() {
    assert!(matches!(
        validate_cron("a * * * *"),
        Err(CronError::InvalidSyntax { .. })
    ));
    assert!(matches!(
        validate_cron("* abc * * *"),
        Err(CronError::InvalidSyntax { .. })
    ));
    assert!(matches!(
        validate_cron("60 * * * *"),
        Err(CronError::InvalidSyntax { .. })
    ));
    assert!(matches!(
        validate_cron("* 24 * * *"),
        Err(CronError::InvalidSyntax { .. })
    ));
    assert!(matches!(
        validate_cron("* * 0 * *"),
        Err(CronError::InvalidSyntax { .. })
    ));
    assert!(matches!(
        validate_cron("* * 32 * *"),
        Err(CronError::InvalidSyntax { .. })
    ));
    assert!(matches!(
        validate_cron("* * * 0 *"),
        Err(CronError::InvalidSyntax { .. })
    ));
    assert!(matches!(
        validate_cron("* * * 13 *"),
        Err(CronError::InvalidSyntax { .. })
    ));
    assert!(matches!(
        validate_cron("* * * * 0"),
        Err(CronError::InvalidSyntax { .. })
    ));
    assert!(matches!(
        validate_cron("* * * * 8"),
        Err(CronError::InvalidSyntax { .. })
    ));
}

#[test]
fn test_validate_invalid_range_syntax() {
    assert!(matches!(
        validate_cron("30-0 * * * *"),
        Err(CronError::InvalidSyntax { .. })
    ));
    assert!(matches!(
        validate_cron("* 23-0 * * *"),
        Err(CronError::InvalidSyntax { .. })
    ));
    assert!(matches!(
        validate_cron("- * * * *"),
        Err(CronError::InvalidSyntax { .. })
    ));
    assert!(matches!(
        validate_cron("0- * * * *"),
        Err(CronError::InvalidSyntax { .. })
    ));
    assert!(matches!(
        validate_cron("-0 * * * *"),
        Err(CronError::InvalidSyntax { .. })
    ));
}

#[test]
fn test_validate_invalid_step_syntax() {
    assert!(matches!(
        validate_cron("/* * * * *"),
        Err(CronError::InvalidSyntax { .. })
    ));
    assert!(matches!(
        validate_cron("*/ * * * *"),
        Err(CronError::InvalidSyntax { .. })
    ));
    assert!(matches!(
        validate_cron("*/0 * * * *"),
        Err(CronError::InvalidSyntax { .. })
    ));
}

#[test]
fn test_validate_invalid_list_syntax() {
    assert!(matches!(
        validate_cron(", * * * *"),
        Err(CronError::InvalidSyntax { .. })
    ));
    assert!(matches!(
        validate_cron("0, * * * *"),
        Err(CronError::InvalidSyntax { .. })
    ));
    assert!(matches!(
        validate_cron(",0 * * * *"),
        Err(CronError::InvalidSyntax { .. })
    ));
    assert!(matches!(
        validate_cron("0,,1 * * * *"),
        Err(CronError::InvalidSyntax { .. })
    ));
}

#[test]
fn test_parse_simple() {
    let schedule = parse_cron("* * * * *").unwrap();
    assert_eq!(schedule.expression, "* * * * *");
    assert_eq!(schedule.minute, "*");
    assert_eq!(schedule.hour, "*");
    assert_eq!(schedule.day_of_month, "*");
    assert_eq!(schedule.month, "*");
    assert_eq!(schedule.day_of_week, "*");
}

#[test]
fn test_parse_specific_values() {
    let schedule = parse_cron("30 14 15 6 3").unwrap();
    assert_eq!(schedule.minute, "30");
    assert_eq!(schedule.hour, "14");
    assert_eq!(schedule.day_of_month, "15");
    assert_eq!(schedule.month, "6");
    assert_eq!(schedule.day_of_week, "3");
}

#[test]
fn test_parse_range() {
    let schedule = parse_cron("0-30 9-17 1-15 1-6 1-5").unwrap();
    assert_eq!(schedule.minute, "0-30");
    assert_eq!(schedule.hour, "9-17");
    assert_eq!(schedule.day_of_month, "1-15");
    assert_eq!(schedule.month, "1-6");
    assert_eq!(schedule.day_of_week, "1-5");
}

#[test]
fn test_parse_list() {
    let schedule = parse_cron("0,30 9,17 1,15 1,6 1,3").unwrap();
    assert_eq!(schedule.minute, "0,30");
    assert_eq!(schedule.hour, "9,17");
    assert_eq!(schedule.day_of_month, "1,15");
    assert_eq!(schedule.month, "1,6");
    assert_eq!(schedule.day_of_week, "1,3");
}

#[test]
fn test_parse_step() {
    let schedule = parse_cron("*/5 */2 */3 */4 */1").unwrap();
    assert_eq!(schedule.minute, "*/5");
    assert_eq!(schedule.hour, "*/2");
    assert_eq!(schedule.day_of_month, "*/3");
    assert_eq!(schedule.month, "*/4");
    assert_eq!(schedule.day_of_week, "*/1");
}

#[test]
fn test_parse_complex() {
    let schedule = parse_cron("*/15 9-17 * * 1-5").unwrap();
    assert_eq!(schedule.minute, "*/15");
    assert_eq!(schedule.hour, "9-17");
    assert_eq!(schedule.day_of_month, "*");
    assert_eq!(schedule.month, "*");
    assert_eq!(schedule.day_of_week, "1-5");
}

#[test]
fn test_parse_preserves_expression() {
    let expr = "  0  9  *  *  1-5  ";
    let schedule = parse_cron(expr).unwrap();
    assert_eq!(schedule.expression, "0  9  *  *  1-5");
}

#[test]
fn test_parse_empty() {
    assert_eq!(parse_cron(""), Err(CronError::EmptyExpression));
}

#[test]
fn test_parse_invalid_field_count() {
    assert!(matches!(
        parse_cron("* * *"),
        Err(CronError::InvalidFieldCount {
            expected: 5,
            actual: 3
        })
    ));
}

#[test]
fn test_parse_invalid_syntax() {
    assert!(matches!(
        parse_cron("60 * * * *"),
        Err(CronError::InvalidSyntax { .. })
    ));
}

#[test]
fn test_parse_boundary_values() {
    assert!(parse_cron("0 0 1 1 1").is_ok());
    assert!(parse_cron("59 23 31 12 7").is_ok());
    assert!(parse_cron("* * * * *").is_ok());
}

#[test]
fn test_parse_common_patterns() {
    assert!(parse_cron("* * * * *").is_ok());
    assert!(parse_cron("0 * * * *").is_ok());
    assert!(parse_cron("0 0 * * *").is_ok());
    assert!(parse_cron("0 0 * * 7").is_ok());
    assert!(parse_cron("0 0 1 * *").is_ok());
    assert!(parse_cron("*/5 * * * *").is_ok());
    assert!(parse_cron("*/15 * * * *").is_ok());
    assert!(parse_cron("*/30 * * * *").is_ok());
    assert!(parse_cron("0 0,12 * * *").is_ok());
    assert!(parse_cron("0 9 * * 1-5").is_ok());
}

#[test]
fn test_describe() {
    let schedule = parse_cron("*/15 9-17 * * 1-5").unwrap();
    let description = schedule.describe();
    assert!(description.contains("*/15"));
    assert!(description.contains("9-17"));
    assert!(description.contains("1-5"));
}

#[test]
fn test_cron_error_display() {
    let err = CronError::InvalidFieldCount {
        expected: 5,
        actual: 3,
    };
    assert_eq!(err.to_string(), "Invalid field count: expected 5, got 3");

    let err = CronError::OutOfRange {
        field: "minute".to_string(),
        value: 60,
        min: 0,
        max: 59,
    };
    assert_eq!(
        err.to_string(),
        "Field 'minute' value 60 out of range [0, 59]"
    );

    let err = CronError::InvalidSyntax {
        message: "test error".to_string(),
    };
    assert_eq!(err.to_string(), "Invalid cron syntax: test error");

    let err = CronError::EmptyExpression;
    assert_eq!(err.to_string(), "Cron expression cannot be empty");
}


#[test]
fn parsed_expression_parses_to_the_same_schedule() {
    let first = parse_cron("  */15   9-17 * *  1-5 ").unwrap();
    let again = parse_cron(&first.expression).unwrap();
    assert_eq!(first, again);
    assert_eq!(
        first.describe(),
        "Minute: */15, Hour: 9-17, Day of Month: *, Month: *, Day of Week: 1-5"
    );
}
