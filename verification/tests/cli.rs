use pvenom::cli::{format_from_lowercase, parse_format, parse_yes_no, yes_no_from_lowercase};
use pvenom::models::OutputFormat;

#[test]
fn yes_and_no_are_read_in_any_case() {
    assert_eq!(parse_yes_no("yes"), Ok(true));
    assert_eq!(parse_yes_no("y"), Ok(true));
    assert_eq!(parse_yes_no("YES"), Ok(true));
    assert_eq!(parse_yes_no("Y"), Ok(true));
    assert_eq!(parse_yes_no("yEs"), Ok(true));
    assert_eq!(parse_yes_no("no"), Ok(false));
    assert_eq!(parse_yes_no("n"), Ok(false));
    assert_eq!(parse_yes_no("No"), Ok(false));
    assert_eq!(parse_yes_no("N"), Ok(false));
}

#[test]
fn another_word_is_no_switch() {
    assert_eq!(
        parse_yes_no("maybe"),
        Err("Invalid value 'maybe'. Expected 'yes' or 'no'".to_string())
    );
    assert_eq!(parse_yes_no(""), Err("Invalid value ''. Expected 'yes' or 'no'".to_string()));
    assert_eq!(
        parse_yes_no("TRUE"),
        Err("Invalid value 'TRUE'. Expected 'yes' or 'no'".to_string())
    );
    assert_eq!(
        parse_yes_no(" yes"),
        Err("Invalid value ' yes'. Expected 'yes' or 'no'".to_string())
    );
}

#[test]
fn formats_are_read_in_any_case() {
    assert_eq!(parse_format("json"), Ok(OutputFormat::Json));
    assert_eq!(parse_format("JSON"), Ok(OutputFormat::Json));
    assert_eq!(parse_format("csv"), Ok(OutputFormat::Csv));
    assert_eq!(parse_format("Csv"), Ok(OutputFormat::Csv));
    assert_eq!(parse_format("table"), Ok(OutputFormat::Table));
    assert_eq!(parse_format("TaBlE"), Ok(OutputFormat::Table));
}

#[test]
fn another_word_names_no_format() {
    assert_eq!(
        parse_format("XML"),
        Err("Invalid format 'XML'. Expected 'json', 'csv', or 'table'".to_string())
    );
    assert_eq!(
        parse_format(""),
        Err("Invalid format ''. Expected 'json', 'csv', or 'table'".to_string())
    );
    assert_eq!(
        parse_format("tables"),
        Err("Invalid format 'tables'. Expected 'json', 'csv', or 'table'".to_string())
    );
}

#[test]
fn the_lowercase_form_decides() {
    assert_eq!(yes_no_from_lowercase("yes", "YES"), Ok(true));
    assert_eq!(yes_no_from_lowercase("n", "N"), Ok(false));
    assert_eq!(
        yes_no_from_lowercase("YES", "YES"),
        Err("Invalid value 'YES'. Expected 'yes' or 'no'".to_string())
    );
    assert_eq!(format_from_lowercase("csv", "CSV"), Ok(OutputFormat::Csv));
    assert_eq!(
        format_from_lowercase("CSV", "CSV"),
        Err("Invalid format 'CSV'. Expected 'json', 'csv', or 'table'".to_string())
    );
}
