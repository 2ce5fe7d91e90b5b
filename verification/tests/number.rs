use squirrel::error::QueryErr;
use squirrel::number::parse_number;
use squirrel::parser::Expr;

#[test]
fn test_number_integer() {
    assert_eq!(parse_number("42"), Ok(Expr::Int(42)));
    assert_eq!(parse_number("0"), Ok(Expr::Int(0)));
    assert_eq!(parse_number("007"), Ok(Expr::Int(7)));
}

#[test]
fn test_number_float_fallback() {
    assert_eq!(parse_number("3.14"), Ok(Expr::Float("3.14".to_string())));
    assert_eq!(parse_number("1."), Ok(Expr::Float("1.".to_string())));
}

#[test]
fn test_number_largest_integer() {
    assert_eq!(
        parse_number("9223372036854775807"),
        Ok(Expr::Int(i64::MAX))
    );
}

#[test]
fn test_number_too_large_falls_back_to_float() {
    // One past i64::MAX: integer reading fails, the all-digit text still has
    // the floating-point form.
    assert_eq!(
        parse_number("9223372036854775808"),
        Ok(Expr::Float("9223372036854775808".to_string()))
    );
}

#[test]
fn test_number_invalid() {
    assert_eq!(
        parse_number("1.2.3"),
        Err(QueryErr::InvalidExpr("1.2.3".to_string()))
    );
    assert_eq!(
        parse_number(""),
        Err(QueryErr::InvalidExpr("".to_string()))
    );
}

#[test]
fn test_number_float_value_survives_conversion() {
    // The literal text the tree keeps converts to the number it spells.
    let e = parse_number("3.14").unwrap();
    match e {
        Expr::Float(t) => {
            let v: f64 = t.parse().unwrap();
            assert_eq!(v, 3.14_f64);
        }
        other => panic!("expected a float literal, got {:?}", other),
    }
}
