use number_filters::{
    filesizeformat, pluralize, round_args, Args, FilterError, Number, RoundMethod, Rounding, Value,
};

fn uint(n: u64) -> Value {
    Value::Number(Number::UInt(n))
}

fn float(x: f64) -> Value {
    Value::Number(Number::Float(x.to_bits()))
}

fn text(s: &str) -> Value {
    Value::String(s.to_string())
}

fn as_f64(n: &Number) -> f64 {
    match n {
        Number::Int(i) => *i as f64,
        Number::UInt(u) => *u as f64,
        Number::Float(b) => f64::from_bits(*b),
    }
}

/// Carries out a rounding the way the filter's caller does.
fn apply(r: &Rounding) -> f64 {
    let num = as_f64(&r.value);
    let multiplier = if r.precision == 0 { 1.0 } else { 10.0_f64.powi(r.precision) };
    match r.method {
        RoundMethod::Common => (multiplier * num).round() / multiplier,
        RoundMethod::Ceil => (multiplier * num).ceil() / multiplier,
        RoundMethod::Floor => (multiplier * num).floor() / multiplier,
    }
}

fn round(value: &Value, args: &Args) -> Result<f64, FilterError> {
    round_args(value, args).map(|r| apply(&r))
}

#[test]
fn test_pluralize_single() {
    let result = pluralize(&uint(1), &Args::new());
    assert!(result.is_ok());
    assert_eq!(result.unwrap(), text(""));
}

#[test]
fn test_pluralize_multiple() {
    let result = pluralize(&uint(2), &Args::new());
    assert!(result.is_ok());
    assert_eq!(result.unwrap(), text("s"));
}

#[test]
fn test_pluralize_zero() {
    let result = pluralize(&uint(0), &Args::new());
    assert!(result.is_ok());
    assert_eq!(result.unwrap(), text("s"));
}

#[test]
fn test_pluralize_multiple_custom_plural() {
    let mut args = Args::new();
    args.insert("plural".to_string(), text("es"));
    let result = pluralize(&uint(2), &args);
    assert!(result.is_ok());
    assert_eq!(result.unwrap(), text("es"));
}

#[test]
fn test_pluralize_multiple_custom_singular() {
    let mut args = Args::new();
    args.insert("singular".to_string(), text("y"));
    let result = pluralize(&uint(1), &args);
    assert!(result.is_ok());
    assert_eq!(result.unwrap(), text("y"));
}

#[test]
fn test_round_default() {
    let result = round(&float(2.1), &Args::new());
    assert!(result.is_ok());
    assert_eq!(result.unwrap(), 2.0);
}

#[test]
fn test_round_default_precision() {
    let mut args = Args::new();
    args.insert("precision".to_string(), uint(2));
    let result = round(&float(3.15159265359), &args);
    assert!(result.is_ok());
    assert_eq!(result.unwrap(), 3.15);
}

#[test]
fn test_round_ceil() {
    let mut args = Args::new();
    args.insert("method".to_string(), text("ceil"));
    let result = round(&float(2.1), &args);
    assert!(result.is_ok());
    assert_eq!(result.unwrap(), 3.0);
}

#[test]
fn test_round_ceil_precision() {
    let mut args = Args::new();
    args.insert("method".to_string(), text("ceil"));
    args.insert("precision".to_string(), uint(1));
    let result = round(&float(2.11), &args);
    assert!(result.is_ok());
    assert_eq!(result.unwrap(), 2.2);
}

#[test]
fn test_round_floor() {
    let mut args = Args::new();
    args.insert("method".to_string(), text("floor"));
    let result = round(&float(2.1), &args);
    assert!(result.is_ok());
    assert_eq!(result.unwrap(), 2.0);
}

#[test]
fn test_round_floor_precision() {
    let mut args = Args::new();
    args.insert("method".to_string(), text("floor"));
    args.insert("precision".to_string(), uint(1));
    let result = round(&float(2.91), &args);
    assert!(result.is_ok());
    assert_eq!(result.unwrap(), 2.9);
}

#[test]
fn test_filesizeformat() {
    let args = Args::new();
    let result = filesizeformat(&uint(123456789), &args);
    assert!(result.is_ok());
    assert_eq!(result.unwrap(), text("117.74 MB"));
}
