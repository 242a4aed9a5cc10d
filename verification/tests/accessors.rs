use build_params::input::{
    param, param_bool, param_bool_required, param_i64, param_i64_required, param_required,
    param_u64, param_u64_required,
};
use build_params::{Environment, Expected, ParamError};

fn sample() -> Environment {
    let mut env = Environment::new();
    env.set("BUILD_PARAM_SAMPLE_STRING", "hello");
    env.set("BUILD_PARAM_SAMPLE_BOOL", "true");
    env.set("BUILD_PARAM_SAMPLE_INT", "42");
    env
}

fn with(name: &str, value: &str) -> Environment {
    let mut env = Environment::new();
    env.set(name, value);
    env
}

fn missing(key: &str) -> ParamError {
    ParamError::MissingParameter(key.to_string())
}

fn invalid(key: &str, expected: Expected) -> ParamError {
    ParamError::InvalidParameter(key.to_string(), expected)
}

#[test]
fn sample_parameters_are_read() {
    let env = sample();
    assert_eq!(param(&env, "sample_string"), Some("hello".to_string()));
    assert_eq!(param_bool(&env, "sample_bool"), Ok(Some(true)));
    assert_eq!(param_i64(&env, "sample_int"), Ok(Some(42)));
    assert_eq!(param_u64(&env, "sample_int"), Ok(Some(42)));
}

#[test]
fn sample_parameters_are_read_when_required() {
    let env = sample();
    assert_eq!(param_required(&env, "sample_string"), Ok("hello".to_string()));
    assert_eq!(param_bool_required(&env, "sample_bool"), Ok(true));
    assert_eq!(param_i64_required(&env, "sample_int"), Ok(42));
    assert_eq!(param_u64_required(&env, "sample_int"), Ok(42));
}

#[test]
fn nothing_set_nothing_found() {
    let env = Environment::new();
    assert_eq!(param(&env, "missing"), None);
    assert_eq!(param_required(&env, "missing"), Err(missing("missing")));
}

#[test]
fn optional_accessors_return_none_for_unset_keys() {
    let env = sample();
    for key in ["missing", "test_string", "test-bool", "SAMPLE", "sample_strin", ""] {
        assert_eq!(param(&env, key), None);
        assert_eq!(param_bool(&env, key), Ok(None));
        assert_eq!(param_i64(&env, key), Ok(None));
        assert_eq!(param_u64(&env, key), Ok(None));
    }
}

#[test]
fn required_accessors_fail_for_unset_keys() {
    let env = sample();
    for key in ["missing", "test_string", "test-bool", "SAMPLE", ""] {
        assert_eq!(param_required(&env, key), Err(missing(key)));
        assert_eq!(param_bool_required(&env, key), Err(missing(key)));
        assert_eq!(param_i64_required(&env, key), Err(missing(key)));
        assert_eq!(param_u64_required(&env, key), Err(missing(key)));
    }
}

#[test]
fn a_variable_without_the_prefix_is_not_a_parameter() {
    let env = with("SAMPLE_STRING", "hello");
    assert_eq!(param(&env, "sample_string"), None);
    let env = with("build_param_sample_string", "hello");
    assert_eq!(param(&env, "sample_string"), None);
}

#[test]
fn keys_with_one_variable_resolve_alike() {
    let env = with("BUILD_PARAM_ENABLE_SIMD", "1");
    for key in ["enable-simd", "enable_simd", "ENABLE-SIMD", "Enable_SIMD"] {
        assert_eq!(param(&env, key), Some("1".to_string()));
        assert_eq!(param_required(&env, key), Ok("1".to_string()));
        assert_eq!(param_bool(&env, key), Ok(Some(true)));
        assert_eq!(param_bool_required(&env, key), Ok(true));
        assert_eq!(param_i64(&env, key), Ok(Some(1)));
        assert_eq!(param_i64_required(&env, key), Ok(1));
        assert_eq!(param_u64(&env, key), Ok(Some(1)));
        assert_eq!(param_u64_required(&env, key), Ok(1));
    }
}

#[test]
fn keys_with_one_variable_fail_alike_under_their_own_key() {
    let env = with("BUILD_PARAM_ENABLE_SIMD", "maybe");
    for key in ["enable-simd", "enable_simd", "ENABLE-SIMD"] {
        assert_eq!(param(&env, key), Some("maybe".to_string()));
        assert_eq!(param_bool(&env, key), Err(invalid(key, Expected::Boolean)));
        assert_eq!(param_i64_required(&env, key), Err(invalid(key, Expected::Integer)));
        assert_eq!(param_u64(&env, key), Err(invalid(key, Expected::UnsignedInteger)));
    }
}

#[test]
fn boolean_tokens() {
    assert_eq!(param_bool(&with("BUILD_PARAM_B", "true"), "b"), Ok(Some(true)));
    assert_eq!(param_bool(&with("BUILD_PARAM_B", "1"), "b"), Ok(Some(true)));
    assert_eq!(param_bool(&with("BUILD_PARAM_B", "false"), "b"), Ok(Some(false)));
    assert_eq!(param_bool(&with("BUILD_PARAM_B", "0"), "b"), Ok(Some(false)));
    assert_eq!(param_bool_required(&with("BUILD_PARAM_B", "false"), "b"), Ok(false));
    assert_eq!(param_bool_required(&with("BUILD_PARAM_B", "1"), "b"), Ok(true));
}

#[test]
fn other_tokens_are_invalid_booleans() {
    for value in ["yes", "True", "", "2", "no", "FALSE", " 1"] {
        let env = with("BUILD_PARAM_B", value);
        assert_eq!(param_bool(&env, "b"), Err(invalid("b", Expected::Boolean)));
        assert_eq!(param_bool_required(&env, "b"), Err(invalid("b", Expected::Boolean)));
    }
}

#[test]
fn signed_integer_parameters() {
    assert_eq!(param_i64(&with("BUILD_PARAM_N", "3"), "n"), Ok(Some(3)));
    assert_eq!(param_i64(&with("BUILD_PARAM_N", "-3"), "n"), Ok(Some(-3)));
    assert_eq!(
        param_i64(&with("BUILD_PARAM_N", "9223372036854775807"), "n"),
        Ok(Some(i64::MAX))
    );
    assert_eq!(
        param_i64_required(&with("BUILD_PARAM_N", "-9223372036854775808"), "n"),
        Ok(i64::MIN)
    );
}

#[test]
fn signed_integer_parameters_out_of_range_are_invalid() {
    for value in ["9223372036854775808", "-9223372036854775809", "123456789012345678901234567890"] {
        let env = with("BUILD_PARAM_N", value);
        assert_eq!(param_i64(&env, "n"), Err(invalid("n", Expected::Integer)));
        assert_eq!(param_i64_required(&env, "n"), Err(invalid("n", Expected::Integer)));
    }
}

#[test]
fn malformed_signed_integer_parameters_are_invalid() {
    for value in ["", "abc", "1.5", "12abc", " 7", "7 ", "-", "true"] {
        let env = with("BUILD_PARAM_N", value);
        assert_eq!(param_i64(&env, "n"), Err(invalid("n", Expected::Integer)));
        assert_eq!(param_i64_required(&env, "n"), Err(invalid("n", Expected::Integer)));
    }
}

#[test]
fn unsigned_integer_parameters() {
    assert_eq!(param_u64(&with("BUILD_PARAM_N", "3"), "n"), Ok(Some(3)));
    assert_eq!(
        param_u64(&with("BUILD_PARAM_N", "18446744073709551615"), "n"),
        Ok(Some(u64::MAX))
    );
    assert_eq!(param_u64_required(&with("BUILD_PARAM_N", "0"), "n"), Ok(0));
}

#[test]
fn unsigned_integer_parameters_reject_a_minus_sign() {
    for value in ["-1", "-0", "-42", "-18446744073709551615"] {
        let env = with("BUILD_PARAM_N", value);
        assert_eq!(param_u64(&env, "n"), Err(invalid("n", Expected::UnsignedInteger)));
        assert_eq!(param_u64_required(&env, "n"), Err(invalid("n", Expected::UnsignedInteger)));
    }
}

#[test]
fn unsigned_integer_parameters_take_no_plus_sign() {
    let env = with("BUILD_PARAM_N", "+1");
    assert_eq!(param_u64(&env, "n"), Err(invalid("n", Expected::UnsignedInteger)));
    assert_eq!(param_i64(&env, "n"), Ok(Some(1)));
}

#[test]
fn malformed_or_large_unsigned_integer_parameters_are_invalid() {
    for value in ["", "abc", "1.5", "18446744073709551616", " 7"] {
        let env = with("BUILD_PARAM_N", value);
        assert_eq!(param_u64(&env, "n"), Err(invalid("n", Expected::UnsignedInteger)));
    }
}

#[test]
fn values_are_not_trimmed() {
    let env = with("BUILD_PARAM_S", "  hello  ");
    assert_eq!(param(&env, "s"), Some("  hello  ".to_string()));
    assert_eq!(param_required(&env, "s"), Ok("  hello  ".to_string()));
    let env = with("BUILD_PARAM_S", "");
    assert_eq!(param(&env, "s"), Some(String::new()));
    assert_eq!(param_required(&env, "s"), Ok(String::new()));
}

#[test]
fn a_later_value_is_seen_at_the_next_call() {
    let mut env = Environment::new();
    assert_eq!(param_i64(&env, "level"), Ok(None));
    env.set("BUILD_PARAM_LEVEL", "1");
    assert_eq!(param_i64(&env, "level"), Ok(Some(1)));
    env.set("BUILD_PARAM_LEVEL", "2");
    assert_eq!(param_i64(&env, "level"), Ok(Some(2)));
}

#[test]
fn error_messages() {
    assert_eq!(missing("output_dir").message(), "build parameter `output_dir` is missing");
    assert_eq!(
        invalid("enable_simd", Expected::Boolean).message(),
        "build parameter `enable_simd` is invalid: expected boolean (true, false, 1, or 0)"
    );
    assert_eq!(
        invalid("level", Expected::Integer).message(),
        "build parameter `level` is invalid: expected integer"
    );
    assert_eq!(
        invalid("size", Expected::UnsignedInteger).message(),
        "build parameter `size` is invalid: expected unsigned integer"
    );
}

#[test]
fn expected_kinds_are_described() {
    assert_eq!(Expected::Boolean.describe(), "boolean (true, false, 1, or 0)");
    assert_eq!(Expected::Integer.describe(), "integer");
    assert_eq!(Expected::UnsignedInteger.describe(), "unsigned integer");
}
