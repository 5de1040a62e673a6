use tighterror_build::common::casing::convert_case;
use tighterror_build::common::casing::Case::{UpperCamel, UpperSnake};

#[test]
fn test_convert_case() {
    let cases = &[
        // str_to_convert, from_case, to_case, expected_result
        ("MY_ERR1", UpperSnake, UpperSnake, "MY_ERR1"),
        ("MyErr1", UpperSnake, UpperSnake, "MYERR1"),
        ("MyErr1", UpperCamel, UpperSnake, "MY_ERR_1"),
        ("MY_ERR1", UpperSnake, UpperCamel, "MyErr1"),
        ("MY_ERR", UpperCamel, UpperCamel, "My_err"),
    ];

    for c in cases {
        assert_eq!(convert_case(c.0, c.1, c.2), c.3);
    }
}
