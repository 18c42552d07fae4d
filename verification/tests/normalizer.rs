use oxidizer::ident::to_snake_case;

#[test]
fn test_to_snake_case_simple() {
    assert_eq!(to_snake_case("fetchData"), "fetch_data");
    assert_eq!(to_snake_case("getUserName"), "get_user_name");
    assert_eq!(to_snake_case("HTTPRequest"), "h_t_t_p_request");
}

#[test]
fn test_to_snake_case_already_snake() {
    assert_eq!(to_snake_case("already_snake"), "already_snake");
}

#[test]
fn test_to_snake_case_single_word() {
    assert_eq!(to_snake_case("simple"), "simple");
    assert_eq!(to_snake_case("Simple"), "simple");
}

#[test]
fn test_to_snake_case_empty() {
    assert_eq!(to_snake_case(""), "");
}

#[test]
fn test_to_snake_case_digits_and_underscores() {
    assert_eq!(to_snake_case("parseHTML5"), "parse_h_t_m_l5");
    assert_eq!(to_snake_case("a_B"), "a__b");
}

#[test]
fn test_to_snake_case_applied_twice_is_stable() {
    let once = to_snake_case("getUserName");
    let twice = to_snake_case(&once);
    assert_eq!(once, twice);
}
