use jni_simple::agent::parse_agent_address;

#[test]
fn parses_like_std() {
    let cases = [
        "0", "1", "+5", "+", "", "-1", "-0", "007", "12a", " 1", "1 ", "ä1", "123456789",
        "18446744073709551615", "18446744073709551616", "99999999999999999999999", "4294967295", "4294967296",
        "+18446744073709551615", "++1", "1+1",
    ];
    for case in cases {
        assert_eq!(parse_agent_address(case), case.parse::<usize>().ok(), "case {case:?}");
    }
}

#[test]
fn exact_values() {
    assert_eq!(parse_agent_address("140737488355328"), Some(140737488355328));
    assert_eq!(parse_agent_address("+42"), Some(42));
    assert_eq!(parse_agent_address("not a number"), None);
}
