use evaljs::request::{parse_count, parse_request, wrap_code, ExecutionRequest, RequestError};

fn tokens(items: &[&str]) -> Vec<String> {
    items.iter().map(|s| s.to_string()).collect()
}

#[test]
fn parses_code_without_keys_or_args() {
    let request = parse_request(tokens(&["EVALJS", "return 2+2;", "0"])).unwrap();
    assert_eq!(
        request,
        ExecutionRequest { code: "return 2+2;".to_string(), keys: vec![], args: vec![] }
    );
}

#[test]
fn splits_keys_from_args() {
    let request = parse_request(tokens(&["EVALJS", "return 1;", "2", "a", "b", "1"])).unwrap();
    assert_eq!(request.code, "return 1;");
    assert_eq!(request.keys, tokens(&["a", "b"]));
    assert_eq!(request.args, tokens(&["1"]));
}

#[test]
fn all_remaining_tokens_are_args_when_numkeys_is_zero() {
    let request = parse_request(tokens(&["EVALJS", "x", "0", "a", "b"])).unwrap();
    assert_eq!(request.keys, Vec::<String>::new());
    assert_eq!(request.args, tokens(&["a", "b"]));
}

#[test]
fn takes_the_keys_that_are_there_when_numkeys_is_larger() {
    let request = parse_request(tokens(&["EVALJS", "x", "5", "a", "b"])).unwrap();
    assert_eq!(request.keys, tokens(&["a", "b"]));
    assert_eq!(request.args, Vec::<String>::new());
}

#[test]
fn keys_and_args_exhaust_the_remaining_tokens() {
    let all = tokens(&["EVALJS", "x", "3", "k1", "k2", "k3", "a1", "a2"]);
    let request = parse_request(all.clone()).unwrap();
    let mut joined = request.keys.clone();
    joined.extend(request.args.clone());
    assert_eq!(joined, all[3..].to_vec());
    assert_eq!(request.keys.len(), 3);
}

#[test]
fn empty_code_is_accepted() {
    let request = parse_request(tokens(&["EVALJS", "", "0"])).unwrap();
    assert_eq!(request.code, "");
}

#[test]
fn fewer_than_three_tokens_is_wrong_arity() {
    assert_eq!(parse_request(tokens(&[])), Err(RequestError::WrongArity));
    assert_eq!(parse_request(tokens(&["EVALJS"])), Err(RequestError::WrongArity));
    assert_eq!(parse_request(tokens(&["EVALJS", "return 1;"])), Err(RequestError::WrongArity));
}

#[test]
fn wrong_arity_comes_before_numkeys() {
    assert_eq!(parse_request(tokens(&["EVALJS", "abc"])), Err(RequestError::WrongArity));
}

#[test]
fn bad_numkeys_is_rejected() {
    for bad in ["abc", "", "-1", "+1", "01", "00", "1 ", " 1", "1.0", "0x10", "१", "9223372036854775808"] {
        assert_eq!(
            parse_request(tokens(&["EVALJS", "return 1;", bad, "k"])),
            Err(RequestError::InvalidNumKeys),
            "numkeys {:?}",
            bad
        );
    }
}

#[test]
fn largest_numkeys_is_accepted() {
    let request =
        parse_request(tokens(&["EVALJS", "x", "9223372036854775807", "a"])).unwrap();
    assert_eq!(request.keys, tokens(&["a"]));
    assert_eq!(request.args, Vec::<String>::new());
}

#[test]
fn parse_count_reads_canonical_numerals() {
    assert_eq!(parse_count(b"0"), Some(0));
    assert_eq!(parse_count(b"7"), Some(7));
    assert_eq!(parse_count(b"12"), Some(12));
    assert_eq!(parse_count(b"1000"), Some(1000));
    assert_eq!(parse_count(b"9223372036854775807"), Some(9223372036854775807));
}

#[test]
fn parse_count_rejects_everything_else() {
    assert_eq!(parse_count(b""), None);
    assert_eq!(parse_count(b"00"), None);
    assert_eq!(parse_count(b"012"), None);
    assert_eq!(parse_count(b"-0"), None);
    assert_eq!(parse_count(b"12a"), None);
    assert_eq!(parse_count(b"a12"), None);
    assert_eq!(parse_count(b"9223372036854775808"), None);
    assert_eq!(parse_count(b"18446744073709551616"), None);
    assert_eq!(parse_count(b"99999999999999999999999999"), None);
}

#[test]
fn wraps_code_in_a_called_function() {
    assert_eq!(wrap_code("return 2+2;"), "(function(){return 2+2;})();");
    assert_eq!(wrap_code(""), "(function(){})();");
}

#[test]
fn request_errors_have_messages() {
    assert_eq!(RequestError::WrongArity.message(), "ERR wrong number of arguments");
    assert_eq!(RequestError::InvalidNumKeys.message(), "ERR invalid number of keys");
}
