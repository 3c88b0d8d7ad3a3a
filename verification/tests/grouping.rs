use porpoiseful::arg_parser;
use porpoiseful::is_flag_token;
use porpoiseful::ParseError;

fn strings(items: &[&str]) -> Vec<String> {
    items.iter().map(|item| item.to_string()).collect()
}

#[test]
fn groups_one_flag_with_one_argument() {
    let args = strings(&["--battery", "time"]);
    assert_eq!(arg_parser(&args), Ok(vec![strings(&["--battery", "time"])]));
}

#[test]
fn groups_flag_with_free_text_argument() {
    let args = strings(&["--battery", "is gucci"]);
    assert_eq!(arg_parser(&args), Ok(vec![strings(&["--battery", "is gucci"])]));
}

#[test]
fn groups_flag_without_arguments() {
    let args = strings(&["--battery"]);
    assert_eq!(arg_parser(&args), Ok(vec![strings(&["--battery"])]));
}

#[test]
fn groups_unknown_flag_like_any_other() {
    let args = strings(&["--noot", "--battery", "time"]);
    assert_eq!(
        arg_parser(&args),
        Ok(vec![strings(&["--noot"]), strings(&["--battery", "time"])])
    );
}

#[test]
fn groups_unknown_flag_before_free_text() {
    let args = strings(&["--noot", "--battery", "is gucci"]);
    assert_eq!(
        arg_parser(&args),
        Ok(vec![strings(&["--noot"]), strings(&["--battery", "is gucci"])])
    );
}

#[test]
fn groups_two_flags_with_one_argument_each() {
    let args = strings(&["--battery", "arg1", "--cpu_temp", "arg2"]);
    assert_eq!(
        arg_parser(&args),
        Ok(vec![strings(&["--battery", "arg1"]), strings(&["--cpu_temp", "arg2"])])
    );
}

#[test]
fn groups_three_flags_with_one_argument_each() {
    let args = strings(&["--battery", "arg1", "--cpu-temp", "arg2", "--cpu-load", "arg3"]);
    assert_eq!(
        arg_parser(&args),
        Ok(vec![
            strings(&["--battery", "arg1"]),
            strings(&["--cpu-temp", "arg2"]),
            strings(&["--cpu-load", "arg3"]),
        ])
    );
}

#[test]
fn empty_input_gives_no_groups() {
    let args: Vec<String> = Vec::new();
    assert_eq!(arg_parser(&args), Ok(Vec::new()));
}

#[test]
fn leading_data_token_is_refused() {
    let args = strings(&["time", "--battery"]);
    assert_eq!(arg_parser(&args), Err(ParseError::NotAFlag("time".to_string())));
}

#[test]
fn leading_short_tokens_are_refused() {
    assert_eq!(arg_parser(&strings(&[""])), Err(ParseError::NotAFlag(String::new())));
    assert_eq!(arg_parser(&strings(&["-"])), Err(ParseError::NotAFlag("-".to_string())));
    assert_eq!(arg_parser(&strings(&["-b"])), Err(ParseError::NotAFlag("-b".to_string())));
    assert_eq!(arg_parser(&strings(&["é"])), Err(ParseError::NotAFlag("é".to_string())));
}

#[test]
fn bare_prefix_is_a_flag() {
    assert_eq!(arg_parser(&strings(&["--"])), Ok(vec![strings(&["--"])]));
}

#[test]
fn short_tokens_after_a_flag_are_data() {
    let args = strings(&["--date", "", "-", "-x", "é-"]);
    assert_eq!(arg_parser(&args), Ok(vec![strings(&["--date", "", "-", "-x", "é-"])]));
}

#[test]
fn flag_prefix_is_recognised_only_at_the_start() {
    assert!(is_flag_token(&"--battery".to_string()));
    assert!(is_flag_token(&"---".to_string()));
    assert!(is_flag_token(&"--é".to_string()));
    assert!(!is_flag_token(&"-battery".to_string()));
    assert!(!is_flag_token(&"b--".to_string()));
    assert!(!is_flag_token(&" --battery".to_string()));
    assert!(!is_flag_token(&String::new()));
}

#[test]
fn grouping_keeps_tokens_in_order() {
    let args = strings(&["--a", "1", "2", "--b", "--c", "3", "--a", "4", "5", "6"]);
    let groups = arg_parser(&args).unwrap();
    assert_eq!(groups.len(), 4);
    let heads: Vec<String> = groups.iter().map(|group| group[0].clone()).collect();
    assert_eq!(heads, strings(&["--a", "--b", "--c", "--a"]));
    let flat: Vec<String> = groups.iter().flat_map(|group| group.iter().cloned()).collect();
    assert_eq!(flat, args);
    assert_eq!(groups[0], strings(&["--a", "1", "2"]));
    assert_eq!(groups[1], strings(&["--b"]));
    assert_eq!(groups[2], strings(&["--c", "3"]));
    assert_eq!(groups[3], strings(&["--a", "4", "5", "6"]));
}

#[test]
fn grouping_twice_gives_the_same() {
    let args = strings(&["--battery", "time", "--date", "day-long"]);
    assert_eq!(arg_parser(&args), arg_parser(&args));
    let refused = strings(&["time"]);
    assert_eq!(arg_parser(&refused), arg_parser(&refused));
}

#[test]
fn not_a_flag_message() {
    let e = ParseError::NotAFlag("time".to_string());
    assert_eq!(e.message(), "time is not a valid flag");
}
