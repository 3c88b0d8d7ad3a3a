use porpoiseful::arg_parser;
use porpoiseful::error::decimal_string;
use porpoiseful::flag_options::{flag_options_vec, flag_vec, FlagOption};
use porpoiseful::flag_verify;
use porpoiseful::validate;
use porpoiseful::validator::{check_group, check_option, contains_value, find_option};
use porpoiseful::ValidationError;

fn words(items: &[&str]) -> Vec<String> {
    items.iter().map(|item| item.to_string()).collect()
}

fn verify_args(items: &[&str]) -> Result<(), ValidationError> {
    let groups = arg_parser(&words(items)).unwrap();
    flag_verify(&groups)
}

fn option(flag: &str, values: Option<&[&str]>, min: usize, max: usize) -> FlagOption {
    FlagOption {
        flag: flag.to_string(),
        arguments: values.map(words),
        min_arguments: min,
        max_arguments: max,
        config_path: false,
        command_path: false,
        file_path: false,
    }
}

#[test]
fn battery_with_time_is_valid() {
    assert_eq!(flag_verify(&vec![words(&["--battery", "time"])]), Ok(()));
    assert_eq!(verify_args(&["--battery", "time"]), Ok(()));
}

#[test]
fn battery_without_arguments_has_too_few() {
    let r = flag_verify(&vec![words(&["--battery"])]);
    assert_eq!(r, Err(ValidationError::TooFewArguments("--battery".to_string(), 1)));
    assert_eq!(r.unwrap_err().message(), "--battery requires at least 1 arguments");
}

#[test]
fn battery_with_unlisted_value_is_invalid() {
    let r = flag_verify(&vec![words(&["--battery", "rocks"])]);
    assert_eq!(
        r,
        Err(ValidationError::InvalidArgumentValue("rocks".to_string(), "--battery".to_string()))
    );
    assert_eq!(r.unwrap_err().message(), "rocks is not a valid argument for --battery");
}

#[test]
fn unknown_flag_in_first_group_is_reported() {
    let r = verify_args(&["--noot", "--battery", "time"]);
    assert_eq!(r, Err(ValidationError::UnknownFlag("--noot".to_string())));
    assert_eq!(r.unwrap_err().message(), "--noot is not a valid flag");
}

#[test]
fn first_invalid_group_is_reported() {
    assert_eq!(
        verify_args(&["--battery", "arg1", "--cpu_temp", "arg2"]),
        Err(ValidationError::InvalidArgumentValue("arg1".to_string(), "--battery".to_string()))
    );
}

#[test]
fn no_groups_are_valid() {
    assert_eq!(flag_verify(&Vec::new()), Ok(()));
    assert_eq!(verify_args(&[]), Ok(()));
}

#[test]
fn counts_at_the_bounds() {
    let schema = vec![option("--pair", Some(&["a", "b"]), 1, 2)];
    assert_eq!(
        validate(&vec![words(&["--pair"])], &schema),
        Err(ValidationError::TooFewArguments("--pair".to_string(), 1))
    );
    assert_eq!(validate(&vec![words(&["--pair", "a"])], &schema), Ok(()));
    assert_eq!(validate(&vec![words(&["--pair", "a", "b"])], &schema), Ok(()));
    assert_eq!(validate(&vec![words(&["--pair", "b", "b"])], &schema), Ok(()));
    assert_eq!(
        validate(&vec![words(&["--pair", "a", "b", "a"])], &schema),
        Err(ValidationError::TooManyArguments("--pair".to_string(), 2))
    );
}

#[test]
fn battery_counts_at_the_bounds() {
    assert_eq!(
        verify_args(&["--battery"]),
        Err(ValidationError::TooFewArguments("--battery".to_string(), 1))
    );
    assert_eq!(verify_args(&["--battery", "percentage"]), Ok(()));
    assert_eq!(verify_args(&["--battery", "time", "percentage"]), Ok(()));
    let r = verify_args(&["--battery", "time", "percentage", "time"]);
    assert_eq!(r, Err(ValidationError::TooManyArguments("--battery".to_string(), 2)));
    assert_eq!(r.unwrap_err().message(), "--battery requires no more than 2 arguments");
}

#[test]
fn count_is_checked_before_values() {
    assert_eq!(
        verify_args(&["--time", "rocks", "rolls"]),
        Err(ValidationError::TooManyArguments("--time".to_string(), 1))
    );
}

#[test]
fn first_unlisted_value_is_named() {
    assert_eq!(
        verify_args(&["--date", "day-long", "week", "fortnight"]),
        Err(ValidationError::InvalidArgumentValue("week".to_string(), "--date".to_string()))
    );
}

#[test]
fn values_are_case_sensitive() {
    assert_eq!(
        verify_args(&["--battery", "Time"]),
        Err(ValidationError::InvalidArgumentValue("Time".to_string(), "--battery".to_string()))
    );
    assert_eq!(
        verify_args(&["--Battery", "time"]),
        Err(ValidationError::UnknownFlag("--Battery".to_string()))
    );
}

#[test]
fn unknown_flag_wins_whatever_follows() {
    assert_eq!(verify_args(&["--noot"]), Err(ValidationError::UnknownFlag("--noot".to_string())));
    assert_eq!(
        verify_args(&["--noot", "time"]),
        Err(ValidationError::UnknownFlag("--noot".to_string()))
    );
    assert_eq!(
        verify_args(&["--noot", "a", "b", "c", "d", "e"]),
        Err(ValidationError::UnknownFlag("--noot".to_string()))
    );
}

#[test]
fn earlier_failure_hides_later_unknown_flag() {
    assert_eq!(
        verify_args(&["--battery", "--noot"]),
        Err(ValidationError::TooFewArguments("--battery".to_string(), 1))
    );
    assert_eq!(
        verify_args(&["--battery", "time", "--noot"]),
        Err(ValidationError::UnknownFlag("--noot".to_string()))
    );
}

#[test]
fn every_built_in_flag_accepts_its_first_value() {
    assert_eq!(verify_args(&["--cpu_temp"]), Ok(()));
    assert_eq!(verify_args(&["--cpu_temp", "each", "celcius"]), Ok(()));
    assert_eq!(verify_args(&["--cpu_load", "average"]), Ok(()));
    assert_eq!(verify_args(&["--gpu_temp", "each"]), Ok(()));
    assert_eq!(verify_args(&["--gpu_load"]), Ok(()));
    assert_eq!(verify_args(&["--ram_usage", "amount"]), Ok(()));
    assert_eq!(verify_args(&["--date", "day-long", "month-short", "year-long"]), Ok(()));
    assert_eq!(verify_args(&["--time", "24-hour"]), Ok(()));
    assert_eq!(verify_args(&["--audio-volume", "pulseaudio"]), Ok(()));
    assert_eq!(verify_args(&["--disk_usage", "percentage", "bytes"]), Ok(()));
}

#[test]
fn entry_without_vocabulary_accepts_any_value() {
    let schema = vec![option("--path", None, 1, 1)];
    assert_eq!(validate(&vec![words(&["--path", "/etc/anything"])], &schema), Ok(()));
    assert_eq!(
        validate(&vec![words(&["--path"])], &schema),
        Err(ValidationError::TooFewArguments("--path".to_string(), 1))
    );
}

#[test]
fn first_entry_with_the_flag_decides() {
    let schema = vec![option("--x", Some(&["a"]), 0, 1), option("--x", Some(&["b"]), 2, 2)];
    assert_eq!(find_option(&schema, &"--x".to_string()), Some(0));
    assert_eq!(find_option(&schema, &"--y".to_string()), None);
    assert_eq!(validate(&vec![words(&["--x", "a"])], &schema), Ok(()));
    assert_eq!(
        validate(&vec![words(&["--x", "b"])], &schema),
        Err(ValidationError::InvalidArgumentValue("b".to_string(), "--x".to_string()))
    );
}

#[test]
fn empty_schema_knows_no_flag() {
    let schema: Vec<FlagOption> = Vec::new();
    assert_eq!(
        validate(&vec![words(&["--battery", "time"])], &schema),
        Err(ValidationError::UnknownFlag("--battery".to_string()))
    );
    assert_eq!(validate(&Vec::new(), &schema), Ok(()));
}

#[test]
fn single_group_checks() {
    let schema = flag_options_vec();
    assert_eq!(check_group(&schema, &words(&["--time", "12-hour"])), Ok(()));
    assert_eq!(
        check_group(&schema, &words(&["--clock", "12-hour"])),
        Err(ValidationError::UnknownFlag("--clock".to_string()))
    );
    assert_eq!(check_option(&schema[7], &words(&["--time", "24-hour"])), Ok(()));
    assert_eq!(
        check_option(&schema[7], &words(&["--time", "noon"])),
        Err(ValidationError::InvalidArgumentValue("noon".to_string(), "--time".to_string()))
    );
    assert!(contains_value(&words(&["oss", "alsa"]), &"alsa".to_string()));
    assert!(!contains_value(&words(&["oss", "alsa"]), &"als".to_string()));
    assert!(!contains_value(&Vec::new(), &"alsa".to_string()));
}

#[test]
fn validating_twice_gives_the_same() {
    let groups = vec![words(&["--battery", "time"]), words(&["--time"])];
    assert_eq!(flag_verify(&groups), flag_verify(&groups));
    assert_eq!(
        flag_verify(&groups),
        Err(ValidationError::TooFewArguments("--time".to_string(), 1))
    );
}

#[test]
fn built_in_schema_contents() {
    let schema = flag_options_vec();
    assert_eq!(schema.len(), 10);
    assert_eq!(
        schema[0],
        FlagOption {
            flag: "--battery".to_string(),
            arguments: Some(words(&["time", "percentage"])),
            min_arguments: 1,
            max_arguments: 2,
            config_path: false,
            command_path: false,
            file_path: false,
        }
    );
    assert_eq!(
        schema[1],
        FlagOption {
            flag: "--cpu_temp".to_string(),
            arguments: Some(words(&["average", "each", "fahrenheidt", "celcius"])),
            min_arguments: 0,
            max_arguments: 2,
            config_path: false,
            command_path: false,
            file_path: true,
        }
    );
    assert_eq!(
        schema[6].arguments,
        Some(words(&[
            "day-long",
            "day-short",
            "month-long",
            "month-short",
            "year-long",
            "year-short"
        ]))
    );
    assert_eq!((schema[6].min_arguments, schema[6].max_arguments), (1, 3));
    assert_eq!(
        schema[8],
        FlagOption {
            flag: "--audio-volume".to_string(),
            arguments: Some(words(&["oss", "alsa", "pulseaudio"])),
            min_arguments: 1,
            max_arguments: 1,
            config_path: false,
            command_path: true,
            file_path: true,
        }
    );
    for entry in schema.iter() {
        assert!(entry.min_arguments <= entry.max_arguments);
        assert!(entry.arguments.is_some());
        assert!(!entry.config_path);
    }
}

#[test]
fn flag_vec_lists_the_schema_flags() {
    let mut expected = vec![];
    for item in flag_options_vec().iter() {
        expected.push(item.flag.clone());
    }
    assert_eq!(flag_vec(), expected);
    assert_eq!(
        flag_vec(),
        words(&[
            "--battery",
            "--cpu_temp",
            "--cpu_load",
            "--gpu_temp",
            "--gpu_load",
            "--ram_usage",
            "--date",
            "--time",
            "--audio-volume",
            "--disk_usage",
        ])
    );
}

#[test]
fn built_in_flags_are_distinct() {
    let flags = flag_vec();
    for i in 0..flags.len() {
        for j in 0..i {
            assert_ne!(flags[i], flags[j]);
        }
    }
}

#[test]
fn decimal_numerals() {
    assert_eq!(decimal_string(0), "0");
    assert_eq!(decimal_string(7), "7");
    assert_eq!(decimal_string(10), "10");
    assert_eq!(decimal_string(999), "999");
    assert_eq!(decimal_string(1234567890), "1234567890");
    assert_eq!(decimal_string(usize::MAX), usize::MAX.to_string());
}

#[test]
fn count_messages_carry_the_bound() {
    assert_eq!(
        ValidationError::TooFewArguments("--date".to_string(), 12).message(),
        "--date requires at least 12 arguments"
    );
    assert_eq!(
        ValidationError::TooManyArguments("--date".to_string(), 305).message(),
        "--date requires no more than 305 arguments"
    );
}
