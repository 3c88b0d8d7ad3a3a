//! The flag schema: which flags exist, how many arguments each takes, and
//! which argument values each permits.

use vstd::prelude::*;
use vstd::string::StringExecFns;

verus! {

/// Holds the rules for one flag and its arguments.
#[derive(PartialEq, Debug)]
pub struct FlagOption {
    /// The flag, prefix included.
    pub flag: String,
    /// The permitted argument values; `None` permits every value.
    pub arguments: Option<Vec<String>>,
    /// The minimum number of arguments for the flag.
    pub min_arguments: usize,
    /// The maximum number of arguments for the flag.
    pub max_arguments: usize,
    /// Whether the flag takes a path to a configuration file.
    pub config_path: bool,
    /// Whether the flag takes a path to an executable.
    pub command_path: bool,
    /// Whether the flag takes a path to a file to be read directly.
    pub file_path: bool,
}

/// Mathematical value of a [`FlagOption`].
pub ghost struct FlagOptionView {
    pub flag: Seq<char>,
    pub arguments: Option<Seq<Seq<char>>>,
    pub min_arguments: nat,
    pub max_arguments: nat,
    pub config_path: bool,
    pub command_path: bool,
    pub file_path: bool,
}

impl View for FlagOption {
    type V = FlagOptionView;

    open spec fn view(&self) -> FlagOptionView {
        FlagOptionView {
            flag: self.flag@,
            arguments: self.arguments.deep_view(),
            min_arguments: self.min_arguments as nat,
            max_arguments: self.max_arguments as nat,
            config_path: self.config_path,
            command_path: self.command_path,
            file_path: self.file_path,
        }
    }
}

impl DeepView for FlagOption {
    type V = FlagOptionView;

    open spec fn deep_view(&self) -> FlagOptionView {
        self@
    }
}

/// A schema is well formed when no entry asks for more arguments than it
/// allows and no two entries bear the same flag.
pub open spec fn schema_wf(schema: Seq<FlagOptionView>) -> bool {
    &&& forall|i: int|
        0 <= i < schema.len() ==> (#[trigger] schema[i]).min_arguments <= schema[i].max_arguments
    &&& forall|i: int, j: int|
        0 <= i < j < schema.len() ==> (#[trigger] schema[i]).flag != (#[trigger] schema[j]).flag
}

/// An entry with a curated vocabulary.
pub open spec fn rule(
    flag: Seq<char>,
    values: Seq<Seq<char>>,
    min_arguments: nat,
    max_arguments: nat,
    config_path: bool,
    command_path: bool,
    file_path: bool,
) -> FlagOptionView {
    FlagOptionView {
        flag,
        arguments: Some(values),
        min_arguments,
        max_arguments,
        config_path,
        command_path,
        file_path,
    }
}

/// The built-in schema, entry by entry.
pub open spec fn flag_table() -> Seq<FlagOptionView> {
    seq![
        rule("--battery"@, seq!["time"@, "percentage"@], 1, 2, false, false, false),
        rule(
            "--cpu_temp"@,
            seq!["average"@, "each"@, "fahrenheidt"@, "celcius"@],
            0,
            2,
            false,
            false,
            true,
        ),
        rule("--cpu_load"@, seq!["average"@, "each"@], 0, 1, false, true, false),
        rule("--gpu_temp"@, seq!["average"@, "each"@], 0, 1, false, true, false),
        rule("--gpu_load"@, seq!["average"@, "each"@], 0, 1, false, true, false),
        rule("--ram_usage"@, seq!["percentage"@, "amount"@], 0, 1, false, true, false),
        rule(
            "--date"@,
            seq![
                "day-long"@,
                "day-short"@,
                "month-long"@,
                "month-short"@,
                "year-long"@,
                "year-short"@,
            ],
            1,
            3,
            false,
            true,
            false,
        ),
        rule("--time"@, seq!["12-hour"@, "24-hour"@], 1, 1, false, true, false),
        rule("--audio-volume"@, seq!["oss"@, "alsa"@, "pulseaudio"@], 1, 1, false, true, true),
        rule("--disk_usage"@, seq!["percentage"@, "bytes"@], 1, 2, false, true, true),
    ]
}

/// The flags of a schema, in the order of its entries.
pub open spec fn flags_of(schema: Seq<FlagOptionView>) -> Seq<Seq<char>> {
    Seq::new(schema.len(), |i: int| schema[i].flag)
}

/// Owned copies of `values`, in order.
fn owned_values(values: &[&str]) -> (owned: Vec<String>)
    ensures
        owned.deep_view() == Seq::new(values@.len(), |i: int| values@[i]@),
{
    let mut owned: Vec<String> = Vec::new();
    let mut i: usize = 0;
    while i < values.len()
        invariant
            i <= values@.len(),
            owned@.len() == i,
            forall|k: int| 0 <= k < i ==> (#[trigger] owned@[k])@ == values@[k]@,
        decreases values@.len() - i,
    {
        owned.push(String::from_str(values[i]));
        i += 1;
    }
    owned
}

/// Builds one entry with a curated vocabulary.
fn make_option(
    flag: &str,
    values: &[&str],
    min_arguments: usize,
    max_arguments: usize,
    config_path: bool,
    command_path: bool,
    file_path: bool,
) -> (option: FlagOption)
    ensures
        option@ == rule(
            flag@,
            Seq::new(values@.len(), |i: int| values@[i]@),
            min_arguments as nat,
            max_arguments as nat,
            config_path,
            command_path,
            file_path,
        ),
{
    FlagOption {
        flag: String::from_str(flag),
        arguments: Some(owned_values(values)),
        min_arguments,
        max_arguments,
        config_path,
        command_path,
        file_path,
    }
}

/// The built-in schema is well formed.
pub proof fn flag_table_wf()
    ensures
        schema_wf(flag_table()),
        flag_table().len() == 10,
{
    reveal_strlit("--battery");
    reveal_strlit("--cpu_temp");
    reveal_strlit("--cpu_load");
    reveal_strlit("--gpu_temp");
    reveal_strlit("--gpu_load");
    reveal_strlit("--ram_usage");
    reveal_strlit("--date");
    reveal_strlit("--time");
    reveal_strlit("--audio-volume");
    reveal_strlit("--disk_usage");
    let table = flag_table();
    assert(table[0].flag[2] == 'b');
    assert(table[1].flag[6] == 't');
    assert(table[2].flag[6] == 'l');
    assert(table[3].flag[2] == 'g' && table[3].flag[6] == 't');
    assert(table[4].flag[2] == 'g' && table[4].flag[6] == 'l');
    assert(table[5].flag[2] == 'r');
    assert(table[6].flag[3] == 'a' && table[6].flag.len() == 6);
    assert(table[7].flag[2] == 't');
    assert(table[8].flag[3] == 'u');
}

/// Outputs the built-in schema: one entry per recognised flag.
pub fn flag_options_vec() -> (schema: Vec<FlagOption>)
    ensures
        schema.deep_view() == flag_table(),
        schema_wf(schema.deep_view()),
{
    let battery = make_option("--battery", &["time", "percentage"], 1, 2, false, false, false);
    let cpu_temp = make_option(
        "--cpu_temp",
        &["average", "each", "fahrenheidt", "celcius"],
        0,
        2,
        false,
        false,
        true,
    );
    let cpu_load = make_option("--cpu_load", &["average", "each"], 0, 1, false, true, false);
    let gpu_temp = make_option("--gpu_temp", &["average", "each"], 0, 1, false, true, false);
    let gpu_load = make_option("--gpu_load", &["average", "each"], 0, 1, false, true, false);
    let ram_usage = make_option("--ram_usage", &["percentage", "amount"], 0, 1, false, true, false);
    let date = make_option(
        "--date",
        &["day-long", "day-short", "month-long", "month-short", "year-long", "year-short"],
        1,
        3,
        false,
        true,
        false,
    );
    let time = make_option("--time", &["12-hour", "24-hour"], 1, 1, false, true, false);
    let audio_volume = make_option(
        "--audio-volume",
        &["oss", "alsa", "pulseaudio"],
        1,
        1,
        false,
        true,
        true,
    );
    let disk_usage = make_option("--disk_usage", &["percentage", "bytes"], 1, 2, false, true, true);
    proof {
        assert(battery@.arguments->0 =~= seq!["time"@, "percentage"@]);
        assert(cpu_temp@.arguments->0 =~= seq![
            "average"@,
            "each"@,
            "fahrenheidt"@,
            "celcius"@,
        ]);
        assert(cpu_load@.arguments->0 =~= seq!["average"@, "each"@]);
        assert(gpu_temp@.arguments->0 =~= seq!["average"@, "each"@]);
        assert(gpu_load@.arguments->0 =~= seq!["average"@, "each"@]);
        assert(ram_usage@.arguments->0 =~= seq!["percentage"@, "amount"@]);
        assert(date@.arguments->0 =~= seq![
            "day-long"@,
            "day-short"@,
            "month-long"@,
            "month-short"@,
            "year-long"@,
            "year-short"@,
        ]);
        assert(time@.arguments->0 =~= seq!["12-hour"@, "24-hour"@]);
        assert(audio_volume@.arguments->0 =~= seq!["oss"@, "alsa"@, "pulseaudio"@]);
        assert(disk_usage@.arguments->0 =~= seq!["percentage"@, "bytes"@]);
    }
    let schema = vec![
        battery,
        cpu_temp,
        cpu_load,
        gpu_temp,
        gpu_load,
        ram_usage,
        date,
        time,
        audio_volume,
        disk_usage,
    ];
    proof {
        flag_table_wf();
    }
    schema
}

/// Produces the flags of the built-in schema, in the order of its entries.
pub fn flag_vec() -> (flags: Vec<String>)
    ensures
        flags.deep_view() == flags_of(flag_table()),
{
    let schema = flag_options_vec();
    let mut flags: Vec<String> = Vec::new();
    let mut i: usize = 0;
    while i < schema.len()
        invariant
            i <= schema@.len(),
            flags@.len() == i,
            forall|k: int| 0 <= k < i ==> (#[trigger] flags@[k])@ == schema@[k].flag@,
        decreases schema@.len() - i,
    {
        flags.push(schema[i].flag.clone());
        i += 1;
    }
    flags
}

} // verus!
