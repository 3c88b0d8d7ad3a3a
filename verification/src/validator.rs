//! Holding groups against a flag schema.

use vstd::prelude::*;
use crate::error::{ValidationError, ValidationErrorView};
use crate::flag_options::{flag_options_vec, flag_table, FlagOption, FlagOptionView};
use crate::grouper::{flags_in, group_tokens, grouping_preserves_order, heads};
use crate::token::is_flag;

verus! {

/// Some entry of `schema` bears the flag `name`.
pub open spec fn schema_has(schema: Seq<FlagOptionView>, name: Seq<char>) -> bool {
    exists|i: int| 0 <= i < schema.len() && (#[trigger] schema[i]).flag == name
}

/// Entry `i` is the first of `schema` that bears the flag `name`.
pub open spec fn governs(schema: Seq<FlagOptionView>, name: Seq<char>, i: int) -> bool {
    &&& 0 <= i < schema.len()
    &&& schema[i].flag == name
    &&& forall|j: int| 0 <= j < i ==> (#[trigger] schema[j]).flag != name
}

/// The entry that decides about the flag `name`: the first that bears it.
pub open spec fn governing_entry(schema: Seq<FlagOptionView>, name: Seq<char>) -> FlagOptionView {
    schema[choose|i: int| governs(schema, name, i)]
}

/// Every argument of `group` is among the `permitted` values.
pub open spec fn all_permitted(group: Seq<Seq<char>>, permitted: Seq<Seq<char>>) -> bool {
    forall|k: int| 1 <= k < group.len() ==> permitted.contains(#[trigger] group[k])
}

/// Token `k` of `group` is its first argument outside the `permitted` values.
pub open spec fn rejected_at(group: Seq<Seq<char>>, permitted: Seq<Seq<char>>, k: int) -> bool {
    &&& 1 <= k < group.len()
    &&& !permitted.contains(group[k])
    &&& forall|j: int| 1 <= j < k ==> permitted.contains(#[trigger] group[j])
}

/// The first argument of `group` outside the `permitted` values.
pub open spec fn first_rejected(group: Seq<Seq<char>>, permitted: Seq<Seq<char>>) -> Seq<char> {
    group[choose|k: int| rejected_at(group, permitted, k)]
}

/// What the vocabulary of `entry` says of the arguments of `group`: without
/// a vocabulary every value passes; with one, the first argument outside it
/// is the failure.
pub open spec fn value_failure(entry: FlagOptionView, group: Seq<Seq<char>>) -> Option<
    ValidationErrorView,
> {
    match entry.arguments {
        None => None,
        Some(permitted) => if all_permitted(group, permitted) {
            None
        } else {
            Some(
                ValidationErrorView::InvalidArgumentValue(
                    first_rejected(group, permitted),
                    group[0],
                ),
            )
        },
    }
}

/// What `entry` says of `group`: the argument count is held against the
/// minimum, then against the maximum, and only then are the values read.
pub open spec fn entry_failure(entry: FlagOptionView, group: Seq<Seq<char>>) -> Option<
    ValidationErrorView,
> {
    let count = group.len() - 1;
    if count < entry.min_arguments {
        Some(ValidationErrorView::TooFewArguments(group[0], entry.min_arguments))
    } else if count > entry.max_arguments {
        Some(ValidationErrorView::TooManyArguments(group[0], entry.max_arguments))
    } else {
        value_failure(entry, group)
    }
}

/// The one reason for which `schema` rejects `group`, or `None` where the
/// group passes. A flag that the schema lacks is reported before anything
/// else is looked at.
pub open spec fn group_failure(schema: Seq<FlagOptionView>, group: Seq<Seq<char>>) -> Option<
    ValidationErrorView,
> {
    if !schema_has(schema, group[0]) {
        Some(ValidationErrorView::UnknownFlag(group[0]))
    } else {
        entry_failure(governing_entry(schema, group[0]), group)
    }
}

/// Every group passes.
pub open spec fn all_pass(schema: Seq<FlagOptionView>, groups: Seq<Seq<Seq<char>>>) -> bool {
    forall|i: int| 0 <= i < groups.len() ==> group_failure(schema, #[trigger] groups[i]) is None
}

/// Group `i` is the first that fails.
pub open spec fn fails_first_at(
    schema: Seq<FlagOptionView>,
    groups: Seq<Seq<Seq<char>>>,
    i: int,
) -> bool {
    &&& 0 <= i < groups.len()
    &&& group_failure(schema, groups[i]) is Some
    &&& forall|j: int| 0 <= j < i ==> group_failure(schema, #[trigger] groups[j]) is None
}

/// What validation makes of `groups`: success where every group passes,
/// else the failure of the first group that does not.
pub open spec fn validation(schema: Seq<FlagOptionView>, groups: Seq<Seq<Seq<char>>>) -> Result<
    (),
    ValidationErrorView,
> {
    if all_pass(schema, groups) {
        Ok(())
    } else {
        Err(group_failure(schema, groups[choose|i: int| fails_first_at(schema, groups, i)])->0)
    }
}

/// Mathematical value of what [`validate`] returns.
pub open spec fn validation_outcome(r: Result<(), ValidationError>) -> Result<
    (),
    ValidationErrorView,
> {
    match r {
        Ok(_) => Ok(()),
        Err(e) => Err(e@),
    }
}

/// No group is empty.
pub open spec fn groups_wf(groups: Seq<Seq<Seq<char>>>) -> bool {
    forall|i: int| 0 <= i < groups.len() ==> (#[trigger] groups[i]).len() >= 1
}

/// The governing entry is the one at the index that [`governs`] singles out.
pub proof fn governing_entry_is(schema: Seq<FlagOptionView>, name: Seq<char>, i: int)
    requires
        governs(schema, name, i),
    ensures
        schema_has(schema, name),
        governing_entry(schema, name) == schema[i],
{
}

/// The first rejected argument is the one at the index that [`rejected_at`]
/// singles out.
pub proof fn first_rejected_is(group: Seq<Seq<char>>, permitted: Seq<Seq<char>>, k: int)
    requires
        rejected_at(group, permitted, k),
    ensures
        !all_permitted(group, permitted),
        first_rejected(group, permitted) == group[k],
{
}

/// Validation ends with the failure of the group that [`fails_first_at`]
/// singles out.
pub proof fn validation_fails_with(
    schema: Seq<FlagOptionView>,
    groups: Seq<Seq<Seq<char>>>,
    i: int,
)
    requires
        fails_first_at(schema, groups, i),
    ensures
        validation(schema, groups) == Err::<(), ValidationErrorView>(
            group_failure(schema, groups[i])->0,
        ),
{
}

/// Where some argument of `group` is outside the `permitted` values, one of
/// them is the first.
pub proof fn first_rejected_exists(group: Seq<Seq<char>>, permitted: Seq<Seq<char>>, k: int)
    requires
        1 <= k < group.len(),
        !permitted.contains(group[k]),
    ensures
        exists|m: int| rejected_at(group, permitted, m),
    decreases k,
{
    if forall|j: int| 1 <= j < k ==> permitted.contains(#[trigger] group[j]) {
        assert(rejected_at(group, permitted, k));
    } else {
        let j = choose|j: int| 1 <= j < k && !permitted.contains(#[trigger] group[j]);
        first_rejected_exists(group, permitted, j);
    }
}

/// Where some group up to `i` fails, one of them is the first to fail.
pub proof fn first_failure_exists(
    schema: Seq<FlagOptionView>,
    groups: Seq<Seq<Seq<char>>>,
    i: int,
)
    requires
        0 <= i < groups.len(),
        group_failure(schema, groups[i]) is Some,
    ensures
        exists|m: int| 0 <= m <= i && fails_first_at(schema, groups, m),
    decreases i,
{
    if forall|j: int| 0 <= j < i ==> group_failure(schema, #[trigger] groups[j]) is None {
        assert(fails_first_at(schema, groups, i));
    } else {
        let j = choose|j: int| 0 <= j < i && !(group_failure(schema, #[trigger] groups[j]) is None);
        first_failure_exists(schema, groups, j);
    }
}

/// The number of arguments is held against the bounds of the entry that
/// governs the group's flag: below the minimum the group fails with that
/// minimum, above the maximum with that maximum, and from the minimum to
/// the maximum, both included, only the values can still make it fail.
pub proof fn count_bounds_decide(schema: Seq<FlagOptionView>, group: Seq<Seq<char>>, i: int)
    requires
        group.len() >= 1,
        governs(schema, group[0], i),
    ensures
        group.len() - 1 < schema[i].min_arguments ==> group_failure(schema, group) == Some(
            ValidationErrorView::TooFewArguments(group[0], schema[i].min_arguments),
        ),
        schema[i].min_arguments <= group.len() - 1 && group.len() - 1 > schema[i].max_arguments
            ==> group_failure(schema, group) == Some(
            ValidationErrorView::TooManyArguments(group[0], schema[i].max_arguments),
        ),
        schema[i].min_arguments <= group.len() - 1 <= schema[i].max_arguments ==> group_failure(
            schema,
            group,
        ) == value_failure(schema[i], group),
{
    governing_entry_is(schema, group[0], i);
}

/// The values decide as follows: an entry without a vocabulary lets every
/// argument pass; one with a vocabulary lets the group pass exactly when
/// every argument is in it, and else names the first argument that is not.
pub proof fn values_decide(entry: FlagOptionView, group: Seq<Seq<char>>)
    ensures
        entry.arguments is None ==> value_failure(entry, group) is None,
        entry.arguments is Some ==> (value_failure(entry, group) is None <==> all_permitted(
            group,
            entry.arguments->0,
        )),
        entry.arguments is Some && !all_permitted(group, entry.arguments->0) ==> exists|k: int|
            rejected_at(group, entry.arguments->0, k) && value_failure(entry, group) == Some(
                ValidationErrorView::InvalidArgumentValue(#[trigger] group[k], group[0]),
            ),
{
    if entry.arguments is Some && !all_permitted(group, entry.arguments->0) {
        let permitted = entry.arguments->0;
        let j = choose|j: int| 1 <= j < group.len() && !permitted.contains(#[trigger] group[j]);
        first_rejected_exists(group, permitted, j);
        let k = choose|k: int| rejected_at(group, permitted, k);
        first_rejected_is(group, permitted, k);
    }
}

/// A group whose flag the schema lacks fails as an unknown flag, whatever
/// arguments follow the flag; validation of a list that holds such a group
/// fails, and it fails with that flag where every earlier group passes.
pub proof fn unknown_flag_is_reported(
    schema: Seq<FlagOptionView>,
    groups: Seq<Seq<Seq<char>>>,
    i: int,
)
    requires
        0 <= i < groups.len(),
        !schema_has(schema, groups[i][0]),
    ensures
        group_failure(schema, groups[i]) == Some(ValidationErrorView::UnknownFlag(groups[i][0])),
        validation(schema, groups) is Err,
        (forall|j: int| 0 <= j < i ==> group_failure(schema, #[trigger] groups[j]) is None)
            ==> validation(schema, groups) == Err::<(), ValidationErrorView>(
            ValidationErrorView::UnknownFlag(groups[i][0]),
        ),
{
    if forall|j: int| 0 <= j < i ==> group_failure(schema, #[trigger] groups[j]) is None {
        validation_fails_with(schema, groups, i);
    }
}

/// A flag token that the schema lacks makes the whole argument list fail,
/// whatever stands around it: the groups of the list never validate, and
/// where the token leads the list the failure is that unknown flag.
pub proof fn unknown_flag_never_validates(
    schema: Seq<FlagOptionView>,
    tokens: Seq<Seq<char>>,
    p: int,
)
    requires
        0 <= p < tokens.len(),
        is_flag(tokens[0]),
        is_flag(tokens[p]),
        !schema_has(schema, tokens[p]),
    ensures
        validation(schema, group_tokens(tokens)) is Err,
        p == 0 ==> validation(schema, group_tokens(tokens)) == Err::<(), ValidationErrorView>(
            ValidationErrorView::UnknownFlag(tokens[0]),
        ),
{
    let groups = group_tokens(tokens);
    grouping_preserves_order(tokens);
    tokens.lemma_filter_contains(|t: Seq<char>| is_flag(t), p);
    assert(flags_in(tokens).contains(tokens[p]));
    let i = choose|i: int| 0 <= i < heads(groups).len() && heads(groups)[i] == tokens[p];
    assert(groups[i][0] == tokens[p]);
    unknown_flag_is_reported(schema, groups, i);
    if p == 0 {
        unknown_flag_is_reported(schema, groups, 0);
    }
}

/// Validation that does not succeed reports the failure of the first group
/// that fails, and of no other.
pub proof fn validation_reports_first_failure(
    schema: Seq<FlagOptionView>,
    groups: Seq<Seq<Seq<char>>>,
)
    requires
        !all_pass(schema, groups),
    ensures
        exists|i: int|
            fails_first_at(schema, groups, i) && validation(schema, groups) == Err::<
                (),
                ValidationErrorView,
            >(group_failure(schema, #[trigger] groups[i])->0),
{
    let j = choose|j: int|
        0 <= j < groups.len() && !(group_failure(schema, #[trigger] groups[j]) is None);
    first_failure_exists(schema, groups, j);
    let i = choose|i: int| fails_first_at(schema, groups, i);
    validation_fails_with(schema, groups, i);
}

/// Two runs of validation on schemas and group lists with the same contents
/// end alike: both succeed, or both fail with the same failure.
pub proof fn validation_is_repeatable(
    schema: Seq<FlagOptionView>,
    first: Seq<Seq<Seq<char>>>,
    second: Seq<Seq<Seq<char>>>,
    first_outcome: Result<(), ValidationError>,
    second_outcome: Result<(), ValidationError>,
)
    requires
        first == second,
        validation_outcome(first_outcome) == validation(schema, first),
        validation_outcome(second_outcome) == validation(schema, second),
    ensures
        validation_outcome(first_outcome) == validation_outcome(second_outcome),
{
}

/// Looks up the entry that decides about `name`: the position of the first
/// entry of `schema` that bears it, or `None` where no entry does.
pub fn find_option(schema: &Vec<FlagOption>, name: &String) -> (found: Option<usize>)
    ensures
        match found {
            Some(i) => governs(schema.deep_view(), name@, i as int),
            None => !schema_has(schema.deep_view(), name@),
        },
{
    let ghost entries = schema.deep_view();
    let mut i: usize = 0;
    while i < schema.len()
        invariant
            i <= schema@.len(),
            entries == schema.deep_view(),
            forall|j: int| 0 <= j < i ==> (#[trigger] entries[j]).flag != name@,
        decreases schema@.len() - i,
    {
        if schema[i].flag == *name {
            return Some(i);
        }
        i += 1;
    }
    None
}

/// Tells whether `value` is one of `values`, by exact comparison.
pub fn contains_value(values: &Vec<String>, value: &String) -> (found: bool)
    ensures
        found == values.deep_view().contains(value@),
{
    let ghost views = values.deep_view();
    let mut i: usize = 0;
    while i < values.len()
        invariant
            i <= values@.len(),
            views == values.deep_view(),
            forall|j: int| 0 <= j < i ==> (#[trigger] views[j]) != value@,
        decreases values@.len() - i,
    {
        assert(views[i as int] == values@[i as int]@);
        if values[i] == *value {
            return true;
        }
        i += 1;
    }
    false
}

/// Holds one group against the schema entry `option`: first the number of
/// arguments, then, where the entry has a vocabulary, each argument in turn.
pub fn check_option(option: &FlagOption, group: &Vec<String>) -> (r: Result<(), ValidationError>)
    requires
        group@.len() >= 1,
    ensures
        match r {
            Ok(_) => entry_failure(option@, group.deep_view()) is None,
            Err(e) => entry_failure(option@, group.deep_view()) == Some(e@),
        },
{
    let ghost tokens = group.deep_view();
    let count: usize = group.len() - 1;
    if count < option.min_arguments {
        return Err(ValidationError::TooFewArguments(group[0].clone(), option.min_arguments));
    }
    if count > option.max_arguments {
        return Err(ValidationError::TooManyArguments(group[0].clone(), option.max_arguments));
    }
    match &option.arguments {
        None => Ok(()),
        Some(values) => {
            let ghost permitted = values.deep_view();
            let mut k: usize = 1;
            while k < group.len()
                invariant
                    1 <= k <= group@.len(),
                    tokens == group.deep_view(),
                    permitted == values.deep_view(),
                    option@.arguments == Some(permitted),
                    entry_failure(option@, tokens) == value_failure(option@, tokens),
                    forall|j: int| 1 <= j < k ==> permitted.contains(#[trigger] tokens[j]),
                decreases group@.len() - k,
            {
                if !contains_value(values, &group[k]) {
                    proof {
                        first_rejected_is(tokens, permitted, k as int);
                    }
                    return Err(
                        ValidationError::InvalidArgumentValue(group[k].clone(), group[0].clone()),
                    );
                }
                k += 1;
            }
            Ok(())
        },
    }
}

/// Holds one group against `schema`.
pub fn check_group(schema: &Vec<FlagOption>, group: &Vec<String>) -> (r: Result<
    (),
    ValidationError,
>)
    requires
        group@.len() >= 1,
    ensures
        match r {
            Ok(_) => group_failure(schema.deep_view(), group.deep_view()) is None,
            Err(e) => group_failure(schema.deep_view(), group.deep_view()) == Some(e@),
        },
{
    match find_option(schema, &group[0]) {
        None => Err(ValidationError::UnknownFlag(group[0].clone())),
        Some(i) => {
            proof {
                governing_entry_is(schema.deep_view(), group@[0]@, i as int);
            }
            check_option(&schema[i], group)
        },
    }
}

/// Checks every group, in order, against `schema` and stops at the first
/// that fails.
///
/// Succeeds exactly when every group bears a flag of the schema, has a
/// number of arguments within that flag's bounds, and only arguments from
/// that flag's vocabulary, where it has one. Otherwise the result is the one
/// failure of the first group that does not.
pub fn validate(groups: &Vec<Vec<String>>, schema: &Vec<FlagOption>) -> (r: Result<
    (),
    ValidationError,
>)
    requires
        groups_wf(groups.deep_view()),
    ensures
        validation_outcome(r) == validation(schema.deep_view(), groups.deep_view()),
        r is Ok <==> all_pass(schema.deep_view(), groups.deep_view()),
{
    let ghost entries = schema.deep_view();
    let ghost views = groups.deep_view();
    let mut i: usize = 0;
    while i < groups.len()
        invariant
            i <= groups@.len(),
            entries == schema.deep_view(),
            views == groups.deep_view(),
            groups_wf(views),
            forall|j: int| 0 <= j < i ==> group_failure(entries, #[trigger] views[j]) is None,
        decreases groups@.len() - i,
    {
        assert(views[i as int] == groups@[i as int].deep_view());
        match check_group(schema, &groups[i]) {
            Ok(_) => {},
            Err(e) => {
                proof {
                    validation_fails_with(entries, views, i as int);
                }
                return Err(e);
            },
        }
        i += 1;
    }
    Ok(())
}

/// Checks every group against the built-in schema; see [`validate`].
pub fn flag_verify(args: &Vec<Vec<String>>) -> (r: Result<(), ValidationError>)
    requires
        groups_wf(args.deep_view()),
    ensures
        validation_outcome(r) == validation(flag_table(), args.deep_view()),
        r is Ok <==> all_pass(flag_table(), args.deep_view()),
{
    let schema = flag_options_vec();
    validate(args, &schema)
}

} // verus!
