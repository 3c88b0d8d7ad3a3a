//! Splitting a flat argument list into one group per flag.

use vstd::prelude::*;
use crate::error::{ParseError, ParseErrorView};
use crate::token::{is_flag, is_flag_token};

verus! {

/// The groups of `tokens`: every flag token opens a group, every other token
/// joins the group that is open. (A leading data token, which [`grouping`]
/// rejects, would stand in a group of its own.)
pub open spec fn group_tokens(tokens: Seq<Seq<char>>) -> Seq<Seq<Seq<char>>>
    decreases tokens.len(),
{
    if tokens.len() == 0 {
        Seq::empty()
    } else {
        let before = group_tokens(tokens.drop_last());
        let token = tokens.last();
        if is_flag(token) || before.len() == 0 {
            before.push(seq![token])
        } else {
            before.drop_last().push(before.last().push(token))
        }
    }
}

/// What grouping makes of `tokens`: a list that starts with a data token is
/// refused with that token; any other list, the empty one too, is grouped.
pub open spec fn grouping(tokens: Seq<Seq<char>>) -> Result<Seq<Seq<Seq<char>>>, ParseErrorView> {
    if tokens.len() > 0 && !is_flag(tokens[0]) {
        Err(ParseErrorView::NotAFlag(tokens[0]))
    } else {
        Ok(group_tokens(tokens))
    }
}

/// Mathematical value of what [`arg_parser`] returns.
pub open spec fn parse_outcome(r: Result<Vec<Vec<String>>, ParseError>) -> Result<
    Seq<Seq<Seq<char>>>,
    ParseErrorView,
> {
    match r {
        Ok(groups) => Ok(groups.deep_view()),
        Err(e) => Err(e@),
    }
}

/// Every group holds a flag followed by data tokens only.
pub open spec fn well_grouped(groups: Seq<Seq<Seq<char>>>) -> bool {
    forall|i: int|
        0 <= i < groups.len() ==> {
            &&& (#[trigger] groups[i]).len() >= 1
            &&& is_flag(groups[i][0])
            &&& forall|k: int| 1 <= k < groups[i].len() ==> !is_flag(#[trigger] groups[i][k])
        }
}

/// The flag tokens among `tokens`, in order.
pub open spec fn flags_in(tokens: Seq<Seq<char>>) -> Seq<Seq<char>> {
    tokens.filter(|t: Seq<char>| is_flag(t))
}

/// The first token of every group, in order.
pub open spec fn heads(groups: Seq<Seq<Seq<char>>>) -> Seq<Seq<char>> {
    Seq::new(groups.len(), |i: int| groups[i][0])
}

/// Grouping keeps the tokens and their order: read group after group they
/// are the input again, the groups' flags are the input's flag tokens in the
/// order in which they came, and every group is a flag followed by the data
/// tokens that followed it in the input.
pub proof fn grouping_preserves_order(tokens: Seq<Seq<char>>)
    requires
        tokens.len() == 0 || is_flag(tokens[0]),
    ensures
        group_tokens(tokens).flatten() == tokens,
        well_grouped(group_tokens(tokens)),
        heads(group_tokens(tokens)) == flags_in(tokens),
        tokens.len() > 0 ==> group_tokens(tokens).len() > 0,
    decreases tokens.len(),
{
    reveal(Seq::filter);
    if tokens.len() > 0 {
        let shorter = tokens.drop_last();
        let token = tokens.last();
        let before = group_tokens(shorter);
        let after = group_tokens(tokens);
        grouping_preserves_order(shorter);
        assert(tokens =~= shorter.push(token));
        if is_flag(token) || before.len() == 0 {
            before.lemma_flatten_push(seq![token]);
        } else {
            let open_group = before.last();
            let kept = before.drop_last();
            assert(before =~= kept.push(open_group));
            kept.lemma_flatten_push(open_group);
            kept.lemma_flatten_push(open_group.push(token));
            assert forall|i: int| 0 <= i < after.len() implies {
                &&& (#[trigger] after[i]).len() >= 1
                &&& is_flag(after[i][0])
                &&& forall|k: int| 1 <= k < after[i].len() ==> !is_flag(#[trigger] after[i][k])
            } by {}
        }
    }
}

/// Grouping is the only way to cut `tokens` into groups that each hold a
/// flag followed by data tokens: whatever is cut so, and reads group after
/// group as `tokens`, is what grouping gives.
pub proof fn grouping_is_unique(tokens: Seq<Seq<char>>, groups: Seq<Seq<Seq<char>>>)
    requires
        well_grouped(groups),
        groups.flatten() == tokens,
    ensures
        groups == group_tokens(tokens),
    decreases tokens.len(),
{
    if groups.len() > 0 {
        let kept = groups.drop_last();
        let open_group = groups.last();
        assert(groups =~= kept.push(open_group));
        kept.lemma_flatten_push(open_group);
        let token = open_group.last();
        let shorter = tokens.drop_last();
        assert forall|i: int| 0 <= i < kept.len() implies kept[i] == groups[i] by {}
        if open_group.len() == 1 {
            assert(open_group =~= seq![token]);
            assert(kept.flatten() =~= shorter);
            grouping_is_unique(shorter, kept);
        } else {
            let trimmed = open_group.drop_last();
            let earlier = kept.push(trimmed);
            kept.lemma_flatten_push(trimmed);
            assert(earlier.flatten() =~= shorter);
            assert forall|i: int| 0 <= i < earlier.len() implies {
                &&& (#[trigger] earlier[i]).len() >= 1
                &&& is_flag(earlier[i][0])
                &&& forall|k: int| 1 <= k < earlier[i].len() ==> !is_flag(#[trigger] earlier[i][k])
            } by {}
            grouping_is_unique(shorter, earlier);
            assert(trimmed.push(token) =~= open_group);
        }
    }
}

/// Two runs of grouping on lists with the same contents end alike: with the
/// same groups, or with the same refusal.
pub proof fn grouping_is_repeatable(
    first: Seq<Seq<char>>,
    second: Seq<Seq<char>>,
    first_outcome: Result<Vec<Vec<String>>, ParseError>,
    second_outcome: Result<Vec<Vec<String>>, ParseError>,
)
    requires
        first == second,
        parse_outcome(first_outcome) == grouping(first),
        parse_outcome(second_outcome) == grouping(second),
    ensures
        parse_outcome(first_outcome) == parse_outcome(second_outcome),
{
}

/// Takes the argument list and separates it into groups, each a flag with
/// the data tokens that follow it.
///
/// The empty list gives no groups. A list whose first token is no flag is
/// refused with that token.
pub fn arg_parser(args: &[String]) -> (r: Result<Vec<Vec<String>>, ParseError>)
    ensures
        parse_outcome(r) == grouping(args.deep_view()),
        r is Ok ==> well_grouped(r->Ok_0.deep_view()),
        r is Ok ==> r->Ok_0.deep_view().flatten() == args.deep_view(),
        r is Ok ==> heads(r->Ok_0.deep_view()) == flags_in(args.deep_view()),
{
    let ghost tokens = args.deep_view();
    let mut groups: Vec<Vec<String>> = Vec::new();
    if args.len() > 0 && !is_flag_token(&args[0]) {
        return Err(ParseError::NotAFlag(args[0].clone()));
    }
    let mut i: usize = 0;
    while i < args.len()
        invariant
            i <= args@.len(),
            tokens == args.deep_view(),
            tokens.len() == 0 || is_flag(tokens[0]),
            groups.deep_view() == group_tokens(tokens.take(i as int)),
        decreases args@.len() - i,
    {
        let ghost seen = tokens.take(i as int);
        let ghost before = groups.deep_view();
        proof {
            assert(tokens.take(i + 1).drop_last() =~= seen);
            if i > 0 {
            }
            grouping_preserves_order(seen);
        }
        let token = args[i].clone();
        if is_flag_token(&args[i]) {
            let mut group: Vec<String> = Vec::new();
            group.push(token);
            assert(group.deep_view() =~= seq![tokens[i as int]]);
            groups.push(group);
        } else {
            let mut group = groups.pop().unwrap();
            let ghost open_group = group.deep_view();
            group.push(token);
            assert(group.deep_view() =~= open_group.push(tokens[i as int]));
            groups.push(group);
            assert(groups.deep_view() =~= before.drop_last().push(
                open_group.push(tokens[i as int]),
            ));
        }
        i += 1;
    }
    proof {
        assert(tokens.take(i as int) =~= tokens);
        grouping_preserves_order(tokens);
    }
    Ok(groups)
}

} // verus!
