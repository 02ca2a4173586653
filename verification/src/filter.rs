//! The query filter model: the operator taxonomy, the filter value object,
//! and its serialization into (and parsing back from) transport query
//! strings.

use vstd::prelude::*;
use vstd::string::*;

use crate::text::{
    ffind_char, free_of, join_char, lemma_ffind_prefix, lemma_free_of_concat, lemma_rfind_exact,
    lemma_split_join, occurs_at, rfind_at, split_char,
};

verus! {

broadcast use vstd::string::group_string_axioms;

/// The closed operator taxonomy; every operator carries its negation flag.
#[derive(Debug, Clone, Copy, PartialEq, Eq, Structural)]
pub enum FilterOperator {
    Equals { is_negated: bool },
    IEquals { is_negated: bool },
    Contains { is_negated: bool },
    IContains { is_negated: bool },
    StartsWith { is_negated: bool },
    IStartsWith { is_negated: bool },
    EndsWith { is_negated: bool },
    IEndsWith { is_negated: bool },
    Like { is_negated: bool },
    Regex { is_negated: bool },
    Gt { is_negated: bool },
    Gte { is_negated: bool },
    Lt { is_negated: bool },
    Lte { is_negated: bool },
    Between { is_negated: bool },
}

/// The semantic data categories an operator can target.
#[derive(Debug, Clone, Copy, PartialEq, Eq, Structural)]
pub enum DataType {
    Text,
    NumericOrDate,
    Boolean,
    Array,
}

/// Which data categories each operator may legally target: equality is
/// universal, comparisons require numeric-or-date, `Contains` applies to
/// text or arrays, and the remaining pattern operators require text.
pub open spec fn applicable_spec(op: FilterOperator, data_type: DataType) -> bool {
    match op {
        FilterOperator::Equals { .. } => true,
        FilterOperator::Gt { .. }
        | FilterOperator::Gte { .. }
        | FilterOperator::Lt { .. }
        | FilterOperator::Lte { .. }
        | FilterOperator::Between { .. } => data_type is NumericOrDate,
        FilterOperator::Contains { .. } => data_type is Text || data_type is Array,
        _ => data_type is Text,
    }
}

/// The wire token of each operator: its lowercase name, `not_`-prefixed
/// when negated.
pub open spec fn op_token(op: FilterOperator) -> Seq<char> {
    match op {
        FilterOperator::Equals { is_negated } => if is_negated {
            "not_equals"@
        } else {
            "equals"@
        },
        FilterOperator::IEquals { is_negated } => if is_negated {
            "not_iequals"@
        } else {
            "iequals"@
        },
        FilterOperator::Contains { is_negated } => if is_negated {
            "not_contains"@
        } else {
            "contains"@
        },
        FilterOperator::IContains { is_negated } => if is_negated {
            "not_icontains"@
        } else {
            "icontains"@
        },
        FilterOperator::StartsWith { is_negated } => if is_negated {
            "not_startswith"@
        } else {
            "startswith"@
        },
        FilterOperator::IStartsWith { is_negated } => if is_negated {
            "not_istartswith"@
        } else {
            "istartswith"@
        },
        FilterOperator::EndsWith { is_negated } => if is_negated {
            "not_endswith"@
        } else {
            "endswith"@
        },
        FilterOperator::IEndsWith { is_negated } => if is_negated {
            "not_iendswith"@
        } else {
            "iendswith"@
        },
        FilterOperator::Like { is_negated } => if is_negated {
            "not_like"@
        } else {
            "like"@
        },
        FilterOperator::Regex { is_negated } => if is_negated {
            "not_regex"@
        } else {
            "regex"@
        },
        FilterOperator::Gt { is_negated } => if is_negated {
            "not_gt"@
        } else {
            "gt"@
        },
        FilterOperator::Gte { is_negated } => if is_negated {
            "not_gte"@
        } else {
            "gte"@
        },
        FilterOperator::Lt { is_negated } => if is_negated {
            "not_lt"@
        } else {
            "lt"@
        },
        FilterOperator::Lte { is_negated } => if is_negated {
            "not_lte"@
        } else {
            "lte"@
        },
        FilterOperator::Between { is_negated } => if is_negated {
            "not_between"@
        } else {
            "between"@
        },
    }
}

impl FilterOperator {
    /// Checks if the operator is applicable to a given data type.
    pub fn is_applicable_to(&self, data_type: DataType) -> (r: bool)
        ensures
            r == applicable_spec(*self, data_type),
    {
        match self {
            FilterOperator::Equals { .. } => true,
            FilterOperator::Gt { .. }
            | FilterOperator::Gte { .. }
            | FilterOperator::Lt { .. }
            | FilterOperator::Lte { .. }
            | FilterOperator::Between { .. } => matches!(data_type, DataType::NumericOrDate),
            FilterOperator::Contains { .. } => matches!(data_type, DataType::Text) || matches!(
                data_type,
                DataType::Array,
            ),
            _ => matches!(data_type, DataType::Text),
        }
    }

    /// The operator's wire token.
    pub fn token(&self) -> (r: &'static str)
        ensures
            r@ == op_token(*self),
    {
        match self {
            FilterOperator::Equals { is_negated } => if *is_negated {
                "not_equals"
            } else {
                "equals"
            },
            FilterOperator::IEquals { is_negated } => if *is_negated {
                "not_iequals"
            } else {
                "iequals"
            },
            FilterOperator::Contains { is_negated } => if *is_negated {
                "not_contains"
            } else {
                "contains"
            },
            FilterOperator::IContains { is_negated } => if *is_negated {
                "not_icontains"
            } else {
                "icontains"
            },
            FilterOperator::StartsWith { is_negated } => if *is_negated {
                "not_startswith"
            } else {
                "startswith"
            },
            FilterOperator::IStartsWith { is_negated } => if *is_negated {
                "not_istartswith"
            } else {
                "istartswith"
            },
            FilterOperator::EndsWith { is_negated } => if *is_negated {
                "not_endswith"
            } else {
                "endswith"
            },
            FilterOperator::IEndsWith { is_negated } => if *is_negated {
                "not_iendswith"
            } else {
                "iendswith"
            },
            FilterOperator::Like { is_negated } => if *is_negated {
                "not_like"
            } else {
                "like"
            },
            FilterOperator::Regex { is_negated } => if *is_negated {
                "not_regex"
            } else {
                "regex"
            },
            FilterOperator::Gt { is_negated } => if *is_negated {
                "not_gt"
            } else {
                "gt"
            },
            FilterOperator::Gte { is_negated } => if *is_negated {
                "not_gte"
            } else {
                "gte"
            },
            FilterOperator::Lt { is_negated } => if *is_negated {
                "not_lt"
            } else {
                "lt"
            },
            FilterOperator::Lte { is_negated } => if *is_negated {
                "not_lte"
            } else {
                "lte"
            },
            FilterOperator::Between { is_negated } => if *is_negated {
                "not_between"
            } else {
                "between"
            },
        }
    }
}

// --- token parsing -------------------------------------------------------------

/// The operator whose wire token is `t`, if any.
pub open spec fn parse_op_token(t: Seq<char>) -> Option<FilterOperator> {
    if t == "equals"@ {
        Some(FilterOperator::Equals { is_negated: false })
    } else if t == "not_equals"@ {
        Some(FilterOperator::Equals { is_negated: true })
    } else if t == "iequals"@ {
        Some(FilterOperator::IEquals { is_negated: false })
    } else if t == "not_iequals"@ {
        Some(FilterOperator::IEquals { is_negated: true })
    } else if t == "contains"@ {
        Some(FilterOperator::Contains { is_negated: false })
    } else if t == "not_contains"@ {
        Some(FilterOperator::Contains { is_negated: true })
    } else if t == "icontains"@ {
        Some(FilterOperator::IContains { is_negated: false })
    } else if t == "not_icontains"@ {
        Some(FilterOperator::IContains { is_negated: true })
    } else if t == "startswith"@ {
        Some(FilterOperator::StartsWith { is_negated: false })
    } else if t == "not_startswith"@ {
        Some(FilterOperator::StartsWith { is_negated: true })
    } else if t == "istartswith"@ {
        Some(FilterOperator::IStartsWith { is_negated: false })
    } else if t == "not_istartswith"@ {
        Some(FilterOperator::IStartsWith { is_negated: true })
    } else if t == "endswith"@ {
        Some(FilterOperator::EndsWith { is_negated: false })
    } else if t == "not_endswith"@ {
        Some(FilterOperator::EndsWith { is_negated: true })
    } else if t == "iendswith"@ {
        Some(FilterOperator::IEndsWith { is_negated: false })
    } else if t == "not_iendswith"@ {
        Some(FilterOperator::IEndsWith { is_negated: true })
    } else if t == "like"@ {
        Some(FilterOperator::Like { is_negated: false })
    } else if t == "not_like"@ {
        Some(FilterOperator::Like { is_negated: true })
    } else if t == "regex"@ {
        Some(FilterOperator::Regex { is_negated: false })
    } else if t == "not_regex"@ {
        Some(FilterOperator::Regex { is_negated: true })
    } else if t == "gt"@ {
        Some(FilterOperator::Gt { is_negated: false })
    } else if t == "not_gt"@ {
        Some(FilterOperator::Gt { is_negated: true })
    } else if t == "gte"@ {
        Some(FilterOperator::Gte { is_negated: false })
    } else if t == "not_gte"@ {
        Some(FilterOperator::Gte { is_negated: true })
    } else if t == "lt"@ {
        Some(FilterOperator::Lt { is_negated: false })
    } else if t == "not_lt"@ {
        Some(FilterOperator::Lt { is_negated: true })
    } else if t == "lte"@ {
        Some(FilterOperator::Lte { is_negated: false })
    } else if t == "not_lte"@ {
        Some(FilterOperator::Lte { is_negated: true })
    } else if t == "between"@ {
        Some(FilterOperator::Between { is_negated: false })
    } else if t == "not_between"@ {
        Some(FilterOperator::Between { is_negated: true })
    } else {
        None
    }
}

/// Exec parsing of an operator token.
pub fn parse_operator(t: &str) -> (r: Option<FilterOperator>)
    ensures
        r == parse_op_token(t@),
{
    if crate::text::str_eq(t, "equals") {
        Some(FilterOperator::Equals { is_negated: false })
    } else if crate::text::str_eq(t, "not_equals") {
        Some(FilterOperator::Equals { is_negated: true })
    } else if crate::text::str_eq(t, "iequals") {
        Some(FilterOperator::IEquals { is_negated: false })
    } else if crate::text::str_eq(t, "not_iequals") {
        Some(FilterOperator::IEquals { is_negated: true })
    } else if crate::text::str_eq(t, "contains") {
        Some(FilterOperator::Contains { is_negated: false })
    } else if crate::text::str_eq(t, "not_contains") {
        Some(FilterOperator::Contains { is_negated: true })
    } else if crate::text::str_eq(t, "icontains") {
        Some(FilterOperator::IContains { is_negated: false })
    } else if crate::text::str_eq(t, "not_icontains") {
        Some(FilterOperator::IContains { is_negated: true })
    } else if crate::text::str_eq(t, "startswith") {
        Some(FilterOperator::StartsWith { is_negated: false })
    } else if crate::text::str_eq(t, "not_startswith") {
        Some(FilterOperator::StartsWith { is_negated: true })
    } else if crate::text::str_eq(t, "istartswith") {
        Some(FilterOperator::IStartsWith { is_negated: false })
    } else if crate::text::str_eq(t, "not_istartswith") {
        Some(FilterOperator::IStartsWith { is_negated: true })
    } else if crate::text::str_eq(t, "endswith") {
        Some(FilterOperator::EndsWith { is_negated: false })
    } else if crate::text::str_eq(t, "not_endswith") {
        Some(FilterOperator::EndsWith { is_negated: true })
    } else if crate::text::str_eq(t, "iendswith") {
        Some(FilterOperator::IEndsWith { is_negated: false })
    } else if crate::text::str_eq(t, "not_iendswith") {
        Some(FilterOperator::IEndsWith { is_negated: true })
    } else if crate::text::str_eq(t, "like") {
        Some(FilterOperator::Like { is_negated: false })
    } else if crate::text::str_eq(t, "not_like") {
        Some(FilterOperator::Like { is_negated: true })
    } else if crate::text::str_eq(t, "regex") {
        Some(FilterOperator::Regex { is_negated: false })
    } else if crate::text::str_eq(t, "not_regex") {
        Some(FilterOperator::Regex { is_negated: true })
    } else if crate::text::str_eq(t, "gt") {
        Some(FilterOperator::Gt { is_negated: false })
    } else if crate::text::str_eq(t, "not_gt") {
        Some(FilterOperator::Gt { is_negated: true })
    } else if crate::text::str_eq(t, "gte") {
        Some(FilterOperator::Gte { is_negated: false })
    } else if crate::text::str_eq(t, "not_gte") {
        Some(FilterOperator::Gte { is_negated: true })
    } else if crate::text::str_eq(t, "lt") {
        Some(FilterOperator::Lt { is_negated: false })
    } else if crate::text::str_eq(t, "not_lt") {
        Some(FilterOperator::Lt { is_negated: true })
    } else if crate::text::str_eq(t, "lte") {
        Some(FilterOperator::Lte { is_negated: false })
    } else if crate::text::str_eq(t, "not_lte") {
        Some(FilterOperator::Lte { is_negated: true })
    } else if crate::text::str_eq(t, "between") {
        Some(FilterOperator::Between { is_negated: false })
    } else if crate::text::str_eq(t, "not_between") {
        Some(FilterOperator::Between { is_negated: true })
    } else {
        None
    }
}


/// Parsing a token back recovers the operator it came from.
#[verifier::rlimit(100)]
pub proof fn lemma_parse_op_token(op: FilterOperator)
    ensures
        parse_op_token(op_token(op)) == Some(op),
{
    reveal_strlit("equals");
    reveal_strlit("not_equals");
    reveal_strlit("iequals");
    reveal_strlit("not_iequals");
    reveal_strlit("contains");
    reveal_strlit("not_contains");
    reveal_strlit("icontains");
    reveal_strlit("not_icontains");
    reveal_strlit("startswith");
    reveal_strlit("not_startswith");
    reveal_strlit("istartswith");
    reveal_strlit("not_istartswith");
    reveal_strlit("endswith");
    reveal_strlit("not_endswith");
    reveal_strlit("iendswith");
    reveal_strlit("not_iendswith");
    reveal_strlit("like");
    reveal_strlit("not_like");
    reveal_strlit("regex");
    reveal_strlit("not_regex");
    reveal_strlit("gt");
    reveal_strlit("not_gt");
    reveal_strlit("gte");
    reveal_strlit("not_gte");
    reveal_strlit("lt");
    reveal_strlit("not_lt");
    reveal_strlit("lte");
    reveal_strlit("not_lte");
    reveal_strlit("between");
    reveal_strlit("not_between");
    assert("equals"@.len() == 6 && "equals"@[0] == 'e');
    assert("not_equals"@.len() == 10 && "not_equals"@[0] == 'n');
    assert("iequals"@.len() == 7 && "iequals"@[0] == 'i');
    assert("not_iequals"@.len() == 11 && "not_iequals"@[0] == 'n' && "not_iequals"@[4] == 'i');
    assert("contains"@.len() == 8 && "contains"@[0] == 'c');
    assert("not_contains"@.len() == 12 && "not_contains"@[4] == 'c');
    assert("icontains"@.len() == 9 && "icontains"@[0] == 'i' && "icontains"@[1] == 'c');
    assert("not_icontains"@.len() == 13 && "not_icontains"@[5] == 'c');
    assert("startswith"@.len() == 10 && "startswith"@[0] == 's');
    assert("not_startswith"@.len() == 14);
    assert("istartswith"@.len() == 11 && "istartswith"@[0] == 'i');
    assert("not_istartswith"@.len() == 15);
    assert("endswith"@.len() == 8 && "endswith"@[0] == 'e');
    assert("not_endswith"@.len() == 12 && "not_endswith"@[4] == 'e');
    assert("iendswith"@.len() == 9 && "iendswith"@[0] == 'i' && "iendswith"@[1] == 'e');
    assert("not_iendswith"@.len() == 13 && "not_iendswith"@[5] == 'e');
    assert("like"@.len() == 4);
    assert("not_like"@.len() == 8 && "not_like"@[0] == 'n');
    assert("regex"@.len() == 5);
    assert("not_regex"@.len() == 9 && "not_regex"@[0] == 'n');
    assert("gt"@.len() == 2 && "gt"@[0] == 'g');
    assert("not_gt"@.len() == 6 && "not_gt"@[0] == 'n' && "not_gt"@[4] == 'g');
    assert("gte"@.len() == 3 && "gte"@[0] == 'g');
    assert("not_gte"@.len() == 7 && "not_gte"@[0] == 'n' && "not_gte"@[4] == 'g');
    assert("lt"@.len() == 2 && "lt"@[0] == 'l');
    assert("not_lt"@.len() == 6 && "not_lt"@[0] == 'n' && "not_lt"@[4] == 'l');
    assert("lte"@.len() == 3 && "lte"@[0] == 'l');
    assert("not_lte"@.len() == 7 && "not_lte"@[0] == 'n' && "not_lte"@[4] == 'l');
    assert("between"@.len() == 7 && "between"@[0] == 'b');
    assert("not_between"@.len() == 11 && "not_between"@[0] == 'n' && "not_between"@[4] == 'b');
    match op {
        FilterOperator::Equals { is_negated } => {
            assert(parse_op_token("equals"@) == Some(
                FilterOperator::Equals { is_negated: false },
            ));
            assert(parse_op_token("not_equals"@) == Some(
                FilterOperator::Equals { is_negated: true },
            ));
        },
        FilterOperator::IEquals { is_negated } => {
            assert(parse_op_token("iequals"@) == Some(
                FilterOperator::IEquals { is_negated: false },
            ));
            assert(parse_op_token("not_iequals"@) == Some(
                FilterOperator::IEquals { is_negated: true },
            ));
        },
        FilterOperator::Contains { is_negated } => {
            assert(parse_op_token("contains"@) == Some(
                FilterOperator::Contains { is_negated: false },
            ));
            assert(parse_op_token("not_contains"@) == Some(
                FilterOperator::Contains { is_negated: true },
            ));
        },
        FilterOperator::IContains { is_negated } => {
            assert(parse_op_token("icontains"@) == Some(
                FilterOperator::IContains { is_negated: false },
            ));
            assert(parse_op_token("not_icontains"@) == Some(
                FilterOperator::IContains { is_negated: true },
            ));
        },
        FilterOperator::StartsWith { is_negated } => {
            assert(parse_op_token("startswith"@) == Some(
                FilterOperator::StartsWith { is_negated: false },
            ));
            assert(parse_op_token("not_startswith"@) == Some(
                FilterOperator::StartsWith { is_negated: true },
            ));
        },
        FilterOperator::IStartsWith { is_negated } => {
            assert(parse_op_token("istartswith"@) == Some(
                FilterOperator::IStartsWith { is_negated: false },
            ));
            assert(parse_op_token("not_istartswith"@) == Some(
                FilterOperator::IStartsWith { is_negated: true },
            ));
        },
        FilterOperator::EndsWith { is_negated } => {
            assert(parse_op_token("endswith"@) == Some(
                FilterOperator::EndsWith { is_negated: false },
            ));
            assert(parse_op_token("not_endswith"@) == Some(
                FilterOperator::EndsWith { is_negated: true },
            ));
        },
        FilterOperator::IEndsWith { is_negated } => {
            assert(parse_op_token("iendswith"@) == Some(
                FilterOperator::IEndsWith { is_negated: false },
            ));
            assert(parse_op_token("not_iendswith"@) == Some(
                FilterOperator::IEndsWith { is_negated: true },
            ));
        },
        FilterOperator::Like { is_negated } => {
            assert(parse_op_token("like"@) == Some(FilterOperator::Like { is_negated: false }));
            assert(parse_op_token("not_like"@) == Some(
                FilterOperator::Like { is_negated: true },
            ));
        },
        FilterOperator::Regex { is_negated } => {
            assert(parse_op_token("regex"@) == Some(
                FilterOperator::Regex { is_negated: false },
            ));
            assert(parse_op_token("not_regex"@) == Some(
                FilterOperator::Regex { is_negated: true },
            ));
        },
        FilterOperator::Gt { is_negated } => {
            assert(parse_op_token("gt"@) == Some(FilterOperator::Gt { is_negated: false }));
            assert(parse_op_token("not_gt"@) == Some(FilterOperator::Gt { is_negated: true }));
        },
        FilterOperator::Gte { is_negated } => {
            assert(parse_op_token("gte"@) == Some(FilterOperator::Gte { is_negated: false }));
            assert(parse_op_token("not_gte"@) == Some(
                FilterOperator::Gte { is_negated: true },
            ));
        },
        FilterOperator::Lt { is_negated } => {
            assert(parse_op_token("lt"@) == Some(FilterOperator::Lt { is_negated: false }));
            assert(parse_op_token("not_lt"@) == Some(FilterOperator::Lt { is_negated: true }));
        },
        FilterOperator::Lte { is_negated } => {
            assert(parse_op_token("lte"@) == Some(FilterOperator::Lte { is_negated: false }));
            assert(parse_op_token("not_lte"@) == Some(
                FilterOperator::Lte { is_negated: true },
            ));
        },
        FilterOperator::Between { is_negated } => {
            assert(parse_op_token("between"@) == Some(
                FilterOperator::Between { is_negated: false },
            ));
            assert(parse_op_token("not_between"@) == Some(
                FilterOperator::Between { is_negated: true },
            ));
        },
    }
}

/// The syntactic facts about every token that query parsing relies on:
/// tokens are non-empty, never begin with an underscore, and hold no `&`,
/// `=` or doubled underscore.
pub open spec fn token_wf(t: Seq<char>) -> bool {
    t.len() > 0 && t[0] != '_' && free_of_tok(t, '&') && free_of_tok(t, '=') && no_dus(t)
}

/// No character of `t` is `c` (local alias to keep triggers tame).
pub open spec fn free_of_tok(t: Seq<char>, c: char) -> bool {
    forall|i: int| 0 <= i < t.len() ==> t[i] != c
}

/// No doubled underscore anywhere in `t`.
pub open spec fn no_dus(t: Seq<char>) -> bool {
    forall|i: int| 0 <= i < t.len() - 1 ==> !((#[trigger] t[i]) == '_' && t[i + 1] == '_')
}

/// Every operator token is well-formed.
#[verifier::rlimit(100)]
pub proof fn lemma_op_token_wf(op: FilterOperator)
    ensures
        token_wf(op_token(op)),
{
    reveal_strlit("equals");
    reveal_strlit("not_equals");
    reveal_strlit("iequals");
    reveal_strlit("not_iequals");
    reveal_strlit("contains");
    reveal_strlit("not_contains");
    reveal_strlit("icontains");
    reveal_strlit("not_icontains");
    reveal_strlit("startswith");
    reveal_strlit("not_startswith");
    reveal_strlit("istartswith");
    reveal_strlit("not_istartswith");
    reveal_strlit("endswith");
    reveal_strlit("not_endswith");
    reveal_strlit("iendswith");
    reveal_strlit("not_iendswith");
    reveal_strlit("like");
    reveal_strlit("not_like");
    reveal_strlit("regex");
    reveal_strlit("not_regex");
    reveal_strlit("gt");
    reveal_strlit("not_gt");
    reveal_strlit("gte");
    reveal_strlit("not_gte");
    reveal_strlit("lt");
    reveal_strlit("not_lt");
    reveal_strlit("lte");
    reveal_strlit("not_lte");
    reveal_strlit("between");
    reveal_strlit("not_between");
    match op {
        FilterOperator::Equals { is_negated } => {
            assert(token_wf("equals"@));
            assert(token_wf("not_equals"@));
        },
        FilterOperator::IEquals { is_negated } => {
            assert(token_wf("iequals"@));
            assert(token_wf("not_iequals"@));
        },
        FilterOperator::Contains { is_negated } => {
            assert(token_wf("contains"@));
            assert(token_wf("not_contains"@));
        },
        FilterOperator::IContains { is_negated } => {
            assert(token_wf("icontains"@));
            assert(token_wf("not_icontains"@));
        },
        FilterOperator::StartsWith { is_negated } => {
            assert(token_wf("startswith"@));
            assert(token_wf("not_startswith"@));
        },
        FilterOperator::IStartsWith { is_negated } => {
            assert(token_wf("istartswith"@));
            assert(token_wf("not_istartswith"@));
        },
        FilterOperator::EndsWith { is_negated } => {
            assert(token_wf("endswith"@));
            assert(token_wf("not_endswith"@));
        },
        FilterOperator::IEndsWith { is_negated } => {
            assert(token_wf("iendswith"@));
            assert(token_wf("not_iendswith"@));
        },
        FilterOperator::Like { is_negated } => {
            assert(token_wf("like"@));
            assert(token_wf("not_like"@));
        },
        FilterOperator::Regex { is_negated } => {
            assert(token_wf("regex"@));
            assert(token_wf("not_regex"@));
        },
        FilterOperator::Gt { is_negated } => {
            assert(token_wf("gt"@));
            assert(token_wf("not_gt"@));
        },
        FilterOperator::Gte { is_negated } => {
            assert(token_wf("gte"@));
            assert(token_wf("not_gte"@));
        },
        FilterOperator::Lt { is_negated } => {
            assert(token_wf("lt"@));
            assert(token_wf("not_lt"@));
        },
        FilterOperator::Lte { is_negated } => {
            assert(token_wf("lte"@));
            assert(token_wf("not_lte"@));
        },
        FilterOperator::Between { is_negated } => {
            assert(token_wf("between"@));
            assert(token_wf("not_between"@));
        },
    }
}

/// An operator with its negation flag set as given.
pub open spec fn with_negation(op: FilterOperator, neg: bool) -> FilterOperator {
    match op {
        FilterOperator::Equals { .. } => FilterOperator::Equals { is_negated: neg },
        FilterOperator::IEquals { .. } => FilterOperator::IEquals { is_negated: neg },
        FilterOperator::Contains { .. } => FilterOperator::Contains { is_negated: neg },
        FilterOperator::IContains { .. } => FilterOperator::IContains { is_negated: neg },
        FilterOperator::StartsWith { .. } => FilterOperator::StartsWith { is_negated: neg },
        FilterOperator::IStartsWith { .. } => FilterOperator::IStartsWith { is_negated: neg },
        FilterOperator::EndsWith { .. } => FilterOperator::EndsWith { is_negated: neg },
        FilterOperator::IEndsWith { .. } => FilterOperator::IEndsWith { is_negated: neg },
        FilterOperator::Like { .. } => FilterOperator::Like { is_negated: neg },
        FilterOperator::Regex { .. } => FilterOperator::Regex { is_negated: neg },
        FilterOperator::Gt { .. } => FilterOperator::Gt { is_negated: neg },
        FilterOperator::Gte { .. } => FilterOperator::Gte { is_negated: neg },
        FilterOperator::Lt { .. } => FilterOperator::Lt { is_negated: neg },
        FilterOperator::Lte { .. } => FilterOperator::Lte { is_negated: neg },
        FilterOperator::Between { .. } => FilterOperator::Between { is_negated: neg },
    }
}

/// The negation law of the wire tokens: a negated operator's token is the
/// plain operator's token with the `not_` prefix.
#[verifier::rlimit(100)]
pub proof fn lemma_negation_prefix(op: FilterOperator)
    ensures
        op_token(with_negation(op, true)) == "not_"@ + op_token(with_negation(op, false)),
{
    reveal_strlit("not_");
    reveal_strlit("equals");
    reveal_strlit("not_equals");
    reveal_strlit("iequals");
    reveal_strlit("not_iequals");
    reveal_strlit("contains");
    reveal_strlit("not_contains");
    reveal_strlit("icontains");
    reveal_strlit("not_icontains");
    reveal_strlit("startswith");
    reveal_strlit("not_startswith");
    reveal_strlit("istartswith");
    reveal_strlit("not_istartswith");
    reveal_strlit("endswith");
    reveal_strlit("not_endswith");
    reveal_strlit("iendswith");
    reveal_strlit("not_iendswith");
    reveal_strlit("like");
    reveal_strlit("not_like");
    reveal_strlit("regex");
    reveal_strlit("not_regex");
    reveal_strlit("gt");
    reveal_strlit("not_gt");
    reveal_strlit("gte");
    reveal_strlit("not_gte");
    reveal_strlit("lt");
    reveal_strlit("not_lt");
    reveal_strlit("lte");
    reveal_strlit("not_lte");
    reveal_strlit("between");
    reveal_strlit("not_between");
    match op {
        FilterOperator::Equals { .. } => {
            assert("not_equals"@ =~= "not_"@ + "equals"@);
        },
        FilterOperator::IEquals { .. } => {
            assert("not_iequals"@ =~= "not_"@ + "iequals"@);
        },
        FilterOperator::Contains { .. } => {
            assert("not_contains"@ =~= "not_"@ + "contains"@);
        },
        FilterOperator::IContains { .. } => {
            assert("not_icontains"@ =~= "not_"@ + "icontains"@);
        },
        FilterOperator::StartsWith { .. } => {
            assert("not_startswith"@ =~= "not_"@ + "startswith"@);
        },
        FilterOperator::IStartsWith { .. } => {
            assert("not_istartswith"@ =~= "not_"@ + "istartswith"@);
        },
        FilterOperator::EndsWith { .. } => {
            assert("not_endswith"@ =~= "not_"@ + "endswith"@);
        },
        FilterOperator::IEndsWith { .. } => {
            assert("not_iendswith"@ =~= "not_"@ + "iendswith"@);
        },
        FilterOperator::Like { .. } => {
            assert("not_like"@ =~= "not_"@ + "like"@);
        },
        FilterOperator::Regex { .. } => {
            assert("not_regex"@ =~= "not_"@ + "regex"@);
        },
        FilterOperator::Gt { .. } => {
            assert("not_gt"@ =~= "not_"@ + "gt"@);
        },
        FilterOperator::Gte { .. } => {
            assert("not_gte"@ =~= "not_"@ + "gte"@);
        },
        FilterOperator::Lt { .. } => {
            assert("not_lt"@ =~= "not_"@ + "lt"@);
        },
        FilterOperator::Lte { .. } => {
            assert("not_lte"@ =~= "not_"@ + "lte"@);
        },
        FilterOperator::Between { .. } => {
            assert("not_between"@ =~= "not_"@ + "between"@);
        },
    }
}

// --- the filter value object -------------------------------------------------

/// The mathematical value of a query filter.
pub ghost struct QueryFilterModel {
    pub key: Seq<char>,
    pub value: Seq<char>,
    pub operator: FilterOperator,
}

/// A single field/operator/value triple used to narrow a GET query.
#[derive(Debug, Clone, PartialEq)]
pub struct QueryFilter {
    pub key: String,
    pub value: String,
    pub operator: FilterOperator,
}

impl View for QueryFilter {
    type V = QueryFilterModel;

    open spec fn view(&self) -> QueryFilterModel {
        QueryFilterModel { key: self.key@, value: self.value@, operator: self.operator }
    }
}

/// The views of a sequence of filters.
pub open spec fn filter_models(v: Seq<QueryFilter>) -> Seq<QueryFilterModel> {
    v.map_values(|f: QueryFilter| f@)
}

// --- value escaping -----------------------------------------------------------

/// The percent-escape of one value character: the escape introducer `%`,
/// the space, and the two query delimiters `&` and `=` travel as their
/// codes; every other character stands for itself.
pub open spec fn esc_char(c: char) -> Seq<char> {
    if c == '%' {
        seq!['%', '2', '5']
    } else if c == ' ' {
        seq!['%', '2', '0']
    } else if c == '&' {
        seq!['%', '2', '6']
    } else if c == '=' {
        seq!['%', '3', 'D']
    } else {
        seq![c]
    }
}

/// Percent-escape a whole value, character by character.
pub open spec fn esc_value(s: Seq<char>) -> Seq<char>
    decreases s.len(),
{
    if s.len() == 0 {
        Seq::empty()
    } else {
        esc_char(s[0]) + esc_value(s.skip(1))
    }
}

/// Decode the four escape codes; all other text stands for itself.
pub open spec fn unesc_value(s: Seq<char>) -> Seq<char>
    decreases s.len(),
{
    if s.len() == 0 {
        Seq::empty()
    } else if s.len() >= 3 && s[0] == '%' && s[1] == '2' && s[2] == '5' {
        seq!['%'] + unesc_value(s.skip(3))
    } else if s.len() >= 3 && s[0] == '%' && s[1] == '2' && s[2] == '0' {
        seq![' '] + unesc_value(s.skip(3))
    } else if s.len() >= 3 && s[0] == '%' && s[1] == '2' && s[2] == '6' {
        seq!['&'] + unesc_value(s.skip(3))
    } else if s.len() >= 3 && s[0] == '%' && s[1] == '3' && s[2] == 'D' {
        seq!['='] + unesc_value(s.skip(3))
    } else {
        seq![s[0]] + unesc_value(s.skip(1))
    }
}

/// Decoding undoes escaping, on every value: every `%` the escape emits
/// begins one of the four codes, so decoding never misreads a character.
pub proof fn lemma_unesc_esc_value(v: Seq<char>)
    ensures
        unesc_value(esc_value(v)) == v,
    decreases v.len(),
{
    if v.len() == 0 {
        assert(unesc_value(esc_value(v)) =~= v);
    } else {
        let c = v[0];
        let rest = v.skip(1);
        lemma_unesc_esc_value(rest);
        let w = esc_value(v);
        assert(w == esc_char(c) + esc_value(rest));
        if c == '%' || c == ' ' || c == '&' || c == '=' {
            assert(w[0] == esc_char(c)[0]);
            assert(w[1] == esc_char(c)[1]);
            assert(w[2] == esc_char(c)[2]);
            assert(w.skip(3) =~= esc_value(rest));
            assert(seq![c] + rest =~= v);
        } else {
            assert(w[0] == c);
            assert(w.skip(1) =~= esc_value(rest));
            assert(seq![c] + rest =~= v);
        }
    }
}

proof fn lemma_esc_char_free_of(x: char, c: char)
    requires
        c == '&' || c == '=',
    ensures
        free_of(esc_char(x), c),
{
    let s = esc_char(x);
    if x == '%' || x == ' ' || x == '&' || x == '=' {
        assert(s.len() == 3);
        assert(s[0] == '%');
        assert(s[1] != c);
        assert(s[2] != c);
    } else {
        assert(s =~= seq![x]);
        assert(s[0] == x);
    }
}

/// The escape's output never holds a bare query delimiter.
pub proof fn lemma_esc_value_free_of(v: Seq<char>, c: char)
    requires
        c == '&' || c == '=',
    ensures
        free_of(esc_value(v), c),
    decreases v.len(),
{
    if v.len() == 0 {
    } else {
        lemma_esc_value_free_of(v.skip(1), c);
        lemma_esc_char_free_of(v[0], c);
        lemma_free_of_concat(esc_char(v[0]), esc_value(v.skip(1)), c);
    }
}

/// Exec percent-escape of a value.
pub fn escape_value(s: &str) -> (r: String)
    ensures
        r@ == esc_value(s@),
{
    let n = s.unicode_len();
    let mut out = String::new();
    let mut i: usize = 0;
    proof {
        assert(s@.skip(0) =~= s@);
        assert(Seq::<char>::empty() + esc_value(s@) =~= esc_value(s@));
    }
    while i < n
        invariant
            s@.len() == n,
            i <= n,
            out@ + esc_value(s@.skip(i as int)) == esc_value(s@),
        decreases n - i,
    {
        let c = s.get_char(i);
        proof {
            assert(s@.skip(i as int)[0] == s@[i as int]);
            assert(s@.skip(i as int).skip(1) =~= s@.skip(i as int + 1));
        }
        if c == '%' {
            proof {
                reveal_strlit("%25");
                assert("%25"@ =~= seq!['%', '2', '5']);
            }
            out.append("%25");
        } else if c == ' ' {
            proof {
                reveal_strlit("%20");
                assert("%20"@ =~= seq!['%', '2', '0']);
            }
            out.append("%20");
        } else if c == '&' {
            proof {
                reveal_strlit("%26");
                assert("%26"@ =~= seq!['%', '2', '6']);
            }
            out.append("%26");
        } else if c == '=' {
            proof {
                reveal_strlit("%3D");
                assert("%3D"@ =~= seq!['%', '3', 'D']);
            }
            out.append("%3D");
        } else {
            let piece = s.substring_char(i, i + 1);
            proof {
                assert(piece@ =~= seq![s@[i as int]]);
            }
            out.append(piece);
        }
        i += 1;
    }
    proof {
        assert(s@.skip(n as int) =~= Seq::<char>::empty());
        assert(out@ + Seq::<char>::empty() =~= out@);
    }
    out
}

/// Exec decoding of the four escape codes.
pub fn unescape_value(s: &str) -> (r: String)
    ensures
        r@ == unesc_value(s@),
{
    let n = s.unicode_len();
    let mut out = String::new();
    let mut i: usize = 0;
    proof {
        assert(s@.skip(0) =~= s@);
        assert(Seq::<char>::empty() + unesc_value(s@) =~= unesc_value(s@));
    }
    while i < n
        invariant
            s@.len() == n,
            i <= n,
            out@ + unesc_value(s@.skip(i as int)) == unesc_value(s@),
        decreases n - i,
    {
        proof {
            assert(s@.skip(i as int)[0] == s@[i as int]);
            if i + 1 < n {
                assert(s@.skip(i as int)[1] == s@[i as int + 1]);
            }
            if i + 2 < n {
                assert(s@.skip(i as int)[2] == s@[i as int + 2]);
            }
            assert(s@.skip(i as int).skip(1) =~= s@.skip(i as int + 1));
            if i + 3 <= n {
                assert(s@.skip(i as int).skip(3) =~= s@.skip(i as int + 3));
            }
        }
        let c0 = s.get_char(i);
        if n - i >= 3 && c0 == '%' {
            let c1 = s.get_char(i + 1);
            let c2 = s.get_char(i + 2);
            if c1 == '2' && c2 == '5' {
                proof {
                    reveal_strlit("%");
                    assert("%"@ =~= seq!['%']);
                }
                out.append("%");
                i += 3;
            } else if c1 == '2' && c2 == '0' {
                proof {
                    reveal_strlit(" ");
                    assert(" "@ =~= seq![' ']);
                }
                out.append(" ");
                i += 3;
            } else if c1 == '2' && c2 == '6' {
                proof {
                    reveal_strlit("&");
                    assert("&"@ =~= seq!['&']);
                }
                out.append("&");
                i += 3;
            } else if c1 == '3' && c2 == 'D' {
                proof {
                    reveal_strlit("=");
                    assert("="@ =~= seq!['=']);
                }
                out.append("=");
                i += 3;
            } else {
                let piece = s.substring_char(i, i + 1);
                proof {
                    assert(piece@ =~= seq![s@[i as int]]);
                }
                out.append(piece);
                i += 1;
            }
        } else {
            let piece = s.substring_char(i, i + 1);
            proof {
                assert(piece@ =~= seq![s@[i as int]]);
            }
            out.append(piece);
            i += 1;
        }
    }
    proof {
        assert(s@.skip(n as int) =~= Seq::<char>::empty());
        assert(out@ + Seq::<char>::empty() =~= out@);
    }
    out
}

// --- serialization ------------------------------------------------------------

/// The double-underscore between the key and the operator token.
pub open spec fn sep_us2() -> Seq<char> {
    seq!['_', '_']
}

/// One filter's wire fragment: `<key>__<operator-token>=<escaped-value>`.
pub open spec fn encode_filter(f: QueryFilterModel) -> Seq<char> {
    f.key + sep_us2() + op_token(f.operator) + seq!['='] + esc_value(f.value)
}

/// A whole query string: fragments joined with `&`, in insertion order.
pub open spec fn encode_query(fs: Seq<QueryFilterModel>) -> Seq<char> {
    join_char(fs.map_values(|f: QueryFilterModel| encode_filter(f)), '&')
}

impl QueryFilter {
    /// The key, operator token and percent-escaped value of this filter.
    pub fn into_tuples(&self) -> (r: (String, String, String))
        ensures
            r.0@ == self@.key,
            r.1@ == op_token(self@.operator),
            r.2@ == esc_value(self@.value),
    {
        let encoded_value = escape_value(self.value.as_str());
        let token = String::from_str(self.operator.token());
        (self.key.clone(), token, encoded_value)
    }

    /// This filter's wire fragment.
    pub fn fragment(&self) -> (r: String)
        ensures
            r@ == encode_filter(self@),
    {
        let mut s = self.key.clone();
        proof {
            reveal_strlit("__");
            assert("__"@ =~= sep_us2());
            reveal_strlit("=");
            assert("="@ =~= seq!['=']);
        }
        s.append("__");
        s.append(self.operator.token());
        s.append("=");
        let encoded_value = escape_value(self.value.as_str());
        s.append(encoded_value.as_str());
        s
    }
}

/// The conversion of accumulated filters into transport form.
pub trait IntoQueryTuples {
    /// The tuples the receiver serializes to.
    spec fn spec_tuples(&self) -> Seq<(Seq<char>, Seq<char>, Seq<char>)>;

    /// The query string the receiver serializes to.
    spec fn spec_query_string(&self) -> Seq<char>;

    fn into_tuples(&self) -> (r: Vec<(String, String, String)>)
        ensures
            r@.len() == self.spec_tuples().len(),
            forall|i: int|
                0 <= i < r@.len() ==> (#[trigger] r@[i]).0@ == self.spec_tuples()[i].0
                    && r@[i].1@ == self.spec_tuples()[i].1 && r@[i].2@ == self.spec_tuples()[i].2,
    ;

    fn into_query_string(&self) -> (r: String)
        ensures
            r@ == self.spec_query_string(),
    ;
}

impl IntoQueryTuples for Vec<QueryFilter> {
    open spec fn spec_tuples(&self) -> Seq<(Seq<char>, Seq<char>, Seq<char>)> {
        self@.map_values(
            |f: QueryFilter| (f@.key, op_token(f@.operator), esc_value(f@.value)),
        )
    }

    open spec fn spec_query_string(&self) -> Seq<char> {
        encode_query(filter_models(self@))
    }

    fn into_tuples(&self) -> (r: Vec<(String, String, String)>) {
        let mut out: Vec<(String, String, String)> = Vec::new();
        let mut i: usize = 0;
        while i < self.len()
            invariant
                i <= self@.len(),
                out@.len() == i,
                forall|j: int|
                    0 <= j < i ==> (#[trigger] out@[j]).0@ == self.spec_tuples()[j].0
                        && out@[j].1@ == self.spec_tuples()[j].1 && out@[j].2@
                        == self.spec_tuples()[j].2,
            decreases self@.len() - i,
        {
            let t = self[i].into_tuples();
            out.push(t);
            i += 1;
        }
        out
    }

    fn into_query_string(&self) -> (r: String) {
        let mut out = String::new();
        let mut i: usize = 0;
        proof {
            assert(filter_models(self@).take(0).map_values(
                |f: QueryFilterModel| encode_filter(f),
            ) =~= Seq::<Seq<char>>::empty());
        }
        while i < self.len()
            invariant
                i <= self@.len(),
                out@ == join_char(
                    filter_models(self@).take(i as int).map_values(
                        |f: QueryFilterModel| encode_filter(f),
                    ),
                    '&',
                ),
            decreases self@.len() - i,
        {
            let ghost parts = filter_models(self@).take(i as int).map_values(
                |f: QueryFilterModel| encode_filter(f),
            );
            let frag = self[i].fragment();
            if i > 0 {
                out.append("&");
                proof {
                    reveal_strlit("&");
                    assert("&"@ =~= seq!['&']);
                }
            }
            out.append(frag.as_str());
            proof {
                crate::text::lemma_join_push(parts, frag@, '&');
                assert(filter_models(self@).take(i + 1).map_values(
                    |f: QueryFilterModel| encode_filter(f),
                ) =~= parts.push(frag@));
                if i == 0 {
                    assert(out@ =~= frag@);
                } else {
                    assert(out@ =~= join_char(parts, '&') + seq!['&'] + frag@);
                }
            }
            i += 1;
        }
        proof {
            assert(filter_models(self@).take(self@.len() as int) =~= filter_models(self@));
        }
        out
    }
}

// --- parsing a query string back ---------------------------------------------

/// What a filter must satisfy for its wire form to parse back to it: its
/// key holds no `&` or `=`.  Values need nothing: escaping covers them.
pub open spec fn filter_wf(f: QueryFilterModel) -> bool {
    free_of(f.key, '&') && free_of(f.key, '=')
}

/// Every filter of the sequence is well-formed.
pub open spec fn filters_wf(fs: Seq<QueryFilterModel>) -> bool {
    forall|i: int| 0 <= i < fs.len() ==> filter_wf(#[trigger] fs[i])
}

/// The filter one wire fragment denotes, if any: the part before the first
/// `=` splits at its last `__` into key and operator token, the part after
/// is the escaped value.
pub open spec fn parse_filter(seg: Seq<char>) -> Option<QueryFilterModel> {
    match ffind_char(seg, '=') {
        None => None,
        Some(i) => {
            let left = seg.subrange(0, i);
            let rawv = seg.skip(i + 1);
            match rfind_at(left, sep_us2(), left.len() - 2) {
                None => None,
                Some(j) => {
                    let key = left.subrange(0, j);
                    let tok = left.skip(j + 2);
                    match parse_op_token(tok) {
                        None => None,
                        Some(op) => Some(
                            QueryFilterModel { key, value: unesc_value(rawv), operator: op },
                        ),
                    }
                },
            }
        },
    }
}

/// The filters a sequence of fragments denotes, if all of them parse.
pub open spec fn parse_segs(segs: Seq<Seq<char>>) -> Option<Seq<QueryFilterModel>>
    decreases segs.len(),
{
    if segs.len() == 0 {
        Some(Seq::empty())
    } else {
        match parse_filter(segs[0]) {
            None => None,
            Some(f) => match parse_segs(segs.skip(1)) {
                None => None,
                Some(fs) => Some(seq![f] + fs),
            },
        }
    }
}

/// The filters a whole query string denotes: the empty string denotes
/// none, otherwise every `&`-separated fragment must parse.
pub open spec fn parse_query(s: Seq<char>) -> Option<Seq<QueryFilterModel>> {
    if s.len() == 0 {
        Some(Seq::empty())
    } else {
        parse_segs(split_char(s, '&'))
    }
}

/// A well-formed filter's fragment parses back to exactly that filter.
pub proof fn lemma_parse_encode_filter(f: QueryFilterModel)
    requires
        filter_wf(f),
    ensures
        parse_filter(encode_filter(f)) == Some(f),
{
    let tok = op_token(f.operator);
    let ev = esc_value(f.value);
    lemma_op_token_wf(f.operator);
    let left = f.key + sep_us2() + tok;
    let seg = encode_filter(f);
    assert(seg =~= left + seq!['='] + ev);
    let kl = f.key.len() as int;
    assert(free_of(left, '=')) by {
        assert forall|i: int| 0 <= i < left.len() implies left[i] != '=' by {
            if i < kl {
                assert(left[i] == f.key[i]);
            } else if i < kl + 2 {
                assert(left[i] == sep_us2()[i - kl]);
            } else {
                assert(left[i] == tok[i - kl - 2]);
            }
        }
    }
    lemma_ffind_prefix(left, ev, '=');
    assert(ffind_char(seg, '=') == Some(left.len() as int));
    assert(seg.subrange(0, left.len() as int) =~= left);
    assert(seg.skip(left.len() as int + 1) =~= ev);
    assert(occurs_at(left, sep_us2(), kl)) by {
        assert(left.subrange(kl, kl + 2) =~= sep_us2());
    }
    assert forall|j: int| kl < j <= left.len() - 2 implies !occurs_at(left, sep_us2(), j) by {
        if occurs_at(left, sep_us2(), j) {
            assert(left.subrange(j, j + 2)[0] == left[j]);
            assert(left.subrange(j, j + 2)[1] == left[j + 1]);
            assert(left[j] == '_' && left[j + 1] == '_');
            if j == kl + 1 {
                assert(left[j + 1] == tok[0]);
                assert(false);
            } else {
                assert(left[j] == tok[j - kl - 2]);
                assert(left[j + 1] == tok[j - kl - 1]);
                assert(false);
            }
        }
    }
    lemma_rfind_exact(left, sep_us2(), left.len() - 2, kl);
    assert(left.subrange(0, kl) =~= f.key);
    assert(left.skip(kl + 2) =~= tok);
    lemma_parse_op_token(f.operator);
    lemma_unesc_esc_value(f.value);
}

/// A well-formed filter's fragment is non-empty and holds no `&`.
proof fn lemma_fragment_amp_free(f: QueryFilterModel)
    requires
        filter_wf(f),
    ensures
        free_of(encode_filter(f), '&'),
        encode_filter(f).len() > 0,
{
    lemma_op_token_wf(f.operator);
    lemma_esc_value_free_of(f.value, '&');
    assert(free_of(sep_us2(), '&')) by {
        assert(sep_us2()[0] == '_');
        assert(sep_us2()[1] == '_');
    }
    assert(free_of(seq!['='], '&')) by {
        assert(seq!['='][0] == '=');
    }
    lemma_free_of_concat(f.key, sep_us2(), '&');
    lemma_free_of_concat(f.key + sep_us2(), op_token(f.operator), '&');
    lemma_free_of_concat(f.key + sep_us2() + op_token(f.operator), seq!['='], '&');
    lemma_free_of_concat(
        f.key + sep_us2() + op_token(f.operator) + seq!['='],
        esc_value(f.value),
        '&',
    );
}

proof fn lemma_parse_segs_all(fs: Seq<QueryFilterModel>)
    requires
        filters_wf(fs),
    ensures
        parse_segs(fs.map_values(|f: QueryFilterModel| encode_filter(f))) == Some(fs),
    decreases fs.len(),
{
    let parts = fs.map_values(|f: QueryFilterModel| encode_filter(f));
    if fs.len() == 0 {
        assert(parts.len() == 0);
        assert(Some(Seq::<QueryFilterModel>::empty()) == Some(fs));
    } else {
        assert(parts[0] == encode_filter(fs[0]));
        lemma_parse_encode_filter(fs[0]);
        assert(parts.skip(1) =~= fs.skip(1).map_values(
            |f: QueryFilterModel| encode_filter(f),
        ));
        assert(filters_wf(fs.skip(1))) by {
            assert(forall|i: int| 0 <= i < fs.skip(1).len() ==> fs.skip(1)[i] == fs[i + 1]);
        }
        lemma_parse_segs_all(fs.skip(1));
        assert(seq![fs[0]] + fs.skip(1) =~= fs);
    }
}

/// Parsing distributes over any cut of the fragment sequence.
proof fn lemma_parse_segs_split(segs: Seq<Seq<char>>, i: int)
    requires
        0 <= i <= segs.len(),
    ensures
        parse_segs(segs) == (match parse_segs(segs.take(i)) {
            None => None::<Seq<QueryFilterModel>>,
            Some(pre) => match parse_segs(segs.skip(i)) {
                None => None,
                Some(post) => Some(pre + post),
            },
        }),
    decreases i,
{
    if i == 0 {
        assert(segs.take(0) =~= Seq::<Seq<char>>::empty());
        assert(segs.skip(0) =~= segs);
        match parse_segs(segs) {
            None => {},
            Some(post) => {
                assert(Seq::<QueryFilterModel>::empty() + post =~= post);
            },
        }
    } else {
        let s0 = segs[0];
        lemma_parse_segs_split(segs.skip(1), i - 1);
        assert(segs.take(i).len() == i);
        assert(segs.take(i)[0] == segs[0]);
        assert(segs.take(i).skip(1) =~= segs.skip(1).take(i - 1));
        assert(segs.skip(i) =~= segs.skip(1).skip(i - 1));
        match parse_filter(s0) {
            None => {},
            Some(f) => {
                match parse_segs(segs.skip(1).take(i - 1)) {
                    None => {},
                    Some(g) => {
                        match parse_segs(segs.skip(1).skip(i - 1)) {
                            None => {},
                            Some(post) => {
                                assert((seq![f] + g) + post =~= seq![f] + (g + post));
                            },
                        }
                    },
                }
            },
        }
    }
}

/// Exec parsing of one wire fragment.
pub fn parse_filter_str(seg: &str) -> (r: Option<QueryFilter>)
    ensures
        match r {
            Some(f) => parse_filter(seg@) == Some(f@),
            None => parse_filter(seg@) is None,
        },
{
    let n = seg.unicode_len();
    match crate::text::find_char(seg, '=') {
        None => None,
        Some(i) => {
            let left = seg.substring_char(0, i);
            let rawv = seg.substring_char(i + 1, n);
            proof {
                assert(left@ =~= seg@.subrange(0, i as int));
                assert(rawv@ =~= seg@.skip(i as int + 1));
                reveal_strlit("__");
                assert("__"@ =~= sep_us2());
            }
            match crate::text::rfind_str(left, "__") {
                None => None,
                Some(j) => {
                    let llen = left.unicode_len();
                    let key = left.substring_char(0, j);
                    let tok = left.substring_char(j + 2, llen);
                    proof {
                        assert(key@ =~= left@.subrange(0, j as int));
                        assert(tok@ =~= left@.skip(j as int + 2));
                    }
                    match parse_operator(tok) {
                        None => None,
                        Some(op) => {
                            let value = unescape_value(rawv);
                            Some(
                                QueryFilter { key: String::from_str(key), value, operator: op },
                            )
                        },
                    }
                },
            }
        },
    }
}

/// Exec parsing of a whole query string.
pub fn parse_query_string(s: &str) -> (r: Option<Vec<QueryFilter>>)
    ensures
        match r {
            Some(v) => parse_query(s@) == Some(filter_models(v@)),
            None => parse_query(s@) is None,
        },
{
    let n = s.unicode_len();
    if n == 0 {
        let empty: Vec<QueryFilter> = Vec::new();
        proof {
            assert(filter_models(empty@) =~= Seq::<QueryFilterModel>::empty());
        }
        return Some(empty);
    }
    let segs = crate::text::split_str(s, '&');
    let mut out: Vec<QueryFilter> = Vec::new();
    let mut k: usize = 0;
    proof {
        assert(segs.deep_view().take(0) =~= Seq::<Seq<char>>::empty());
        assert(filter_models(out@) =~= Seq::<QueryFilterModel>::empty());
    }
    while k < segs.len()
        invariant
            s@.len() > 0,
            segs.deep_view() == split_char(s@, '&'),
            segs@.len() == segs.deep_view().len(),
            k <= segs@.len(),
            parse_segs(segs.deep_view().take(k as int)) == Some(filter_models(out@)),
        decreases segs@.len() - k,
    {
        proof {
            assert(segs.deep_view()[k as int] == segs@[k as int]@);
        }
        match parse_filter_str(segs[k].as_str()) {
            None => {
                proof {
                    lemma_parse_segs_split(segs.deep_view(), k as int);
                    let tail = segs.deep_view().skip(k as int);
                    assert(tail[0] == segs.deep_view()[k as int]);
                    assert(parse_segs(tail) is None);
                }
                return None;
            },
            Some(f) => {
                let ghost prev = filter_models(out@);
                out.push(f);
                proof {
                    lemma_parse_segs_split(segs.deep_view(), k as int);
                    let taken = segs.deep_view().take(k as int);
                    let taken1 = segs.deep_view().take(k as int + 1);
                    assert(taken1 =~= taken.push(segs.deep_view()[k as int]));
                    lemma_parse_segs_push(taken, segs.deep_view()[k as int]);
                    assert(filter_models(out@) =~= prev.push(f@));
                }
            },
        }
        k += 1;
    }
    proof {
        assert(segs.deep_view().take(segs@.len() as int) =~= segs.deep_view());
    }
    Some(out)
}

/// Parsing one more fragment on the right.
proof fn lemma_parse_segs_push(segs: Seq<Seq<char>>, x: Seq<char>)
    ensures
        parse_segs(segs.push(x)) == (match parse_segs(segs) {
            None => None::<Seq<QueryFilterModel>>,
            Some(fs) => match parse_filter(x) {
                None => None,
                Some(f) => Some(fs.push(f)),
            },
        }),
    decreases segs.len(),
{
    if segs.len() == 0 {
        assert(segs.push(x)[0] == x);
        assert(segs.push(x).skip(1) =~= Seq::<Seq<char>>::empty());
        assert(parse_segs(Seq::<Seq<char>>::empty()) == Some(Seq::<QueryFilterModel>::empty()));
        match parse_filter(x) {
            None => {},
            Some(f) => {
                assert(seq![f] + Seq::<QueryFilterModel>::empty() =~= Seq::<
                    QueryFilterModel,
                >::empty().push(f));
            },
        }
    } else {
        lemma_parse_segs_push(segs.skip(1), x);
        assert(segs.push(x)[0] == segs[0]);
        assert(segs.push(x).skip(1) =~= segs.skip(1).push(x));
        match parse_filter(segs[0]) {
            None => {},
            Some(f0) => {
                match parse_segs(segs.skip(1)) {
                    None => {},
                    Some(g) => {
                        match parse_filter(x) {
                            None => {},
                            Some(f) => {
                                assert(seq![f0] + g.push(f) =~= (seq![f0] + g).push(f));
                            },
                        }
                    },
                }
            },
        }
    }
}

/// Round trip: serializing a sequence of well-formed filters and parsing
/// the resulting query string recovers exactly the same key, operator and
/// value triples, in their original order.
pub proof fn lemma_query_round_trip(fs: Seq<QueryFilterModel>)
    requires
        filters_wf(fs),
    ensures
        parse_query(encode_query(fs)) == Some(fs),
{
    let parts = fs.map_values(|f: QueryFilterModel| encode_filter(f));
    if fs.len() == 0 {
        assert(parts.len() == 0);
        assert(encode_query(fs).len() == 0);
        assert(Seq::<QueryFilterModel>::empty() =~= fs);
    } else {
        assert forall|i: int| 0 <= i < parts.len() implies free_of(#[trigger] parts[i], '&') by {
            lemma_fragment_amp_free(fs[i]);
        }
        lemma_fragment_amp_free(fs[0]);
        assert(encode_query(fs).len() > 0) by {
            if parts.len() == 1 {
                assert(join_char(parts, '&') == parts[0]);
            } else {
                assert(join_char(parts, '&') == parts[0] + seq!['&'] + join_char(
                    parts.skip(1),
                    '&',
                ));
            }
        }
        lemma_split_join(parts, '&');
        lemma_parse_segs_all(fs);
    }
}

} // verus!
