//! Rule selection: the first applicable exception, else the suffix rule
//! with the longest matching pattern.
use vstd::prelude::*;
use crate::gender::Gender;
use crate::rules::{
    lemma_longest_suffix, rules_of, Rule, RuleList, RuleListModel, RuleModel, RuleTag,
};

verus! {

/// An exception rule covers `name` for `gender`. A rule tagged
/// `FirstWord` covers no name that is the last part of a compound.
pub open spec fn exception_applies(
    rule: RuleModel,
    name: Seq<char>,
    gender: Gender,
    is_last: bool,
) -> bool {
    rule.fully_matches(name) && rule.gender_matches(gender) && !(rule.has_tag(RuleTag::FirstWord)
        && is_last)
}

/// A suffix rule covers `name` for `gender`.
pub open spec fn suffix_applies(rule: RuleModel, name: Seq<char>, gender: Gender) -> bool {
    rule.suffix_matches(name) && rule.gender_matches(gender)
}

/// `j` is the position of the first exception that covers `name`.
pub open spec fn is_first_exception(
    exceptions: Seq<RuleModel>,
    name: Seq<char>,
    gender: Gender,
    is_last: bool,
    j: int,
) -> bool {
    &&& 0 <= j < exceptions.len()
    &&& exception_applies(exceptions[j], name, gender, is_last)
    &&& forall|k: int|
        0 <= k < j ==> !exception_applies(#[trigger] exceptions[k], name, gender, is_last)
}

/// The position of the first exception that covers `name`, if any does.
pub open spec fn first_exception(
    exceptions: Seq<RuleModel>,
    name: Seq<char>,
    gender: Gender,
    is_last: bool,
) -> Option<int> {
    if exists|j: int| is_first_exception(exceptions, name, gender, is_last, j) {
        Some(choose|j: int| is_first_exception(exceptions, name, gender, is_last, j))
    } else {
        None
    }
}

/// Among the first `upto` suffix rules, rule `j` covers `name`, no covering
/// rule matches a longer tail of it, and every covering rule before `j`
/// matches a shorter one.
pub open spec fn is_best_among(
    suffixes: Seq<RuleModel>,
    upto: int,
    name: Seq<char>,
    gender: Gender,
    j: int,
) -> bool {
    &&& 0 <= j < upto <= suffixes.len()
    &&& suffix_applies(suffixes[j], name, gender)
    &&& forall|k: int|
        0 <= k < upto && suffix_applies(#[trigger] suffixes[k], name, gender)
            ==> suffixes[k].match_len(name) <= suffixes[j].match_len(name)
    &&& forall|k: int|
        0 <= k < j && suffix_applies(#[trigger] suffixes[k], name, gender)
            ==> suffixes[k].match_len(name) < suffixes[j].match_len(name)
}

/// `j` is the position of the suffix rule that wins for `name`: the one
/// that matches the longest tail, and of several such the first.
pub open spec fn is_best_suffix(
    suffixes: Seq<RuleModel>,
    name: Seq<char>,
    gender: Gender,
    j: int,
) -> bool {
    is_best_among(suffixes, suffixes.len() as int, name, gender, j)
}

/// The position of the winning suffix rule, if any rule covers `name`.
pub open spec fn best_suffix(suffixes: Seq<RuleModel>, name: Seq<char>, gender: Gender) -> Option<
    int,
> {
    if exists|j: int| is_best_suffix(suffixes, name, gender, j) {
        Some(choose|j: int| is_best_suffix(suffixes, name, gender, j))
    } else {
        None
    }
}

/// The rule selected for a lowercase name: the first covering exception,
/// else the winning suffix rule, else none.
pub open spec fn select_rule(
    list: RuleListModel,
    name: Seq<char>,
    gender: Gender,
    is_last: bool,
) -> Option<RuleModel> {
    match first_exception(list.exceptions, name, gender, is_last) {
        Some(j) => Some(list.exceptions[j]),
        None => match best_suffix(list.suffixes, name, gender) {
            Some(j) => Some(list.suffixes[j]),
            None => None,
        },
    }
}

/// Where some exception among the first `upto` covers `name`, one of them
/// is the first to do so.
pub proof fn lemma_first_exception_exists(
    exceptions: Seq<RuleModel>,
    upto: int,
    name: Seq<char>,
    gender: Gender,
    is_last: bool,
) -> (j: int)
    requires
        0 <= upto <= exceptions.len(),
        exists|k: int|
            0 <= k < upto && exception_applies(#[trigger] exceptions[k], name, gender, is_last),
    ensures
        0 <= j < upto,
        is_first_exception(exceptions, name, gender, is_last, j),
    decreases upto,
{
    if exists|k: int|
        0 <= k < upto - 1 && exception_applies(#[trigger] exceptions[k], name, gender, is_last) {
        lemma_first_exception_exists(exceptions, upto - 1, name, gender, is_last)
    } else {
        upto - 1
    }
}

/// `first_exception` is the one position that `is_first_exception`
/// describes, and it is `None` exactly where no exception covers `name`.
pub proof fn lemma_first_exception(
    exceptions: Seq<RuleModel>,
    name: Seq<char>,
    gender: Gender,
    is_last: bool,
)
    ensures
        forall|j: int| #[trigger]
            is_first_exception(exceptions, name, gender, is_last, j) ==> first_exception(
                exceptions,
                name,
                gender,
                is_last,
            ) == Some(j),
        first_exception(exceptions, name, gender, is_last) is Some ==> is_first_exception(
            exceptions,
            name,
            gender,
            is_last,
            first_exception(exceptions, name, gender, is_last).unwrap(),
        ),
        first_exception(exceptions, name, gender, is_last) is None <==> forall|k: int|
            0 <= k < exceptions.len() ==> !exception_applies(
                #[trigger] exceptions[k],
                name,
                gender,
                is_last,
            ),
{
    if exists|k: int|
        0 <= k < exceptions.len() && exception_applies(
            #[trigger] exceptions[k],
            name,
            gender,
            is_last,
        ) {
        let j = lemma_first_exception_exists(
            exceptions,
            exceptions.len() as int,
            name,
            gender,
            is_last,
        );
    }
}

/// Where some suffix rule among the first `upto` covers `name`, one of
/// them wins among these.
pub proof fn lemma_best_suffix_exists(
    suffixes: Seq<RuleModel>,
    upto: int,
    name: Seq<char>,
    gender: Gender,
) -> (j: int)
    requires
        0 <= upto <= suffixes.len(),
        exists|k: int| 0 <= k < upto && suffix_applies(#[trigger] suffixes[k], name, gender),
    ensures
        is_best_among(suffixes, upto, name, gender, j),
    decreases upto,
{
    let last = upto - 1;
    if exists|k: int| 0 <= k < last && suffix_applies(#[trigger] suffixes[k], name, gender) {
        let j = lemma_best_suffix_exists(suffixes, last, name, gender);
        if suffix_applies(suffixes[last], name, gender) && suffixes[last].match_len(name)
            > suffixes[j].match_len(name) {
            last
        } else {
            j
        }
    } else {
        last
    }
}

/// `best_suffix` is the one position that `is_best_suffix` describes, and
/// it is `None` exactly where no suffix rule covers `name`.
pub proof fn lemma_best_suffix(suffixes: Seq<RuleModel>, name: Seq<char>, gender: Gender)
    ensures
        forall|j: int| #[trigger]
            is_best_suffix(suffixes, name, gender, j) ==> best_suffix(suffixes, name, gender)
                == Some(j),
        best_suffix(suffixes, name, gender) is Some ==> is_best_suffix(
            suffixes,
            name,
            gender,
            best_suffix(suffixes, name, gender).unwrap(),
        ),
        best_suffix(suffixes, name, gender) is None <==> forall|k: int|
            0 <= k < suffixes.len() ==> !suffix_applies(#[trigger] suffixes[k], name, gender),
{
    if exists|k: int|
        0 <= k < suffixes.len() && suffix_applies(#[trigger] suffixes[k], name, gender) {
        let j = lemma_best_suffix_exists(suffixes, suffixes.len() as int, name, gender);
        assert(is_best_suffix(suffixes, name, gender, j));
    }
}

/// Finds the first exception that covers the lowercase `name`.
pub fn find_exception<'a>(
    exceptions: &'a [Rule],
    name: &[char],
    gender: Gender,
    is_last: bool,
) -> (found: Option<&'a Rule>)
    ensures
        match first_exception(rules_of(exceptions@), name@, gender, is_last) {
            Some(j) => 0 <= j < exceptions@.len() && found == Some(&exceptions@[j]),
            None => found is None,
        },
        found is None <==> forall|k: int|
            0 <= k < exceptions@.len() ==> !exception_applies(
                #[trigger] exceptions@[k]@,
                name@,
                gender,
                is_last,
            ),
{
    let ghost models = rules_of(exceptions@);
    let mut i: usize = 0;
    while i < exceptions.len()
        invariant
            i <= exceptions@.len(),
            models == rules_of(exceptions@),
            forall|k: int|
                0 <= k < i ==> !exception_applies(#[trigger] models[k], name@, gender, is_last),
        decreases exceptions@.len() - i,
    {
        let rule = &exceptions[i];
        if rule.fully_matches(name) && rule.gender_matches(gender) && (!rule.has_tag(
            RuleTag::FirstWord,
        ) || !is_last) {
            assert(is_first_exception(models, name@, gender, is_last, i as int));
            assert(exception_applies(exceptions@[i as int]@, name@, gender, is_last));
            return Some(rule);
        }
        i += 1;
    }
    assert forall|k: int| 0 <= k < exceptions@.len() implies !exception_applies(
        #[trigger] exceptions@[k]@,
        name@,
        gender,
        is_last,
    ) by {
        assert(models[k] == exceptions@[k]@);
    }
    None
}

/// Finds the suffix rule that covers the lowercase `name` with the longest
/// pattern; of several rules with patterns of that length, the first.
pub fn find_suffix<'a>(suffixes: &'a [Rule], name: &[char], gender: Gender) -> (found: Option<
    &'a Rule,
>)
    ensures
        match best_suffix(rules_of(suffixes@), name@, gender) {
            Some(j) => 0 <= j < suffixes@.len() && found == Some(&suffixes@[j]),
            None => found is None,
        },
        found is None <==> forall|k: int|
            0 <= k < suffixes@.len() ==> !suffix_applies(#[trigger] suffixes@[k]@, name@, gender),
{
    let ghost models = rules_of(suffixes@);
    let mut best: Option<usize> = None;
    let mut best_len: usize = 0;
    let mut i: usize = 0;
    while i < suffixes.len()
        invariant
            i <= suffixes@.len(),
            models == rules_of(suffixes@),
            match best {
                Some(j) => is_best_among(models, i as int, name@, gender, j as int) && best_len
                    == models[j as int].match_len(name@),
                None => forall|k: int|
                    0 <= k < i ==> !suffix_applies(#[trigger] models[k], name@, gender),
            },
        decreases suffixes@.len() - i,
    {
        let rule = &suffixes[i];
        proof {
            lemma_longest_suffix(rule@.test, name@);
            assert(models[i as int] == rule@);
        }
        if rule.gender_matches(gender) {
            if let Some(len) = rule.match_len(name) {
                let better = match best {
                    Some(_) => len > best_len,
                    None => true,
                };
                if better {
                    best = Some(i);
                    best_len = len;
                }
            }
        }
        i += 1;
    }
    match best {
        Some(j) => {
            assert(is_best_suffix(models, name@, gender, j as int));
            assert(suffix_applies(suffixes@[j as int]@, name@, gender));
            Some(&suffixes[j])
        },
        None => {
            assert forall|k: int| 0 <= k < suffixes@.len() implies !suffix_applies(
                #[trigger] suffixes@[k]@,
                name@,
                gender,
            ) by {
                assert(models[k] == suffixes@[k]@);
            }
            None
        },
    }
}

/// Selects the rule for the lowercase `name`: exceptions come before
/// suffix rules.
pub fn find_rule<'a>(list: &'a RuleList, name: &[char], gender: Gender, is_last: bool) -> (found:
    Option<&'a Rule>)
    ensures
        match select_rule(list@, name@, gender, is_last) {
            Some(rule) => found is Some && found.unwrap()@ == rule,
            None => found is None,
        },
        match first_exception(list@.exceptions, name@, gender, is_last) {
            Some(j) => 0 <= j < list.exceptions@.len() && found == Some(&list.exceptions@[j]),
            None => match best_suffix(list@.suffixes, name@, gender) {
                Some(j) => 0 <= j < list.suffixes@.len() && found == Some(&list.suffixes@[j]),
                None => found is None,
            },
        },
{
    match find_exception(list.exceptions.as_slice(), name, gender, is_last) {
        Some(rule) => Some(rule),
        None => find_suffix(list.suffixes.as_slice(), name, gender),
    }
}

} // verus!
