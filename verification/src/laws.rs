//! What holds of rule selection, inflection and gender detection for
//! every rule table and every name.
use vstd::prelude::*;
use vstd::string::*;
use crate::gender::{Gender, GenderHeuristicModel, GenderHeuristicsModel};
use crate::inflect::{inflect_part, inflected_name, inflected_parts};
use crate::matcher::{
    best_suffix, exception_applies, first_exception, is_best_suffix, is_first_exception,
    lemma_best_suffix, lemma_first_exception, select_rule, suffix_applies,
};
use crate::rule_table::{
    firstname_exceptions, firstname_rules, firstname_suffixes, lastname_exceptions, lastname_rules,
    lastname_suffixes, middlename_exceptions, middlename_rules, middlename_suffixes,
};
use crate::rules::{lemma_longest_suffix, Case, ModifierModel, RuleListModel, RuleModel};
use crate::text::{
    is_suffix, join, lemma_join_occurrences, lemma_join_split, lemma_occurrences_concat,
    lemma_occurrences_prefix, lemma_split_join, lemma_split_len, lemma_split_pieces,
    lemma_split_single, lowercase_of, occurrences, some_suffix, split,
};

verus! {

/// No rule of the list has a pattern for the lowercase `name`: no
/// exception equals it and no suffix rule ends it, whatever the gender.
pub open spec fn unmatched(list: RuleListModel, name: Seq<char>) -> bool {
    &&& forall|k: int|
        0 <= k < list.exceptions.len() ==> !(#[trigger] list.exceptions[k]).fully_matches(name)
    &&& forall|k: int|
        0 <= k < list.suffixes.len() ==> !(#[trigger] list.suffixes[k]).suffix_matches(name)
}

/// A part without a rule stays: where no rule is selected for any part of
/// `name`, inflection returns `name` unchanged.
pub proof fn law_unselected_parts_unchanged(
    gender: Gender,
    name: Seq<char>,
    case: Case,
    list: RuleListModel,
)
    requires
        forall|i: int|
            0 <= i < split(name, '-').len() ==> select_rule(
                list,
                lowercase_of(#[trigger] split(name, '-')[i]),
                gender,
                i == split(name, '-').len() - 1,
            ) is None,
    ensures
        inflected_name(gender, name, case, list) == name,
{
    let parts = split(name, '-');
    let pieces = inflected_parts(gender, parts, case, list);
    assert forall|i: int| 0 <= i < parts.len() implies pieces[i] == parts[i] by {
        assert(select_rule(list, lowercase_of(parts[i]), gender, i == parts.len() - 1) is None);
    }
    assert(pieces =~= parts);
    lemma_join_split(name, '-');
}

/// Where no part of `name` is matched by a rule of the list, inflection
/// returns `name` unchanged, for every gender and case.
pub proof fn law_unmatched_parts_unchanged(
    gender: Gender,
    name: Seq<char>,
    case: Case,
    list: RuleListModel,
)
    requires
        forall|i: int|
            0 <= i < split(name, '-').len() ==> unmatched(
                list,
                lowercase_of(#[trigger] split(name, '-')[i]),
            ),
    ensures
        inflected_name(gender, name, case, list) == name,
{
    let parts = split(name, '-');
    assert forall|i: int| 0 <= i < parts.len() implies select_rule(
        list,
        lowercase_of(#[trigger] parts[i]),
        gender,
        i == parts.len() - 1,
    ) is None by {
        let lowered = lowercase_of(parts[i]);
        let is_last = i == parts.len() - 1;
        assert(unmatched(list, lowered));
        lemma_first_exception(list.exceptions, lowered, gender, is_last);
        lemma_best_suffix(list.suffixes, lowered, gender);
    }
    law_unselected_parts_unchanged(gender, name, case, list);
}

/// A name without hyphens that no rule of the list matches is returned
/// unchanged, for every gender and case.
pub proof fn law_unmatched_name_unchanged(
    gender: Gender,
    name: Seq<char>,
    case: Case,
    list: RuleListModel,
)
    requires
        occurrences(name, '-') == 0,
        unmatched(list, lowercase_of(name)),
    ensures
        inflected_name(gender, name, case, list) == name,
{
    lemma_split_single(name, '-');
    assert(split(name, '-')[0] == name);
    law_unmatched_parts_unchanged(gender, name, case, list);
}

/// Splitting a name on hyphens and joining the parts with hyphens gives
/// the name back; a name without hyphens is its own single part; a name
/// with `k` hyphens has `k + 1` parts, none of which holds a hyphen.
pub proof fn law_split_join(name: Seq<char>)
    ensures
        join(split(name, '-'), '-') == name,
        occurrences(name, '-') == 0 ==> split(name, '-') == seq![name],
        split(name, '-').len() == occurrences(name, '-') + 1,
        forall|i: int|
            0 <= i < split(name, '-').len() ==> occurrences(#[trigger] split(name, '-')[i], '-')
                == 0,
{
    lemma_join_split(name, '-');
    lemma_split_len(name, '-');
    lemma_split_pieces(name, '-');
    if occurrences(name, '-') == 0 {
        lemma_split_single(name, '-');
    }
}

/// Parts without hyphens that are joined with hyphens are split into the
/// same parts again: no other sequence of such parts gives the same name.
pub proof fn law_join_split(parts: Seq<Seq<char>>)
    requires
        parts.len() > 0,
        forall|i: int| 0 <= i < parts.len() ==> occurrences(#[trigger] parts[i], '-') == 0,
    ensures
        split(join(parts, '-'), '-') == parts,
{
    lemma_split_join(parts, '-');
}

/// The modifier puts no hyphen into a name.
pub open spec fn adds_no_hyphen(modifier: ModifierModel) -> bool {
    match modifier {
        ModifierModel::Keep => true,
        ModifierModel::Replace { trim, suffix } => occurrences(suffix, '-') == 0,
    }
}

/// No modifier of the rule puts a hyphen into a name.
pub open spec fn rule_adds_no_hyphen(rule: RuleModel) -> bool {
    forall|case: Case| adds_no_hyphen(#[trigger] rule.modifier(case))
}

/// No modifier of the list puts a hyphen into a name.
pub open spec fn list_adds_no_hyphen(list: RuleListModel) -> bool {
    &&& forall|k: int|
        0 <= k < list.exceptions.len() ==> rule_adds_no_hyphen(#[trigger] list.exceptions[k])
    &&& forall|k: int|
        0 <= k < list.suffixes.len() ==> rule_adds_no_hyphen(#[trigger] list.suffixes[k])
}

/// Inflection keeps the number of hyphens, provided that no modifier of
/// the list appends one.
pub proof fn law_hyphens_kept(gender: Gender, name: Seq<char>, case: Case, list: RuleListModel)
    requires
        list_adds_no_hyphen(list),
    ensures
        occurrences(inflected_name(gender, name, case, list), '-') == occurrences(name, '-'),
{
    let parts = split(name, '-');
    let pieces = inflected_parts(gender, parts, case, list);
    lemma_split_len(name, '-');
    lemma_split_pieces(name, '-');
    assert forall|i: int| 0 <= i < pieces.len() implies occurrences(#[trigger] pieces[i], '-')
        == 0 by {
        let part = parts[i];
        let lowered = lowercase_of(part);
        let is_last = i == parts.len() - 1;
        assert(occurrences(part, '-') == 0);
        lemma_first_exception(list.exceptions, lowered, gender, is_last);
        lemma_best_suffix(list.suffixes, lowered, gender);
        match select_rule(list, lowered, gender, is_last) {
            Some(rule) => {
                assert(rule_adds_no_hyphen(rule));
                assert(adds_no_hyphen(rule.modifier(case)));
                match rule.modifier(case) {
                    ModifierModel::Keep => {},
                    ModifierModel::Replace { trim, suffix } => {
                        if trim <= part.len() {
                            let kept = part.take(part.len() - trim);
                            lemma_occurrences_prefix(part, part.len() - trim, '-');
                            lemma_occurrences_concat(kept, suffix, '-');
                        }
                    },
                }
            },
            None => {},
        }
    }
    lemma_join_occurrences(pieces, '-');
}

/// None of the endings that the rule table appends holds a hyphen.
proof fn lemma_plain_endings()
    ensures
        occurrences("я"@, '-') == 0,
        occurrences("ю"@, '-') == 0,
        occurrences("ем"@, '-') == 0,
        occurrences("е"@, '-') == 0,
        occurrences("ой"@, '-') == 0,
        occurrences("ую"@, '-') == 0,
        occurrences("ей"@, '-') == 0,
        occurrences("юю"@, '-') == 0,
        occurrences("у"@, '-') == 0,
        occurrences("ы"@, '-') == 0,
        occurrences("а"@, '-') == 0,
        occurrences("ом"@, '-') == 0,
        occurrences("и"@, '-') == 0,
        occurrences("ца"@, '-') == 0,
        occurrences("цу"@, '-') == 0,
        occurrences("цем"@, '-') == 0,
        occurrences("це"@, '-') == 0,
        occurrences("цом"@, '-') == 0,
        occurrences("го"@, '-') == 0,
        occurrences("му"@, '-') == 0,
        occurrences("им"@, '-') == 0,
        occurrences("м"@, '-') == 0,
        occurrences("ого"@, '-') == 0,
        occurrences("ому"@, '-') == 0,
        occurrences("ым"@, '-') == 0,
        occurrences("его"@, '-') == 0,
        occurrences("ему"@, '-') == 0,
        occurrences("ка"@, '-') == 0,
        occurrences("ку"@, '-') == 0,
        occurrences("ком"@, '-') == 0,
        occurrences("ке"@, '-') == 0,
        occurrences("ьва"@, '-') == 0,
        occurrences("ьву"@, '-') == 0,
        occurrences("ьвом"@, '-') == 0,
        occurrences("ьве"@, '-') == 0,
        occurrences("етра"@, '-') == 0,
        occurrences("етру"@, '-') == 0,
        occurrences("етром"@, '-') == 0,
        occurrences("етре"@, '-') == 0,
        occurrences("ла"@, '-') == 0,
        occurrences("лу"@, '-') == 0,
        occurrences("лом"@, '-') == 0,
        occurrences("ле"@, '-') == 0,
{
    reveal_with_fuel(occurrences, 8);
    reveal_strlit("я");
    reveal_strlit("ю");
    reveal_strlit("ем");
    reveal_strlit("е");
    reveal_strlit("ой");
    reveal_strlit("ую");
    reveal_strlit("ей");
    reveal_strlit("юю");
    reveal_strlit("у");
    reveal_strlit("ы");
    reveal_strlit("а");
    reveal_strlit("ом");
    reveal_strlit("и");
    reveal_strlit("ца");
    reveal_strlit("цу");
    reveal_strlit("цем");
    reveal_strlit("це");
    reveal_strlit("цом");
    reveal_strlit("го");
    reveal_strlit("му");
    reveal_strlit("им");
    reveal_strlit("м");
    reveal_strlit("ого");
    reveal_strlit("ому");
    reveal_strlit("ым");
    reveal_strlit("его");
    reveal_strlit("ему");
    reveal_strlit("ка");
    reveal_strlit("ку");
    reveal_strlit("ком");
    reveal_strlit("ке");
    reveal_strlit("ьва");
    reveal_strlit("ьву");
    reveal_strlit("ьвом");
    reveal_strlit("ьве");
    reveal_strlit("етра");
    reveal_strlit("етру");
    reveal_strlit("етром");
    reveal_strlit("етре");
    reveal_strlit("ла");
    reveal_strlit("лу");
    reveal_strlit("лом");
    reveal_strlit("ле");
}

/// No modifier of the rules for last names puts a hyphen into a name.
pub proof fn lemma_lastname_rules_add_no_hyphen()
    ensures
        list_adds_no_hyphen(lastname_rules()),
{
    lemma_plain_endings();
    let exceptions = lastname_exceptions();
    let suffixes = lastname_suffixes();
    assert forall|k: int| 0 <= k < exceptions.len() implies rule_adds_no_hyphen(
        #[trigger] exceptions[k],
    ) by {
        assert forall|case: Case| adds_no_hyphen(#[trigger] exceptions[k].modifier(case)) by {}
    }
    assert forall|k: int| 0 <= k < suffixes.len() implies rule_adds_no_hyphen(
        #[trigger] suffixes[k],
    ) by {
        assert forall|case: Case| adds_no_hyphen(#[trigger] suffixes[k].modifier(case)) by {}
    }
}

/// No modifier of the rules for first names puts a hyphen into a name.
pub proof fn lemma_firstname_rules_add_no_hyphen()
    ensures
        list_adds_no_hyphen(firstname_rules()),
{
    lemma_plain_endings();
    let exceptions = firstname_exceptions();
    let suffixes = firstname_suffixes();
    assert forall|k: int| 0 <= k < exceptions.len() implies rule_adds_no_hyphen(
        #[trigger] exceptions[k],
    ) by {
        assert forall|case: Case| adds_no_hyphen(#[trigger] exceptions[k].modifier(case)) by {}
    }
    assert forall|k: int| 0 <= k < suffixes.len() implies rule_adds_no_hyphen(
        #[trigger] suffixes[k],
    ) by {
        assert forall|case: Case| adds_no_hyphen(#[trigger] suffixes[k].modifier(case)) by {}
    }
}

/// No modifier of the rules for middle names puts a hyphen into a name.
pub proof fn lemma_middlename_rules_add_no_hyphen()
    ensures
        list_adds_no_hyphen(middlename_rules()),
{
    lemma_plain_endings();
    let exceptions = middlename_exceptions();
    let suffixes = middlename_suffixes();
    assert forall|k: int| 0 <= k < exceptions.len() implies rule_adds_no_hyphen(
        #[trigger] exceptions[k],
    ) by {
        assert forall|case: Case| adds_no_hyphen(#[trigger] exceptions[k].modifier(case)) by {}
    }
    assert forall|k: int| 0 <= k < suffixes.len() implies rule_adds_no_hyphen(
        #[trigger] suffixes[k],
    ) by {
        assert forall|case: Case| adds_no_hyphen(#[trigger] suffixes[k].modifier(case)) by {}
    }
}

/// The rule table for Russian names keeps the number of hyphens of every
/// name, whichever part of the name it is inflected as.
pub proof fn law_standard_hyphens_kept(gender: Gender, name: Seq<char>, case: Case)
    ensures
        occurrences(inflected_name(gender, name, case, lastname_rules()), '-') == occurrences(
            name,
            '-',
        ),
        occurrences(inflected_name(gender, name, case, firstname_rules()), '-') == occurrences(
            name,
            '-',
        ),
        occurrences(inflected_name(gender, name, case, middlename_rules()), '-') == occurrences(
            name,
            '-',
        ),
{
    lemma_lastname_rules_add_no_hyphen();
    lemma_firstname_rules_add_no_hyphen();
    lemma_middlename_rules_add_no_hyphen();
    law_hyphens_kept(gender, name, case, lastname_rules());
    law_hyphens_kept(gender, name, case, firstname_rules());
    law_hyphens_kept(gender, name, case, middlename_rules());
}

/// The longest suffix wins: the selected suffix rule covers the name, no
/// covering rule matches a longer tail of it, and a covering rule whose
/// longest matching pattern is shorter than that of another covering rule
/// is never selected, wherever the two stand in the list.
pub proof fn law_longest_suffix_wins(
    suffixes: Seq<RuleModel>,
    name: Seq<char>,
    gender: Gender,
    shorter: int,
    longer: int,
)
    requires
        0 <= shorter < suffixes.len(),
        0 <= longer < suffixes.len(),
        suffix_applies(suffixes[shorter], name, gender),
        suffix_applies(suffixes[longer], name, gender),
        suffixes[shorter].match_len(name) < suffixes[longer].match_len(name),
    ensures
        best_suffix(suffixes, name, gender) is Some,
        best_suffix(suffixes, name, gender) != Some(shorter),
        ({
            let best = best_suffix(suffixes, name, gender).unwrap();
            &&& 0 <= best < suffixes.len()
            &&& suffix_applies(suffixes[best], name, gender)
            &&& suffixes[best].match_len(name) >= suffixes[longer].match_len(name)
        }),
{
    lemma_best_suffix(suffixes, name, gender);
}

/// Of two covering suffix rules alone in a list, the one with the longer
/// matching pattern is selected in either order.
pub proof fn law_longer_of_two_wins(
    shorter: RuleModel,
    longer: RuleModel,
    name: Seq<char>,
    gender: Gender,
)
    requires
        suffix_applies(shorter, name, gender),
        suffix_applies(longer, name, gender),
        shorter.match_len(name) < longer.match_len(name),
    ensures
        best_suffix(seq![shorter, longer], name, gender) == Some(1int),
        best_suffix(seq![longer, shorter], name, gender) == Some(0int),
{
    let ascending = seq![shorter, longer];
    let descending = seq![longer, shorter];
    lemma_best_suffix(ascending, name, gender);
    lemma_best_suffix(descending, name, gender);
    assert(ascending[0] == shorter && ascending[1] == longer);
    assert(descending[0] == longer && descending[1] == shorter);
    assert(is_best_suffix(ascending, name, gender, 1));
    assert(is_best_suffix(descending, name, gender, 0));
}

/// The length by which a suffix rule competes is that of its longest
/// pattern that ends the name: some pattern of the rule ends the name and
/// has this length, and none that ends the name is longer.
pub proof fn law_match_len_is_longest(rule: RuleModel, name: Seq<char>)
    requires
        rule.suffix_matches(name),
    ensures
        exists|i: int|
            0 <= i < rule.test.len() && is_suffix(#[trigger] rule.test[i], name)
                && rule.test[i].len() == rule.match_len(name),
        forall|i: int|
            0 <= i < rule.test.len() && is_suffix(#[trigger] rule.test[i], name)
                ==> rule.test[i].len() <= rule.match_len(name),
{
    lemma_longest_suffix(rule.test, name);
}

/// Exceptions come first: where an exception covers the name, the rule
/// selected is the first covering exception, whatever the suffix rules
/// are, and its modifier is the one applied.
pub proof fn law_exception_precedence(
    list: RuleListModel,
    other_suffixes: Seq<RuleModel>,
    name: Seq<char>,
    lowered: Seq<char>,
    gender: Gender,
    case: Case,
    is_last: bool,
    covering: int,
)
    requires
        0 <= covering < list.exceptions.len(),
        exception_applies(list.exceptions[covering], lowered, gender, is_last),
    ensures
        first_exception(list.exceptions, lowered, gender, is_last) is Some,
        ({
            let first = first_exception(list.exceptions, lowered, gender, is_last).unwrap();
            &&& 0 <= first <= covering
            &&& is_first_exception(list.exceptions, lowered, gender, is_last, first)
            &&& select_rule(list, lowered, gender, is_last) == Some(list.exceptions[first])
            &&& select_rule(
                RuleListModel { exceptions: list.exceptions, suffixes: other_suffixes },
                lowered,
                gender,
                is_last,
            ) == Some(list.exceptions[first])
            &&& inflect_part(gender, name, lowered, case, list, is_last) == Some(
                list.exceptions[first].modifier(case).apply(name),
            )
        }),
{
    lemma_first_exception(list.exceptions, lowered, gender, is_last);
}

/// A rule written for the neutral gender serves every gender: it covers a
/// name for one gender exactly if it covers it for any other.
pub proof fn law_androgynous_rule_serves_all(
    rule: RuleModel,
    name: Seq<char>,
    is_last: bool,
    gender: Gender,
    other: Gender,
)
    requires
        rule.gender == Gender::Androgynous,
    ensures
        rule.gender_matches(gender),
        exception_applies(rule, name, gender, is_last) == exception_applies(
            rule,
            name,
            other,
            is_last,
        ),
        suffix_applies(rule, name, gender) == suffix_applies(rule, name, other),
{
}

/// Every rule of the list is written for the neutral gender.
pub open spec fn all_androgynous(list: RuleListModel) -> bool {
    &&& forall|k: int|
        0 <= k < list.exceptions.len() ==> (#[trigger] list.exceptions[k]).gender
            == Gender::Androgynous
    &&& forall|k: int|
        0 <= k < list.suffixes.len() ==> (#[trigger] list.suffixes[k]).gender
            == Gender::Androgynous
}

/// With a list of rules for the neutral gender the requested gender makes
/// no difference to the rule selected, nor to the inflected name.
pub proof fn law_gender_wildcard(
    list: RuleListModel,
    name: Seq<char>,
    lowered: Seq<char>,
    case: Case,
    is_last: bool,
    gender: Gender,
    other: Gender,
)
    requires
        all_androgynous(list),
    ensures
        select_rule(list, lowered, gender, is_last) == select_rule(list, lowered, other, is_last),
        inflect_part(gender, name, lowered, case, list, is_last) == inflect_part(
            other,
            name,
            lowered,
            case,
            list,
            is_last,
        ),
{
    lemma_first_exception(list.exceptions, lowered, gender, is_last);
    lemma_first_exception(list.exceptions, lowered, other, is_last);
    lemma_best_suffix(list.suffixes, lowered, gender);
    lemma_best_suffix(list.suffixes, lowered, other);
    match first_exception(list.exceptions, lowered, gender, is_last) {
        Some(j) => {
            assert(is_first_exception(list.exceptions, lowered, other, is_last, j));
        },
        None => {
            match best_suffix(list.suffixes, lowered, gender) {
                Some(j) => {
                    assert(is_best_suffix(list.suffixes, lowered, other, j));
                },
                None => {},
            }
        },
    }
}

/// The middle name decides: where it tells a gender, that is the gender
/// detected, whatever the first and the last name are.
pub proof fn law_middlename_decides(
    heuristics: GenderHeuristicsModel,
    lastname: Option<Seq<char>>,
    firstname: Option<Seq<char>>,
    middlename: Seq<char>,
    gender: Gender,
)
    requires
        heuristics.middlename.detect_gender(middlename) == Some(gender),
    ensures
        heuristics.detect_gender(lastname, firstname, Some(middlename)) == gender,
{
}

/// The middle name has a masculine ending and nothing listed before it.
pub open spec fn has_male_ending(heuristic: GenderHeuristicModel, name: Seq<char>) -> bool {
    &&& match heuristic.exceptions {
        Some(mapping) => mapping.listed(name) is None,
        None => true,
    }
    &&& !some_suffix(heuristic.suffixes.androgynous, name)
    &&& !some_suffix(heuristic.suffixes.female, name)
    &&& some_suffix(heuristic.suffixes.male, name)
}

/// A middle name with a masculine ending makes the person male, even
/// where the first name is listed as feminine.
pub proof fn law_male_middlename_beats_female_firstname(
    heuristics: GenderHeuristicsModel,
    lastname: Option<Seq<char>>,
    firstname: Seq<char>,
    middlename: Seq<char>,
)
    requires
        has_male_ending(heuristics.middlename, middlename),
        heuristics.firstname.exceptions is Some,
        heuristics.firstname.exceptions.unwrap().listed(firstname) == Some(Gender::Female),
    ensures
        heuristics.firstname.detect_gender(firstname) == Some(Gender::Female),
        heuristics.detect_gender(lastname, Some(firstname), Some(middlename)) == Gender::Male,
{
}

} // verus!
