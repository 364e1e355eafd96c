//! Applying a rule to a name, part by part.
use vstd::prelude::*;
use vstd::string::*;
use crate::gender::Gender;
use crate::matcher::{find_rule, select_rule};
use crate::rule_table::{firstname_rules, lastname_rules, middlename_rules};
use crate::rules::{Case, Modifier, Rule, RuleList, RuleListModel};
use crate::text::{chars_of, join, lead, lowercase, lowercase_of, split};

verus! {

/// What the selected rule makes of one part of a name, or `None` where no
/// rule covers it. `lowered` is the part in lowercase, by which the rule
/// is selected; the modifier is applied to `name` as it was written.
pub open spec fn inflect_part(
    gender: Gender,
    name: Seq<char>,
    lowered: Seq<char>,
    case: Case,
    list: RuleListModel,
    is_last: bool,
) -> Option<Seq<char>> {
    match select_rule(list, lowered, gender, is_last) {
        Some(rule) => Some(rule.modifier(case).apply(name)),
        None => None,
    }
}

/// One part of a name after inflection: a part that no rule covers stays
/// as it is.
pub open spec fn inflected_part(
    gender: Gender,
    name: Seq<char>,
    case: Case,
    list: RuleListModel,
    is_last: bool,
) -> Seq<char> {
    match inflect_part(gender, name, lowercase_of(name), case, list, is_last) {
        Some(inflected) => inflected,
        None => name,
    }
}

/// The parts of a name after inflection. Only the final part counts as
/// the last one.
pub open spec fn inflected_parts(
    gender: Gender,
    parts: Seq<Seq<char>>,
    case: Case,
    list: RuleListModel,
) -> Seq<Seq<char>> {
    Seq::new(
        parts.len(),
        |i: int| inflected_part(gender, parts[i], case, list, i == parts.len() - 1),
    )
}

/// A name after inflection: it is split on hyphens, every part is
/// inflected by itself, and the parts are joined with hyphens again.
pub open spec fn inflected_name(
    gender: Gender,
    name: Seq<char>,
    case: Case,
    list: RuleListModel,
) -> Seq<char> {
    join(inflected_parts(gender, split(name, '-'), case, list), '-')
}

/// Parts that are followed by another part, after inflection.
pub open spec fn inflected_inner_parts(
    gender: Gender,
    parts: Seq<Seq<char>>,
    case: Case,
    list: RuleListModel,
) -> Seq<Seq<char>> {
    Seq::new(parts.len(), |i: int| inflected_part(gender, parts[i], case, list, false))
}

/// Applies the modifier that `rule` has for `case` to `name`.
///
/// A modifier that asks to remove more characters than the name has is a
/// defect of the rule table; all characters are removed then.
pub fn inflect(name: &str, rule: &Rule, case: Case) -> (inflected: String)
    ensures
        inflected@ == rule@.modifier(case).apply(name@),
{
    match rule.modifier(case) {
        Modifier::Keep => name.to_owned(),
        Modifier::Replace { trim, suffix } => {
            let len: usize = name.unicode_len();
            let kept: usize = if *trim <= len {
                len - *trim
            } else {
                0
            };
            let mut inflected = name.substring_char(0, kept).to_owned();
            inflected.append(suffix.as_str());
            assert(Seq::<char>::empty() + suffix@ =~= suffix@);
            inflected
        },
    }
}

/// Inflects one part of a name, given the part in lowercase as well.
/// Returns `None` where no rule covers the part.
pub fn inflect_name_part_with(
    gender: Gender,
    name: &str,
    lowered: &[char],
    case: Case,
    rule_list: &RuleList,
    is_last: bool,
) -> (inflected: Option<String>)
    ensures
        match inflect_part(gender, name@, lowered@, case, rule_list@, is_last) {
            Some(expected) => inflected is Some && inflected.unwrap()@ == expected,
            None => inflected is None,
        },
{
    match find_rule(rule_list, lowered, gender, is_last) {
        Some(rule) => Some(inflect(name, rule, case)),
        None => None,
    }
}

/// Inflects one part of a name. Returns `None` where no rule covers it.
pub fn inflect_name_part(
    gender: Gender,
    name: &str,
    case: Case,
    rule_list: &RuleList,
    is_last: bool,
) -> (inflected: Option<String>)
    ensures
        match inflect_part(gender, name@, lowercase_of(name@), case, rule_list@, is_last) {
            Some(expected) => inflected is Some && inflected.unwrap()@ == expected,
            None => inflected is None,
        },
{
    let lowered = lowercase(name);
    let lowered_chars = chars_of(lowered.as_str());
    inflect_name_part_with(gender, name, lowered_chars.as_slice(), case, rule_list, is_last)
}

/// Inflects one part of a name and keeps it as it is where no rule
/// covers it.
fn inflect_or_keep(gender: Gender, name: &str, case: Case, rule_list: &RuleList, is_last: bool) -> (
    inflected: String
)
    ensures
        inflected@ == inflected_part(gender, name@, case, rule_list@, is_last),
{
    match inflect_name_part(gender, name, case, rule_list, is_last) {
        Some(inflected) => inflected,
        None => name.to_owned(),
    }
}

/// Inflects a name that may consist of several parts joined by hyphens.
pub fn inflect_name(gender: Gender, name: &str, case: Case, rule_list: &RuleList) -> (inflected:
    String)
    ensures
        inflected@ == inflected_name(gender, name@, case, rule_list@),
{
    let chars = chars_of(name);
    let n: usize = chars.len();
    let mut inflected = String::new();
    let mut start: usize = 0;
    let mut i: usize = 0;
    let ghost mut done: Seq<Seq<char>> = Seq::empty();
    proof {
        reveal_strlit("-");
        assert(name@.take(0).len() == 0);
        assert(name@.subrange(0, 0) =~= Seq::<char>::empty());
        assert(split(name@.take(0), '-') =~= done.push(name@.subrange(0, 0)));
        assert(inflected_inner_parts(gender, done, case, rule_list@) =~= Seq::empty());
    }
    while i < n
        invariant
            chars@ == name@,
            n == chars@.len(),
            start <= i <= n,
            "-"@ == seq!['-'],
            split(name@.take(i as int), '-') == done.push(name@.subrange(start as int, i as int)),
            inflected@ == lead(inflected_inner_parts(gender, done, case, rule_list@), '-'),
        decreases n - i,
    {
        let ghost before = split(name@.take(i as int), '-');
        proof {
            let upto = name@.take(i + 1);
            assert(upto.drop_last() =~= name@.take(i as int));
            assert(upto.last() == name@[i as int]);
            assert(before.drop_last() =~= done);
            assert(name@.subrange(start as int, i as int).push(name@[i as int])
                =~= name@.subrange(start as int, i + 1));
        }
        if chars[i] == '-' {
            let part = name.substring_char(start, i);
            let piece = inflect_or_keep(gender, part, case, rule_list, false);
            inflected.append(piece.as_str());
            inflected.append("-");
            proof {
                let grown = done.push(part@);
                let pieces = inflected_inner_parts(gender, grown, case, rule_list@);
                assert(pieces.drop_last() =~= inflected_inner_parts(
                    gender,
                    done,
                    case,
                    rule_list@,
                ));
                assert(pieces.last() == piece@);
                assert(name@.subrange(i + 1, i + 1) =~= Seq::<char>::empty());
                done = grown;
            }
            start = i + 1;
        }
        i += 1;
    }
    let part = name.substring_char(start, n);
    let piece = inflect_or_keep(gender, part, case, rule_list, true);
    inflected.append(piece.as_str());
    proof {
        assert(name@.take(n as int) =~= name@);
        let parts = split(name@, '-');
        let pieces = inflected_parts(gender, parts, case, rule_list@);
        assert(parts.drop_last() =~= done);
        assert(pieces.drop_last() =~= inflected_inner_parts(gender, done, case, rule_list@));
        assert(pieces.last() == piece@);
    }
    inflected
}

/// Inflects a first name by the rule table for Russian names.
pub fn firstname(gender: Gender, name: &str, case: Case) -> (inflected: String)
    ensures
        inflected@ == inflected_name(gender, name@, case, firstname_rules()),
{
    let rule_list = RuleList::firstname();
    inflect_name(gender, name, case, &rule_list)
}

/// Inflects a last name by the rule table for Russian names.
pub fn lastname(gender: Gender, name: &str, case: Case) -> (inflected: String)
    ensures
        inflected@ == inflected_name(gender, name@, case, lastname_rules()),
{
    let rule_list = RuleList::lastname();
    inflect_name(gender, name, case, &rule_list)
}

/// Inflects a middle name by the rule table for Russian names.
pub fn middlename(gender: Gender, name: &str, case: Case) -> (inflected: String)
    ensures
        inflected@ == inflected_name(gender, name@, case, middlename_rules()),
{
    let rule_list = RuleList::middlename();
    inflect_name(gender, name, case, &rule_list)
}

} // verus!
