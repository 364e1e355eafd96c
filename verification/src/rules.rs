//! The rule table: cases, modifiers, rules and rule lists, each with the
//! mathematical model that the contracts of the engine speak of.
use vstd::prelude::*;
use vstd::string::*;
use crate::gender::{gender_serves, Gender};
use crate::text::{
    any_equals, any_suffix, ends_with, is_suffix, lemma_split_len, patterns_of, some_equals,
    some_suffix, split, words,
};

verus! {

/// The grammatical cases a name can be inflected into.
#[derive(PartialEq, Eq, Structural, Clone, Copy, Debug)]
pub enum Case {
    /// Of whom? Of what?
    Genitive,
    /// To whom? To what?
    Dative,
    /// Whom? What?
    Accusative,
    /// By whom? By what?
    Instrumental,
    /// About whom? About what?
    Prepositional,
}

/// What a rule does to a name in one case.
#[derive(Debug, PartialEq, Eq)]
pub enum Modifier {
    /// The name stays as it is.
    Keep,
    /// The last `trim` characters are removed and `suffix` is appended.
    Replace { trim: usize, suffix: String },
}

/// Model of a [`Modifier`].
pub enum ModifierModel {
    Keep,
    Replace { trim: nat, suffix: Seq<char> },
}

impl View for Modifier {
    type V = ModifierModel;

    open spec fn view(&self) -> ModifierModel {
        match *self {
            Modifier::Keep => ModifierModel::Keep,
            Modifier::Replace { trim, suffix } => ModifierModel::Replace {
                trim: trim as nat,
                suffix: suffix@,
            },
        }
    }
}

impl ModifierModel {
    /// The name after the modifier was applied. A modifier that asks to
    /// remove more characters than the name has removes all of them.
    pub open spec fn apply(self, name: Seq<char>) -> Seq<char> {
        match self {
            ModifierModel::Keep => name,
            ModifierModel::Replace { trim, suffix } => if trim <= name.len() {
                name.take(name.len() - trim) + suffix
            } else {
                suffix
            },
        }
    }
}

/// One modifier for each case.
#[derive(Debug, PartialEq, Eq)]
pub struct CaseForms {
    pub genitive: Modifier,
    pub dative: Modifier,
    pub accusative: Modifier,
    pub instrumental: Modifier,
    pub prepositional: Modifier,
}

/// Model of [`CaseForms`].
pub struct CaseFormsModel {
    pub genitive: ModifierModel,
    pub dative: ModifierModel,
    pub accusative: ModifierModel,
    pub instrumental: ModifierModel,
    pub prepositional: ModifierModel,
}

impl View for CaseForms {
    type V = CaseFormsModel;

    open spec fn view(&self) -> CaseFormsModel {
        CaseFormsModel {
            genitive: self.genitive@,
            dative: self.dative@,
            accusative: self.accusative@,
            instrumental: self.instrumental@,
            prepositional: self.prepositional@,
        }
    }
}

impl CaseFormsModel {
    /// The name stays as it is in every case.
    pub open spec fn unchanged() -> CaseFormsModel {
        CaseFormsModel {
            genitive: ModifierModel::Keep,
            dative: ModifierModel::Keep,
            accusative: ModifierModel::Keep,
            instrumental: ModifierModel::Keep,
            prepositional: ModifierModel::Keep,
        }
    }

    /// In every case the last `trim` characters give way to the ending of
    /// that case.
    pub open spec fn endings(
        trim: nat,
        genitive: Seq<char>,
        dative: Seq<char>,
        accusative: Seq<char>,
        instrumental: Seq<char>,
        prepositional: Seq<char>,
    ) -> CaseFormsModel {
        CaseFormsModel {
            genitive: ModifierModel::Replace { trim, suffix: genitive },
            dative: ModifierModel::Replace { trim, suffix: dative },
            accusative: ModifierModel::Replace { trim, suffix: accusative },
            instrumental: ModifierModel::Replace { trim, suffix: instrumental },
            prepositional: ModifierModel::Replace { trim, suffix: prepositional },
        }
    }

    /// The modifier for `case`.
    pub open spec fn get(self, case: Case) -> ModifierModel {
        match case {
            Case::Genitive => self.genitive,
            Case::Dative => self.dative,
            Case::Accusative => self.accusative,
            Case::Instrumental => self.instrumental,
            Case::Prepositional => self.prepositional,
        }
    }
}

/// An annotation on a rule.
#[derive(PartialEq, Eq, Structural, Clone, Copy, Debug)]
pub enum RuleTag {
    /// The rule does not apply to the last part of a hyphenated name.
    FirstWord,
}

/// An inflection rule.
///
/// The patterns in `test` are lowercase. In a list of exceptions a rule
/// covers the names equal to one of them, in a list of suffixes the names
/// that end with one of them.
#[derive(Debug, PartialEq, Eq)]
pub struct Rule {
    pub gender: Gender,
    pub test: Vec<Vec<char>>,
    pub mods: CaseForms,
    pub tags: Vec<RuleTag>,
}

/// Model of a [`Rule`].
pub struct RuleModel {
    pub gender: Gender,
    pub test: Seq<Seq<char>>,
    pub mods: CaseFormsModel,
    pub tags: Seq<RuleTag>,
}

impl View for Rule {
    type V = RuleModel;

    open spec fn view(&self) -> RuleModel {
        RuleModel {
            gender: self.gender,
            test: patterns_of(self.test@),
            mods: self.mods@,
            tags: self.tags@,
        }
    }
}

/// The length of the longest pattern of `test` that `name` ends with, or
/// `-1` where it ends with none of them.
pub open spec fn longest_suffix(test: Seq<Seq<char>>, name: Seq<char>) -> int
    decreases test.len(),
{
    if test.len() == 0 {
        -1
    } else {
        let before = longest_suffix(test.drop_last(), name);
        if is_suffix(test.last(), name) && test.last().len() > before {
            test.last().len() as int
        } else {
            before
        }
    }
}

/// `longest_suffix` is the greatest length of a matching pattern: no
/// matching pattern is longer, some matching pattern has that length, and
/// it is negative exactly where no pattern matches.
pub proof fn lemma_longest_suffix(test: Seq<Seq<char>>, name: Seq<char>)
    ensures
        longest_suffix(test, name) >= -1,
        longest_suffix(test, name) >= 0 <==> some_suffix(test, name),
        forall|i: int|
            0 <= i < test.len() && is_suffix(#[trigger] test[i], name) ==> test[i].len()
                <= longest_suffix(test, name),
        longest_suffix(test, name) >= 0 ==> exists|i: int|
            0 <= i < test.len() && is_suffix(#[trigger] test[i], name) && test[i].len()
                == longest_suffix(test, name),
    decreases test.len(),
{
    if test.len() > 0 {
        let init = test.drop_last();
        lemma_longest_suffix(init, name);
        assert forall|i: int| 0 <= i < test.len() && is_suffix(#[trigger] test[i], name) implies
            test[i].len() <= longest_suffix(test, name) by {
            if i < init.len() {
                assert(init[i] == test[i]);
            }
        }
        if longest_suffix(test, name) >= 0 {
            if is_suffix(test.last(), name) && test.last().len() > longest_suffix(init, name) {
                assert(is_suffix(test[test.len() - 1], name));
            } else {
                let i = choose|i: int|
                    0 <= i < init.len() && is_suffix(#[trigger] init[i], name) && init[i].len()
                        == longest_suffix(init, name);
                assert(test[i] == init[i]);
            }
        }
        if some_suffix(test, name) {
            let i = choose|i: int| 0 <= i < test.len() && is_suffix(#[trigger] test[i], name);
            assert(test[i].len() <= longest_suffix(test, name));
        }
    }
}

impl RuleModel {
    /// The rule whose patterns are the words of `test`, which stand in it
    /// with single spaces between them.
    pub open spec fn new(
        gender: Gender,
        test: Seq<char>,
        mods: CaseFormsModel,
        first_word: bool,
    ) -> RuleModel {
        RuleModel {
            gender,
            test: split(test, ' '),
            mods,
            tags: if first_word {
                seq![RuleTag::FirstWord]
            } else {
                Seq::empty()
            },
        }
    }

    /// The modifier of this rule for `case`.
    pub open spec fn modifier(self, case: Case) -> ModifierModel {
        self.mods.get(case)
    }

    /// Whether the rule carries `tag`.
    pub open spec fn has_tag(self, tag: RuleTag) -> bool {
        self.tags.contains(tag)
    }

    /// Whether `name` equals one of the rule's patterns.
    pub open spec fn fully_matches(self, name: Seq<char>) -> bool {
        some_equals(self.test, name)
    }

    /// Whether `name` ends with one of the rule's patterns.
    pub open spec fn suffix_matches(self, name: Seq<char>) -> bool {
        some_suffix(self.test, name)
    }

    /// Whether the rule serves a request for `gender`.
    pub open spec fn gender_matches(self, gender: Gender) -> bool {
        gender_serves(self.gender, gender)
    }

    /// The length of the rule's longest pattern that `name` ends with, or
    /// `-1` where there is none.
    pub open spec fn match_len(self, name: Seq<char>) -> int {
        longest_suffix(self.test, name)
    }

    /// The rule has at least one pattern.
    pub open spec fn well_formed(self) -> bool {
        self.test.len() > 0
    }
}

/// Every rule of the sequence has at least one pattern.
pub open spec fn all_well_formed(rules: Seq<RuleModel>) -> bool {
    forall|k: int| 0 <= k < rules.len() ==> (#[trigger] rules[k]).well_formed()
}

impl Modifier {
    /// The modifier that removes `trim` characters and appends `suffix`.
    pub fn replace(trim: usize, suffix: &str) -> (modifier: Modifier)
        ensures
            modifier@ == (ModifierModel::Replace { trim: trim as nat, suffix: suffix@ }),
    {
        Modifier::Replace { trim, suffix: suffix.to_owned() }
    }
}

impl CaseForms {
    /// The name stays as it is in every case.
    pub fn unchanged() -> (forms: CaseForms)
        ensures
            forms@ == CaseFormsModel::unchanged(),
    {
        CaseForms {
            genitive: Modifier::Keep,
            dative: Modifier::Keep,
            accusative: Modifier::Keep,
            instrumental: Modifier::Keep,
            prepositional: Modifier::Keep,
        }
    }

    /// In every case the last `trim` characters give way to the ending of
    /// that case.
    pub fn endings(
        trim: usize,
        genitive: &str,
        dative: &str,
        accusative: &str,
        instrumental: &str,
        prepositional: &str,
    ) -> (forms: CaseForms)
        ensures
            forms@ == CaseFormsModel::endings(
                trim as nat,
                genitive@,
                dative@,
                accusative@,
                instrumental@,
                prepositional@,
            ),
    {
        CaseForms {
            genitive: Modifier::replace(trim, genitive),
            dative: Modifier::replace(trim, dative),
            accusative: Modifier::replace(trim, accusative),
            instrumental: Modifier::replace(trim, instrumental),
            prepositional: Modifier::replace(trim, prepositional),
        }
    }

    /// The modifier for `case`.
    pub fn get(&self, case: Case) -> (modifier: &Modifier)
        ensures
            modifier@ == self@.get(case),
    {
        match case {
            Case::Genitive => &self.genitive,
            Case::Dative => &self.dative,
            Case::Accusative => &self.accusative,
            Case::Instrumental => &self.instrumental,
            Case::Prepositional => &self.prepositional,
        }
    }
}

impl Rule {
    /// The rule whose patterns are the words of `test`, which stand in it
    /// with single spaces between them. With `first_word` the rule is
    /// tagged `FirstWord`.
    ///
    /// Between two neighbouring spaces, or before the first or after the
    /// last one, stands an empty pattern, which ends every name.
    pub fn new(gender: Gender, test: &str, mods: CaseForms, first_word: bool) -> (rule: Rule)
        ensures
            rule@ == RuleModel::new(gender, test@, mods@, first_word),
            rule@.well_formed(),
    {
        let mut tags: Vec<RuleTag> = Vec::new();
        if first_word {
            tags.push(RuleTag::FirstWord);
        }
        proof {
            lemma_split_len(test@, ' ');
        }
        Rule { gender, test: words(test), mods, tags }
    }

    /// The modifier of this rule for `case`.
    pub fn modifier(&self, case: Case) -> (modifier: &Modifier)
        ensures
            modifier@ == self@.modifier(case),
    {
        self.mods.get(case)
    }

    /// Whether the rule carries `tag`.
    pub fn has_tag(&self, tag: RuleTag) -> (found: bool)
        ensures
            found == self@.has_tag(tag),
    {
        let mut i: usize = 0;
        while i < self.tags.len()
            invariant
                i <= self.tags@.len(),
                forall|k: int| 0 <= k < i ==> self.tags@[k] != tag,
            decreases self.tags@.len() - i,
        {
            if self.tags[i] == tag {
                return true;
            }
            i += 1;
        }
        false
    }

    /// Whether `name` equals one of the rule's patterns.
    pub fn fully_matches(&self, name: &[char]) -> (found: bool)
        ensures
            found == self@.fully_matches(name@),
    {
        any_equals(self.test.as_slice(), name)
    }

    /// Whether `name` ends with one of the rule's patterns.
    pub fn suffix_matches(&self, name: &[char]) -> (found: bool)
        ensures
            found == self@.suffix_matches(name@),
    {
        any_suffix(self.test.as_slice(), name)
    }

    /// Whether the rule serves a request for `gender`.
    pub fn gender_matches(&self, gender: Gender) -> (serves: bool)
        ensures
            serves == self@.gender_matches(gender),
    {
        self.gender == gender || self.gender == Gender::Androgynous
    }

    /// The length of the rule's longest pattern that `name` ends with.
    pub fn match_len(&self, name: &[char]) -> (longest: Option<usize>)
        ensures
            match longest {
                Some(n) => n == self@.match_len(name@),
                None => self@.match_len(name@) == -1,
            },
    {
        let mut longest: Option<usize> = None;
        let mut i: usize = 0;
        while i < self.test.len()
            invariant
                i <= self.test@.len(),
                match longest {
                    Some(n) => n == longest_suffix(self@.test.take(i as int), name@),
                    None => longest_suffix(self@.test.take(i as int), name@) == -1,
                },
            decreases self.test@.len() - i,
        {
            let pattern = self.test[i].as_slice();
            proof {
                let upto = self@.test.take(i + 1);
                assert(upto.drop_last() =~= self@.test.take(i as int));
                assert(upto.last() == pattern@);
            }
            if ends_with(name, pattern) {
                let len: usize = pattern.len();
                let longer = match longest {
                    Some(n) => len > n,
                    None => true,
                };
                if longer {
                    longest = Some(len);
                }
            }
            i += 1;
        }
        assert(self@.test.take(i as int) =~= self@.test);
        longest
    }
}

/// A list without rules.
pub fn no_rules() -> (rules: Vec<Rule>)
    ensures
        rules@ == Seq::<Rule>::empty(),
        rules_of(rules@) == Seq::<RuleModel>::empty(),
        all_well_formed(rules_of(rules@)),
{
    let rules: Vec<Rule> = Vec::new();
    assert(rules_of(rules@) =~= Seq::<RuleModel>::empty());
    rules
}

/// Appends `rule` to `rules`.
pub fn push_rule(rules: &mut Vec<Rule>, rule: Rule)
    ensures
        final(rules)@ == old(rules)@.push(rule),
        rules_of(final(rules)@) == rules_of(old(rules)@).push(rule@),
        all_well_formed(rules_of(old(rules)@)) && rule@.well_formed() ==> all_well_formed(
            rules_of(final(rules)@),
        ),
{
    rules.push(rule);
    assert(rules_of(rules@) =~= rules_of(old(rules)@).push(rule@));
}

/// The rules for one part of a name: exact-match exceptions, which come
/// first, and suffix rules.
#[derive(Debug, PartialEq, Eq)]
pub struct RuleList {
    pub exceptions: Vec<Rule>,
    pub suffixes: Vec<Rule>,
}

/// Model of a [`RuleList`].
pub struct RuleListModel {
    pub exceptions: Seq<RuleModel>,
    pub suffixes: Seq<RuleModel>,
}

/// The models of a list of rules.
pub open spec fn rules_of(list: Seq<Rule>) -> Seq<RuleModel> {
    Seq::new(list.len(), |i: int| list[i]@)
}

impl View for RuleList {
    type V = RuleListModel;

    open spec fn view(&self) -> RuleListModel {
        RuleListModel { exceptions: rules_of(self.exceptions@), suffixes: rules_of(self.suffixes@) }
    }
}

impl RuleListModel {
    /// Every rule of the list has at least one pattern.
    pub open spec fn well_formed(self) -> bool {
        all_well_formed(self.exceptions) && all_well_formed(self.suffixes)
    }
}

/// The rule lists for the three parts of a name.
#[derive(Debug, PartialEq, Eq)]
pub struct Rules {
    pub lastname: RuleList,
    pub firstname: RuleList,
    pub middlename: RuleList,
}

/// Model of [`Rules`].
pub struct RulesModel {
    pub lastname: RuleListModel,
    pub firstname: RuleListModel,
    pub middlename: RuleListModel,
}

impl View for Rules {
    type V = RulesModel;

    open spec fn view(&self) -> RulesModel {
        RulesModel {
            lastname: self.lastname@,
            firstname: self.firstname@,
            middlename: self.middlename@,
        }
    }
}

impl RulesModel {
    /// Every rule of the table has at least one pattern.
    pub open spec fn well_formed(self) -> bool {
        self.lastname.well_formed() && self.firstname.well_formed()
            && self.middlename.well_formed()
    }
}

} // verus!
