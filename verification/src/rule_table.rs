//! The rule table for Russian names.
//!
//! Every list is given as a model, which the contracts of the inflection
//! functions refer to, and by the function that builds it.
use vstd::prelude::*;
use crate::gender::Gender;
use crate::rules::{
    all_well_formed, no_rules, push_rule, rules_of, CaseForms, CaseFormsModel, Modifier,
    ModifierModel, Rule, RuleList, RuleListModel, RuleModel, Rules, RulesModel,
};

verus! {

/// Last names that do not follow the suffix rules.
pub open spec fn lastname_exceptions() -> Seq<RuleModel> {
    Seq::<RuleModel>::empty()
        .push(
            RuleModel::new(
                Gender::Androgynous,
                "бонч абдул белиц гасан дюссар дюмон книппер корвин ван шолом тер призван мелик вар фон"@,
                CaseFormsModel::unchanged(),
                true,
            ),
        )
        .push(
            RuleModel::new(
                Gender::Androgynous,
                "дюма тома дега люка ферма гамарра петипа шандра скаля каруана"@,
                CaseFormsModel::unchanged(),
                false,
            ),
        )
        .push(
            RuleModel::new(
                Gender::Androgynous,
                "гусь ремень камень онук богода нечипас долгопалец маненок рева кива"@,
                CaseFormsModel::unchanged(),
                false,
            ),
        )
        .push(
            RuleModel::new(
                Gender::Male,
                "вий сой цой хой"@,
                CaseFormsModel::endings(1, "я"@, "ю"@, "я"@, "ем"@, "е"@),
                false,
            ),
        )
        .push(RuleModel::new(Gender::Androgynous, "я"@, CaseFormsModel::unchanged(), false))
}

/// Suffix rules for last names.
pub open spec fn lastname_suffixes() -> Seq<RuleModel> {
    Seq::<RuleModel>::empty()
        .push(
            RuleModel::new(
                Gender::Female,
                "б в г д ж з й к л м н п р с т ф х ц ч ш щ ъ ь"@,
                CaseFormsModel::unchanged(),
                false,
            ),
        )
        .push(RuleModel::new(Gender::Androgynous, "орота"@, CaseFormsModel::unchanged(), false))
        .push(
            RuleModel::new(
                Gender::Female,
                "ска цка"@,
                CaseFormsModel::endings(1, "ой"@, "ой"@, "ую"@, "ой"@, "ой"@),
                false,
            ),
        )
        .push(
            RuleModel::new(
                Gender::Female,
                "цкая ская ная ая"@,
                CaseFormsModel::endings(2, "ой"@, "ой"@, "ую"@, "ой"@, "ой"@),
                false,
            ),
        )
        .push(
            RuleModel::new(
                Gender::Female,
                "яя"@,
                CaseFormsModel::endings(2, "ей"@, "ей"@, "юю"@, "ей"@, "ей"@),
                false,
            ),
        )
        .push(
            RuleModel::new(
                Gender::Female,
                "на"@,
                CaseFormsModel::endings(1, "ой"@, "ой"@, "у"@, "ой"@, "ой"@),
                false,
            ),
        )
        .push(
            RuleModel::new(
                Gender::Male,
                "иной"@,
                CaseFormsModel::endings(1, "я"@, "ю"@, "я"@, "ем"@, "е"@),
                false,
            ),
        )
        .push(
            RuleModel::new(
                Gender::Male,
                "уй"@,
                CaseFormsModel::endings(1, "я"@, "ю"@, "я"@, "ем"@, "е"@),
                false,
            ),
        )
        .push(
            RuleModel::new(
                Gender::Androgynous,
                "ца"@,
                CaseFormsModel::endings(1, "ы"@, "е"@, "у"@, "ей"@, "е"@),
                false,
            ),
        )
        .push(
            RuleModel::new(
                Gender::Male,
                "рих"@,
                CaseFormsModel::endings(0, "а"@, "у"@, "а"@, "ом"@, "е"@),
                false,
            ),
        )
        .push(RuleModel::new(Gender::Androgynous, "ия"@, CaseFormsModel::unchanged(), false))
        .push(
            RuleModel::new(
                Gender::Androgynous,
                "иа аа оа уа ыа еа юа эа"@,
                CaseFormsModel::unchanged(),
                false,
            ),
        )
        .push(RuleModel::new(Gender::Male, "их ых"@, CaseFormsModel::unchanged(), false))
        .push(
            RuleModel::new(
                Gender::Androgynous,
                "о е э и ы у ю"@,
                CaseFormsModel::unchanged(),
                false,
            ),
        )
        .push(
            RuleModel::new(
                Gender::Female,
                "ова ева"@,
                CaseFormsModel::endings(1, "ой"@, "ой"@, "у"@, "ой"@, "ой"@),
                false,
            ),
        )
        .push(
            RuleModel::new(
                Gender::Androgynous,
                "га ка ха ча ща жа ша"@,
                CaseFormsModel::endings(1, "и"@, "е"@, "у"@, "ой"@, "е"@),
                false,
            ),
        )
        .push(
            RuleModel::new(
                Gender::Androgynous,
                "а"@,
                CaseFormsModel::endings(1, "ы"@, "е"@, "у"@, "ой"@, "е"@),
                false,
            ),
        )
        .push(
            RuleModel::new(
                Gender::Male,
                "ь"@,
                CaseFormsModel::endings(1, "я"@, "ю"@, "я"@, "ем"@, "е"@),
                false,
            ),
        )
        .push(
            RuleModel::new(
                Gender::Androgynous,
                "я"@,
                CaseFormsModel::endings(1, "и"@, "е"@, "ю"@, "ей"@, "е"@),
                false,
            ),
        )
        .push(
            RuleModel::new(
                Gender::Male,
                "ей"@,
                CaseFormsModel::endings(1, "я"@, "ю"@, "я"@, "ем"@, "е"@),
                false,
            ),
        )
        .push(
            RuleModel::new(
                Gender::Male,
                "ян ан йн"@,
                CaseFormsModel::endings(0, "а"@, "у"@, "а"@, "ом"@, "е"@),
                false,
            ),
        )
        .push(
            RuleModel::new(
                Gender::Male,
                "ынец обец"@,
                CaseFormsModel::endings(2, "ца"@, "цу"@, "ца"@, "цем"@, "це"@),
                false,
            ),
        )
        .push(
            RuleModel::new(
                Gender::Male,
                "онец овец"@,
                CaseFormsModel::endings(2, "ца"@, "цу"@, "ца"@, "цом"@, "це"@),
                false,
            ),
        )
        .push(
            RuleModel::new(
                Gender::Male,
                "ай"@,
                CaseFormsModel::endings(1, "я"@, "ю"@, "я"@, "ем"@, "е"@),
                false,
            ),
        )
        .push(
            RuleModel::new(
                Gender::Male,
                "кой"@,
                CaseFormsModel {
                    genitive: ModifierModel::Replace { trim: 1, suffix: "го"@ },
                    dative: ModifierModel::Replace { trim: 1, suffix: "му"@ },
                    accusative: ModifierModel::Replace { trim: 1, suffix: "го"@ },
                    instrumental: ModifierModel::Replace { trim: 2, suffix: "им"@ },
                    prepositional: ModifierModel::Replace { trim: 1, suffix: "м"@ },
                },
                false,
            ),
        )
        .push(
            RuleModel::new(
                Gender::Male,
                "гой"@,
                CaseFormsModel {
                    genitive: ModifierModel::Replace { trim: 1, suffix: "го"@ },
                    dative: ModifierModel::Replace { trim: 1, suffix: "му"@ },
                    accusative: ModifierModel::Replace { trim: 1, suffix: "го"@ },
                    instrumental: ModifierModel::Replace { trim: 2, suffix: "им"@ },
                    prepositional: ModifierModel::Replace { trim: 1, suffix: "м"@ },
                },
                false,
            ),
        )
        .push(
            RuleModel::new(
                Gender::Male,
                "ой"@,
                CaseFormsModel::endings(2, "ого"@, "ому"@, "ого"@, "ым"@, "ом"@),
                false,
            ),
        )
        .push(
            RuleModel::new(
                Gender::Male,
                "ах ив"@,
                CaseFormsModel::endings(0, "а"@, "у"@, "а"@, "ом"@, "е"@),
                false,
            ),
        )
        .push(
            RuleModel::new(
                Gender::Male,
                "ший щий жий ний"@,
                CaseFormsModel {
                    genitive: ModifierModel::Replace { trim: 2, suffix: "его"@ },
                    dative: ModifierModel::Replace { trim: 2, suffix: "ему"@ },
                    accusative: ModifierModel::Replace { trim: 2, suffix: "его"@ },
                    instrumental: ModifierModel::Replace { trim: 1, suffix: "м"@ },
                    prepositional: ModifierModel::Replace { trim: 2, suffix: "ем"@ },
                },
                false,
            ),
        )
        .push(
            RuleModel::new(
                Gender::Male,
                "ый"@,
                CaseFormsModel {
                    genitive: ModifierModel::Replace { trim: 2, suffix: "ого"@ },
                    dative: ModifierModel::Replace { trim: 2, suffix: "ому"@ },
                    accusative: ModifierModel::Replace { trim: 2, suffix: "ого"@ },
                    instrumental: ModifierModel::Replace { trim: 1, suffix: "м"@ },
                    prepositional: ModifierModel::Replace { trim: 2, suffix: "ом"@ },
                },
                false,
            ),
        )
        .push(
            RuleModel::new(
                Gender::Male,
                "кий"@,
                CaseFormsModel {
                    genitive: ModifierModel::Replace { trim: 2, suffix: "ого"@ },
                    dative: ModifierModel::Replace { trim: 2, suffix: "ому"@ },
                    accusative: ModifierModel::Replace { trim: 2, suffix: "ого"@ },
                    instrumental: ModifierModel::Replace { trim: 1, suffix: "м"@ },
                    prepositional: ModifierModel::Replace { trim: 2, suffix: "ом"@ },
                },
                false,
            ),
        )
        .push(
            RuleModel::new(
                Gender::Male,
                "ий"@,
                CaseFormsModel::endings(1, "я"@, "ю"@, "я"@, "ем"@, "и"@),
                false,
            ),
        )
        .push(
            RuleModel::new(
                Gender::Male,
                "ок"@,
                CaseFormsModel::endings(2, "ка"@, "ку"@, "ка"@, "ком"@, "ке"@),
                false,
            ),
        )
        .push(
            RuleModel::new(
                Gender::Male,
                "ец"@,
                CaseFormsModel::endings(2, "ца"@, "цу"@, "ца"@, "цом"@, "це"@),
                false,
            ),
        )
        .push(
            RuleModel::new(
                Gender::Male,
                "ц ч ш щ"@,
                CaseFormsModel::endings(0, "а"@, "у"@, "а"@, "ем"@, "е"@),
                false,
            ),
        )
        .push(
            RuleModel::new(
                Gender::Male,
                "ен нн он ун"@,
                CaseFormsModel::endings(0, "а"@, "у"@, "а"@, "ом"@, "е"@),
                false,
            ),
        )
        .push(
            RuleModel::new(
                Gender::Male,
                "в н"@,
                CaseFormsModel::endings(0, "а"@, "у"@, "а"@, "ым"@, "е"@),
                false,
            ),
        )
        .push(
            RuleModel::new(
                Gender::Male,
                "б г д ж з к л м п р с т ф х"@,
                CaseFormsModel::endings(0, "а"@, "у"@, "а"@, "ом"@, "е"@),
                false,
            ),
        )
}

/// The rules for last names.
pub open spec fn lastname_rules() -> RuleListModel {
    RuleListModel { exceptions: lastname_exceptions(), suffixes: lastname_suffixes() }
}

/// First names that do not follow the suffix rules.
pub open spec fn firstname_exceptions() -> Seq<RuleModel> {
    Seq::<RuleModel>::empty()
        .push(
            RuleModel::new(
                Gender::Male,
                "лев"@,
                CaseFormsModel::endings(2, "ьва"@, "ьву"@, "ьва"@, "ьвом"@, "ьве"@),
                false,
            ),
        )
        .push(
            RuleModel::new(
                Gender::Male,
                "пётр"@,
                CaseFormsModel::endings(3, "етра"@, "етру"@, "етра"@, "етром"@, "етре"@),
                false,
            ),
        )
        .push(
            RuleModel::new(
                Gender::Male,
                "павел"@,
                CaseFormsModel::endings(2, "ла"@, "лу"@, "ла"@, "лом"@, "ле"@),
                false,
            ),
        )
        .push(
            RuleModel::new(
                Gender::Male,
                "яша"@,
                CaseFormsModel::endings(1, "и"@, "е"@, "у"@, "ей"@, "е"@),
                false,
            ),
        )
        .push(RuleModel::new(Gender::Male, "шота"@, CaseFormsModel::unchanged(), false))
        .push(
            RuleModel::new(
                Gender::Female,
                "рашель нинель николь габриэль даниэль изабель"@,
                CaseFormsModel::unchanged(),
                false,
            ),
        )
}

/// Suffix rules for first names.
pub open spec fn firstname_suffixes() -> Seq<RuleModel> {
    Seq::<RuleModel>::empty()
        .push(
            RuleModel::new(
                Gender::Androgynous,
                "е ё и о у ы э ю"@,
                CaseFormsModel::unchanged(),
                false,
            ),
        )
        .push(
            RuleModel::new(
                Gender::Female,
                "б в г д ж з й к л м н п р с т ф х ц ч ш щ ъ"@,
                CaseFormsModel::unchanged(),
                false,
            ),
        )
        .push(
            RuleModel::new(
                Gender::Female,
                "ь"@,
                CaseFormsModel {
                    genitive: ModifierModel::Replace { trim: 1, suffix: "и"@ },
                    dative: ModifierModel::Replace { trim: 1, suffix: "и"@ },
                    accusative: ModifierModel::Keep,
                    instrumental: ModifierModel::Replace { trim: 0, suffix: "ю"@ },
                    prepositional: ModifierModel::Replace { trim: 1, suffix: "и"@ },
                },
                false,
            ),
        )
        .push(
            RuleModel::new(
                Gender::Male,
                "ь"@,
                CaseFormsModel::endings(1, "я"@, "ю"@, "я"@, "ем"@, "е"@),
                false,
            ),
        )
        .push(
            RuleModel::new(
                Gender::Androgynous,
                "га ка ха ча ща жа"@,
                CaseFormsModel::endings(1, "и"@, "е"@, "у"@, "ой"@, "е"@),
                false,
            ),
        )
        .push(
            RuleModel::new(
                Gender::Female,
                "ша"@,
                CaseFormsModel::endings(1, "и"@, "е"@, "у"@, "ей"@, "е"@),
                false,
            ),
        )
        .push(
            RuleModel::new(
                Gender::Male,
                "ша ча жа"@,
                CaseFormsModel::endings(1, "и"@, "е"@, "у"@, "ей"@, "е"@),
                false,
            ),
        )
        .push(
            RuleModel::new(
                Gender::Androgynous,
                "а"@,
                CaseFormsModel::endings(1, "ы"@, "е"@, "у"@, "ой"@, "е"@),
                false,
            ),
        )
        .push(
            RuleModel::new(
                Gender::Female,
                "ия"@,
                CaseFormsModel::endings(1, "и"@, "и"@, "ю"@, "ей"@, "и"@),
                false,
            ),
        )
        .push(
            RuleModel::new(
                Gender::Female,
                "я"@,
                CaseFormsModel::endings(1, "и"@, "е"@, "ю"@, "ей"@, "е"@),
                false,
            ),
        )
        .push(
            RuleModel::new(
                Gender::Male,
                "ия"@,
                CaseFormsModel::endings(1, "и"@, "и"@, "ю"@, "ей"@, "и"@),
                false,
            ),
        )
        .push(
            RuleModel::new(
                Gender::Male,
                "я"@,
                CaseFormsModel::endings(1, "и"@, "е"@, "ю"@, "ей"@, "е"@),
                false,
            ),
        )
        .push(
            RuleModel::new(
                Gender::Male,
                "ей"@,
                CaseFormsModel::endings(1, "я"@, "ю"@, "я"@, "ем"@, "е"@),
                false,
            ),
        )
        .push(
            RuleModel::new(
                Gender::Male,
                "ий"@,
                CaseFormsModel::endings(1, "я"@, "ю"@, "я"@, "ем"@, "и"@),
                false,
            ),
        )
        .push(
            RuleModel::new(
                Gender::Male,
                "й"@,
                CaseFormsModel::endings(1, "я"@, "ю"@, "я"@, "ем"@, "е"@),
                false,
            ),
        )
        .push(
            RuleModel::new(
                Gender::Male,
                "б в г д ж з к л м н п р с т ф х ц ч"@,
                CaseFormsModel::endings(0, "а"@, "у"@, "а"@, "ом"@, "е"@),
                false,
            ),
        )
}

/// The rules for first names.
pub open spec fn firstname_rules() -> RuleListModel {
    RuleListModel { exceptions: firstname_exceptions(), suffixes: firstname_suffixes() }
}

/// Middle names that do not follow the suffix rules.
pub open spec fn middlename_exceptions() -> Seq<RuleModel> {
    Seq::<RuleModel>::empty()
        .push(RuleModel::new(Gender::Androgynous, "борух"@, CaseFormsModel::unchanged(), true))
}

/// Suffix rules for middle names.
pub open spec fn middlename_suffixes() -> Seq<RuleModel> {
    Seq::<RuleModel>::empty()
        .push(
            RuleModel::new(
                Gender::Male,
                "мич ьич кич"@,
                CaseFormsModel::endings(0, "а"@, "у"@, "а"@, "ом"@, "е"@),
                false,
            ),
        )
        .push(
            RuleModel::new(
                Gender::Male,
                "ич"@,
                CaseFormsModel::endings(0, "а"@, "у"@, "а"@, "ем"@, "е"@),
                false,
            ),
        )
        .push(
            RuleModel::new(
                Gender::Female,
                "на"@,
                CaseFormsModel::endings(1, "ы"@, "е"@, "у"@, "ой"@, "е"@),
                false,
            ),
        )
}

/// The rules for middle names.
pub open spec fn middlename_rules() -> RuleListModel {
    RuleListModel { exceptions: middlename_exceptions(), suffixes: middlename_suffixes() }
}

/// The whole rule table.
pub open spec fn standard_rules() -> RulesModel {
    RulesModel {
        lastname: lastname_rules(),
        firstname: firstname_rules(),
        middlename: middlename_rules(),
    }
}

fn build_lastname_exceptions() -> (rules: Vec<Rule>)
    ensures
        rules_of(rules@) == lastname_exceptions(),
        all_well_formed(rules_of(rules@)),
{
    let mut rules = no_rules();
    push_rule(
        &mut rules,
        Rule::new(
            Gender::Androgynous,
            "бонч абдул белиц гасан дюссар дюмон книппер корвин ван шолом тер призван мелик вар фон",
            CaseForms::unchanged(),
            true,
        ),
    );
    push_rule(
        &mut rules,
        Rule::new(
            Gender::Androgynous,
            "дюма тома дега люка ферма гамарра петипа шандра скаля каруана",
            CaseForms::unchanged(),
            false,
        ),
    );
    push_rule(
        &mut rules,
        Rule::new(
            Gender::Androgynous,
            "гусь ремень камень онук богода нечипас долгопалец маненок рева кива",
            CaseForms::unchanged(),
            false,
        ),
    );
    push_rule(
        &mut rules,
        Rule::new(
            Gender::Male,
            "вий сой цой хой",
            CaseForms::endings(1, "я", "ю", "я", "ем", "е"),
            false,
        ),
    );
    push_rule(&mut rules, Rule::new(Gender::Androgynous, "я", CaseForms::unchanged(), false));
    rules
}

fn build_lastname_suffixes() -> (rules: Vec<Rule>)
    ensures
        rules_of(rules@) == lastname_suffixes(),
        all_well_formed(rules_of(rules@)),
{
    let mut rules = no_rules();
    push_rule(
        &mut rules,
        Rule::new(
            Gender::Female,
            "б в г д ж з й к л м н п р с т ф х ц ч ш щ ъ ь",
            CaseForms::unchanged(),
            false,
        ),
    );
    push_rule(&mut rules, Rule::new(Gender::Androgynous, "орота", CaseForms::unchanged(), false));
    push_rule(
        &mut rules,
        Rule::new(
            Gender::Female,
            "ска цка",
            CaseForms::endings(1, "ой", "ой", "ую", "ой", "ой"),
            false,
        ),
    );
    push_rule(
        &mut rules,
        Rule::new(
            Gender::Female,
            "цкая ская ная ая",
            CaseForms::endings(2, "ой", "ой", "ую", "ой", "ой"),
            false,
        ),
    );
    push_rule(
        &mut rules,
        Rule::new(Gender::Female, "яя", CaseForms::endings(2, "ей", "ей", "юю", "ей", "ей"), false),
    );
    push_rule(
        &mut rules,
        Rule::new(Gender::Female, "на", CaseForms::endings(1, "ой", "ой", "у", "ой", "ой"), false),
    );
    push_rule(
        &mut rules,
        Rule::new(Gender::Male, "иной", CaseForms::endings(1, "я", "ю", "я", "ем", "е"), false),
    );
    push_rule(
        &mut rules,
        Rule::new(Gender::Male, "уй", CaseForms::endings(1, "я", "ю", "я", "ем", "е"), false),
    );
    push_rule(
        &mut rules,
        Rule::new(
            Gender::Androgynous,
            "ца",
            CaseForms::endings(1, "ы", "е", "у", "ей", "е"),
            false,
        ),
    );
    push_rule(
        &mut rules,
        Rule::new(Gender::Male, "рих", CaseForms::endings(0, "а", "у", "а", "ом", "е"), false),
    );
    push_rule(&mut rules, Rule::new(Gender::Androgynous, "ия", CaseForms::unchanged(), false));
    push_rule(
        &mut rules,
        Rule::new(Gender::Androgynous, "иа аа оа уа ыа еа юа эа", CaseForms::unchanged(), false),
    );
    push_rule(&mut rules, Rule::new(Gender::Male, "их ых", CaseForms::unchanged(), false));
    push_rule(
        &mut rules,
        Rule::new(Gender::Androgynous, "о е э и ы у ю", CaseForms::unchanged(), false),
    );
    push_rule(
        &mut rules,
        Rule::new(
            Gender::Female,
            "ова ева",
            CaseForms::endings(1, "ой", "ой", "у", "ой", "ой"),
            false,
        ),
    );
    push_rule(
        &mut rules,
        Rule::new(
            Gender::Androgynous,
            "га ка ха ча ща жа ша",
            CaseForms::endings(1, "и", "е", "у", "ой", "е"),
            false,
        ),
    );
    push_rule(
        &mut rules,
        Rule::new(Gender::Androgynous, "а", CaseForms::endings(1, "ы", "е", "у", "ой", "е"), false),
    );
    push_rule(
        &mut rules,
        Rule::new(Gender::Male, "ь", CaseForms::endings(1, "я", "ю", "я", "ем", "е"), false),
    );
    push_rule(
        &mut rules,
        Rule::new(Gender::Androgynous, "я", CaseForms::endings(1, "и", "е", "ю", "ей", "е"), false),
    );
    push_rule(
        &mut rules,
        Rule::new(Gender::Male, "ей", CaseForms::endings(1, "я", "ю", "я", "ем", "е"), false),
    );
    push_rule(
        &mut rules,
        Rule::new(Gender::Male, "ян ан йн", CaseForms::endings(0, "а", "у", "а", "ом", "е"), false),
    );
    push_rule(
        &mut rules,
        Rule::new(
            Gender::Male,
            "ынец обец",
            CaseForms::endings(2, "ца", "цу", "ца", "цем", "це"),
            false,
        ),
    );
    push_rule(
        &mut rules,
        Rule::new(
            Gender::Male,
            "онец овец",
            CaseForms::endings(2, "ца", "цу", "ца", "цом", "це"),
            false,
        ),
    );
    push_rule(
        &mut rules,
        Rule::new(Gender::Male, "ай", CaseForms::endings(1, "я", "ю", "я", "ем", "е"), false),
    );
    push_rule(
        &mut rules,
        Rule::new(
            Gender::Male,
            "кой",
            CaseForms {
                genitive: Modifier::replace(1, "го"),
                dative: Modifier::replace(1, "му"),
                accusative: Modifier::replace(1, "го"),
                instrumental: Modifier::replace(2, "им"),
                prepositional: Modifier::replace(1, "м"),
            },
            false,
        ),
    );
    push_rule(
        &mut rules,
        Rule::new(
            Gender::Male,
            "гой",
            CaseForms {
                genitive: Modifier::replace(1, "го"),
                dative: Modifier::replace(1, "му"),
                accusative: Modifier::replace(1, "го"),
                instrumental: Modifier::replace(2, "им"),
                prepositional: Modifier::replace(1, "м"),
            },
            false,
        ),
    );
    push_rule(
        &mut rules,
        Rule::new(
            Gender::Male,
            "ой",
            CaseForms::endings(2, "ого", "ому", "ого", "ым", "ом"),
            false,
        ),
    );
    push_rule(
        &mut rules,
        Rule::new(Gender::Male, "ах ив", CaseForms::endings(0, "а", "у", "а", "ом", "е"), false),
    );
    push_rule(
        &mut rules,
        Rule::new(
            Gender::Male,
            "ший щий жий ний",
            CaseForms {
                genitive: Modifier::replace(2, "его"),
                dative: Modifier::replace(2, "ему"),
                accusative: Modifier::replace(2, "его"),
                instrumental: Modifier::replace(1, "м"),
                prepositional: Modifier::replace(2, "ем"),
            },
            false,
        ),
    );
    push_rule(
        &mut rules,
        Rule::new(
            Gender::Male,
            "ый",
            CaseForms {
                genitive: Modifier::replace(2, "ого"),
                dative: Modifier::replace(2, "ому"),
                accusative: Modifier::replace(2, "ого"),
                instrumental: Modifier::replace(1, "м"),
                prepositional: Modifier::replace(2, "ом"),
            },
            false,
        ),
    );
    push_rule(
        &mut rules,
        Rule::new(
            Gender::Male,
            "кий",
            CaseForms {
                genitive: Modifier::replace(2, "ого"),
                dative: Modifier::replace(2, "ому"),
                accusative: Modifier::replace(2, "ого"),
                instrumental: Modifier::replace(1, "м"),
                prepositional: Modifier::replace(2, "ом"),
            },
            false,
        ),
    );
    push_rule(
        &mut rules,
        Rule::new(Gender::Male, "ий", CaseForms::endings(1, "я", "ю", "я", "ем", "и"), false),
    );
    push_rule(
        &mut rules,
        Rule::new(Gender::Male, "ок", CaseForms::endings(2, "ка", "ку", "ка", "ком", "ке"), false),
    );
    push_rule(
        &mut rules,
        Rule::new(Gender::Male, "ец", CaseForms::endings(2, "ца", "цу", "ца", "цом", "це"), false),
    );
    push_rule(
        &mut rules,
        Rule::new(Gender::Male, "ц ч ш щ", CaseForms::endings(0, "а", "у", "а", "ем", "е"), false),
    );
    push_rule(
        &mut rules,
        Rule::new(
            Gender::Male,
            "ен нн он ун",
            CaseForms::endings(0, "а", "у", "а", "ом", "е"),
            false,
        ),
    );
    push_rule(
        &mut rules,
        Rule::new(Gender::Male, "в н", CaseForms::endings(0, "а", "у", "а", "ым", "е"), false),
    );
    push_rule(
        &mut rules,
        Rule::new(
            Gender::Male,
            "б г д ж з к л м п р с т ф х",
            CaseForms::endings(0, "а", "у", "а", "ом", "е"),
            false,
        ),
    );
    rules
}

fn build_firstname_exceptions() -> (rules: Vec<Rule>)
    ensures
        rules_of(rules@) == firstname_exceptions(),
        all_well_formed(rules_of(rules@)),
{
    let mut rules = no_rules();
    push_rule(
        &mut rules,
        Rule::new(
            Gender::Male,
            "лев",
            CaseForms::endings(2, "ьва", "ьву", "ьва", "ьвом", "ьве"),
            false,
        ),
    );
    push_rule(
        &mut rules,
        Rule::new(
            Gender::Male,
            "пётр",
            CaseForms::endings(3, "етра", "етру", "етра", "етром", "етре"),
            false,
        ),
    );
    push_rule(
        &mut rules,
        Rule::new(
            Gender::Male,
            "павел",
            CaseForms::endings(2, "ла", "лу", "ла", "лом", "ле"),
            false,
        ),
    );
    push_rule(
        &mut rules,
        Rule::new(Gender::Male, "яша", CaseForms::endings(1, "и", "е", "у", "ей", "е"), false),
    );
    push_rule(&mut rules, Rule::new(Gender::Male, "шота", CaseForms::unchanged(), false));
    push_rule(
        &mut rules,
        Rule::new(
            Gender::Female,
            "рашель нинель николь габриэль даниэль изабель",
            CaseForms::unchanged(),
            false,
        ),
    );
    rules
}

fn build_firstname_suffixes() -> (rules: Vec<Rule>)
    ensures
        rules_of(rules@) == firstname_suffixes(),
        all_well_formed(rules_of(rules@)),
{
    let mut rules = no_rules();
    push_rule(
        &mut rules,
        Rule::new(Gender::Androgynous, "е ё и о у ы э ю", CaseForms::unchanged(), false),
    );
    push_rule(
        &mut rules,
        Rule::new(
            Gender::Female,
            "б в г д ж з й к л м н п р с т ф х ц ч ш щ ъ",
            CaseForms::unchanged(),
            false,
        ),
    );
    push_rule(
        &mut rules,
        Rule::new(
            Gender::Female,
            "ь",
            CaseForms {
                genitive: Modifier::replace(1, "и"),
                dative: Modifier::replace(1, "и"),
                accusative: Modifier::Keep,
                instrumental: Modifier::replace(0, "ю"),
                prepositional: Modifier::replace(1, "и"),
            },
            false,
        ),
    );
    push_rule(
        &mut rules,
        Rule::new(Gender::Male, "ь", CaseForms::endings(1, "я", "ю", "я", "ем", "е"), false),
    );
    push_rule(
        &mut rules,
        Rule::new(
            Gender::Androgynous,
            "га ка ха ча ща жа",
            CaseForms::endings(1, "и", "е", "у", "ой", "е"),
            false,
        ),
    );
    push_rule(
        &mut rules,
        Rule::new(Gender::Female, "ша", CaseForms::endings(1, "и", "е", "у", "ей", "е"), false),
    );
    push_rule(
        &mut rules,
        Rule::new(Gender::Male, "ша ча жа", CaseForms::endings(1, "и", "е", "у", "ей", "е"), false),
    );
    push_rule(
        &mut rules,
        Rule::new(Gender::Androgynous, "а", CaseForms::endings(1, "ы", "е", "у", "ой", "е"), false),
    );
    push_rule(
        &mut rules,
        Rule::new(Gender::Female, "ия", CaseForms::endings(1, "и", "и", "ю", "ей", "и"), false),
    );
    push_rule(
        &mut rules,
        Rule::new(Gender::Female, "я", CaseForms::endings(1, "и", "е", "ю", "ей", "е"), false),
    );
    push_rule(
        &mut rules,
        Rule::new(Gender::Male, "ия", CaseForms::endings(1, "и", "и", "ю", "ей", "и"), false),
    );
    push_rule(
        &mut rules,
        Rule::new(Gender::Male, "я", CaseForms::endings(1, "и", "е", "ю", "ей", "е"), false),
    );
    push_rule(
        &mut rules,
        Rule::new(Gender::Male, "ей", CaseForms::endings(1, "я", "ю", "я", "ем", "е"), false),
    );
    push_rule(
        &mut rules,
        Rule::new(Gender::Male, "ий", CaseForms::endings(1, "я", "ю", "я", "ем", "и"), false),
    );
    push_rule(
        &mut rules,
        Rule::new(Gender::Male, "й", CaseForms::endings(1, "я", "ю", "я", "ем", "е"), false),
    );
    push_rule(
        &mut rules,
        Rule::new(
            Gender::Male,
            "б в г д ж з к л м н п р с т ф х ц ч",
            CaseForms::endings(0, "а", "у", "а", "ом", "е"),
            false,
        ),
    );
    rules
}

fn build_middlename_exceptions() -> (rules: Vec<Rule>)
    ensures
        rules_of(rules@) == middlename_exceptions(),
        all_well_formed(rules_of(rules@)),
{
    let mut rules = no_rules();
    push_rule(&mut rules, Rule::new(Gender::Androgynous, "борух", CaseForms::unchanged(), true));
    rules
}

fn build_middlename_suffixes() -> (rules: Vec<Rule>)
    ensures
        rules_of(rules@) == middlename_suffixes(),
        all_well_formed(rules_of(rules@)),
{
    let mut rules = no_rules();
    push_rule(
        &mut rules,
        Rule::new(
            Gender::Male,
            "мич ьич кич",
            CaseForms::endings(0, "а", "у", "а", "ом", "е"),
            false,
        ),
    );
    push_rule(
        &mut rules,
        Rule::new(Gender::Male, "ич", CaseForms::endings(0, "а", "у", "а", "ем", "е"), false),
    );
    push_rule(
        &mut rules,
        Rule::new(Gender::Female, "на", CaseForms::endings(1, "ы", "е", "у", "ой", "е"), false),
    );
    rules
}

impl RuleList {
    /// Builds the rules for last names.
    pub fn lastname() -> (list: RuleList)
        ensures
            list@ == lastname_rules(),
            list@.well_formed(),
    {
        RuleList { exceptions: build_lastname_exceptions(), suffixes: build_lastname_suffixes() }
    }

    /// Builds the rules for first names.
    pub fn firstname() -> (list: RuleList)
        ensures
            list@ == firstname_rules(),
            list@.well_formed(),
    {
        RuleList { exceptions: build_firstname_exceptions(), suffixes: build_firstname_suffixes() }
    }

    /// Builds the rules for middle names.
    pub fn middlename() -> (list: RuleList)
        ensures
            list@ == middlename_rules(),
            list@.well_formed(),
    {
        RuleList {
            exceptions: build_middlename_exceptions(),
            suffixes: build_middlename_suffixes(),
        }
    }
}

impl Rules {
    /// Builds the whole rule table.
    pub fn standard() -> (rules: Rules)
        ensures
            rules@ == standard_rules(),
            rules@.well_formed(),
    {
        Rules {
            lastname: RuleList::lastname(),
            firstname: RuleList::firstname(),
            middlename: RuleList::middlename(),
        }
    }
}

} // verus!
