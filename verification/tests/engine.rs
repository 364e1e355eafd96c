use petrovich::gender::{GenderHeuristic, GenderHeuristics, GenderMapping};
use petrovich::inflect::{inflect, inflect_name, inflect_name_part, inflect_name_part_with};
use petrovich::matcher::{find_exception, find_rule, find_suffix};
use petrovich::rules::{
    no_rules, push_rule, CaseForms, Modifier, Rule, RuleList, RuleTag, Rules,
};
use petrovich::text::{
    any_equals, any_suffix, chars_of, ends_with, same_chars, split_chars, words,
};
use petrovich::{detect_gender, firstname, lastname, middlename, Case, Gender};

const CASES: [Case; 5] = [
    Case::Genitive,
    Case::Dative,
    Case::Accusative,
    Case::Instrumental,
    Case::Prepositional,
];

fn chars(s: &str) -> Vec<char> {
    s.chars().collect()
}

fn marked(gender: Gender, test: &str, mark: &str) -> Rule {
    Rule::new(gender, test, CaseForms::endings(0, mark, mark, mark, mark, mark), false)
}

fn list(exceptions: Vec<Rule>, suffixes: Vec<Rule>) -> RuleList {
    RuleList { exceptions, suffixes }
}

fn mapping(androgynous: &[&str], male: &[&str], female: &[&str]) -> GenderMapping {
    GenderMapping {
        androgynous: androgynous.iter().map(|s| chars(s)).collect(),
        male: male.iter().map(|s| chars(s)).collect(),
        female: female.iter().map(|s| chars(s)).collect(),
    }
}

#[test]
fn chars_of_keeps_every_character() {
    assert_eq!(chars_of("Лёша-x"), vec!['Л', 'ё', 'ш', 'а', '-', 'x']);
    assert_eq!(chars_of(""), Vec::<char>::new());
}

#[test]
fn ends_with_compares_characters() {
    assert!(ends_with(&chars("иванов"), &chars("ов")));
    assert!(ends_with(&chars("иванов"), &chars("иванов")));
    assert!(ends_with(&chars("иванов"), &chars("")));
    assert!(!ends_with(&chars("иванов"), &chars("ова")));
    assert!(!ends_with(&chars("ов"), &chars("нов")));
    assert!(!ends_with(&chars("иванов"), &chars("ив")));
}

#[test]
fn same_chars_is_equality() {
    assert!(same_chars(&chars("цой"), &chars("цой")));
    assert!(!same_chars(&chars("цой"), &chars("цои")));
    assert!(!same_chars(&chars("цой"), &chars("цо")));
    assert!(same_chars(&chars(""), &chars("")));
}

#[test]
fn split_keeps_empty_pieces() {
    assert_eq!(split_chars(&chars("а-б"), '-'), vec![chars("а"), chars("б")]);
    assert_eq!(split_chars(&chars("абв"), '-'), vec![chars("абв")]);
    assert_eq!(split_chars(&chars(""), '-'), vec![chars("")]);
    assert_eq!(
        split_chars(&chars("-а--б-"), '-'),
        vec![chars(""), chars("а"), chars(""), chars("б"), chars("")]
    );
}

#[test]
fn split_gives_one_piece_more_than_separators() {
    for name in ["", "a", "a-b", "-", "--", "a-b-c-d", "-a-", "a--b"] {
        let hyphens = name.chars().filter(|&c| c == '-').count();
        let pieces = split_chars(&chars(name), '-');
        assert_eq!(pieces.len(), hyphens + 1);
        let joined: Vec<String> = pieces.iter().map(|p| p.iter().collect()).collect();
        assert_eq!(joined.join("-"), name);
    }
}

#[test]
fn words_are_separated_by_single_spaces() {
    assert_eq!(words("ова ева"), vec![chars("ова"), chars("ева")]);
    assert_eq!(words("ь"), vec![chars("ь")]);
}

#[test]
fn any_equals_and_any_suffix() {
    let patterns = words("ска цка ая");
    assert!(any_equals(&patterns, &chars("цка")));
    assert!(!any_equals(&patterns, &chars("ка")));
    assert!(any_suffix(&patterns, &chars("склифасовская")));
    assert!(!any_suffix(&patterns, &chars("склифасовский")));
    assert!(!any_suffix(&[], &chars("склифасовский")));
    assert!(!any_equals(&[], &chars("")));
}

#[test]
fn rule_accessors() {
    let rule = Rule::new(
        Gender::Female,
        "цкая ская ная ая",
        CaseForms {
            genitive: Modifier::replace(2, "ой"),
            dative: Modifier::Keep,
            accusative: Modifier::replace(2, "ую"),
            instrumental: Modifier::replace(0, "х"),
            prepositional: Modifier::replace(1, ""),
        },
        true,
    );
    assert_eq!(rule.test, vec![chars("цкая"), chars("ская"), chars("ная"), chars("ая")]);
    assert_eq!(rule.tags, vec![RuleTag::FirstWord]);
    assert!(rule.has_tag(RuleTag::FirstWord));
    assert!(matches!(rule.modifier(Case::Dative), Modifier::Keep));
    assert!(matches!(
        rule.modifier(Case::Accusative),
        Modifier::Replace { trim: 2, suffix } if suffix == "ую"
    ));
    assert!(matches!(
        rule.modifier(Case::Prepositional),
        Modifier::Replace { trim: 1, suffix } if suffix.is_empty()
    ));
    assert!(rule.gender_matches(Gender::Female));
    assert!(!rule.gender_matches(Gender::Male));
    assert!(!rule.gender_matches(Gender::Androgynous));
    assert!(rule.fully_matches(&chars("ская")));
    assert!(!rule.fully_matches(&chars("вская")));
    assert!(rule.suffix_matches(&chars("вская")));
    assert!(!rule.suffix_matches(&chars("вский")));
    assert_eq!(rule.match_len(&chars("склифасовская")), Some(4));
    assert_eq!(rule.match_len(&chars("иная")), Some(3));
    assert_eq!(rule.match_len(&chars("злая")), Some(2));
    assert_eq!(rule.match_len(&chars("злой")), None);
    let plain = marked(Gender::Androgynous, "а", "!");
    assert!(!plain.has_tag(RuleTag::FirstWord));
    assert!(plain.gender_matches(Gender::Male));
    assert!(plain.gender_matches(Gender::Female));
    assert!(plain.gender_matches(Gender::Androgynous));
}

#[test]
fn modifier_trims_characters_not_bytes() {
    let rule = Rule::new(
        Gender::Androgynous,
        "ё",
        CaseForms {
            genitive: Modifier::replace(1, "и"),
            dative: Modifier::replace(3, "ÿz"),
            accusative: Modifier::replace(0, "-х"),
            instrumental: Modifier::Keep,
            prepositional: Modifier::replace(4, ""),
        },
        false,
    );
    assert_eq!(inflect("Лёша", &rule, Case::Genitive), "Лёши");
    assert_eq!(inflect("Лёша", &rule, Case::Dative), "Лÿz");
    assert_eq!(inflect("Лёша", &rule, Case::Accusative), "Лёша-х");
    assert_eq!(inflect("Лёша", &rule, Case::Instrumental), "Лёша");
    assert_eq!(inflect("Лёша", &rule, Case::Prepositional), "");
}

#[test]
fn modifier_that_trims_too_much_leaves_the_suffix() {
    let rule = Rule::new(
        Gender::Androgynous,
        "я",
        CaseForms::endings(3, "а", "б", "в", "г", "д"),
        false,
    );
    assert_eq!(inflect("Ян", &rule, Case::Genitive), "а");
    assert_eq!(inflect("", &rule, Case::Prepositional), "д");
    assert_eq!(inflect("Яна", &rule, Case::Dative), "б");
    assert_eq!(inflect("Янка", &rule, Case::Dative), "Яб");
}

#[test]
fn first_covering_exception_is_found() {
    let exceptions = vec![
        marked(Gender::Female, "цой", "1"),
        marked(Gender::Male, "вий цой", "2"),
        marked(Gender::Androgynous, "цой", "3"),
    ];
    let found = find_exception(&exceptions, &chars("цой"), Gender::Male, true).unwrap();
    assert_eq!(inflect("x", found, Case::Genitive), "x2");
    let found = find_exception(&exceptions, &chars("цой"), Gender::Female, true).unwrap();
    assert_eq!(inflect("x", found, Case::Genitive), "x1");
    let found = find_exception(&exceptions, &chars("цой"), Gender::Androgynous, true).unwrap();
    assert_eq!(inflect("x", found, Case::Genitive), "x3");
    assert!(find_exception(&exceptions, &chars("вий"), Gender::Female, true).is_none());
    assert!(find_exception(&exceptions, &chars("ой"), Gender::Male, true).is_none());
    assert!(find_exception(&[], &chars("цой"), Gender::Male, false).is_none());
}

#[test]
fn first_word_exception_is_skipped_for_the_last_part() {
    let exceptions = vec![
        Rule::new(Gender::Androgynous, "бонч", CaseForms::unchanged(), true),
        marked(Gender::Androgynous, "бонч", "2"),
    ];
    let found = find_exception(&exceptions, &chars("бонч"), Gender::Male, false).unwrap();
    assert_eq!(inflect("Бонч", found, Case::Dative), "Бонч");
    let found = find_exception(&exceptions, &chars("бонч"), Gender::Male, true).unwrap();
    assert_eq!(inflect("Бонч", found, Case::Dative), "Бонч2");
}

#[test]
fn first_word_tag_does_not_touch_suffix_rules() {
    let suffixes = vec![Rule::new(
        Gender::Androgynous,
        "ч",
        CaseForms::endings(0, "а", "у", "а", "ем", "е"),
        true,
    )];
    let rules = list(vec![], suffixes);
    assert_eq!(inflect_name(Gender::Male, "Бонч-Бруевич", Case::Dative, &rules), "Бончу-Бруевичу");
}

#[test]
fn longest_suffix_wins_in_either_order() {
    let name = chars("сосковец");
    for gender in [Gender::Male, Gender::Androgynous] {
        let ascending = vec![
            marked(gender, "ц", "1"),
            marked(gender, "ец вец", "3"),
            marked(gender, "ец", "2"),
        ];
        let descending = vec![
            marked(gender, "ец", "2"),
            marked(gender, "вец ец", "3"),
            marked(gender, "ц", "1"),
        ];
        let found = find_suffix(&ascending, &name, gender).unwrap();
        assert_eq!(inflect("x", found, Case::Dative), "x3");
        let found = find_suffix(&descending, &name, gender).unwrap();
        assert_eq!(inflect("x", found, Case::Dative), "x3");
    }
}

#[test]
fn equally_long_suffixes_go_by_position() {
    let name = chars("мария");
    let suffixes = vec![
        marked(Gender::Androgynous, "я", "0"),
        marked(Gender::Female, "ия", "1"),
        marked(Gender::Androgynous, "ря ия", "2"),
        marked(Gender::Male, "рия", "3"),
    ];
    let found = find_suffix(&suffixes, &name, Gender::Female).unwrap();
    assert_eq!(inflect("x", found, Case::Dative), "x1");
    let found = find_suffix(&suffixes, &name, Gender::Androgynous).unwrap();
    assert_eq!(inflect("x", found, Case::Dative), "x2");
    let found = find_suffix(&suffixes, &name, Gender::Male).unwrap();
    assert_eq!(inflect("x", found, Case::Dative), "x3");
    assert!(find_suffix(&suffixes, &chars("марк"), Gender::Male).is_none());
    assert!(find_suffix(&[], &name, Gender::Male).is_none());
}

#[test]
fn suffix_rule_of_another_gender_is_passed_over() {
    let suffixes = vec![marked(Gender::Female, "ова", "1"), marked(Gender::Male, "а", "2")];
    let found = find_suffix(&suffixes, &chars("иванова"), Gender::Male).unwrap();
    assert_eq!(inflect("x", found, Case::Dative), "x2");
    assert!(find_suffix(&suffixes[..1], &chars("иванова"), Gender::Male).is_none());
    assert!(find_suffix(&suffixes[..1], &chars("иванова"), Gender::Androgynous).is_none());
}

#[test]
fn exception_comes_before_suffix() {
    let rules = list(
        vec![marked(Gender::Male, "лев", "E")],
        vec![
            marked(Gender::Male, "в", "1"),
            marked(Gender::Male, "лев", "3"),
            marked(Gender::Male, "илев", "4"),
        ],
    );
    let found = find_rule(&rules, &chars("лев"), Gender::Male, true).unwrap();
    assert_eq!(inflect("x", found, Case::Dative), "xE");
    let found = find_rule(&rules, &chars("королев"), Gender::Male, true).unwrap();
    assert_eq!(inflect("x", found, Case::Dative), "x3");
    assert!(find_rule(&rules, &chars("лев"), Gender::Female, true).is_none());
    for case in CASES {
        assert_eq!(inflect_name(Gender::Male, "Лев", case, &rules), "ЛевE");
        assert_eq!(inflect_name(Gender::Male, "Королев-Лев", case, &rules), "Королев3-ЛевE");
    }
}

#[test]
fn androgynous_rule_serves_every_gender() {
    let rules = list(
        vec![marked(Gender::Androgynous, "дюма", "E")],
        vec![marked(Gender::Androgynous, "а", "S")],
    );
    for gender in [Gender::Male, Gender::Female, Gender::Androgynous] {
        for case in CASES {
            assert_eq!(inflect_name(gender, "Дюма", case, &rules), "ДюмаE");
            assert_eq!(inflect_name(gender, "Сирота", case, &rules), "СиротаS");
        }
    }
}

#[test]
fn gendered_rule_does_not_serve_androgynous_request() {
    let rules = list(
        vec![marked(Gender::Male, "лев", "E")],
        vec![marked(Gender::Female, "а", "S")],
    );
    assert_eq!(inflect_name(Gender::Androgynous, "Лев", Case::Dative, &rules), "Лев");
    assert_eq!(inflect_name(Gender::Androgynous, "Анна", Case::Dative, &rules), "Анна");
    assert_eq!(inflect_name(Gender::Female, "Анна", Case::Dative, &rules), "АннаS");
}

#[test]
fn unmatched_name_is_unchanged_in_every_case() {
    let rules = list(
        vec![marked(Gender::Androgynous, "лев", "E")],
        vec![marked(Gender::Androgynous, "ов", "S")],
    );
    for gender in [Gender::Male, Gender::Female, Gender::Androgynous] {
        for case in CASES {
            for name in ["Blabla", "", "-", "Петр-Павел", "Левъ", "ОВ ", "--x--"] {
                assert_eq!(inflect_name(gender, name, case, &rules), name);
                assert_eq!(firstname(gender, "Blabla", case), "Blabla");
                assert_eq!(middlename(gender, "Blabla", case), "Blabla");
                assert_eq!(lastname(gender, "Blabla", case), "Blabla");
            }
        }
    }
    assert_eq!(inflect_name(Gender::Male, "x", Case::Dative, &list(vec![], vec![])), "x");
}

#[test]
fn name_part_reports_whether_a_rule_was_found() {
    let rules = list(vec![], vec![marked(Gender::Male, "ов", "у")]);
    assert_eq!(
        inflect_name_part(Gender::Male, "Иванов", Case::Dative, &rules, true),
        Some("Иванову".to_string())
    );
    assert_eq!(inflect_name_part(Gender::Male, "Иванова", Case::Dative, &rules, true), None);
    assert_eq!(inflect_name_part(Gender::Female, "Иванов", Case::Dative, &rules, true), None);
    let keep = list(vec![], vec![Rule::new(Gender::Male, "ов", CaseForms::unchanged(), false)]);
    assert_eq!(
        inflect_name_part(Gender::Male, "Иванов", Case::Dative, &keep, true),
        Some("Иванов".to_string())
    );
}

#[test]
fn rule_is_selected_by_the_lowercase_form_given() {
    let rules = list(vec![], vec![marked(Gender::Male, "ов", "у")]);
    assert_eq!(
        inflect_name_part_with(
            Gender::Male,
            "ИВАНОВ",
            &chars("иванов"),
            Case::Dative,
            &rules,
            true,
        ),
        Some("ИВАНОВу".to_string())
    );
    assert_eq!(
        inflect_name_part_with(
            Gender::Male,
            "ИВАНОВ",
            &chars("ИВАНОВ"),
            Case::Dative,
            &rules,
            true,
        ),
        None
    );
    assert_eq!(
        inflect_name_part_with(Gender::Male, "Кваша", &chars("иванов"), Case::Dative, &rules, true),
        Some("Квашау".to_string())
    );
}

#[test]
fn matching_ignores_case_and_keeps_the_spelling() {
    assert_eq!(lastname(Gender::Male, "ИВАНОВ", Case::Dative), "ИВАНОВу");
    assert_eq!(lastname(Gender::Male, "ЦОЙ", Case::Dative), "ЦОю");
    assert_eq!(firstname(Gender::Male, "ЛЁША", Case::Genitive), "ЛЁШи");
    assert_eq!(middlename(Gender::Female, "ПЕТРОВНА", Case::Accusative), "ПЕТРОВНу");
    assert_eq!(detect_gender(None, None, Some("ОЛЕГОВИЧ")), Gender::Male);
    assert_eq!(detect_gender(Some("ИВАНОВА"), None, None), Gender::Female);
}

#[test]
fn hyphens_are_kept() {
    for name in [
        "Иванов",
        "Иванов-Сидоров",
        "Бонч-Бруевич-Иванов",
        "-Иванов",
        "Иванов-",
        "-",
        "--",
        "а-б-в-г-д",
    ] {
        let hyphens = name.chars().filter(|&c| c == '-').count();
        for case in CASES {
            let inflected = lastname(Gender::Male, name, case);
            assert_eq!(inflected.chars().filter(|&c| c == '-').count(), hyphens);
            assert_eq!(inflected.split('-').count(), hyphens + 1);
        }
    }
    assert_eq!(lastname(Gender::Male, "-Иванов", Case::Dative), "-Иванову");
    assert_eq!(lastname(Gender::Male, "Иванов-", Case::Dative), "Иванову-");
    assert_eq!(lastname(Gender::Male, "Иванов--Сидоров", Case::Dative), "Иванову--Сидорову");
}

#[test]
fn only_the_final_part_is_last() {
    let rules = list(
        vec![Rule::new(Gender::Androgynous, "бонч", CaseForms::unchanged(), true)],
        vec![marked(Gender::Androgynous, "ч", "у")],
    );
    assert_eq!(inflect_name(Gender::Male, "Бонч", Case::Dative, &rules), "Бончу");
    assert_eq!(inflect_name(Gender::Male, "Бонч-Бонч", Case::Dative, &rules), "Бонч-Бончу");
    assert_eq!(
        inflect_name(Gender::Male, "Бонч-Бонч-Бонч", Case::Dative, &rules),
        "Бонч-Бонч-Бончу",
    );
    assert_eq!(inflect_name(Gender::Male, "Бонч-", Case::Dative, &rules), "Бонч-");
}

#[test]
fn well_known_names_by_the_standard_table() {
    assert_eq!(firstname(Gender::Male, "Саша", Case::Dative), "Саше");
    assert_eq!(lastname(Gender::Female, "Станкевич", Case::Prepositional), "Станкевич");
    assert_eq!(lastname(Gender::Male, "Станкевич", Case::Prepositional), "Станкевиче");
    assert_eq!(lastname(Gender::Male, "Иванов-Сидоров", Case::Dative), "Иванову-Сидорову");
    assert_eq!(detect_gender(None, None, Some("Олегович")), Gender::Male);
    assert_eq!(detect_gender(None, None, Some("Олеговна")), Gender::Female);
    assert_eq!(firstname(Gender::Male, "Blabla", Case::Genitive), "Blabla");
    assert_eq!(firstname(Gender::Female, "Изабель", Case::Genitive), "Изабель");
    assert_eq!(middlename(Gender::Male, "Сергеич", Case::Instrumental), "Сергеичем");
    assert_eq!(middlename(Gender::Female, "Прокопьевна", Case::Accusative), "Прокопьевну");
}

#[test]
fn all_five_cases_of_a_last_name() {
    assert_eq!(lastname(Gender::Male, "Достоевский", Case::Genitive), "Достоевского");
    assert_eq!(lastname(Gender::Male, "Достоевский", Case::Dative), "Достоевскому");
    assert_eq!(lastname(Gender::Male, "Достоевский", Case::Accusative), "Достоевского");
    assert_eq!(lastname(Gender::Male, "Достоевский", Case::Instrumental), "Достоевским");
    assert_eq!(lastname(Gender::Male, "Достоевский", Case::Prepositional), "Достоевском");
    assert_eq!(lastname(Gender::Female, "Достоевская", Case::Genitive), "Достоевской");
    assert_eq!(lastname(Gender::Female, "Достоевская", Case::Accusative), "Достоевскую");
    assert_eq!(firstname(Gender::Female, "Любовь", Case::Accusative), "Любовь");
    assert_eq!(firstname(Gender::Female, "Любовь", Case::Instrumental), "Любовью");
    assert_eq!(firstname(Gender::Male, "Пётр", Case::Dative), "Петру");
}

#[test]
fn case_forms_by_case() {
    let forms = CaseForms::endings(2, "а", "б", "в", "г", "д");
    assert_eq!(*forms.get(Case::Genitive), Modifier::replace(2, "а"));
    assert_eq!(*forms.get(Case::Dative), Modifier::replace(2, "б"));
    assert_eq!(*forms.get(Case::Accusative), Modifier::replace(2, "в"));
    assert_eq!(*forms.get(Case::Instrumental), Modifier::replace(2, "г"));
    assert_eq!(*forms.get(Case::Prepositional), Modifier::replace(2, "д"));
    assert_eq!(
        Modifier::replace(2, "а"),
        Modifier::Replace { trim: 2, suffix: "а".to_string() }
    );
    let unchanged = CaseForms::unchanged();
    for case in CASES {
        assert_eq!(*unchanged.get(case), Modifier::Keep);
    }
}

#[test]
fn rules_are_appended_in_order() {
    let mut rules = no_rules();
    assert!(rules.is_empty());
    push_rule(&mut rules, marked(Gender::Male, "а", "1"));
    push_rule(&mut rules, marked(Gender::Female, "б", "2"));
    assert_eq!(rules, vec![marked(Gender::Male, "а", "1"), marked(Gender::Female, "б", "2")]);
}

#[test]
fn standard_table_has_three_lists() {
    let rules = Rules::standard();
    assert_eq!(rules.lastname.exceptions.len(), RuleList::lastname().exceptions.len());
    assert_eq!(rules.firstname.suffixes.len(), RuleList::firstname().suffixes.len());
    assert_eq!(rules.middlename.exceptions.len(), 1);
    assert_eq!(rules.middlename.suffixes.len(), 3);
    for part in [&rules.lastname, &rules.firstname, &rules.middlename] {
        for rule in part.exceptions.iter().chain(part.suffixes.iter()) {
            assert!(!rule.test.is_empty());
            assert!(rule.test.iter().all(|pattern| !pattern.is_empty()));
        }
    }
    assert!(rules.middlename.exceptions[0].has_tag(RuleTag::FirstWord));
    assert_eq!(
        inflect_name(Gender::Male, "Иванов", Case::Genitive, &rules.lastname),
        lastname(Gender::Male, "Иванов", Case::Genitive)
    );
}

#[test]
fn heuristic_asks_whole_names_before_endings() {
    let heuristic = GenderHeuristic {
        exceptions: Some(mapping(&["саша"], &["никита"], &["любовь"])),
        suffixes: mapping(&["ко"], &["в", "ь"], &["а", "енко"]),
    };
    assert_eq!(heuristic.detect_gender(&chars("никита")), Some(Gender::Male));
    assert_eq!(heuristic.detect_gender(&chars("любовь")), Some(Gender::Female));
    assert_eq!(heuristic.detect_gender(&chars("саша")), None);
    assert_eq!(heuristic.detect_gender(&chars("маша")), Some(Gender::Female));
    assert_eq!(heuristic.detect_gender(&chars("игорь")), Some(Gender::Male));
    assert_eq!(heuristic.detect_gender(&chars("шевченко")), None);
    assert_eq!(heuristic.detect_gender(&chars("оно")), None);
    assert_eq!(heuristic.detect_gender(&chars("")), None);
}

#[test]
fn heuristic_without_whole_names_goes_by_endings() {
    let heuristic = GenderHeuristic {
        exceptions: None,
        suffixes: mapping(&[], &["ич", "на"], &["на"]),
    };
    assert_eq!(heuristic.detect_gender(&chars("олегович")), Some(Gender::Male));
    assert_eq!(heuristic.detect_gender(&chars("олеговна")), Some(Gender::Female));
    assert_eq!(heuristic.detect_gender(&chars("олег")), None);
}

#[test]
fn mapping_looks_at_neutral_then_feminine_then_masculine() {
    let all = mapping(&["а"], &["а"], &["а"]);
    assert_eq!(all.listed(&chars("а")), Some(Gender::Androgynous));
    assert_eq!(all.ending_listed(&chars("ха")), Some(Gender::Androgynous));
    let two = mapping(&[], &["а"], &["а"]);
    assert_eq!(two.listed(&chars("а")), Some(Gender::Female));
    assert_eq!(two.ending_listed(&chars("ха")), Some(Gender::Female));
    assert_eq!(two.listed(&chars("ха")), None);
    let one = mapping(&[], &["а"], &[]);
    assert_eq!(one.listed(&chars("а")), Some(Gender::Male));
    assert_eq!(one.ending_listed(&chars("ха")), Some(Gender::Male));
    assert_eq!(one.ending_listed(&chars("хо")), None);
}

#[test]
fn middle_name_decides_before_first_and_last_name() {
    let heuristics = GenderHeuristics {
        lastname: GenderHeuristic { exceptions: None, suffixes: mapping(&[], &["ов"], &["ова"]) },
        firstname: GenderHeuristic {
            exceptions: Some(mapping(&["саша"], &[], &["нинель"])),
            suffixes: mapping(&[], &["р"], &["а"]),
        },
        middlename: GenderHeuristic { exceptions: None, suffixes: mapping(&[], &["ич"], &["на"]) },
    };
    let (ova, ov) = (chars("иванова"), chars("иванов"));
    let (ninel, sasha, petr) = (chars("нинель"), chars("саша"), chars("пётр"));
    let (ich, na, ogly) = (chars("олегович"), chars("олеговна"), chars("оглы"));
    assert_eq!(heuristics.detect_gender(Some(&ova), Some(&ninel), Some(&ich)), Gender::Male);
    assert_eq!(heuristics.detect_gender(None, Some(&ninel), Some(&ich)), Gender::Male);
    assert_eq!(heuristics.detect_gender(Some(&ov), Some(&petr), Some(&na)), Gender::Female);
    assert_eq!(heuristics.detect_gender(Some(&ov), Some(&ninel), Some(&ogly)), Gender::Female);
    assert_eq!(heuristics.detect_gender(Some(&ova), Some(&petr), None), Gender::Male);
    assert_eq!(heuristics.detect_gender(Some(&ova), Some(&sasha), Some(&ogly)), Gender::Female);
    assert_eq!(heuristics.detect_gender(Some(&ov), Some(&sasha), None), Gender::Male);
    assert_eq!(heuristics.detect_gender(None, Some(&sasha), None), Gender::Androgynous);
    assert_eq!(heuristics.detect_gender(None, None, None), Gender::Androgynous);
}

#[test]
fn male_middle_name_beats_female_first_name() {
    assert_eq!(detect_gender(None, Some("Нинель"), None), Gender::Female);
    assert_eq!(detect_gender(None, Some("Нинель"), Some("Олегович")), Gender::Male);
    assert_eq!(detect_gender(Some("Иванова"), Some("Нинель"), Some("Олегович")), Gender::Male);
    assert_eq!(detect_gender(Some("Иванова"), Some("Александр"), None), Gender::Male);
    assert_eq!(detect_gender(Some("Иванова"), None, Some("Оно")), Gender::Female);
}

#[test]
fn neutral_names_tell_nothing() {
    assert_eq!(detect_gender(Some("Грин"), None, None), Gender::Androgynous);
    assert_eq!(detect_gender(Some("Грин"), Some("Женя"), None), Gender::Androgynous);
    assert_eq!(detect_gender(Some("Грин"), Some("Женя"), Some("Петровна")), Gender::Female);
    let standard = GenderHeuristics::standard();
    assert!(standard.middlename.exceptions.is_none());
    assert_eq!(standard.lastname.detect_gender(&chars("грин")), None);
    assert_eq!(standard.lastname.detect_gender(&chars("лукин")), Some(Gender::Male));
}
