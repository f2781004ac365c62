use petscan::combination::Combination;
use petscan::platform::Platform;
use petscan::tokens::tokenize;
use regex::Regex;

fn source(name: &str) -> Box<Combination> {
    Box::new(Combination::Source(name.to_string()))
}

#[test]
fn test_parse_combination_string() {
    let res =
        Platform::parse_combination_string(&"categories NOT (sparql OR pagepile)".to_string());
    let expected = Combination::Not((
        Box::new(Combination::Source("categories".to_string())),
        Box::new(Combination::Union((
            Box::new(Combination::Source("sparql".to_string())),
            Box::new(Combination::Source("pagepile".to_string())),
        ))),
    ));
    assert_eq!(res, expected);
}

#[test]
fn parse_single_source_keeps_text() {
    assert_eq!(
        Combination::parse_combination_string(&"sparql".to_string()),
        Combination::Source("sparql".to_string())
    );
    assert_eq!(
        Combination::parse_combination_string(&" Manual ".to_string()),
        Combination::Source(" Manual ".to_string())
    );
}

#[test]
fn parse_unreadable_gives_nothing() {
    for text in ["", "   ", "search", "labels", "sparql AND", "(sparql OR manual", "a b c"] {
        let parsed = Combination::parse_combination_string(&text.to_string());
        if text == "a b c" {
            assert_eq!(parsed, Combination::Nothing);
        } else {
            assert_eq!(parsed, Combination::Nothing, "{}", text);
        }
    }
}

#[test]
fn parse_operators_in_any_case() {
    assert_eq!(
        Combination::parse_combination_string(&"sparql and manual".to_string()),
        Combination::Intersection((source("sparql"), source("manual")))
    );
    assert_eq!(
        Combination::parse_combination_string(&"sparql Or manual".to_string()),
        Combination::Union((source("sparql"), source("manual")))
    );
    assert_eq!(
        Combination::parse_combination_string(&"(sparql nOT manual)".to_string()),
        Combination::Not((source("sparql"), source("manual")))
    );
}

#[test]
fn parse_nested_groups() {
    let left_nested = Combination::Not((
        Box::new(Combination::Union((
            Box::new(Combination::Intersection((source("categories"), source("sparql")))),
            source("manual"),
        ))),
        source("wikidata"),
    ));
    assert_eq!(
        Combination::parse_combination_string(
            &"(((categories AND sparql) OR manual) NOT wikidata)".to_string()
        ),
        left_nested
    );
    // without parentheses the rest of the text is the right side
    assert_eq!(
        Combination::parse_combination_string(&"categories AND sparql OR manual".to_string()),
        Combination::Intersection((
            source("categories"),
            Box::new(Combination::Union((source("sparql"), source("manual"))))
        ))
    );
}

#[test]
fn to_string_round_trip() {
    let trees = vec![
        Combination::Intersection((source("categories"), source("sparql"))),
        Combination::Not((
            source("categories"),
            Box::new(Combination::Union((source("sparql"), source("pagepile")))),
        )),
        Combination::Union((
            Box::new(Combination::Intersection((source("manual"), source("wikidata")))),
            Box::new(Combination::Not((source("sparql"), source("pagepile")))),
        )),
        Combination::Source("wikidata".to_string()),
        Combination::Source(" Wikidata\n".to_string()),
        Combination::Not((
            source("Categories"),
            Box::new(Combination::Intersection((source("SPARQL"), source("pagePile")))),
        )),
    ];
    for tree in trees {
        let text = tree.to_string();
        assert_eq!(Combination::parse_combination_string(&text), tree);
    }
    assert_eq!(
        Combination::Not((
            source("categories"),
            Box::new(Combination::Union((source("sparql"), source("pagepile")))),
        ))
        .to_string(),
        "(categories NOT (sparql OR pagepile))"
    );
    assert_eq!(Combination::Nothing.to_string(), "nothing");
}

#[test]
fn tokens_of_ascii_and_unicode_text() {
    assert_eq!(
        tokenize("categories NOT (sparql OR pagepile)"),
        vec!["categories", "NOT", "(", "sparql", "OR", "pagepile", ")"]
    );
    assert_eq!(tokenize("don't  a'b'c x_1!"), vec!["don't", "a'b", "'", "c", "x_1", "!"]);
    assert_eq!(tokenize("it' s"), vec!["it", "'", "s"]);
    // beyond ASCII the regular expression cuts the text
    assert_eq!(tokenize("caf\u{e9} AND (\u{fc}ber)"), vec!["caf\u{e9}", "AND", "(", "\u{fc}ber", ")"]);
    assert!(tokenize(" \t\n").is_empty());
}

#[test]
fn ascii_tokens_agree_with_the_pattern() {
    let re = Regex::new(r"\w+(?:'\w+)?|[^\w\s]").unwrap();
    let alphabet = ['a', 'Z', '_', '1', '\'', ' ', '(', '\t', '\u{b}', '.', '\u{1f}', '\u{7f}'];
    let mut texts: Vec<String> = vec![String::new()];
    let mut from = 0;
    for _ in 0..4 {
        let upto = texts.len();
        for i in from..upto {
            for c in alphabet {
                let mut t = texts[i].clone();
                t.push(c);
                texts.push(t);
            }
        }
        from = upto;
    }
    assert_eq!(texts.len(), 1 + 12 + 144 + 1728 + 20736);
    for t in &texts {
        let expected: Vec<String> = re.find_iter(t).map(|m| m.as_str().to_string()).collect();
        assert_eq!(&tokenize(t), &expected, "{:?}", t);
    }
}
