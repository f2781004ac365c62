use petscan::combination::Combination;
use petscan::entry::PageListEntry;
use petscan::evaluate::{Evaluation, Progress};
use petscan::pagelist::PageList;
use petscan::platform::Platform;
use petscan::title::Title;

fn list(wiki: &str, names: &[&str]) -> PageList {
    let mut pl = PageList::new_from_wiki(wiki);
    for n in names {
        pl.add_entry(PageListEntry::new(Title::new(n, 0)));
    }
    pl
}

fn names(pl: &PageList) -> Vec<String> {
    pl.entries()
        .iter()
        .map(|e| e.title().pretty().to_string())
        .collect()
}

fn source(name: &str) -> Box<Combination> {
    Box::new(Combination::Source(name.to_string()))
}

fn results() -> Vec<(String, PageList)> {
    vec![
        ("categories".to_string(), list("enwiki", &["A", "B", "C"])),
        ("sparql".to_string(), list("enwiki", &["B", "C", "D"])),
        ("manual".to_string(), list("enwiki", &["C"])),
        ("pagepile".to_string(), list("dewiki", &["B"])),
    ]
}

fn evaluate(c: &Combination) -> Result<PageList, String> {
    let mut e = Evaluation::new(c);
    match e.advance(&results()) {
        Progress::Done(list) => Ok(list),
        Progress::Failed(msg) => Err(msg),
        Progress::Convert(wiki) => Err(format!("convert to {}", wiki)),
    }
}

#[test]
fn evaluates_set_operations() {
    let c = Combination::Not((
        source("categories"),
        Box::new(Combination::Union((source("manual"), source("sparql")))),
    ));
    assert_eq!(names(&evaluate(&c).unwrap()), vec!["A"]);
    let c = Combination::Intersection((source("categories"), source("sparql")));
    assert_eq!(names(&evaluate(&c).unwrap()), vec!["B", "C"]);
    let c = Combination::Union((source("manual"), source("categories")));
    assert_eq!(names(&evaluate(&c).unwrap()), vec!["C", "A", "B"]);
    assert_eq!(names(&evaluate(&Combination::Source("sparql".to_string())).unwrap()), vec!["B", "C", "D"]);
}

#[test]
fn nothing_is_neutral_or_an_error() {
    let c = Combination::Union((Box::new(Combination::Nothing), source("manual")));
    assert_eq!(names(&evaluate(&c).unwrap()), vec!["C"]);
    let c = Combination::Union((source("manual"), Box::new(Combination::Nothing)));
    assert_eq!(names(&evaluate(&c).unwrap()), vec!["C"]);
    let c = Combination::Not((source("manual"), Box::new(Combination::Nothing)));
    assert_eq!(names(&evaluate(&c).unwrap()), vec!["C"]);
    let c = Combination::Not((Box::new(Combination::Nothing), source("manual")));
    assert_eq!(evaluate(&c).err(), Some("Not with Combination::None found".to_string()));
    let c = Combination::Intersection((Box::new(Combination::Nothing), source("manual")));
    assert_eq!(
        evaluate(&c).err(),
        Some("Intersection with Combination::None found".to_string())
    );
    let c = Combination::Intersection((source("manual"), Box::new(Combination::Nothing)));
    assert_eq!(
        evaluate(&c).err(),
        Some("Intersection with Combination::None found".to_string())
    );
    assert_eq!(
        evaluate(&Combination::Nothing).err(),
        Some("Combination::None found".to_string())
    );
}

#[test]
fn missing_source_fails() {
    let c = Combination::Union((source("wikidata"), source("manual")));
    assert_eq!(evaluate(&c).err(), Some("No result for source wikidata".to_string()));
}

#[test]
fn different_wikis_ask_for_conversion() {
    let c = Combination::Intersection((source("categories"), source("pagepile")));
    let mut e = Evaluation::new(&c);
    match e.advance(&results()) {
        Progress::Convert(wiki) => assert_eq!(wiki, "enwiki"),
        _ => panic!("conversion expected"),
    }
    let pending = e.take_pending().unwrap();
    assert_eq!(pending.wiki(), Some("dewiki".to_string()));
    assert_eq!(names(&pending), vec!["B"]);
    e.put_converted(list("enwiki", &["B", "X"]));
    match e.advance(&results()) {
        Progress::Done(list) => assert_eq!(names(&list), vec!["B"]),
        _ => panic!("result expected"),
    }
}

#[test]
fn failed_conversion_fails_the_merge() {
    let c = Combination::Union((source("categories"), source("pagepile")));
    let mut e = Evaluation::new(&c);
    assert!(matches!(e.advance(&results()), Progress::Convert(_)));
    let pending = e.take_pending().unwrap();
    e.put_converted(pending);
    match e.advance(&results()) {
        Progress::Failed(msg) => assert_eq!(
            msg,
            "PageList::check_before_merging wikis are not identical: enwiki/dewiki"
        ),
        _ => panic!("failure expected"),
    }
}

#[test]
fn default_combination_intersects_all_sources() {
    let all = vec!["categories".to_string(), "sparql".to_string(), "manual".to_string()];
    let c = Platform::combine_all(&all);
    assert_eq!(
        c,
        Combination::Intersection((
            Box::new(Combination::Intersection((source("categories"), source("sparql")))),
            source("manual")
        ))
    );
    assert_eq!(names(&evaluate(&c).unwrap()), vec!["C"]);
    assert_eq!(Platform::combine_all(&vec![]), Combination::Nothing);
    assert_eq!(
        Platform::combine_all(&vec!["sparql".to_string()]),
        Combination::Source("sparql".to_string())
    );
}

#[test]
fn sources_are_chosen_in_order() {
    assert_eq!(
        Platform::candidate_sources(),
        vec!["categories", "sparql", "manual", "pagepile", "search", "wikidata"]
    );
    let flags = |f: [bool; 6]| -> Vec<(String, bool)> {
        Platform::candidate_sources()
            .into_iter()
            .zip(f.iter().cloned())
            .collect()
    };
    assert_eq!(
        Platform::available_sources(&flags([false, true, false, false, true, false]), true),
        Ok(vec!["sparql".to_string(), "search".to_string()])
    );
    assert_eq!(
        Platform::available_sources(&flags([false; 6]), true),
        Ok(vec!["labels".to_string()])
    );
    assert_eq!(
        Platform::available_sources(&flags([false; 6]), false),
        Err("No possible data source found in parameters".to_string())
    );
}
