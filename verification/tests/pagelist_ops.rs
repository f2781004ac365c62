use petscan::entry::PageListEntry;
use petscan::pagelist::PageList;
use petscan::sort::PageListSort;
use petscan::title::Title;
use std::cmp::Ordering;

fn entry(name: &str, ns: i64) -> PageListEntry {
    PageListEntry::new(Title::new(name, ns))
}

fn list(wiki: &str, names: &[&str]) -> PageList {
    let mut pl = PageList::new_from_wiki(wiki);
    for n in names {
        pl.add_entry(entry(n, 0));
    }
    pl
}

fn names(pl: &PageList) -> Vec<String> {
    pl.entries()
        .iter()
        .map(|e| e.title().pretty().to_string())
        .collect()
}

#[test]
fn title_normalises_underscores() {
    let t = Title::new(" Magnus_Manske ", 0);
    assert_eq!(t.pretty(), "Magnus Manske");
    assert_eq!(t.with_underscores(), "Magnus_Manske");
    assert_eq!(t.namespace_id(), 0);
    assert_eq!(t, Title::new("Magnus Manske", 0));
    assert!(t != Title::new("Magnus Manske", 1));
}

#[test]
fn add_entry_replaces_same_title() {
    let mut pl = PageList::new_from_wiki("enwiki");
    pl.add_entry(entry("A", 0));
    pl.add_entry(entry("B", 0));
    let mut a2 = entry("A", 0);
    a2.set_page_id(Some(7));
    pl.add_entry(a2);
    assert_eq!(pl.len(), 2);
    assert_eq!(names(&pl), vec!["A", "B"]);
    assert_eq!(pl.entries()[0].get_page_id(), Some(7));
    assert_eq!(pl.wiki(), Some("enwiki".to_string()));
}

#[test]
fn union_merges_and_replaces() {
    let mut a = list("enwiki", &["A", "B"]);
    let mut b = list("enwiki", &["B", "C"]);
    let mut b_entry = entry("B", 0);
    b_entry.set_page_bytes(Some(10));
    b.add_entry(b_entry);
    assert_eq!(a.union(&b), Ok(()));
    assert_eq!(names(&a), vec!["A", "B", "C"]);
    assert_eq!(a.entries()[1].get_page_bytes(), Some(10));
}

#[test]
fn union_into_empty_takes_other() {
    let mut a = list("enwiki", &[]);
    let b = list("enwiki", &["X", "Y"]);
    assert_eq!(a.union(&b), Ok(()));
    assert_eq!(names(&a), vec!["X", "Y"]);
}

#[test]
fn union_is_commutative_up_to_titles() {
    let mut ab = list("enwiki", &["A", "B"]);
    ab.union(&list("enwiki", &["B", "C"])).unwrap();
    let mut ba = list("enwiki", &["B", "C"]);
    ba.union(&list("enwiki", &["A", "B"])).unwrap();
    let mut x = names(&ab);
    let mut y = names(&ba);
    x.sort();
    y.sort();
    assert_eq!(x, y);
}

#[test]
fn union_and_intersection_are_idempotent() {
    let mut a = list("enwiki", &["A", "B"]);
    let copy = a.clone();
    a.union(&copy).unwrap();
    assert_eq!(names(&a), vec!["A", "B"]);
    a.intersection(&copy).unwrap();
    assert_eq!(names(&a), vec!["A", "B"]);
}

#[test]
fn intersection_keeps_common() {
    let mut a = list("enwiki", &["A", "B", "C"]);
    let b = list("enwiki", &["C", "A", "D"]);
    assert_eq!(a.intersection(&b), Ok(()));
    assert_eq!(names(&a), vec!["A", "C"]);
}

#[test]
fn difference_drops_common() {
    let mut a = list("enwiki", &["A", "B", "C"]);
    let b = list("enwiki", &["C", "A", "D"]);
    assert_eq!(a.difference(&b), Ok(()));
    assert_eq!(names(&a), vec!["B"]);
    let copy = a.clone();
    a.difference(&copy).unwrap();
    assert!(a.is_empty());
}

#[test]
fn union_then_difference_is_within_first() {
    let mut a = list("enwiki", &["A", "B"]);
    let b = list("enwiki", &["B", "C"]);
    a.union(&b).unwrap();
    a.difference(&b).unwrap();
    assert_eq!(names(&a), vec!["A"]);
}

#[test]
fn merging_different_wikis_fails() {
    let mut a = list("enwiki", &["A"]);
    let b = list("dewiki", &["A"]);
    assert_eq!(
        a.union(&b),
        Err("PageList::check_before_merging wikis are not identical: enwiki/dewiki".to_string())
    );
    assert_eq!(
        a.intersection(&b),
        Err("PageList::check_before_merging wikis are not identical: enwiki/dewiki".to_string())
    );
    assert_eq!(
        a.difference(&b),
        Err("PageList::check_before_merging wikis are not identical: enwiki/dewiki".to_string())
    );
    assert_eq!(names(&a), vec!["A"]);
    assert_eq!(a.check_before_merging(&b, true), Ok(true));
    assert_eq!(a.check_before_merging(&a.clone(), true), Ok(false));
}

#[test]
fn merging_untagged_fails() {
    let mut a = list("enwiki", &["A"]);
    let mut b = list("enwiki", &["A"]);
    b.clear();
    assert_eq!(
        a.union(&b),
        Err("PageList::check_before_merging pagelist.wiki is not set".to_string())
    );
    assert_eq!(
        b.union(&a),
        Err("PageList::check_before_merging self.wiki is not set".to_string())
    );
    assert_eq!(b.wiki(), None);
    assert!(b.is_empty());
}

#[test]
fn sql_batches_chunk_by_namespace() {
    let mut pl = PageList::new_from_wiki("enwiki");
    pl.add_entry(entry("A b", 0));
    pl.add_entry(entry("File one", 6));
    pl.add_entry(entry("C", 0));
    pl.add_entry(entry("D", 0));
    let groups = pl.group_by_namespace();
    assert_eq!(
        groups,
        vec![
            (0, vec!["A_b".to_string(), "C".to_string(), "D".to_string()]),
            (6, vec!["File_one".to_string()])
        ]
    );
    let batches = pl.to_sql_batches(2);
    assert_eq!(
        batches,
        vec![
            (
                "(page_namespace=0 AND page_title IN(?,?))".to_string(),
                vec!["A_b".to_string(), "C".to_string()]
            ),
            (
                "(page_namespace=0 AND page_title IN(?))".to_string(),
                vec!["D".to_string()]
            ),
            (
                "(page_namespace=6 AND page_title IN(?))".to_string(),
                vec!["File_one".to_string()]
            ),
        ]
    );
    for b in &batches {
        assert!(b.1.len() <= 2);
    }
    assert_eq!(
        pl.to_sql_batches_namespace(200, 6),
        vec![(
            "(page_namespace=6 AND page_title IN(?))".to_string(),
            vec!["File_one".to_string()]
        )]
    );
    assert!(pl.to_sql_batches_namespace(200, 120).is_empty());
    assert!(PageList::new_from_wiki("enwiki").to_sql_batches(200).is_empty());
}

#[test]
fn sql_batches_negative_namespace() {
    let mut pl = PageList::new_from_wiki("enwiki");
    pl.add_entry(entry("Search", -1));
    assert_eq!(
        pl.to_sql_batches(200),
        vec![(
            "(page_namespace=-1 AND page_title IN(?))".to_string(),
            vec!["Search".to_string()]
        )]
    );
}

#[test]
fn sorting_by_title_and_page_id() {
    let mut pl = PageList::new_from_wiki("enwiki");
    let mut b = entry("B", 0);
    b.set_page_id(Some(1));
    let mut a = entry("A", 0);
    a.set_page_id(Some(2));
    let c = entry("C", 0);
    pl.add_entry(b);
    pl.add_entry(c);
    pl.add_entry(a);
    let mut by_title = pl.clone();
    let sorted: Vec<String> = by_title
        .drain_into_sorted_vec(PageListSort::Title(false))
        .iter()
        .map(|e| e.title().pretty().to_string())
        .collect();
    assert_eq!(sorted, vec!["A", "B", "C"]);
    assert!(by_title.is_empty());
    let mut by_title_desc = pl.clone();
    let sorted: Vec<String> = by_title_desc
        .drain_into_sorted_vec(PageListSort::Title(true))
        .iter()
        .map(|e| e.title().pretty().to_string())
        .collect();
    assert_eq!(sorted, vec!["C", "B", "A"]);
    // entries with a page id come before those without
    let sorted: Vec<String> = pl
        .drain_into_sorted_vec(PageListSort::Default(false))
        .iter()
        .map(|e| e.title().pretty().to_string())
        .collect();
    assert_eq!(sorted, vec!["B", "A", "C"]);
}

#[test]
fn sorting_by_label_with_an_entry_without_label() {
    let mut pl = PageList::new_from_wiki("wikidatawiki");
    pl.add_entry(entry("Q2", 0));
    let mut q1 = entry("Q1", 0);
    q1.set_wikidata_label(Some("a".to_string()));
    pl.add_entry(q1);
    let sorted: Vec<String> = pl
        .clone()
        .drain_into_sorted_vec(PageListSort::Title(false))
        .iter()
        .map(|e| e.title().pretty().to_string())
        .collect();
    assert_eq!(sorted, vec!["Q1", "Q2"]);
    let sorted: Vec<String> = pl
        .drain_into_sorted_vec(PageListSort::Title(true))
        .iter()
        .map(|e| e.title().pretty().to_string())
        .collect();
    assert_eq!(sorted, vec!["Q2", "Q1"]);
    let mut pl = PageList::new_from_wiki("wikidatawiki");
    pl.add_entry(entry("Z", 0));
    let mut m = entry("A", 0);
    m.set_wikidata_label(Some("m".to_string()));
    pl.add_entry(m);
    pl.add_entry(entry("B", 0));
    let sorted: Vec<String> = pl
        .drain_into_sorted_vec(PageListSort::Title(false))
        .iter()
        .map(|e| e.title().pretty().to_string())
        .collect();
    assert_eq!(sorted, vec!["A", "Z", "B"]);
}

#[test]
fn sorting_is_stable() {
    let mut pl = PageList::new_from_wiki("enwiki");
    for (n, size) in [("x", 5), ("a", 3), ("m", 5), ("b", 3), ("k", 5)] {
        let mut e = entry(n, 0);
        e.set_page_bytes(Some(size));
        pl.add_entry(e);
    }
    let sorted: Vec<String> = pl
        .drain_into_sorted_vec(PageListSort::Size(false))
        .iter()
        .map(|e| e.title().pretty().to_string())
        .collect();
    assert_eq!(sorted, vec!["a", "b", "x", "m", "k"]);
}

#[test]
fn random_sort_keeps_entries() {
    let mut pl = list("enwiki", &["A", "B", "C", "D", "E"]);
    let mut sorted: Vec<String> = pl
        .drain_into_sorted_vec(PageListSort::Random(false))
        .iter()
        .map(|e| e.title().pretty().to_string())
        .collect();
    sorted.sort();
    assert_eq!(sorted, vec!["A", "B", "C", "D", "E"]);
    let a = entry("A", 0);
    let b = entry("B", 0);
    assert_ne!(a.compare(&b, &PageListSort::Random(false), false), Ordering::Equal);
}

#[test]
fn compare_orders_some_before_none_and_reverses() {
    let mut a = entry("A", 0);
    a.set_page_bytes(Some(5));
    let b = entry("B", 0);
    assert_eq!(a.compare(&b, &PageListSort::Size(false), false), Ordering::Less);
    assert_eq!(a.compare(&b, &PageListSort::Size(true), false), Ordering::Greater);
    assert_eq!(b.compare(&b, &PageListSort::Size(true), false), Ordering::Equal);
    let c = entry("C", 2);
    assert_eq!(c.compare(&a, &PageListSort::NsTitle(false), false), Ordering::Greater);
    assert_eq!(a.compare(&b, &PageListSort::NsTitle(false), false), Ordering::Less);
    // on Wikidata the label, in lower case, decides
    let mut q1 = entry("Q1", 0);
    q1.set_wikidata_label(Some("zebra".to_string()));
    let mut q2 = entry("Q2", 0);
    q2.set_wikidata_label(Some("Apple".to_string()));
    assert_eq!(q1.compare(&q2, &PageListSort::Title(false), true), Ordering::Greater);
    assert_eq!(q1.compare(&q2, &PageListSort::Title(false), false), Ordering::Less);
    // an entry with a label comes before one without, whatever their titles
    let z = entry("Z", 0);
    let y = entry("Y", 0);
    let mut m = entry("A", 0);
    m.set_wikidata_label(Some("m".to_string()));
    assert_eq!(m.compare(&z, &PageListSort::Title(false), true), Ordering::Less);
    assert_eq!(z.compare(&m, &PageListSort::Title(false), true), Ordering::Greater);
    assert_eq!(z.compare(&m, &PageListSort::Title(true), true), Ordering::Less);
    assert_eq!(z.compare(&y, &PageListSort::Title(false), true), Ordering::Equal);
    assert_eq!(y.compare(&z, &PageListSort::Title(false), true), Ordering::Equal);
}

#[test]
fn regexp_filter_matches_whole_title() {
    let mut pl = list("enwiki", &["Jimbo Wales", "Larry Sanger", "Jimbo"]);
    pl.regexp_filter(&"Jimbo.*".to_string());
    assert_eq!(names(&pl), vec!["Jimbo Wales", "Jimbo"]);
    pl.regexp_filter(&"Wales".to_string());
    assert!(pl.is_empty());
}

#[test]
fn regexp_filter_uses_label_on_wikidata() {
    let mut pl = PageList::new_from_wiki("wikidatawiki");
    let mut q1 = entry("Q12345", 0);
    q1.set_wikidata_label(Some("Graaf Tel".to_string()));
    let mut q2 = entry("Q13520818", 0);
    q2.set_wikidata_label(Some("Magnus Manske".to_string()));
    pl.add_entry(q1);
    pl.add_entry(q2);
    pl.add_entry(entry("Q1", 0));
    let mut a = pl.clone();
    a.regexp_filter(&".*Manske".to_string());
    assert_eq!(names(&a), vec!["Q13520818"]);
    pl.regexp_filter(&"Graaf.*".to_string());
    assert_eq!(names(&pl), vec!["Q12345"]);
}

#[test]
fn regexp_filter_ignores_bad_pattern() {
    let mut pl = list("enwiki", &["A", "B"]);
    pl.regexp_filter(&"(".to_string());
    assert_eq!(names(&pl), vec!["A", "B"]);
}

#[test]
fn retain_and_clear() {
    let mut pl = list("enwiki", &["A/b", "C", "D/e"]);
    pl.retain_entries(|e: &PageListEntry| e.title().pretty().contains('/'));
    assert_eq!(names(&pl), vec!["A/b", "D/e"]);
    pl.clear_entries();
    assert!(pl.is_empty());
    assert_eq!(pl.wiki(), Some("enwiki".to_string()));
    pl.clear();
    assert_eq!(pl.wiki(), None);
    let other = list("dewiki", &["X"]);
    pl.set_from(other);
    assert_eq!(pl.wiki(), Some("dewiki".to_string()));
    assert_eq!(names(&pl), vec!["X"]);
    assert!(!pl.is_wikidata());
    pl.set_wiki(Some("wikidatawiki".to_string()));
    assert!(pl.is_wikidata());
    pl.set_entries(vec![entry("Q1", 0), entry("Q2", 0), entry("Q1", 0)]);
    assert_eq!(names(&pl), vec!["Q1", "Q2"]);
    pl.replace_entries(&list("wikidatawiki", &["Q3"]));
    assert_eq!(names(&pl), vec!["Q1", "Q2", "Q3"]);
    let nv = PageList::new_from_vec("enwiki", vec![entry("A", 0), entry("A", 0)]);
    assert_eq!(nv.len(), 1);
}

#[test]
fn lists_are_equal_by_wiki_and_titles() {
    let a = list("enwiki", &["A", "B"]);
    let mut b = list("enwiki", &["B"]);
    assert!(a != b);
    let mut annotated = entry("A", 0);
    annotated.set_page_id(Some(5));
    b.add_entry(annotated);
    assert!(a == b);
    assert!(a.covers(&b));
    assert!(a != list("dewiki", &["A", "B"]));
    assert!(a != list("enwiki", &["A", "B", "C"]));
    assert!(!a.covers(&list("enwiki", &["C"])));
    assert!(entry("A", 0) == b.entries()[1]);
    assert!(entry("A", 1) != entry("A", 0));
}
