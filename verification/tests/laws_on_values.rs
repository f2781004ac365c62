use petscan::annotate::RowAnnotation;
use petscan::entry::PageListEntry;
use petscan::file_info::{FileInfo, FileUsage};
use petscan::pagelist::PageList;
use petscan::reader::RowReader;
use petscan::row::SqlValue;
use petscan::sort::PageListSort;
use petscan::title::Title;

fn list(wiki: &str, names: &[(&str, i64)]) -> PageList {
    let mut pl = PageList::new_from_wiki(wiki);
    for (n, ns) in names {
        pl.add_entry(PageListEntry::new(Title::new(n, *ns)));
    }
    pl
}

fn tagged(pl: &PageList) -> bool {
    pl.wiki().is_some() || pl.is_empty()
}

#[test]
fn lists_stay_tagged() {
    let mut pl = list("enwiki", &[("A", 0), ("B", 0), ("C/d", 0)]);
    let other = list("enwiki", &[("B", 0), ("X", 0)]);
    assert!(tagged(&pl));
    pl.union(&other).unwrap();
    assert!(tagged(&pl));
    pl.intersection(&other).unwrap();
    assert!(tagged(&pl));
    pl.difference(&list("enwiki", &[("X", 0)])).unwrap();
    assert!(tagged(&pl));
    pl.regexp_filter(&"B".to_string());
    assert!(tagged(&pl));
    pl.process_batch_results(
        &vec![vec![SqlValue::Bytes(b"Q1".to_vec())]],
        &RowReader::MainTitle,
    );
    assert!(tagged(&pl));
    pl.annotate_batch_results(&vec![], 0, 1, &RowAnnotation::PageMetadata);
    assert!(tagged(&pl));
    let _ = pl.convert_to_wiki("dewiki", 0);
    assert!(tagged(&pl));
    let _ = pl.drain_into_sorted_vec(PageListSort::Default(false));
    assert!(tagged(&pl));
    pl.clear();
    assert!(tagged(&pl));
    assert_eq!(pl.wiki(), None);
    let untagged_other = pl.clone();
    let mut a = list("enwiki", &[("A", 0)]);
    assert!(a.union(&untagged_other).is_err());
    assert!(tagged(&a));
}

#[test]
fn entries_are_a_set_by_title() {
    let mut pl = list("enwiki", &[("A_b", 0), ("A b", 0), (" A b ", 0), ("A b", 1)]);
    assert_eq!(pl.len(), 2);
    assert!(pl.contains(&Title::new("A b", 0)));
    assert!(!pl.contains(&Title::new("A b", 2)));
    assert_eq!(pl.find(&Title::new("A_b", 1)), Some(1));
    assert!(pl.get(&Title::new("Z", 0)).is_none());
    pl.retain_flagged(&vec![false, true]);
    assert_eq!(pl.len(), 1);
    assert_eq!(pl.entries()[0].title().namespace_id(), 1);
}

#[test]
fn chunks_cover_the_list() {
    let mut pl = PageList::new_from_wiki("enwiki");
    let mut expected_main = vec![];
    let mut expected_file = vec![];
    for i in 0..23 {
        pl.add_entry(PageListEntry::new(Title::new(&format!("Page {}", i), 0)));
        expected_main.push(format!("Page_{}", i));
        if i % 3 == 0 {
            pl.add_entry(PageListEntry::new(Title::new(&format!("F {}.png", i), 6)));
            expected_file.push(format!("F_{}.png", i));
        }
    }
    for n in [1usize, 2, 5, 7, 23, 200] {
        let batches = pl.to_sql_batches(n);
        let mut main = vec![];
        let mut file = vec![];
        for (sql, params) in &batches {
            assert!(params.len() <= n);
            assert!(!params.is_empty());
            let marks = vec!["?"; params.len()].join(",");
            if sql == &format!("(page_namespace=0 AND page_title IN({}))", marks) {
                main.extend(params.iter().cloned());
            } else {
                assert_eq!(sql, &format!("(page_namespace=6 AND page_title IN({}))", marks));
                file.extend(params.iter().cloned());
            }
        }
        assert_eq!(main, expected_main);
        assert_eq!(file, expected_file);
    }
}

#[test]
fn every_title_is_in_a_chunk() {
    let pl = list("enwiki", &[("", 0), ("A", 0)]);
    assert_eq!(pl.len(), 2);
    assert_eq!(
        pl.to_sql_batches(200),
        vec![(
            "(page_namespace=0 AND page_title IN(?,?))".to_string(),
            vec!["".to_string(), "A".to_string()]
        )]
    );
    let only_blank = list("enwiki", &[("", 0)]);
    assert_eq!(
        only_blank.to_sql_batches(1),
        vec![("(page_namespace=0 AND page_title IN(?))".to_string(), vec!["".to_string()])]
    );
}

#[test]
fn nothing_to_cut_needs_no_chunk_size() {
    let empty = PageList::new_from_wiki("enwiki");
    assert!(empty.to_sql_batches(0).is_empty());
    assert!(empty.to_sql_batches_namespace(0, 6).is_empty());
    let pl = list("enwiki", &[("A", 0)]);
    assert!(pl.to_sql_batches_namespace(0, 6).is_empty());
}

#[test]
fn every_text_names_a_sort_key() {
    for (s, expected) in [
        ("title", PageListSort::Title(false)),
        ("ns_title", PageListSort::NsTitle(false)),
        ("size", PageListSort::Size(false)),
        ("date", PageListSort::Date(false)),
        ("redlinks", PageListSort::RedlinksCount(false)),
        ("incoming_links", PageListSort::IncomingLinks(false)),
        ("filesize", PageListSort::FileSize(false)),
        ("uploaddate", PageListSort::UploadDate(false)),
        ("random", PageListSort::Random(false)),
        ("", PageListSort::Default(false)),
        ("Title", PageListSort::Default(false)),
        (" title", PageListSort::Default(false)),
        ("\u{1f600}", PageListSort::Default(false)),
    ] {
        assert_eq!(PageListSort::new_from_params(&s.to_string(), false), expected);
    }
    assert_eq!(
        PageListSort::new_from_params(&"bogus".to_string(), true),
        PageListSort::Default(true)
    );
}

#[test]
fn usage_tokens_need_four_fields_and_a_number() {
    for token in ["", "a", "a:1", "a:1:b", "a:1:b:", "a:x:b:c", "a::b:c", "a:1.5:b:c", "a: 1:b:c"] {
        assert_eq!(FileUsage::new_from_part(&token.to_string()), None, "{}", token);
    }
    let fu = FileUsage::new_from_part(&"dewiki:-2:Medium:A_b:c".to_string()).unwrap();
    assert_eq!(fu.wiki(), "dewiki");
    assert_eq!(fu.namespace_name(), "Medium");
    assert_eq!(*fu.title(), Title::new("A b:c", -2));
    let fu = FileUsage::new_from_part(&"w:+3::x".to_string()).unwrap();
    assert_eq!(fu.namespace_name(), "");
    assert_eq!(fu.title().namespace_id(), 3);
    let fu = FileUsage::new_from_part(&"w:3:n::".to_string()).unwrap();
    assert_eq!(fu.title().pretty(), ":");
    assert!(FileInfo::new_from_gil_group(&"".to_string()).file_usage.is_empty());
    assert_eq!(FileInfo::new().img_size, None);
}

#[test]
fn sorting_by_dates_and_files() {
    let mut pl = PageList::new_from_wiki("commonswiki");
    for (name, size, stamp, edited) in [
        ("A.jpg", Some(30usize), Some("2019"), Some("20190101")),
        ("B.jpg", Some(10), None, Some("20180101")),
        ("C.jpg", None, Some("2017"), None),
    ] {
        let mut e = PageListEntry::new(Title::new(name, 6));
        let mut fi = FileInfo::new();
        fi.img_size = size;
        fi.img_timestamp = stamp.map(|s| s.to_string());
        e.set_file_info(Some(fi));
        e.set_page_timestamp(edited.map(|s| s.to_string()));
        pl.add_entry(e);
    }
    pl.add_entry(PageListEntry::new(Title::new("D.jpg", 6)));
    let order = |sorter: PageListSort| -> Vec<String> {
        pl.clone()
            .drain_into_sorted_vec(sorter)
            .iter()
            .map(|e| e.title().pretty().to_string())
            .collect()
    };
    assert_eq!(order(PageListSort::FileSize(false)), vec!["B.jpg", "A.jpg", "C.jpg", "D.jpg"]);
    assert_eq!(order(PageListSort::FileSize(true)), vec!["C.jpg", "D.jpg", "A.jpg", "B.jpg"]);
    assert_eq!(order(PageListSort::UploadDate(false)), vec!["C.jpg", "A.jpg", "B.jpg", "D.jpg"]);
    assert_eq!(order(PageListSort::Date(false)), vec!["B.jpg", "A.jpg", "C.jpg", "D.jpg"]);
    assert_eq!(order(PageListSort::Date(true)), vec!["C.jpg", "D.jpg", "A.jpg", "B.jpg"]);
    assert_eq!(order(PageListSort::NsTitle(true)), vec!["D.jpg", "C.jpg", "B.jpg", "A.jpg"]);
}
