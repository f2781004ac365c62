use petscan::annotate::RowAnnotation;
use petscan::entry::PageListEntry;
use petscan::pagelist::PageList;
use petscan::pipeline::{lenient_texts_from_rows, sitelink_from_row, texts_from_rows, Intake};
use petscan::platform::Platform;
use petscan::reader::RowReader;
use petscan::row::{cell_i64, cell_text, cell_text_lossy, cell_u32, cell_u64, cell_usize, SqlValue};
use petscan::title::Title;
use petscan::tristate::TriState;

fn b(s: &str) -> SqlValue {
    SqlValue::Bytes(s.as_bytes().to_vec())
}

fn list(wiki: &str, names: &[(&str, i64)]) -> PageList {
    let mut pl = PageList::new_from_wiki(wiki);
    for (n, ns) in names {
        pl.add_entry(PageListEntry::new(Title::new(n, *ns)));
    }
    pl
}

fn names(pl: &PageList) -> Vec<String> {
    pl.entries()
        .iter()
        .map(|e| format!("{}:{}", e.title().namespace_id(), e.title().pretty()))
        .collect()
}

#[test]
fn cells_are_read_by_kind() {
    assert_eq!(cell_text(&b("caf\u{e9}")), Some("caf\u{e9}".to_string()));
    assert_eq!(cell_text(&SqlValue::Bytes(vec![0x63, 0xff])), None);
    assert_eq!(cell_text(&SqlValue::Int(5)), None);
    assert_eq!(cell_text(&SqlValue::Null), None);
    assert_eq!(
        cell_text_lossy(&SqlValue::Bytes(vec![0x63, 0xff])),
        Some("c\u{fffd}".to_string())
    );
    assert_eq!(cell_text_lossy(&b("ok")), Some("ok".to_string()));
    assert_eq!(cell_text_lossy(&SqlValue::Other), None);
    assert_eq!(cell_i64(&SqlValue::Int(-3)), Some(-3));
    assert_eq!(cell_i64(&SqlValue::UInt(u64::MAX)), None);
    assert_eq!(cell_i64(&SqlValue::UInt(7)), Some(7));
    assert_eq!(cell_i64(&b("-42")), Some(-42));
    assert_eq!(cell_i64(&b("4 2")), None);
    assert_eq!(cell_i64(&SqlValue::Null), None);
    assert_eq!(cell_u64(&SqlValue::Int(-3)), None);
    assert_eq!(cell_u64(&b("18446744073709551615")), Some(u64::MAX));
    assert_eq!(cell_u64(&b("")), None);
    assert_eq!(cell_u32(&SqlValue::Int(4294967296)), None);
    assert_eq!(cell_u32(&SqlValue::UInt(4294967295)), Some(4294967295));
    assert_eq!(cell_usize(&b("12")), Some(12));
    let row = vec![b("x"), SqlValue::Int(9), SqlValue::UInt(8)];
    assert_eq!(PageList::string_from_row(&row, 0), Some("x".to_string()));
    assert_eq!(PageList::string_from_row(&row, 1), None);
    assert_eq!(PageList::string_from_row(&row, 9), None);
}

#[test]
fn entry_from_row_needs_text_and_number() {
    let row = vec![b("Main_Page"), SqlValue::Int(4)];
    let e = PageList::entry_from_row(&row, 0, 1).unwrap();
    assert_eq!(*e.title(), Title::new("Main Page", 4));
    assert!(PageList::entry_from_row(&row, 1, 0).is_none());
    assert!(PageList::entry_from_row(&vec![b("x"), b("4")], 0, 1).is_none());
    assert!(PageList::entry_from_row(&row, 0, 2).is_none());
}

#[test]
fn page_metadata_is_annotated() {
    let mut pl = list("enwiki", &[("A", 0), ("B", 0)]);
    let rows = vec![
        vec![b("B"), SqlValue::Int(0), SqlValue::Int(77), SqlValue::UInt(1234), b("20190102030405")],
        vec![b("C"), SqlValue::Int(0), SqlValue::Int(78), SqlValue::UInt(1), b("x")],
        vec![b("A"), SqlValue::Int(0), SqlValue::Int(-1), SqlValue::UInt(1), b("x")],
        vec![b("A"), SqlValue::Int(0), SqlValue::Int(5)],
    ];
    pl.annotate_batch_results(&rows, 0, 1, &RowAnnotation::PageMetadata);
    assert_eq!(pl.len(), 2);
    let a = &pl.entries()[0];
    assert_eq!(a.get_page_id(), None);
    let e = &pl.entries()[1];
    assert_eq!(e.get_page_id(), Some(77));
    assert_eq!(e.get_page_bytes(), Some(1234));
    assert_eq!(e.get_page_timestamp(), Some("20190102030405".to_string()));
    assert!(pl.needs_page_metadata());
    let rows = vec![vec![b("A"), SqlValue::Int(0), b("5"), b("6"), b("t")]];
    pl.take_in(
        &rows,
        &Intake::Annotate {
            col_title: 0,
            col_ns: 1,
            annotation: RowAnnotation::PageMetadata,
        },
    );
    assert_eq!(pl.entries()[0].get_page_id(), Some(5));
    assert!(!pl.needs_page_metadata());
}

#[test]
fn wikidata_terms_are_annotated() {
    let mut pl = list("wikidatawiki", &[("Q12345", 0)]);
    let rows = vec![
        vec![b("Q12345"), SqlValue::Int(0), b("Graaf Tel"), b("label")],
        vec![b("Q12345"), SqlValue::Int(0), b("figuur van Sesamstraat"), b("description")],
        vec![b("Q12345"), SqlValue::Int(0), b("Count"), b("alias")],
    ];
    pl.annotate_batch_results(&rows, 0, 1, &RowAnnotation::WikidataTerms);
    let e = &pl.entries()[0];
    assert_eq!(e.get_wikidata_label(), Some("Graaf Tel".to_string()));
    assert_eq!(
        e.get_wikidata_description(),
        Some("figuur van Sesamstraat".to_string())
    );
}

#[test]
fn file_usage_and_data_are_annotated() {
    let mut pl = list("commonswiki", &[("KingsCollegeChapelWest.jpg", 6)]);
    let rows = vec![vec![
        b("KingsCollegeChapelWest.jpg"),
        SqlValue::Int(6),
        b("enwiki:0::Cambridge|dewiki:2:Benutzer:X|bad"),
    ]];
    pl.annotate_batch_results(&rows, 0, 1, &RowAnnotation::FileUsage);
    let fi = pl.entries()[0].get_file_info().unwrap();
    assert_eq!(fi.file_usage.len(), 2);
    assert_eq!(fi.file_usage[0].wiki(), "enwiki");
    assert_eq!(*fi.file_usage[1].title(), Title::new("X", 2));
    assert_eq!(fi.img_size, None);
    let rows = vec![vec![
        b("KingsCollegeChapelWest.jpg"),
        SqlValue::Int(6),
        SqlValue::Int(223131),
        SqlValue::Int(1025),
        SqlValue::Int(768),
        b("BITMAP"),
        b("image"),
        b("jpeg"),
        b("Solipsist~commonswiki"),
        b("20050101000000"),
        b("sypcaey3hmlhjky46x0nhiwhiivx6yj"),
    ]];
    pl.annotate_batch_results(&rows, 0, 1, &RowAnnotation::FileData);
    let fi = pl.entries()[0].get_file_info().unwrap();
    assert_eq!(fi.file_usage.len(), 2);
    assert_eq!(fi.img_size, Some(223131));
    assert_eq!(fi.img_width, Some(1025));
    assert_eq!(fi.img_height, Some(768));
    assert_eq!(fi.img_user_text, Some("Solipsist~commonswiki".to_string()));
    assert_eq!(fi.img_sha1, Some("sypcaey3hmlhjky46x0nhiwhiivx6yj".to_string()));
    assert_eq!(fi.img_major_mime, Some("image".to_string()));
}

#[test]
fn page_extras_are_annotated() {
    let mut pl = list("enwiki", &[("Cambridge", 0), ("Oxford", 0)]);
    let extras = RowAnnotation::PageExtras {
        add_image: true,
        add_coordinates: true,
        add_defaultsort: false,
        add_disambiguation: true,
        add_incoming_links: true,
    };
    let rows = vec![
        vec![
            b("Cambridge"),
            SqlValue::Int(0),
            b("KingsCollegeChapelWest.jpg"),
            b("52.205,0.119"),
            SqlValue::Null,
            SqlValue::Int(7600),
        ],
        vec![b("Oxford"), SqlValue::Int(0), SqlValue::Null, b("nowhere"), b("1"), b("12")],
        vec![b("Oxford"), SqlValue::Int(0), b("short row")],
    ];
    pl.annotate_batch_results(&rows, 0, 1, &extras);
    let c = &pl.entries()[0];
    assert_eq!(c.get_page_image(), Some("KingsCollegeChapelWest.jpg".to_string()));
    let coordinates = c.get_coordinates().unwrap();
    assert_eq!(coordinates.lat(), "52.205");
    assert_eq!(coordinates.lon(), "0.119");
    assert_eq!(c.get_disambiguation(), TriState::No);
    assert_eq!(c.get_incoming_links(), Some(7600));
    assert_eq!(c.get_defaultsort(), None);
    let o = &pl.entries()[1];
    assert_eq!(o.get_page_image(), None);
    assert_eq!(o.get_coordinates(), None);
    assert_eq!(o.get_disambiguation(), TriState::Yes);
    assert_eq!(o.get_incoming_links(), None);
}

#[test]
fn rows_become_entries() {
    let mut pl = list("wikidatawiki", &[("Q1", 0)]);
    let rows = vec![vec![b("Q2")], vec![b("Q1")], vec![SqlValue::Int(3)], vec![b("Q3"), b("x")]];
    pl.process_batch_results(&rows, &RowReader::MainTitle);
    assert_eq!(names(&pl), vec!["0:Q1", "0:Q2"]);
    pl.process_batch_results(&vec![vec![SqlValue::Bytes(vec![0x51, 0xff])]], &RowReader::MainTitle);
    assert_eq!(pl.len(), 2);
    pl.process_batch_results(
        &vec![vec![SqlValue::Bytes(vec![0x51, 0xff])]],
        &RowReader::MainTitleLossy,
    );
    assert_eq!(names(&pl), vec!["0:Q1", "0:Q2", "0:Q\u{fffd}"]);
    pl.clear_entries();
    pl.process_batch_results(
        &vec![vec![b("Q5"), SqlValue::Int(12)], vec![b("Q6"), SqlValue::Null], vec![b("Q7")]],
        &RowReader::CountedMainTitle,
    );
    assert_eq!(names(&pl), vec!["0:Q5"]);
    pl.clear_entries();
    pl.process_batch_results(
        &vec![vec![b("Q5")], vec![b("P31")], vec![b("L7")], vec![b("M9")], vec![b("")]],
        &RowReader::Entity,
    );
    assert_eq!(names(&pl), vec!["0:Q5", "120:P31", "146:L7"]);
    pl.clear_entries();
    pl.process_batch_results(
        &vec![vec![b("A/b"), SqlValue::Int(2)], vec![b("C"), b("14")]],
        &RowReader::TitleAndNamespace,
    );
    assert_eq!(names(&pl), vec!["2:A/b", "14:C"]);
}

#[test]
fn entity_letters_name_namespaces() {
    assert_eq!(
        *Platform::entry_from_entity("Q42").unwrap().title(),
        Title::new("Q42", 0)
    );
    assert_eq!(
        *Platform::entry_from_entity("P31").unwrap().title(),
        Title::new("P31", 120)
    );
    assert_eq!(
        *Platform::entry_from_entity("L1").unwrap().title(),
        Title::new("L1", 146)
    );
    assert!(Platform::entry_from_entity("M1").is_none());
    assert!(Platform::entry_from_entity("").is_none());
}

#[test]
fn missing_rows_keep_existing_entries() {
    let mut pl = PageList::new_from_wiki("enwiki");
    let mut e = PageListEntry::new(Title::new("A/b", 0));
    e.set_page_id(Some(3));
    pl.add_entry(e);
    let rows = vec![vec![b("A/b"), SqlValue::Int(0)], vec![b("A/c"), SqlValue::Int(0)]];
    pl.take_in(&rows, &Intake::AddMissing(RowReader::TitleAndNamespace));
    assert_eq!(names(&pl), vec!["0:A/b", "0:A/c"]);
    assert_eq!(pl.entries()[0].get_page_id(), Some(3));
    pl.take_in(&rows, &Intake::Add(RowReader::TitleAndNamespace));
    assert_eq!(pl.entries()[0].get_page_id(), None);
    pl.take_in(&rows, &Intake::FullTitles);
    assert_eq!(pl.len(), 2);
}

#[test]
fn redlinks_are_counted() {
    let mut pl = list("enwiki", &[("Source", 0)]);
    let rows = vec![
        vec![b("Missing_one"), SqlValue::Int(0), SqlValue::Int(0)],
        vec![b("Missing two"), SqlValue::Int(0), SqlValue::Int(0)],
        vec![b("Missing_one"), SqlValue::Int(0), SqlValue::Int(0)],
        vec![b("Missing_one"), SqlValue::Int(4), SqlValue::Int(0)],
        vec![b("Too wide"), SqlValue::Int(0), SqlValue::Int(256)],
        vec![b("short")],
    ];
    let mut all = pl.clone();
    all.set_redlinks(&rows, 1);
    assert_eq!(names(&all), vec!["0:Missing one", "0:Missing two", "4:Missing one"]);
    assert_eq!(all.entries()[0].get_redlink_count(), Some(2));
    assert_eq!(all.entries()[1].get_redlink_count(), Some(1));
    assert_eq!(all.wiki(), Some("enwiki".to_string()));
    pl.take_in(&rows, &Intake::Redlinks { min: 2 });
    assert_eq!(names(&pl), vec!["0:Missing one"]);
}

#[test]
fn texts_and_sitelinks_are_read() {
    let rows = vec![vec![b("a")], vec![SqlValue::Int(1)], vec![b("b"), b("c")], vec![b("d")]];
    assert_eq!(texts_from_rows(&rows), vec!["a", "d"]);
    assert_eq!(
        lenient_texts_from_rows(&vec![vec![SqlValue::Bytes(vec![0xff])], vec![b("x")]]),
        vec!["\u{fffd}", "x"]
    );
    assert_eq!(
        sitelink_from_row(&vec![b("User:Magnus Manske"), SqlValue::Int(13520818)]),
        Some(("User:Magnus Manske".to_string(), 13520818))
    );
    assert_eq!(sitelink_from_row(&vec![b("x"), b("1")]), None);
    assert_eq!(sitelink_from_row(&vec![b("x")]), None);
}

#[test]
fn wikidata_items_are_noted_and_filtered() {
    let mut pl = list("enwiki", &[("Count von Count", 0), ("Nobody", 0)]);
    pl.note_wikidata_item(&Title::new("Count_von_Count", 0), 12345);
    pl.note_wikidata_item(&Title::new("Unknown", 0), 1);
    assert_eq!(
        pl.entries()[0].get_wikidata_item(),
        Some("Q12345".to_string())
    );
    let mut with = pl.clone();
    with.retain_by_wikidata_item(true);
    assert_eq!(names(&with), vec!["0:Count von Count"]);
    pl.retain_by_wikidata_item(false);
    assert_eq!(names(&pl), vec!["0:Nobody"]);
}

#[test]
fn subpages_are_kept_or_dropped() {
    let mut pl = list("enwiki", &[("A", 2), ("A/b", 2), ("C/d/e", 2)]);
    let mut subs = pl.clone();
    subs.retain_by_subpage(true);
    assert_eq!(names(&subs), vec!["2:A/b", "2:C/d/e"]);
    assert_eq!(
        pl.subpage_queries()[1],
        (
            "SELECT page_title,page_namespace FROM page WHERE page_namespace=? AND page_title LIKE ?"
                .to_string(),
            vec!["2".to_string(), "A/b/%".to_string()]
        )
    );
    pl.retain_by_subpage(false);
    assert_eq!(names(&pl), vec!["2:A"]);
}

#[test]
fn a_failed_query_hands_its_error_on() {
    let mut pl = PageList::new_from_wiki("enwiki");
    pl.add_entry(PageListEntry::new(Title::new("A", 0)));
    let failed: Result<Vec<Vec<SqlValue>>, String> = Err("server has gone away".to_string());
    let intake = Intake::Add(RowReader::TitleAndNamespace);
    assert_eq!(pl.take_in_outcome(&failed, &intake), Err("server has gone away".to_string()));
    assert_eq!(names(&pl), vec!["0:A"]);
    let rows: Result<Vec<Vec<SqlValue>>, String> = Ok(vec![vec![b("B"), SqlValue::Int(4)]]);
    assert_eq!(pl.take_in_outcome(&rows, &intake), Ok(()));
    assert_eq!(names(&pl), vec!["0:A", "4:B"]);
}
