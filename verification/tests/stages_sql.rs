use petscan::annotate::RowAnnotation;
use petscan::app_state::{AppState, Config};
use petscan::combination::Combination;
use petscan::output::RenderFormat;
use petscan::row::SqlValue;
use petscan::entry::PageListEntry;
use petscan::form_parameters::FormParameters;
use petscan::pagelist::PageList;
use petscan::pipeline::{Intake, Query, StageAction};
use petscan::platform::Platform;
use petscan::reader::RowReader;
use petscan::site_matrix::SiteMatrix;
use petscan::sort::PageListSort;
use petscan::stage_metadata::TermEntity;
use petscan::stages::Stage;
use petscan::title::Title;

fn state() -> AppState {
    AppState::new_from_config(
        Config {
            user: Some("u".to_string()),
            password: Some("p".to_string()),
            host: Some("h".to_string()),
            schema: Some("s".to_string()),
            db_port: None,
            dbservergroup: None,
            mysql: None,
        },
        SiteMatrix { entries: vec![] },
        String::new(),
    )
    .unwrap()
}

fn platform(params: &[(&str, &str)]) -> Platform {
    let mut fp = FormParameters::new();
    for (k, v) in params {
        fp.params.push((k.to_string(), v.to_string()));
    }
    fp.ns = vec![0, 14];
    Platform::new_from_parameters(&fp, &state())
}

fn list(wiki: &str, names: &[(&str, i64)]) -> PageList {
    let mut pl = PageList::new_from_wiki(wiki);
    for (n, ns) in names {
        pl.add_entry(PageListEntry::new(Title::new(n, *ns)));
    }
    pl
}

fn texts(v: &[&str]) -> Vec<String> {
    v.iter().map(|s| s.to_string()).collect()
}

fn query(action: StageAction) -> Query {
    match action {
        StageAction::Run(q) => q,
        other => panic!("query expected, got {:?}", other),
    }
}

const FRAGMENT_Q1_Q2: &str = "(page_namespace=0 AND page_title IN(?,?))";

#[test]
fn parameters_are_read() {
    let p = platform(&[("a", "x"), ("b", ""), ("a", "second"), ("list", " A b \n\n c_d \n"), ("n", "12")]);
    assert!(p.has_param("a"));
    assert!(!p.has_param("b"));
    assert!(!p.has_param("c"));
    assert_eq!(p.get_param("a"), Some("x".to_string()));
    assert_eq!(p.get_param("b"), None);
    assert_eq!(p.get_param_blank("b"), "");
    assert_eq!(p.get_param_blank("a"), "x");
    assert_eq!(p.get_param_default("b", "dflt"), "dflt");
    assert_eq!(p.get_param_default("c", "dflt"), "dflt");
    assert_eq!(p.get_param_default("a", "dflt"), "x");
    assert_eq!(p.get_param_as_vec("list", '\n'), vec!["A_b", "c_d"]);
    assert!(p.get_param_as_vec("c", '\n').is_empty());
    assert_eq!(p.usize_option_from_param("n"), Some(12));
    assert_eq!(p.usize_option_from_param("a"), None);
    assert_eq!(p.form_parameters().ns, vec![0, 14]);
}

#[test]
fn stages_come_in_order() {
    let all = vec![
        Stage::FilterWikidata,
        Stage::Sitelinks,
        Stage::Labels,
        Stage::CommonWiki,
        Stage::DatabaseFilters,
        Stage::WikidataItem,
        Stage::Files,
        Stage::Pages,
        Stage::Subpages,
        Stage::Metadata,
        Stage::RegexpFilter,
        Stage::Redlinks,
        Stage::Creator,
    ];
    assert_eq!(Platform::post_process_result(&texts(&["manual", "sparql"])), all);
    let mut without_labels = all.clone();
    without_labels.remove(2);
    assert_eq!(Platform::post_process_result(&texts(&["labels"])), without_labels);
    let mut without_filters = all.clone();
    without_filters.remove(4);
    assert_eq!(
        Platform::post_process_result(&texts(&["categories", "labels"])),
        without_filters
    );
}

#[test]
fn conversion_goes_by_wikidata() {
    let mut pl = list("enwiki", &[("Count von Count", 0), ("Magnus Manske", 0)]);
    assert!(matches!(pl.convert_to_wiki("enwiki", 0), StageAction::Finished));
    assert_eq!(pl.len(), 2);
    let q = query(pl.convert_to_wiki("frwiki", 0));
    assert_eq!(q.wiki, "enwiki");
    assert_eq!(
        q.batches,
        vec![(
            "SELECT pp_value FROM page_props,page WHERE page_id=pp_page AND pp_propname='wikibase_item' AND (page_namespace=0 AND page_title IN(?,?))".to_string(),
            texts(&["Count_von_Count", "Magnus_Manske"])
        )]
    );
    assert_eq!(q.intake, Intake::Add(RowReader::MainTitleLossy));
    assert!(pl.is_empty());
    assert_eq!(pl.wiki(), Some("enwiki".to_string()));
    pl.add_entry(PageListEntry::new(Title::new("Q12345", 0)));
    let q = query(pl.convert_to_wiki("frwiki", 1));
    assert_eq!(q.wiki, "wikidatawiki");
    assert_eq!(q.chunk_size, 5);
    assert_eq!(q.intake, Intake::FullTitles);
    assert_eq!(
        q.batches,
        vec![(
            "SELECT ips_site_page FROM wb_items_per_site,page WHERE ips_item_id=substr(page_title,2)*1 AND (page_namespace=0 AND page_title IN(?)) AND ips_site_id=?".to_string(),
            texts(&["Q12345", "frwiki"])
        )]
    );
    assert_eq!(pl.wiki(), Some("wikidatawiki".to_string()));
    assert!(matches!(pl.convert_to_wiki("frwiki", 2), StageAction::Finished));
    assert_eq!(pl.wiki(), Some("frwiki".to_string()));
    let mut wd = list("wikidatawiki", &[("Q1", 0)]);
    assert!(matches!(wd.convert_to_wiki("dewiki", 0), StageAction::Pass));
    let mut to_wd = list("dewiki", &[("X", 0)]);
    let _ = to_wd.convert_to_wiki("wikidatawiki", 0);
    assert!(matches!(to_wd.convert_to_wiki("wikidatawiki", 1), StageAction::Finished));
    assert!(to_wd.is_wikidata());
}

#[test]
fn wikidata_filter_builds_conditions() {
    let p = platform(&[
        ("wikidata_prop_item_use", " Q5,P31,x,"),
        ("wpiu", "any"),
        ("wpiu_no_statements", "1"),
    ]);
    let mut pl = list("wikidatawiki", &[("Q1", 0), ("Q2", 0)]);
    match p.filter_wikidata(&mut pl, 0) {
        StageAction::Convert(w) => assert_eq!(w, "wikidatawiki"),
        other => panic!("{:?}", other),
    }
    let q = query(p.filter_wikidata(&mut pl, 1));
    assert!(pl.is_empty());
    assert_eq!(q.intake, Intake::Add(RowReader::MainTitle));
    assert_eq!(
        q.batches,
        vec![(
            format!(
                "SELECT DISTINCT page_title FROM page WHERE {} AND EXISTS (SELECT * FROM page_props WHERE page_id=pp_page AND pp_propname='wb-claims' AND pp_sortkey=0) AND (0 OR EXISTS (SELECT * FROM pagelinks WHERE pl_from=page_id AND pl_namespace=0 AND pl_title=?) OR EXISTS (SELECT * FROM pagelinks WHERE pl_from=page_id AND pl_namespace=120 AND pl_title=?))",
                FRAGMENT_Q1_Q2
            ),
            texts(&["Q1", "Q2", "Q5", "P31"])
        )]
    );
    let p = platform(&[("wikidata_prop_item_use", "P18"), ("wpiu", "none"), ("wpiu_no_sitelinks", "1")]);
    assert_eq!(
        p.wikidata_filter_conditions(),
        (
            " AND EXISTS (SELECT * FROM page_props WHERE page_id=pp_page AND pp_propname='wb-sitelinks' AND pp_sortkey=0) AND NOT EXISTS (SELECT * FROM pagelinks WHERE pl_from=page_id AND pl_namespace=120 AND pl_title=?)".to_string(),
            texts(&["P18"])
        )
    );
    let p = platform(&[("wikidata_prop_item_use", "Q1,Q2"), ("wpiu", "all")]);
    assert_eq!(
        p.wikidata_filter_conditions().0,
        " AND EXISTS (SELECT * FROM pagelinks WHERE pl_from=page_id AND pl_namespace=0 AND pl_title=?) AND EXISTS (SELECT * FROM pagelinks WHERE pl_from=page_id AND pl_namespace=0 AND pl_title=?)"
    );
    let none = platform(&[]);
    let mut pl = list("enwiki", &[("A", 0)]);
    assert!(matches!(none.filter_wikidata(&mut pl, 0), StageAction::Finished));
    assert_eq!(pl.len(), 1);
    let mut empty = list("enwiki", &[]);
    assert!(matches!(p.filter_wikidata(&mut empty, 0), StageAction::Finished));
}

#[test]
fn sitelinks_stage_builds_statement() {
    let p = platform(&[
        ("sitelinks_yes", "enwiki\ndewiki"),
        ("sitelinks_any", "frwiki\n itwiki "),
        ("sitelinks_no", "lvwiki"),
        ("min_sitelink_count", "15"),
    ]);
    let mut pl = list("enwiki", &[("A", 0)]);
    let mut old_wiki = None;
    match p.process_sitelinks(&mut pl, 0, &mut old_wiki) {
        StageAction::Convert(w) => assert_eq!(w, "wikidatawiki"),
        other => panic!("{:?}", other),
    }
    assert_eq!(old_wiki, Some("enwiki".to_string()));
    let mut pl = list("wikidatawiki", &[("Q1", 0), ("Q2", 0)]);
    let q = query(p.process_sitelinks(&mut pl, 1, &mut old_wiki));
    assert!(pl.is_empty());
    let exists = " AND EXISTS (SELECT * FROM wb_items_per_site WHERE ips_item_id=substr(page_title,2)*1 AND ips_site_id=? LIMIT 1)";
    assert_eq!(
        q.batches,
        vec![(
            format!(
                "SELECT page_title,(SELECT count(*) FROM wb_items_per_site WHERE ips_item_id=substr(page_title,2)*1) AS sitelink_count FROM page WHERE page_namespace=0{}{} AND EXISTS (SELECT * FROM wb_items_per_site WHERE ips_item_id=substr(page_title,2)*1 AND ips_site_id IN (?,?) LIMIT 1) AND NOT EXISTS (SELECT * FROM wb_items_per_site WHERE ips_item_id=substr(page_title,2)*1 AND ips_site_id=? LIMIT 1) AND {} GROUP BY page_title HAVING sitelink_count>=15",
                exists, exists, FRAGMENT_Q1_Q2
            ),
            texts(&["enwiki", "dewiki", "frwiki", "itwiki", "lvwiki", "Q1", "Q2"])
        )]
    );
    assert_eq!(q.intake, Intake::Add(RowReader::CountedMainTitle));
    match p.process_sitelinks(&mut pl, 2, &mut old_wiki) {
        StageAction::Convert(w) => assert_eq!(w, "enwiki"),
        other => panic!("{:?}", other),
    }
    assert!(matches!(p.process_sitelinks(&mut pl, 3, &mut old_wiki), StageAction::Finished));
    let p = platform(&[("max_sitelink_count", "3"), ("min_sitelink_count", "x")]);
    let statement = p.sitelinks_statement();
    assert_eq!(statement.1, " GROUP BY page_title HAVING sitelink_count<=3");
    let p = platform(&[("sitelinks_no", "lvwiki")]);
    let statement = p.sitelinks_statement();
    assert_eq!(
        statement.0 .0,
        "SELECT DISTINCT page_title,0 FROM page WHERE page_namespace=0 AND NOT EXISTS (SELECT * FROM wb_items_per_site WHERE ips_item_id=substr(page_title,2)*1 AND ips_site_id=? LIMIT 1) AND "
    );
    assert_eq!(statement.1, "");
    let mut untouched = list("enwiki", &[("A", 0)]);
    let mut ow = None;
    assert!(matches!(
        platform(&[]).process_sitelinks(&mut untouched, 0, &mut ow),
        StageAction::Finished
    ));
}

#[test]
fn label_statement_is_built() {
    assert_eq!(platform(&[]).get_label_sql(), ("".to_string(), vec![]));
    let p = platform(&[("labels_yes", "Count%")]);
    assert_eq!(
        p.get_label_sql(),
        (
            "SELECT DISTINCT term_full_entity_id FROM wb_terms t1 WHERE term_entity_type='item' AND term_text LIKE ?".to_string(),
            texts(&["Count%"])
        )
    );
    let p = platform(&[
        ("labels_yes", "Count%"),
        ("langs_labels_yes", "en,nl"),
        ("cb_labels_yes_l", "1"),
        ("cb_labels_yes_d", "1"),
        ("labels_no", "X"),
        ("langs_labels_no", "de"),
        ("cb_labels_no_a", "1"),
    ]);
    assert_eq!(
        p.get_label_sql(),
        (
            "SELECT DISTINCT term_full_entity_id FROM wb_terms t1 WHERE term_entity_type='item' AND term_text LIKE ? AND term_language IN (?,?) AND term_type IN (?,?) AND NOT EXISTS (SELECT t2.term_full_entity_id FROM wb_terms t2 WHERE t2.term_full_entity_id=t1.term_full_entity_id AND t2.term_entity_type='item' AND t2.term_text LIKE ? AND t2.term_language IN (?) AND t2.term_type IN (?))".to_string(),
            texts(&["Count%", "en", "nl", "label", "description", "X", "de", "alias"])
        )
    );
    let p = platform(&[("labels_yes", "A"), ("labels_any", "B\nC"), ("langs_labels_any", "fr")]);
    assert_eq!(
        p.get_label_sql(),
        (
            "SELECT DISTINCT term_full_entity_id FROM wb_terms t1 WHERE term_entity_type='item' AND term_text LIKE ? AND ( ( term_text LIKE ? AND term_language IN (?)) OR  ( term_text LIKE ? AND term_language IN (?)))".to_string(),
            texts(&["A", "B", "fr", "C", "fr"])
        )
    );
    let p = platform(&[("labels_any", "B\nC"), ("cb_labels_any_l", "1")]);
    assert_eq!(
        p.get_label_sql(),
        (
            "SELECT DISTINCT term_full_entity_id FROM wb_terms t1 WHERE term_entity_type='item' AND ( ( term_text LIKE ?) OR  ( term_text LIKE ?))".to_string(),
            texts(&["B", "C"])
        )
    );
    let p = platform(&[("labels_yes", "A"), ("langs_labels_any", "fr")]);
    assert_eq!(
        p.get_label_sql(),
        (
            "SELECT DISTINCT term_full_entity_id FROM wb_terms t1 WHERE term_entity_type='item' AND term_text LIKE ?".to_string(),
            texts(&["A"])
        )
    );
    let p = platform(&[("labels_yes", "Count%")]);
    let mut pl = list("wikidatawiki", &[("Q1", 0), ("Q2", 0)]);
    assert!(matches!(p.process_labels(&mut pl, 0), StageAction::Convert(_)));
    let q = query(p.process_labels(&mut pl, 1));
    assert_eq!(
        q.batches,
        vec![(
            "SELECT DISTINCT term_full_entity_id FROM wb_terms t1 WHERE term_entity_type='item' AND term_text LIKE ? AND term_full_entity_id IN (?,?)".to_string(),
            texts(&["Count%", "Q1", "Q2"])
        )]
    );
    assert_eq!(q.intake, Intake::Add(RowReader::Entity));
    assert!(pl.is_empty());
    let mut pl = list("wikidatawiki", &[("Q1", 0)]);
    assert!(matches!(platform(&[]).process_labels(&mut pl, 0), StageAction::Finished));
}

#[test]
fn common_wiki_is_chosen() {
    assert!(matches!(platform(&[]).convert_to_common_wiki(0), StageAction::Finished));
    match platform(&[("common_wiki", "wikidata")]).convert_to_common_wiki(0) {
        StageAction::Convert(w) => assert_eq!(w, "wikidatawiki"),
        other => panic!("{:?}", other),
    }
    match platform(&[("common_wiki", "other"), ("common_wiki_other", "frwiki")])
        .convert_to_common_wiki(0)
    {
        StageAction::Convert(w) => assert_eq!(w, "frwiki"),
        other => panic!("{:?}", other),
    }
    match platform(&[("common_wiki", "other")]).convert_to_common_wiki(0) {
        StageAction::Fail(m) => {
            assert_eq!(m, "Other wiki for output expected, but not given in text field")
        }
        other => panic!("{:?}", other),
    }
    match platform(&[("common_wiki", "bogus")]).convert_to_common_wiki(0) {
        StageAction::Fail(m) => assert_eq!(m, "Unknown output wiki type 'bogus'"),
        other => panic!("{:?}", other),
    }
    let mut p = platform(&[("common_wiki", "manual")]);
    match p.convert_to_common_wiki(0) {
        StageAction::Fail(m) => assert_eq!(m, "manual wiki requested as output, but not set"),
        other => panic!("{:?}", other),
    }
    p.note_source_wikis(&vec![
        ("manual".to_string(), list("dewiki", &[])),
        ("sparql".to_string(), list("wikidatawiki", &[])),
    ]);
    assert_eq!(p.wiki_for_source("manual"), Some("dewiki".to_string()));
    match p.convert_to_common_wiki(0) {
        StageAction::Convert(w) => assert_eq!(w, "dewiki"),
        other => panic!("{:?}", other),
    }
    for (mode, msg) in [
        ("cats", "categories wiki requested as output, but not set"),
        ("pagepile", "pagepile wiki requested as output, but not set"),
    ] {
        match platform(&[("common_wiki", mode)]).convert_to_common_wiki(0) {
            StageAction::Fail(m) => assert_eq!(m, msg),
            other => panic!("{:?}", other),
        }
    }
}

#[test]
fn database_filters_need_a_wiki() {
    let p = platform(&[]);
    match p.process_missing_database_filters(&list("enwiki", &[]), 0) {
        StageAction::DatabaseFilters(w) => assert_eq!(w, "enwiki"),
        other => panic!("{:?}", other),
    }
    let mut untagged = list("enwiki", &[]);
    untagged.clear();
    match p.process_missing_database_filters(&untagged, 0) {
        StageAction::Fail(m) => {
            assert_eq!(m, "Platform::process_missing_database_filters: result has no wiki")
        }
        other => panic!("{:?}", other),
    }
}

#[test]
fn wikidata_item_stage() {
    let p = platform(&[("wikidata_item", "with")]);
    let mut pl = list("enwiki", &[("A", 0), ("B", 0)]);
    let q = query(p.process_by_wikidata_item(&mut pl, 0));
    assert_eq!(q.intake, Intake::WikidataItems);
    assert_eq!(q.wiki, "wikidatawiki");
    assert_eq!(
        Platform::wikidata_item_batches("enwiki", &texts(&["Count von Count", " ", "User:X"])),
        vec![(
            "SELECT ips_site_page,ips_item_id FROM wb_items_per_site WHERE ips_site_id='enwiki' and ips_site_page IN (?,?)".to_string(),
            texts(&["Count von Count", "User:X"])
        )]
    );
    pl.note_wikidata_item(&Title::new("B", 0), 7);
    assert!(matches!(p.process_by_wikidata_item(&mut pl, 1), StageAction::Finished));
    assert_eq!(pl.len(), 1);
    assert_eq!(pl.entries()[0].title().pretty(), "B");
    let mut wd = list("wikidatawiki", &[("Q1", 0)]);
    assert!(matches!(p.process_by_wikidata_item(&mut wd, 0), StageAction::Finished));
    let mut pl = list("enwiki", &[("A", 0)]);
    assert!(matches!(platform(&[]).process_by_wikidata_item(&mut pl, 0), StageAction::Finished));
}

#[test]
fn files_and_pages_stages() {
    let p = platform(&[("giu", "1"), ("file_usage_data_ns0", "1"), ("sortby", "filesize")]);
    let pl = list("commonswiki", &[("A.jpg", 6), ("Gallery", 0)]);
    let q = query(p.process_files(&pl, 0));
    assert_eq!(
        q.batches,
        vec![(
            "SELECT gil_to,6 AS namespace_id,GROUP_CONCAT(gil_wiki,':',gil_page_namespace_id,':',gil_page_namespace,':',gil_page_title SEPARATOR '|') AS gil_group FROM globalimagelinks WHERE gil_to IN (?) AND gil_page_namespace_id=0 GROUP BY gil_to".to_string(),
            texts(&["A.jpg"])
        )]
    );
    assert_eq!(
        q.intake,
        Intake::Annotate {
            col_title: 0,
            col_ns: 1,
            annotation: RowAnnotation::FileUsage
        }
    );
    let q = query(p.process_files(&pl, 1));
    assert_eq!(
        q.batches,
        vec![
            (
                "SELECT img_name,6 AS namespace_id,img_size,img_width,img_height,img_media_type,img_major_mime,img_minor_mime,img_user_text,img_timestamp,img_sha1 FROM image_compat WHERE img_name IN (?)".to_string(),
                texts(&["A.jpg"])
            ),
            (
                "SELECT img_name,6 AS namespace_id,img_size,img_width,img_height,img_media_type,img_major_mime,img_minor_mime,img_user_text,img_timestamp,img_sha1 FROM image_compat WHERE img_name IN (?)".to_string(),
                texts(&["Gallery"])
            )
        ]
    );
    assert!(matches!(p.process_files(&pl, 2), StageAction::Finished));
    assert!(matches!(platform(&[]).process_files(&pl, 0), StageAction::Pass));
    assert!(matches!(platform(&[]).process_files(&pl, 1), StageAction::Pass));
    let p = platform(&[("add_image", "1"), ("sortby", "incoming_links")]);
    let pl = list("enwiki", &[("Cambridge", 0)]);
    let q = query(p.process_pages(&pl, 0));
    assert_eq!(
        q.batches,
        vec![(
            "SELECT page_title,page_namespace,(SELECT pp_value FROM page_props WHERE pp_page=page_id AND pp_propname IN ('page_image','page_image_free') LIMIT 1) AS image,(SELECT count(*) FROM pagelinks WHERE pl_namespace=page_namespace AND pl_title=page_title AND pl_from_namespace=0) AS incoming_links FROM page WHERE (page_namespace=0 AND page_title IN(?))".to_string(),
            texts(&["Cambridge"])
        )]
    );
    assert_eq!(
        q.intake,
        Intake::Annotate {
            col_title: 0,
            col_ns: 1,
            annotation: RowAnnotation::PageExtras {
                add_image: true,
                add_coordinates: false,
                add_defaultsort: false,
                add_disambiguation: false,
                add_incoming_links: true
            }
        }
    );
    assert!(matches!(platform(&[]).process_pages(&pl, 0), StageAction::Finished));
}

#[test]
fn subpages_stage() {
    let p = platform(&[("add_subpages", "1"), ("subpage_filter", "subpages")]);
    let mut pl = list("enwiki", &[("Magnus Manske", 2)]);
    let q = query(p.process_subpages(&mut pl, 0));
    assert_eq!(q.intake, Intake::AddMissing(RowReader::TitleAndNamespace));
    assert_eq!(
        q.batches,
        vec![(
            "SELECT page_title,page_namespace FROM page WHERE page_namespace=? AND page_title LIKE ?".to_string(),
            texts(&["2", "Magnus_Manske/%"])
        )]
    );
    pl.add_entry(PageListEntry::new(Title::new("Magnus Manske/x", 2)));
    assert!(matches!(p.process_subpages(&mut pl, 1), StageAction::Finished));
    assert_eq!(pl.len(), 1);
    assert_eq!(pl.entries()[0].title().pretty(), "Magnus Manske/x");
    let mut pl = list("enwiki", &[("A", 0)]);
    assert!(matches!(platform(&[]).process_subpages(&mut pl, 0), StageAction::Finished));
    let p = platform(&[("subpage_filter", "no_subpages")]);
    let mut pl = list("enwiki", &[("A", 0), ("A/b", 0)]);
    assert!(matches!(p.process_subpages(&mut pl, 0), StageAction::Pass));
    assert!(matches!(p.process_subpages(&mut pl, 1), StageAction::Finished));
    assert_eq!(pl.len(), 1);
}

#[test]
fn metadata_stage() {
    let p = platform(&[("interface_language", "nl")]);
    let pl = list("wikidatawiki", &[("Q12345", 0), ("P31", 120)]);
    let q = query(pl.load_missing_metadata(Some(p.wikidata_label_language()), &p, 0));
    assert_eq!(
        q.batches[0],
        (
            "SELECT page_title,page_namespace,page_id,page_len,(SELECT rev_timestamp FROM revision WHERE rev_id=page_latest LIMIT 1) AS page_last_rev_timestamp FROM page WHERE(page_namespace=0 AND page_title IN(?))".to_string(),
            texts(&["Q12345"])
        )
    );
    assert_eq!(q.batches.len(), 2);
    let q = query(pl.load_missing_metadata(Some("nl".to_string()), &p, 1));
    assert_eq!(
        q.batches,
        vec![(
            "SELECT concat('Q',wbit_item_id) AS term_full_entity_id,0 AS dummy_namespace,wbx_text as term_text,wby_name as term_type\nFROM wbt_item_terms\nINNER JOIN wbt_term_in_lang ON wbit_term_in_lang_id = wbtl_id\nINNER JOIN wbt_type ON wbtl_type_id = wby_id\nINNER JOIN wbt_text_in_lang ON wbtl_text_in_lang_id = wbxl_id\nINNER JOIN wbt_text ON wbxl_text_id = wbx_id AND wbxl_language=?\nWHERE wbit_item_id IN (12345)".to_string(),
            texts(&["nl"])
        )]
    );
    assert_eq!(
        pl.add_wikidata_labels_for_namespace(TermEntity::Property, &"en".to_string()),
        vec![(
            "SELECT concat('P',wbpt_property_id) AS term_full_entity_id,120 AS dummy_namespace,wbx_text as term_text,wby_name as term_type\nFROM wbt_property_terms\nINNER JOIN wbt_term_in_lang ON wbpt_term_in_lang_id = wbtl_id\nINNER JOIN wbt_type ON wbtl_type_id = wby_id\nINNER JOIN wbt_text_in_lang ON wbtl_text_in_lang_id = wbxl_id\nINNER JOIN wbt_text ON wbxl_text_id = wbx_id AND wbxl_language=?\nWHERE wbpt_property_id IN (31)".to_string(),
            texts(&["en"])
        )]
    );
    assert!(matches!(pl.load_missing_metadata(Some("nl".to_string()), &p, 3), StageAction::Finished));
    assert!(matches!(pl.load_missing_metadata(None, &p, 1), StageAction::Finished));
    assert_eq!(p.wikidata_label_language(), "nl");
    let en = list("enwiki", &[("A", 0)]);
    assert!(matches!(en.load_missing_metadata(Some("nl".to_string()), &p, 1), StageAction::Finished));
    let wdf = platform(&[("wdf_main", "1")]);
    assert!(matches!(pl.load_missing_metadata(Some("en".to_string()), &wdf, 1), StageAction::Finished));
    assert!(wdf.wdfist_requested());
}

#[test]
fn redlinks_and_creator_stages() {
    let p = platform(&[("show_redlinks", "1"), ("article_redlinks_only", "1"), ("min_redlink_count", "3")]);
    let pl = list("enwiki", &[("A", 0)]);
    let q = query(p.process_redlinks(&pl, 0));
    assert_eq!(
        q.batches,
        vec![(
            "SELECT pl_title,pl_namespace,(SELECT COUNT(*) FROM page p1 WHERE p1.page_title=pl0.pl_title AND p1.page_namespace=pl0.pl_namespace) AS cnt from page p0,pagelinks pl0 WHERE pl_from=p0.page_id AND (page_namespace=0 AND page_title IN(?)) AND pl_namespace=0 GROUP BY page_id,pl_namespace,pl_title HAVING cnt=0".to_string(),
            texts(&["A"])
        )]
    );
    assert_eq!(q.intake, Intake::Redlinks { min: 3 });
    let p = platform(&[("show_redlinks", "1"), ("remove_template_redlinks", "1")]);
    let q = query(p.process_redlinks(&pl, 0));
    assert!(q.batches[0].0.ends_with(" AND pl_namespace>=0 AND NOT EXISTS (SELECT * FROM pagelinks pl1 WHERE pl1.pl_from_namespace=10 AND pl0.pl_namespace=pl1.pl_namespace AND pl0.pl_title=pl1.pl_title LIMIT 1) GROUP BY page_id,pl_namespace,pl_title HAVING cnt=0"));
    assert_eq!(q.intake, Intake::Redlinks { min: 1 });
    assert!(matches!(platform(&[]).process_redlinks(&pl, 0), StageAction::Finished));
    let mut big = PageList::new_from_wiki("enwiki");
    for i in 0..101 {
        big.add_entry(PageListEntry::new(Title::new(&format!("P{}", i), 0)));
    }
    let q = query(p.process_redlinks(&big, 0));
    assert_eq!(q.batches.len(), 2);
    assert_eq!(q.batches[0].1.len(), 100);
    let mut p = platform(&[("wikidata_item", "without")]);
    let pl = list("enwiki", &[("Count_von_Count", 0), ("B", 0)]);
    let q = query(p.process_creator(&pl, 0));
    assert_eq!(q.wiki, "wikidatawiki");
    assert_eq!(q.intake, Intake::ExistingLabels);
    assert_eq!(
        q.batches,
        vec![(
            "SELECT DISTINCT term_text FROM wb_terms WHERE term_entity_type='item' AND term_type IN ('label','alias') AND term_text IN (?,?)".to_string(),
            texts(&["Count von Count", "B"])
        )]
    );
    assert!(matches!(platform(&[]).process_creator(&pl, 0), StageAction::Finished));
    p.take_in_labels(&vec![
        vec![SqlValue::Bytes(b"Count von Count".to_vec())],
        vec![SqlValue::Bytes(b"Count von Count".to_vec())],
        vec![SqlValue::Null],
    ]);
    assert!(p.label_exists(&"Count von Count".to_string()));
    assert!(!p.label_exists(&"B".to_string()));
}

#[test]
fn stage_dispatch_and_regexp() {
    let p = platform(&[("regexp_filter", "J.*")]);
    let mut pl = list("enwiki", &[("Jimbo Wales", 0), ("Larry Sanger", 0)]);
    let mut ow = None;
    assert!(matches!(p.stage_action(Stage::RegexpFilter, &mut pl, 0, &mut ow), StageAction::Finished));
    assert_eq!(pl.len(), 1);
    assert!(matches!(p.stage_action(Stage::Files, &mut pl, 0, &mut ow), StageAction::Pass));
    assert!(matches!(
        p.stage_action(Stage::DatabaseFilters, &mut pl, 0, &mut ow),
        StageAction::DatabaseFilters(_)
    ));
    assert!(matches!(p.stage_action(Stage::Metadata, &mut pl, 0, &mut ow), StageAction::Run(_)));
}

#[test]
fn response_is_sorted_and_limited() {
    let mut p = platform(&[("sortby", "title"), ("sortorder", "descending"), ("output_limit", "2")]);
    assert_eq!(p.sorter(), PageListSort::Title(true));
    assert_eq!(p.get_response().err(), Some("Platform::get_response: No result".to_string()));
    let mut untagged = list("enwiki", &[("A", 0)]);
    untagged.set_wiki(None);
    p.set_result(Some(untagged));
    assert_eq!(
        p.get_response().err(),
        Some("Platform::get_response: No wiki in result".to_string())
    );
    p.set_result(Some(list("enwiki", &[("B", 0), ("C", 0), ("A", 0)])));
    let (wiki, pages) = p.get_response().unwrap();
    assert_eq!(wiki, "enwiki");
    let names: Vec<&str> = pages.iter().map(|e| e.title().pretty()).collect();
    assert_eq!(names, vec!["C", "B"]);
    assert_eq!(p.result().as_ref().unwrap().len(), 3);
    let unlimited = platform(&[]);
    let mut pages = vec![PageListEntry::new(Title::new("A", 0)), PageListEntry::new(Title::new("B", 0))];
    unlimited.apply_results_limit(&mut pages);
    assert_eq!(pages.len(), 2);
    assert_eq!(platform(&[("format", "tsv")]).render_format(), RenderFormat::TSV);
    assert_eq!(platform(&[("format", "csv")]).render_format(), RenderFormat::CSV);
    assert_eq!(platform(&[("format", "wiki")]).render_format(), RenderFormat::Wiki);
    assert_eq!(platform(&[("format", "json")]).render_format(), RenderFormat::JSON);
    assert_eq!(platform(&[("format", "pagepile")]).render_format(), RenderFormat::PagePile);
    assert_eq!(platform(&[]).render_format(), RenderFormat::HTML);
}

#[test]
fn combination_comes_from_parameters() {
    let p = platform(&[("source_combination", "sparql OR manual")]);
    assert_eq!(
        p.get_combination(&texts(&["categories"])),
        Combination::Union((
            Box::new(Combination::Source("sparql".to_string())),
            Box::new(Combination::Source("manual".to_string()))
        ))
    );
    assert_eq!(
        platform(&[]).get_combination(&texts(&["categories"])),
        Combination::Source("categories".to_string())
    );
}

#[test]
fn category_database_parameters() {
    let p = platform(&[
        ("combination", "union"),
        ("depth", "-1"),
        ("max_age", "x"),
        ("categories", "Fictional vampires\nB"),
        ("ores_prob_from", "0.5"),
        ("minlinks", "3"),
        ("lang", "de"),
    ]);
    let d = p.db_params();
    assert_eq!(d.combine, "union");
    assert_eq!(d.depth, 999);
    assert_eq!(d.max_age, Some(0));
    assert_eq!(d.cat_pos, vec!["Fictional_vampires", "B"]);
    assert_eq!(d.ores_prob_from, Some("0.5".to_string()));
    assert_eq!(d.ores_prob_to, None);
    assert_eq!(d.minlinks, Some(3));
    assert!(d.gather_link_count);
    assert_eq!(d.wiki, Some("dewiki".to_string()));
    assert_eq!(d.namespace_ids, vec![0, 14]);
    assert_eq!(d.last_edit_bot, "both");
    assert_eq!(d.page_image, "any");
    assert!(d.use_new_category_mode);
    let d = platform(&[("depth", "70000"), ("combination", "other")]).db_params();
    assert_eq!(d.depth, 4464);
    assert_eq!(d.combine, "subset");
    assert_eq!(d.max_age, None);
    assert_eq!(platform(&[("depth", "5")]).db_params().depth, 5);
}
