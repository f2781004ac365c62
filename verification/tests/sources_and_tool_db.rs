use petscan::app_state::{AppState, Config};
use petscan::datasource::{SourceDatabase, SourceManual, SourceSearch, SourceSparql};
use petscan::form_parameters::FormParameters;
use petscan::platform::Platform;
use petscan::row::SqlValue;
use petscan::site_matrix::SiteMatrix;

fn platform(params: &[(&str, &str)]) -> Platform {
    let mut fp = FormParameters::new();
    for (k, v) in params {
        fp.params.push((k.to_string(), v.to_string()));
    }
    let state = AppState::new_from_config(
        Config {
            user: Some("u".to_string()),
            password: Some("p".to_string()),
            host: None,
            schema: None,
            db_port: None,
            dbservergroup: None,
            mysql: None,
        },
        SiteMatrix { entries: vec![] },
        String::new(),
    )
    .unwrap();
    Platform::new_from_parameters(&fp, &state)
}

#[test]
fn sources_have_names() {
    assert_eq!(SourceSearch::new().name(), "search");
    assert_eq!(SourceManual::new().name(), "manual");
    assert_eq!(SourceSparql::new().name(), "sparql");
    assert_eq!(SourceDatabase::new().name(), "categories");
}

#[test]
fn sources_run_when_parameters_allow() {
    let none = platform(&[]);
    assert!(!SourceSearch::new().can_run(&none));
    assert!(!SourceManual::new().can_run(&none));
    assert!(!SourceSparql::new().can_run(&none));
    let p = platform(&[
        ("search_query", "x"),
        ("search_wiki", "enwiki"),
        ("search_max_results", "10"),
        ("manual_list", "A"),
        ("manual_list_wiki", "enwiki"),
        ("sparql", "SELECT ?q {}"),
    ]);
    assert!(SourceSearch::new().can_run(&p));
    assert!(SourceManual::new().can_run(&p));
    assert!(SourceSparql::new().can_run(&p));
    let p = platform(&[("search_query", "x"), ("manual_list", "A"), ("manual_list_wiki", ""), ("sparql", "")]);
    assert!(!SourceSearch::new().can_run(&p));
    assert!(!SourceManual::new().can_run(&p));
    assert!(!SourceSparql::new().can_run(&p));
}

#[test]
fn manual_list_is_cut_into_lines() {
    assert_eq!(
        SourceManual::lines(" Count von Count \n\n\tMagnus Manske\r\n   \nUser:X"),
        vec!["Count von Count", "Magnus Manske", "User:X"]
    );
    assert!(SourceManual::lines("").is_empty());
}

#[test]
fn search_request_names_the_query() {
    assert_eq!(
        SourceSearch::request("count"),
        vec![
            ("action".to_string(), "query".to_string()),
            ("list".to_string(), "search".to_string()),
            ("srsearch".to_string(), "count".to_string())
        ]
    );
}

#[test]
fn sparql_entities_become_pages() {
    let list = SourceSparql::pages_from_entities(&vec![
        "Q1".to_string(),
        "P2".to_string(),
        "L3".to_string(),
        "X4".to_string(),
        "Q1".to_string(),
    ]);
    assert!(list.is_wikidata());
    let got: Vec<(i64, String)> = list
        .entries()
        .iter()
        .map(|e| (e.title().namespace_id(), e.title().pretty().to_string()))
        .collect();
    assert_eq!(
        got,
        vec![(0, "Q1".to_string()), (120, "P2".to_string()), (146, "L3".to_string())]
    );
}

#[test]
fn tool_database_statements() {
    assert_eq!(
        AppState::get_query_from_psid(&"10087995".to_string()),
        Ok("SELECT querystring FROM query WHERE id=10087995".to_string())
    );
    assert_eq!(
        AppState::get_query_from_psid(&"1; DROP".to_string()),
        Err("PSID is not a number".to_string())
    );
    assert_eq!(
        AppState::query_from_rows(&vec![
            vec![SqlValue::Null],
            vec![SqlValue::Bytes(b"language=en&manual_list=A".to_vec())]
        ]),
        Ok("language=en&manual_list=A".to_string())
    );
    assert_eq!(
        AppState::query_from_rows(&vec![]),
        Err("No such PSID in the database".to_string())
    );
    assert_eq!(
        AppState::log_query_start(
            &"q".to_string(),
            &"2019-01-02 03:04:05".to_string(),
            &"77".to_string()
        ),
        (
            "INSERT INTO `started_queries` (querystring,created,process_id) VALUES (?,?,?)"
                .to_string(),
            vec!["q".to_string(), "2019-01-02 03:04:05".to_string(), "77".to_string()]
        )
    );
    assert_eq!(
        AppState::log_query_end(12),
        ("DELETE FROM `started_queries` WHERE id=?".to_string(), vec!["12".to_string()])
    );
    let (find, create) =
        AppState::get_or_create_psid_for_query(&"q".to_string(), &"now".to_string());
    assert_eq!(
        find,
        ("SELECT id FROM query WHERE querystring=? LIMIT 1".to_string(), vec!["q".to_string()])
    );
    assert_eq!(
        create,
        (
            "INSERT IGNORE INTO `query` (querystring,created) VALUES (?,?)".to_string(),
            vec!["q".to_string(), "now".to_string()]
        )
    );
    assert_eq!(
        AppState::psid_from_rows(&vec![vec![SqlValue::Null], vec![SqlValue::Int(9)], vec![SqlValue::Int(10)]]),
        Some(9)
    );
    assert_eq!(AppState::psid_from_rows(&vec![vec![SqlValue::Int(-1)]]), None);
}
