use petscan::app_state::{AppState, Config, ConnectionRetry, DbSlotSearch, MysqlAccess};
use petscan::form_parameters::FormParameters;
use petscan::platform::{ContentType, Platform};
use petscan::site_matrix::{Site, SiteMatrix, SiteMatrixEntry};

fn site(url: &str, dbname: &str) -> Site {
    Site {
        url: Some(url.to_string()),
        dbname: Some(dbname.to_string()),
        closed: false,
        private: false,
    }
}

fn language(code: &str, dir: &str, sites: Vec<Site>) -> SiteMatrixEntry {
    SiteMatrixEntry::Language {
        code: Some(code.to_string()),
        dir: Some(dir.to_string()),
        sites: Some(sites),
    }
}

fn matrix() -> SiteMatrix {
    SiteMatrix {
        entries: vec![
            language(
                "am",
                "ltr",
                vec![
                    site("https://am.wikipedia.org", "amwiki"),
                    site("https://am.wiktionary.org", "amwiktionary"),
                ],
            ),
            language("ar", "rtl", vec![site("https://ar.wikipedia.org", "arwiki")]),
            language("de", "ltr", vec![site("https://de.wikipedia.org", "dewiki")]),
            language("en", "ltr", vec![site("https://en.wikipedia.org", "enwiki")]),
            language("he", "rtl", vec![site("https://he.wikipedia.org", "hewiki")]),
            SiteMatrixEntry::Count,
            SiteMatrixEntry::Specials(vec![
                Site {
                    url: Some("https://closed.wikimedia.org".to_string()),
                    dbname: Some("closedwiki".to_string()),
                    closed: true,
                    private: false,
                },
                site("https://outreach.wikimedia.org", "outreachwiki"),
                site("https://commons.wikimedia.org", "commonswiki"),
            ]),
        ],
    }
}

fn config() -> Config {
    Config {
        user: Some("u".to_string()),
        password: Some("p".to_string()),
        host: Some("tools.db".to_string()),
        schema: Some("s_petscan".to_string()),
        db_port: None,
        dbservergroup: None,
        mysql: None,
    }
}

fn get_state() -> AppState {
    AppState::new_from_config(
        config(),
        matrix(),
        "<html><body><!--querystring--><div><!--output--></div></body>".to_string(),
    )
    .unwrap()
}

#[test]
fn test_get_wiki_for_server_url() {
    let state = get_state();
    assert_eq!(
        state.get_wiki_for_server_url(&"https://am.wiktionary.org".to_string()),
        Some("amwiktionary".to_string())
    );
    assert_eq!(
        state.get_wiki_for_server_url(&"https://outreach.wikimedia.org".to_string()),
        Some("outreachwiki".to_string())
    );
}

#[test]
fn test_db_host_and_schema_for_wiki() {
    let state = get_state();
    assert_eq!(
        "enwiki_p".to_string(),
        state
            .db_host_and_schema_for_wiki(&"enwiki".to_string())
            .unwrap()
            .1
    );
    assert_eq!(
        "be_x_oldwiki_p".to_string(),
        state
            .db_host_and_schema_for_wiki(&"be-taraskwiki".to_string())
            .unwrap()
            .1
    );
}

#[test]
fn is_language_rtl() {
    let state = get_state();
    assert!(!state.is_language_rtl("en"));
    assert!(state.is_language_rtl("ar"));
    assert!(!state.is_language_rtl("de"));
    assert!(state.is_language_rtl("he"));
}

#[test]
fn closed_sites_are_not_found() {
    let state = get_state();
    assert_eq!(
        state.get_wiki_for_server_url(&"https://closed.wikimedia.org".to_string()),
        None
    );
    assert_eq!(
        state.get_server_url_for_wiki(&"closedwiki".to_string()),
        Err("AppState::get_server_url_for_wiki: Cannot find server for wiki 'closedwiki'".to_string())
    );
    assert_eq!(
        state.get_server_url_for_wiki(&"dewiki".to_string()),
        Ok("https://de.wikipedia.org".to_string())
    );
    assert_eq!(
        state.get_server_url_for_wiki(&"be_x_oldwiki".to_string()),
        Ok("https://be-tarask.wikipedia.org".to_string())
    );
    assert_eq!(
        state.get_api_url_for_wiki("enwiki".to_string()),
        Ok("https://en.wikipedia.org/w/api.php".to_string())
    );
}

#[test]
fn hosts_and_ports() {
    let state = get_state();
    assert_eq!(
        state.db_host_and_schema_for_wiki(&"enwiki".to_string()),
        Ok(("enwiki.web.db.svc.eqiad.wmflabs".to_string(), "enwiki_p".to_string()))
    );
    assert_eq!(
        state.db_host_and_schema_for_tool_db(),
        Ok(("tools.db".to_string(), "s_petscan".to_string()))
    );
    assert_eq!(state.wiki_db_port(), 3306);
    assert_eq!(state.tool_db_port(), 3306);
    let mut local = config();
    local.host = Some("127.0.0.1".to_string());
    local.db_port = Some(3307);
    local.dbservergroup = Some(".analytics.db.svc.eqiad.wmflabs".to_string());
    let state = AppState::new_from_config(local, matrix(), String::new()).unwrap();
    assert_eq!(
        state.db_host_and_schema_for_wiki(&"be_x_oldwiki".to_string()),
        Ok(("127.0.0.1".to_string(), "be_x_oldwiki_p".to_string()))
    );
    assert_eq!(state.wiki_db_port(), 3307);
    assert_eq!(state.tool_db_port(), 3308);
    let mut other = config();
    other.dbservergroup = Some(".analytics.db.svc.eqiad.wmflabs".to_string());
    let state = AppState::new_from_config(other, matrix(), String::new()).unwrap();
    assert_eq!(
        state.db_host_and_schema_for_wiki(&"dewiki".to_string()).unwrap().0,
        "dewiki.analytics.db.svc.eqiad.wmflabs"
    );
}

#[test]
fn pool_has_a_slot_for_each_connection() {
    assert_eq!(get_state().pool_size(), 10);
    let mut c = config();
    c.mysql = Some(vec![
        MysqlAccess {
            user: "a".to_string(),
            password: "x".to_string(),
            connections: Some(3),
        },
        MysqlAccess {
            user: "b".to_string(),
            password: "y".to_string(),
            connections: None,
        },
    ]);
    let state = AppState::new_from_config(c, matrix(), String::new()).unwrap();
    assert_eq!(state.pool_size(), 8);
    assert_eq!(state.db_pool[0], ("a".to_string(), "x".to_string()));
    assert_eq!(state.db_pool[3], ("b".to_string(), "y".to_string()));
    assert_eq!(state.get_tool_db_user_pass(), &("u".to_string(), "p".to_string()));
}

#[test]
fn bad_configurations_are_refused() {
    let mut c = config();
    c.user = None;
    assert_eq!(
        AppState::new_from_config(c, matrix(), String::new()).err(),
        Some("No user key in config file".to_string())
    );
    let mut c = config();
    c.password = None;
    assert_eq!(
        AppState::new_from_config(c, matrix(), String::new()).err(),
        Some("No password key in config file".to_string())
    );
    let mut c = config();
    c.mysql = Some(vec![]);
    assert_eq!(
        AppState::new_from_config(c, matrix(), String::new()).err(),
        Some("No database access config available".to_string())
    );
    let mut c = config();
    c.host = None;
    let state = AppState::new_from_config(c, matrix(), String::new()).unwrap();
    assert_eq!(
        state.db_host_and_schema_for_wiki(&"enwiki".to_string()),
        Err("No host in config file".to_string())
    );
    assert_eq!(
        state.db_host_and_schema_for_tool_db(),
        Err("No host key in config file".to_string())
    );
}

#[test]
fn main_page_gets_direction_and_language() {
    let state = get_state();
    assert_eq!(
        state.get_main_page("he".to_string()),
        "<html dir='rtl' lang='he'><body><!--querystring--><div><!--output--></div></body>"
    );
    assert_eq!(
        state.get_main_page("e'n".to_string()),
        "<html dir='ltr' lang='en'><body><!--querystring--><div><!--output--></div></body>"
    );
}

#[test]
fn errors_are_rendered_by_format() {
    let state = get_state();
    let mut params = FormParameters::new();
    let plain = state.render_error("oops".to_string(), &params, "a=b");
    assert_eq!(plain.s, "oops");
    assert_eq!(plain.content_type, ContentType::Plain);
    params.params.push(("format".to_string(), "html".to_string()));
    params
        .params
        .push(("interface_language".to_string(), "ar".to_string()));
    let html = state.render_error("oops".to_string(), &params, "a=b");
    assert_eq!(
        html.s,
        "<html dir='rtl' lang='ar'><body>a=b<div><div class='alert alert-danger' role='alert'>oops</div></div></body>"
    );
    assert_eq!(html.content_type, ContentType::HTML);
    let mut params = FormParameters::new();
    params.params.push(("format".to_string(), "json".to_string()));
    let json = state.render_error("say \"no\"\n".to_string(), &params, "");
    assert_eq!(json.s, "{\"error\":\"say \\\"no\\\"\\n\"}");
    assert_eq!(json.content_type, ContentType::JSON);
    params.params.push(("callback".to_string(), "cb".to_string()));
    let jsonp = state.render_error("x".to_string(), &params, "");
    assert_eq!(jsonp.s, "cb({\"error\":\"x\"})");
    assert_eq!(jsonp.content_type, ContentType::JSONP);
    let mut params = FormParameters::new();
    params.params.push(("format".to_string(), "".to_string()));
    assert_eq!(
        state.render_error("e".to_string(), &params, "").content_type,
        ContentType::HTML
    );
}

#[test]
fn connection_retry_backs_off() {
    let mut retry = ConnectionRetry::new();
    let mut waits = vec![];
    loop {
        match retry.on_failure() {
            Some(ms) => waits.push(ms),
            None => break,
        }
    }
    assert_eq!(
        waits,
        vec![100, 200, 400, 800, 1600, 3200, 5000, 5000, 5000, 5000, 5000, 5000, 5000, 5000]
    );
    assert_eq!(retry.attempts_left, 0);
    assert_eq!(
        AppState::connection_failure_message(
            &"enwiki".to_string(),
            &"h".to_string(),
            &"enwiki_p".to_string()
        ),
        "Could not connect to database replica for 'enwiki' on 'h'/'enwiki_p' after 15 attempts"
    );
}

#[test]
fn slot_search_pauses_after_a_run_of_failures() {
    let mut search = DbSlotSearch::new(3);
    for _ in 0..20 {
        assert!(search.pick() < 3);
    }
    let mut pauses = vec![];
    for _ in 0..13 {
        pauses.push(search.on_failure());
    }
    let expected: Vec<Option<u64>> = vec![
        None, None, None, None, None, Some(500), None, None, None, None, None, Some(500), None,
    ];
    assert_eq!(pauses, expected);
}

#[test]
fn session_setup_is_for_commons_only() {
    assert_eq!(
        AppState::set_group_concat_max_len(&"commonswiki".to_string()),
        Some(("SET SESSION group_concat_max_len = 1000000000".to_string(), vec![]))
    );
    assert_eq!(AppState::set_group_concat_max_len(&"enwiki".to_string()), None);
}

#[test]
fn shutdown_waits_for_running_queries() {
    let mut state = get_state();
    assert!(!state.is_shutting_down());
    assert!(!state.modify_threads_running(1));
    state.shut_down();
    assert!(state.is_shutting_down());
    assert!(!state.try_shutdown());
    assert!(state.modify_threads_running(-1));
    assert_eq!(state.threads_running(), 0);
}

#[test]
fn main_wiki_from_language_and_project() {
    let state = get_state();
    let mut params = FormParameters::new();
    let platform = Platform::new_from_parameters(&params, &state);
    assert_eq!(platform.get_main_wiki(), Some("enwiki".to_string()));
    params.params.push(("language".to_string(), "zh_yue".to_string()));
    let platform = Platform::new_from_parameters(&params, &state);
    assert_eq!(platform.get_main_wiki(), Some("zh-yuewiki".to_string()));
    assert_eq!(
        platform.get_wiki_for_lagnuage_project(&"am".to_string(), &"wiktionary".to_string()),
        Some("amwiktionary".to_string())
    );
    assert_eq!(
        platform.get_wiki_for_lagnuage_project(&"commons".to_string(), &"wikimedia".to_string()),
        Some("commonswiki".to_string())
    );
    assert_eq!(
        platform.get_wiki_for_lagnuage_project(&"xx".to_string(), &"commons".to_string()),
        Some("commonswiki".to_string())
    );
    assert_eq!(
        platform.get_wiki_for_lagnuage_project(&"www".to_string(), &"wikidata".to_string()),
        Some("wikidatawiki".to_string())
    );
    assert_eq!(
        platform.get_wiki_for_lagnuage_project(&"xx".to_string(), &"wikivoyage".to_string()),
        None
    );
}
