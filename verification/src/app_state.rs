//! The state that all queries share: the configuration, the pool of
//! database credentials, and the catalogue of wikis.
//!
//! Connections themselves, and the locks that guard the pool's slots, are
//! the caller's. This module decides: which host and schema a wiki has,
//! which slot to try next, how long to wait before the next attempt to
//! connect, and what the statements of the tool database are.

use vstd::prelude::*;
use crate::chance::random_index;
use crate::numeral::{push_digits, decimal_of};
use crate::site_matrix::{
    matrix_answer,
    SiteKey,
    SiteMatrix,
    SiteMatrixEntryView,
    is_rtl,
    server_url_of,
};
use crate::sql::SQLtuple;
use crate::text::{concat, push_str, replace, replaced, str_eq, string_of};

verus! {

/// How many slots the pool has where the configuration names no accounts.
pub const MAX_CONCURRENT_DB_CONNECTIONS: u64 = 10;

/// How often a connection to a replica is attempted.
pub const MYSQL_MAX_CONNECTION_ATTEMPTS: u64 = 15;

/// The wait before the second attempt, in milliseconds.
pub const MYSQL_CONNECTION_INITIAL_DELAY_MS: u64 = 100;

/// The longest wait between two attempts, in milliseconds.
pub const MYSQL_CONNECTION_MAX_DELAY_MS: u64 = 5000;

/// How many slots an account gets that does not say how many it wants.
pub const DEFAULT_CONNECTIONS_PER_ACCOUNT: u64 = 5;

/// A user name and a password.
pub type DbUserPass = (String, String);

/// One database account of the configuration, and how many connections it may hold.
#[derive(Debug)]
pub struct MysqlAccess {
    pub user: String,
    pub password: String,
    pub connections: Option<u64>,
}

/// What an account is, mathematically.
pub struct MysqlAccessView {
    pub user: Seq<char>,
    pub password: Seq<char>,
    pub connections: Option<u64>,
}

impl View for MysqlAccess {
    type V = MysqlAccessView;

    open spec fn view(&self) -> MysqlAccessView {
        MysqlAccessView {
            user: self.user@,
            password: self.password@,
            connections: self.connections,
        }
    }
}

/// The configuration, as far as the state reads it.
#[derive(Debug)]
pub struct Config {
    pub user: Option<String>,
    pub password: Option<String>,
    pub host: Option<String>,
    pub schema: Option<String>,
    pub db_port: Option<u16>,
    pub dbservergroup: Option<String>,
    pub mysql: Option<Vec<MysqlAccess>>,
}

/// What a configuration is, mathematically.
pub struct ConfigView {
    pub user: Option<Seq<char>>,
    pub password: Option<Seq<char>>,
    pub host: Option<Seq<char>>,
    pub schema: Option<Seq<char>>,
    pub db_port: Option<u16>,
    pub dbservergroup: Option<Seq<char>>,
    pub mysql: Option<Seq<MysqlAccessView>>,
}

impl View for Config {
    type V = ConfigView;

    open spec fn view(&self) -> ConfigView {
        ConfigView {
            user: self.user.deep_view(),
            password: self.password.deep_view(),
            host: self.host.deep_view(),
            schema: self.schema.deep_view(),
            db_port: self.db_port,
            dbservergroup: self.dbservergroup.deep_view(),
            mysql: match self.mysql {
                Some(list) => Some(Seq::new(list@.len(), |i: int| list@[i]@)),
                None => None,
            },
        }
    }
}

/// The credentials as pairs of texts.
pub open spec fn credentials_view(pool: Seq<DbUserPass>) -> Seq<(Seq<char>, Seq<char>)> {
    Seq::new(pool.len(), |i: int| (pool[i].0@, pool[i].1@))
}

/// `n` slots with the same credentials.
pub open spec fn slots_of(user: Seq<char>, password: Seq<char>, n: nat) -> Seq<(Seq<char>, Seq<char>)> {
    Seq::new(n, |i: int| (user, password))
}

/// The number of slots an account gets.
pub open spec fn connections_of(a: MysqlAccessView) -> nat {
    match a.connections {
        Some(n) => n as nat,
        None => DEFAULT_CONNECTIONS_PER_ACCOUNT as nat,
    }
}

/// The slots for a run of accounts: for each account as many as it may
/// hold connections, account after account.
pub open spec fn account_slots(accounts: Seq<MysqlAccessView>) -> Seq<(Seq<char>, Seq<char>)>
    decreases accounts.len(),
{
    if accounts.len() == 0 {
        Seq::empty()
    } else {
        account_slots(accounts.drop_last()) + slots_of(
            accounts.last().user,
            accounts.last().password,
            connections_of(accounts.last()),
        )
    }
}

/// The pool that a configuration asks for: the slots of its accounts, or,
/// where it names none, ten slots with its own credentials.
pub open spec fn pool_of(config: ConfigView) -> Seq<(Seq<char>, Seq<char>)> {
    match config.mysql {
        Some(accounts) => account_slots(accounts),
        None => slots_of(
            config.user->Some_0,
            config.password->Some_0,
            MAX_CONCURRENT_DB_CONNECTIONS as nat,
        ),
    }
}

/// Why a configuration cannot be used, if it cannot.
pub open spec fn config_fault(config: ConfigView) -> Option<Seq<char>> {
    if config.user is None {
        Some("No user key in config file"@)
    } else if config.password is None {
        Some("No password key in config file"@)
    } else if pool_of(config).len() == 0 {
        Some("No database access config available"@)
    } else {
        None
    }
}

/// What the shared state is, mathematically.
pub struct AppStateView {
    pub db_pool: Seq<(Seq<char>, Seq<char>)>,
    pub config: ConfigView,
    pub tool_db: (Seq<char>, Seq<char>),
    pub threads_running: i64,
    pub shutting_down: bool,
    pub site_matrix: Seq<SiteMatrixEntryView>,
    pub main_page: Seq<char>,
}

/// The state that all queries share.
#[derive(Debug)]
pub struct AppState {
    pub db_pool: Vec<DbUserPass>,
    pub config: Config,
    tool_db_user_pass: DbUserPass,
    threads_running: i64,
    shutting_down: bool,
    site_matrix: SiteMatrix,
    main_page: String,
}

impl View for AppState {
    type V = AppStateView;

    closed spec fn view(&self) -> AppStateView {
        AppStateView {
            db_pool: credentials_view(self.db_pool@),
            config: self.config@,
            tool_db: (self.tool_db_user_pass.0@, self.tool_db_user_pass.1@),
            threads_running: self.threads_running,
            shutting_down: self.shutting_down,
            site_matrix: self.site_matrix@,
            main_page: self.main_page@,
        }
    }
}

/// The database name that a wiki's schema goes by: the Belarusian wiki in
/// classical orthography has one name for its four.
pub open spec fn schema_wiki(wiki: Seq<char>) -> Seq<char> {
    if wiki == "be-taraskwiki"@ || wiki == "be-x-oldwiki"@ || wiki == "be_taraskwiki"@ || wiki
        == "be_x_oldwiki"@ {
        "be_x_oldwiki"@
    } else {
        wiki
    }
}

/// The group of servers that the replicas are in.
pub open spec fn server_group_of(config: ConfigView) -> Seq<char> {
    match config.dbservergroup {
        Some(s) => s,
        None => ".web.db.svc.eqiad.wmflabs"@,
    }
}

/// The host and the schema of a wiki's replica, or the message that the
/// configuration names no host.
pub open spec fn host_and_schema_of(config: ConfigView, wiki: Seq<char>) -> Result<
    (Seq<char>, Seq<char>),
    Seq<char>,
> {
    match config.host {
        Some(host) => Ok(
            (
                if host == "127.0.0.1"@ {
                    host
                } else {
                    schema_wiki(wiki) + server_group_of(config)
                },
                schema_wiki(wiki) + "_p"@,
            ),
        ),
        None => Err("No host in config file"@),
    }
}

/// The host and the schema of the tool database, or the message of what the
/// configuration lacks.
pub open spec fn tool_db_of(config: ConfigView) -> Result<(Seq<char>, Seq<char>), Seq<char>> {
    match (config.host, config.schema) {
        (Some(host), Some(schema)) => Ok((host, schema)),
        (None, _) => Err("No host key in config file"@),
        (_, None) => Err("No schema key in config file"@),
    }
}

/// The port of the replicas.
pub open spec fn wiki_db_port_of(config: ConfigView) -> u16 {
    match config.db_port {
        Some(p) => p,
        None => 3306,
    }
}

/// The port of the tool database: through a local tunnel it is 3308.
pub open spec fn tool_db_port_of(config: ConfigView) -> u16 {
    match config.host {
        Some(host) => if host == "127.0.0.1"@ {
            3308
        } else {
            wiki_db_port_of(config)
        },
        None => 3306,
    }
}

/// The page with the direction and the language written into its `<html>` tag.
pub open spec fn main_page_for(main_page: Seq<char>, rtl: bool, language: Seq<char>) -> Seq<char> {
    replaced(
        main_page,
        "<html>"@,
        "<html dir='"@ + (if rtl {
            "rtl"@
        } else {
            "ltr"@
        }) + "' lang='"@ + replaced(language, "'"@, ""@) + "'>"@,
    )
}

/// The statement that prepares a session on a wiki's replica, for the wikis that need one.
pub open spec fn session_setup_of(wiki: Seq<char>) -> Option<(Seq<char>, Seq<Seq<char>>)> {
    if wiki == "commonswiki"@ {
        Some(("SET SESSION group_concat_max_len = 1000000000"@, Seq::<Seq<char>>::empty()))
    } else {
        None
    }
}

/// The message of a connection that could not be made.
pub open spec fn connection_failure(wiki: Seq<char>, host: Seq<char>, schema: Seq<char>) -> Seq<char> {
    "Could not connect to database replica for '"@ + wiki + "' on '"@ + host + "'/'"@ + schema
        + "' after "@ + decimal_of(MYSQL_MAX_CONNECTION_ATTEMPTS as int) + " attempts"@
}

/// Appends `n` slots with the given credentials.
fn push_slots(pool: &mut Vec<DbUserPass>, user: &String, password: &String, n: u64)
    ensures
        credentials_view(final(pool)@) == credentials_view(old(pool)@) + slots_of(
            user@,
            password@,
            n as nat,
        ),
{
    let ghost before = credentials_view(pool@);
    let mut k: u64 = 0;
    proof {
        assert(before + slots_of(user@, password@, 0) =~= before);
    }
    while k < n
        invariant
            k <= n,
            credentials_view(pool@) == before + slots_of(user@, password@, k as nat),
        decreases n - k,
    {
        let ghost now = credentials_view(pool@);
        pool.push((user.clone(), password.clone()));
        proof {
            assert(credentials_view(pool@) =~= now.push((user@, password@)));
            assert(now.push((user@, password@)) =~= before + slots_of(
                user@,
                password@,
                (k + 1) as nat,
            ));
        }
        k += 1;
    }
}

impl AppState {
    /// The state for a configuration, a catalogue of wikis and the text of
    /// the main page. The configuration needs a user and a password, and
    /// has to give the pool at least one slot.
    pub fn new_from_config(config: Config, site_matrix: SiteMatrix, main_page: String) -> (r: Result<
        Self,
        String,
    >)
        ensures
            match r {
                Ok(state) => config_fault(config@) is None && state@ == (AppStateView {
                    db_pool: pool_of(config@),
                    config: config@,
                    tool_db: (config@.user->Some_0, config@.password->Some_0),
                    threads_running: 0,
                    shutting_down: false,
                    site_matrix: site_matrix@,
                    main_page: main_page@,
                }),
                Err(msg) => config_fault(config@) == Some(msg@),
            },
    {
        let user = match &config.user {
            Some(u) => u.clone(),
            None => {
                return Err(String::from_str("No user key in config file"));
            },
        };
        let password = match &config.password {
            Some(p) => p.clone(),
            None => {
                return Err(String::from_str("No password key in config file"));
            },
        };
        let mut db_pool: Vec<DbUserPass> = Vec::new();
        proof {
            assert(credentials_view(db_pool@) =~= Seq::<(Seq<char>, Seq<char>)>::empty());
        }
        match &config.mysql {
            Some(up_list) => {
                let ghost accounts = Seq::new(up_list@.len(), |i: int| up_list@[i]@);
                let mut i: usize = 0;
                proof {
                    assert(accounts.take(0) =~= Seq::<MysqlAccessView>::empty());
                    assert(credentials_view(db_pool@) =~= account_slots(accounts.take(0)));
                }
                while i < up_list.len()
                    invariant
                        i <= up_list.len(),
                        accounts == Seq::new(up_list@.len(), |i: int| up_list@[i]@),
                        credentials_view(db_pool@) == account_slots(accounts.take(i as int)),
                    decreases up_list.len() - i,
                {
                    proof {
                        let next = accounts.take(i + 1);
                        assert(next.drop_last() =~= accounts.take(i as int));
                        assert(next.last() == up_list@[i as int]@);
                    }
                    let connections = match up_list[i].connections {
                        Some(n) => n,
                        None => DEFAULT_CONNECTIONS_PER_ACCOUNT,
                    };
                    push_slots(&mut db_pool, &up_list[i].user, &up_list[i].password, connections);
                    i += 1;
                }
                proof {
                    assert(accounts.take(accounts.len() as int) =~= accounts);
                }
            },
            None => {
                push_slots(&mut db_pool, &user, &password, MAX_CONCURRENT_DB_CONNECTIONS);
                proof {
                    assert(Seq::<(Seq<char>, Seq<char>)>::empty() + slots_of(
                        user@,
                        password@,
                        MAX_CONCURRENT_DB_CONNECTIONS as nat,
                    ) =~= slots_of(user@, password@, MAX_CONCURRENT_DB_CONNECTIONS as nat));
                }
            },
        }
        if db_pool.len() == 0 {
            return Err(String::from_str("No database access config available"));
        }
        Ok(
            AppState {
                db_pool,
                config,
                tool_db_user_pass: (user, password),
                threads_running: 0,
                shutting_down: false,
                site_matrix,
                main_page,
            },
        )
    }

    /// The main page for a reader of the given language.
    pub fn get_main_page(&self, interface_language: String) -> (r: String)
        ensures
            r@ == main_page_for(
                self@.main_page,
                is_rtl(self@.site_matrix, interface_language@),
                interface_language@,
            ),
    {
        let direction = if self.is_language_rtl(interface_language.as_str()) {
            "rtl"
        } else {
            "ltr"
        };
        let h = String::from_str("<html dir='");
        let h = h.concat(direction);
        let h = h.concat("' lang='");
        let h = h.concat(replace(interface_language.as_str(), "'", "").as_str());
        let h = h.concat("'>");
        replace(self.main_page.as_str(), "<html>", h.as_str())
    }

    /// The group of servers that the replicas are in.
    pub fn get_db_server_group(&self) -> (r: String)
        ensures
            r@ == server_group_of(self@.config),
    {
        match &self.config.dbservergroup {
            Some(s) => s.clone(),
            None => String::from_str(".web.db.svc.eqiad.wmflabs"),
        }
    }

    /// The host and the schema of the replica of `wiki`.
    pub fn db_host_and_schema_for_wiki(&self, wiki: &String) -> (r: Result<(String, String), String>)
        ensures
            match r {
                Ok(hs) => host_and_schema_of(self@.config, wiki@) == Ok::<
                    (Seq<char>, Seq<char>),
                    Seq<char>,
                >((hs.0@, hs.1@)),
                Err(msg) => host_and_schema_of(self@.config, wiki@) == Err::<
                    (Seq<char>, Seq<char>),
                    Seq<char>,
                >(msg@),
            },
    {
        let w = wiki.as_str();
        let wiki_name = if str_eq(w, "be-taraskwiki") || str_eq(w, "be-x-oldwiki") || str_eq(
            w,
            "be_taraskwiki",
        ) || str_eq(w, "be_x_oldwiki") {
            String::from_str("be_x_oldwiki")
        } else {
            wiki.clone()
        };
        let host = match &self.config.host {
            Some(h) => {
                if str_eq(h.as_str(), "127.0.0.1") {
                    h.clone()
                } else {
                    concat(wiki_name.as_str(), self.get_db_server_group().as_str())
                }
            },
            None => {
                return Err(String::from_str("No host in config file"));
            },
        };
        let schema = concat(wiki_name.as_str(), "_p");
        Ok((host, schema))
    }

    /// The host and the schema of the tool database.
    pub fn db_host_and_schema_for_tool_db(&self) -> (r: Result<(String, String), String>)
        ensures
            match r {
                Ok(hs) => tool_db_of(self@.config) == Ok::<(Seq<char>, Seq<char>), Seq<char>>(
                    (hs.0@, hs.1@),
                ),
                Err(msg) => tool_db_of(self@.config) == Err::<(Seq<char>, Seq<char>), Seq<char>>(
                    msg@,
                ),
            },
    {
        let host = match &self.config.host {
            Some(h) => h.clone(),
            None => {
                return Err(String::from_str("No host key in config file"));
            },
        };
        let schema = match &self.config.schema {
            Some(s) => s.clone(),
            None => {
                return Err(String::from_str("No schema key in config file"));
            },
        };
        Ok((host, schema))
    }

    /// The port of the replicas.
    pub fn wiki_db_port(&self) -> (r: u16)
        ensures
            r == wiki_db_port_of(self@.config),
    {
        match self.config.db_port {
            Some(p) => p,
            None => 3306,
        }
    }

    /// The port of the tool database.
    pub fn tool_db_port(&self) -> (r: u16)
        ensures
            r == tool_db_port_of(self@.config),
    {
        match &self.config.host {
            Some(h) => {
                if str_eq(h.as_str(), "127.0.0.1") {
                    3308
                } else {
                    self.wiki_db_port()
                }
            },
            None => 3306,
        }
    }

    /// The catalogue of wikis.
    pub fn site_matrix(&self) -> (r: &SiteMatrix)
        ensures
            r@ == self@.site_matrix,
    {
        &self.site_matrix
    }

    /// The number of slots in the pool; there is at least one.
    pub fn pool_size(&self) -> (r: usize)
        ensures
            r == self@.db_pool.len(),
    {
        self.db_pool.len()
    }

    /// The credentials of the tool database.
    pub fn get_tool_db_user_pass(&self) -> (r: &DbUserPass)
        ensures
            (r.0@, r.1@) == self@.tool_db,
    {
        &self.tool_db_user_pass
    }

    /// The statement that prepares a session on the replica of `wiki`:
    /// Commons needs room for long lists of usages, other wikis need nothing.
    pub fn set_group_concat_max_len(wiki: &String) -> (r: Option<SQLtuple>)
        ensures
            r.deep_view() == session_setup_of(wiki@),
    {
        if !str_eq(wiki.as_str(), "commonswiki") {
            return None;
        }
        let values: Vec<String> = Vec::new();
        proof {
            assert(values.deep_view() =~= Seq::<Seq<char>>::empty());
        }
        Some((String::from_str("SET SESSION group_concat_max_len = 1000000000"), values))
    }

    /// The message for a replica that could not be reached in all attempts.
    pub fn connection_failure_message(wiki: &String, host: &String, schema: &String) -> (r: String)
        ensures
            r@ == connection_failure(wiki@, host@, schema@),
    {
        let mut out: Vec<char> = Vec::new();
        push_str(&mut out, "Could not connect to database replica for '");
        push_str(&mut out, wiki.as_str());
        push_str(&mut out, "' on '");
        push_str(&mut out, host.as_str());
        push_str(&mut out, "'/'");
        push_str(&mut out, schema.as_str());
        push_str(&mut out, "' after ");
        push_digits(&mut out, MYSQL_MAX_CONNECTION_ATTEMPTS);
        push_str(&mut out, " attempts");
        proof {
            assert(out@ =~= connection_failure(wiki@, host@, schema@));
        }
        string_of(&out)
    }

    /// Whether the catalogue lists the language as written from right to left.
    pub fn is_language_rtl(&self, language: &str) -> (r: bool)
        ensures
            r == is_rtl(self@.site_matrix, language@),
    {
        self.site_matrix.is_language_rtl(language)
    }

    /// The database name of the wiki on the server `url`.
    pub fn get_wiki_for_server_url(&self, url: &String) -> (r: Option<String>)
        ensures
            r.deep_view() == matrix_answer(self@.site_matrix, SiteKey::Url, url@),
    {
        self.site_matrix.get_wiki_for_server_url(url)
    }

    /// The server of the wiki with the database name `wiki`.
    pub fn get_server_url_for_wiki(&self, wiki: &String) -> (r: Result<String, String>)
        ensures
            match r {
                Ok(url) => server_url_of(self@.site_matrix, wiki@) == Ok::<Seq<char>, Seq<char>>(
                    url@,
                ),
                Err(msg) => server_url_of(self@.site_matrix, wiki@) == Err::<Seq<char>, Seq<char>>(
                    msg@,
                ),
            },
    {
        self.site_matrix.get_server_url_for_wiki(wiki)
    }

    /// The address of the programming interface of `wiki`.
    pub fn get_api_url_for_wiki(&self, wiki: String) -> (r: Result<String, String>)
        ensures
            match r {
                Ok(url) => server_url_of(self@.site_matrix, wiki@) is Ok && url@ == server_url_of(
                    self@.site_matrix,
                    wiki@,
                )->Ok_0 + "/w/api.php"@,
                Err(msg) => server_url_of(self@.site_matrix, wiki@) == Err::<Seq<char>, Seq<char>>(
                    msg@,
                ),
            },
    {
        match self.get_server_url_for_wiki(&wiki) {
            Ok(url) => Ok(concat(url.as_str(), "/w/api.php")),
            Err(e) => Err(e),
        }
    }

    /// Whether the process is to stop once no query runs any more.
    pub fn is_shutting_down(&self) -> (r: bool)
        ensures
            r == self@.shutting_down,
    {
        self.shutting_down
    }

    /// Asks the process to stop once no query runs any more.
    pub fn shut_down(&mut self)
        ensures
            final(self)@ == (AppStateView { shutting_down: true, ..old(self)@ }),
    {
        self.shutting_down = true;
    }

    /// Whether the process is to stop now: it has been asked to, and no query runs.
    pub fn try_shutdown(&self) -> (r: bool)
        ensures
            r == (self@.shutting_down && self@.threads_running == 0),
    {
        self.shutting_down && self.threads_running == 0
    }

    /// Counts queries in and out, and says whether the process is to stop now.
    pub fn modify_threads_running(&mut self, diff: i64) -> (r: bool)
        requires
            i64::MIN <= old(self)@.threads_running + diff <= i64::MAX,
        ensures
            final(self)@ == (AppStateView {
                threads_running: (old(self)@.threads_running + diff) as i64,
                ..old(self)@
            }),
            r == (final(self)@.shutting_down && final(self)@.threads_running == 0),
    {
        self.threads_running = self.threads_running + diff;
        self.try_shutdown()
    }

    /// The number of queries that run.
    pub fn threads_running(&self) -> (r: i64)
        ensures
            r == self@.threads_running,
    {
        self.threads_running
    }
}

impl Clone for DbSlotSearch {
    fn clone(&self) -> (r: Self)
        ensures
            r == *self,
    {
        DbSlotSearch { pool_size: self.pool_size, failures: self.failures }
    }
}

/// The search for a free slot of the pool: slots are drawn at random; after
/// every run of twice as many failures as the pool has slots, the search
/// pauses for half a second.
#[derive(Debug)]
pub struct DbSlotSearch {
    pub pool_size: usize,
    pub failures: usize,
}

/// The pause after a run of failures, in milliseconds.
pub const DB_SLOT_PAUSE_MS: u64 = 500;

impl DbSlotSearch {
    /// A search that has not failed yet.
    pub fn new(pool_size: usize) -> (r: Self)
        ensures
            r == (DbSlotSearch { pool_size, failures: 0 }),
    {
        DbSlotSearch { pool_size, failures: 0 }
    }

    /// Whether the search can draw slots and count failures: the pool is
    /// not empty, and the count is below the length of a run.
    pub open spec fn wf(self) -> bool {
        self.pool_size > 0 && self.pool_size <= usize::MAX / 2 && self.failures < 2
            * self.pool_size
    }

    /// The slot to try next: any slot of the pool, drawn at random.
    pub fn pick(&self) -> (r: usize)
        requires
            self.pool_size > 0,
        ensures
            r < self.pool_size,
    {
        random_index(self.pool_size)
    }

    /// After a slot was found taken: how long to pause before the next
    /// try, in milliseconds. The search pauses after every run of twice as
    /// many failures as the pool has slots.
    pub fn on_failure(&mut self) -> (r: Option<u64>)
        requires
            old(self).wf(),
        ensures
            final(self).wf(),
            final(self).pool_size == old(self).pool_size,
            old(self).failures + 1 == 2 * old(self).pool_size ==> r == Some(DB_SLOT_PAUSE_MS)
                && final(self).failures == 0,
            old(self).failures + 1 < 2 * old(self).pool_size ==> r is None && final(self).failures
                == old(self).failures + 1,
    {
        self.failures = self.failures + 1;
        if self.failures == 2 * self.pool_size {
            self.failures = 0;
            Some(DB_SLOT_PAUSE_MS)
        } else {
            None
        }
    }
}

/// The attempts to connect to a replica: fifteen at most, with a wait
/// between two attempts that starts at 100 ms, doubles every time, and
/// never exceeds five seconds.
#[derive(Debug)]
pub struct ConnectionRetry {
    pub attempts_left: u64,
    pub delay_ms: u64,
}

/// The wait after the `k`th failed attempt, in milliseconds.
pub open spec fn delay_after(k: nat) -> nat
    decreases k,
{
    if k <= 1 {
        MYSQL_CONNECTION_INITIAL_DELAY_MS as nat
    } else if 2 * delay_after((k - 1) as nat) > MYSQL_CONNECTION_MAX_DELAY_MS {
        MYSQL_CONNECTION_MAX_DELAY_MS as nat
    } else {
        2 * delay_after((k - 1) as nat)
    }
}

impl ConnectionRetry {
    /// Before the first attempt.
    pub fn new() -> (r: Self)
        ensures
            r.wf(),
            r.failed() == 0,
    {
        ConnectionRetry {
            attempts_left: MYSQL_MAX_CONNECTION_ATTEMPTS,
            delay_ms: MYSQL_CONNECTION_INITIAL_DELAY_MS,
        }
    }

    /// How many attempts have failed.
    pub open spec fn failed(self) -> nat {
        (MYSQL_MAX_CONNECTION_ATTEMPTS - self.attempts_left) as nat
    }

    /// Whether the state is one that `new` and `on_failure` lead to.
    pub open spec fn wf(self) -> bool {
        &&& self.attempts_left <= MYSQL_MAX_CONNECTION_ATTEMPTS
        &&& self.delay_ms == delay_after(self.failed() + 1)
    }

    /// After a failed attempt: how long to wait before the next one, in
    /// milliseconds, or `None` where that was the last attempt.
    pub fn on_failure(&mut self) -> (r: Option<u64>)
        requires
            old(self).wf(),
        ensures
            final(self).wf(),
            old(self).attempts_left <= 1 ==> r is None && final(self).attempts_left == 0,
            old(self).attempts_left > 1 ==> r == Some(delay_after(final(self).failed()) as u64)
                && final(self).attempts_left == old(self).attempts_left - 1,
    {
        proof {
            lemma_delay_bounds(self.failed() + 1);
            lemma_delay_bounds(self.failed() + 2);
        }
        if self.attempts_left <= 1 {
            self.attempts_left = 0;
            self.delay_ms = MYSQL_CONNECTION_MAX_DELAY_MS;
            proof {
                lemma_delay_is_capped(16);
            }
            return None;
        }
        self.attempts_left = self.attempts_left - 1;
        let wait = self.delay_ms;
        let doubled = self.delay_ms * 2;
        self.delay_ms = if doubled > MYSQL_CONNECTION_MAX_DELAY_MS {
            MYSQL_CONNECTION_MAX_DELAY_MS
        } else {
            doubled
        };
        Some(wait)
    }
}

/// No wait is shorter than the first or longer than the longest.
pub proof fn lemma_delay_bounds(k: nat)
    ensures
        MYSQL_CONNECTION_INITIAL_DELAY_MS <= delay_after(k) <= MYSQL_CONNECTION_MAX_DELAY_MS,
    decreases k,
{
    if k > 1 {
        lemma_delay_bounds((k - 1) as nat);
    }
}

/// From the seventh failure on the wait is the longest one.
pub proof fn lemma_delay_is_capped(k: nat)
    requires
        k >= 7,
    ensures
        delay_after(k) == MYSQL_CONNECTION_MAX_DELAY_MS,
    decreases k,
{
    if k > 7 {
        lemma_delay_is_capped((k - 1) as nat);
    } else {
        assert(delay_after(1) == 100);
        assert(delay_after(2) == 200);
        assert(delay_after(3) == 400);
        assert(delay_after(4) == 800);
        assert(delay_after(5) == 1600);
        assert(delay_after(6) == 3200);
        assert(delay_after(7) == 5000);
    }
}

} // verus!
