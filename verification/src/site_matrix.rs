//! The catalogue of wikis: which database name goes with which server, and
//! which languages are written from right to left.

use vstd::prelude::*;
use crate::file_info::clone_text;
use crate::text::{concat, replace, replaced, str_eq};

verus! {

/// What a site is, mathematically.
pub struct SiteView {
    pub url: Option<Seq<char>>,
    pub dbname: Option<Seq<char>>,
    pub closed: bool,
    pub private: bool,
}

/// One wiki of the catalogue.
#[derive(Debug)]
pub struct Site {
    pub url: Option<String>,
    pub dbname: Option<String>,
    pub closed: bool,
    pub private: bool,
}

impl View for Site {
    type V = SiteView;

    open spec fn view(&self) -> SiteView {
        SiteView {
            url: self.url.deep_view(),
            dbname: self.dbname.deep_view(),
            closed: self.closed,
            private: self.private,
        }
    }
}

impl DeepView for Site {
    type V = SiteView;

    open spec fn deep_view(&self) -> SiteView {
        self@
    }
}

impl Clone for Site {
    fn clone(&self) -> (r: Self)
        ensures
            r@ == self@,
    {
        Site {
            url: clone_text(&self.url),
            dbname: clone_text(&self.dbname),
            closed: self.closed,
            private: self.private,
        }
    }
}

/// What an entry of the catalogue is, mathematically.
pub enum SiteMatrixEntryView {
    Count,
    Specials(Seq<SiteView>),
    Language { code: Option<Seq<char>>, dir: Option<Seq<char>>, sites: Option<Seq<SiteView>> },
}

/// One entry of the catalogue: the number of wikis, the wikis that belong
/// to no language, or a language with its wikis.
#[derive(Debug)]
pub enum SiteMatrixEntry {
    Count,
    Specials(Vec<Site>),
    Language { code: Option<String>, dir: Option<String>, sites: Option<Vec<Site>> },
}

/// The sites as the catalogue lists them.
pub open spec fn sites_view(sites: Seq<Site>) -> Seq<SiteView> {
    Seq::new(sites.len(), |i: int| sites[i]@)
}

impl View for SiteMatrixEntry {
    type V = SiteMatrixEntryView;

    open spec fn view(&self) -> SiteMatrixEntryView {
        match self {
            SiteMatrixEntry::Count => SiteMatrixEntryView::Count,
            SiteMatrixEntry::Specials(sites) => SiteMatrixEntryView::Specials(sites_view(sites@)),
            SiteMatrixEntry::Language { code, dir, sites } => SiteMatrixEntryView::Language {
                code: code.deep_view(),
                dir: dir.deep_view(),
                sites: match sites {
                    Some(s) => Some(sites_view(s@)),
                    None => None,
                },
            },
        }
    }
}

/// A copy of a list of sites.
fn clone_sites(sites: &Vec<Site>) -> (r: Vec<Site>)
    ensures
        sites_view(r@) == sites_view(sites@),
{
    let mut r: Vec<Site> = Vec::new();
    let mut i: usize = 0;
    while i < sites.len()
        invariant
            i <= sites.len(),
            r.len() == i,
            forall|j: int| 0 <= j < i ==> (#[trigger] r@[j])@ == sites@[j]@,
        decreases sites.len() - i,
    {
        r.push(sites[i].clone());
        i += 1;
    }
    proof {
        assert(sites_view(r@) =~= sites_view(sites@));
    }
    r
}

impl Clone for SiteMatrixEntry {
    fn clone(&self) -> (r: Self)
        ensures
            r@ == self@,
    {
        match self {
            SiteMatrixEntry::Count => SiteMatrixEntry::Count,
            SiteMatrixEntry::Specials(sites) => SiteMatrixEntry::Specials(clone_sites(sites)),
            SiteMatrixEntry::Language { code, dir, sites } => SiteMatrixEntry::Language {
                code: clone_text(code),
                dir: clone_text(dir),
                sites: match sites {
                    Some(s) => Some(clone_sites(s)),
                    None => None,
                },
            },
        }
    }
}

/// The catalogue of wikis, in the order of its entries.
#[derive(Debug)]
pub struct SiteMatrix {
    pub entries: Vec<SiteMatrixEntry>,
}

impl View for SiteMatrix {
    type V = Seq<SiteMatrixEntryView>;

    open spec fn view(&self) -> Seq<SiteMatrixEntryView> {
        Seq::new(self.entries@.len(), |i: int| self.entries@[i]@)
    }
}

impl Clone for SiteMatrix {
    fn clone(&self) -> (r: Self)
        ensures
            r@ == self@,
    {
        let mut entries: Vec<SiteMatrixEntry> = Vec::new();
        let mut i: usize = 0;
        while i < self.entries.len()
            invariant
                i <= self.entries.len(),
                entries.len() == i,
                forall|j: int| 0 <= j < i ==> (#[trigger] entries@[j])@ == self.entries@[j]@,
            decreases self.entries.len() - i,
        {
            entries.push(self.entries[i].clone());
            i += 1;
        }
        let r = SiteMatrix { entries };
        proof {
            assert(r@ =~= self@);
        }
        r
    }
}

/// The two things a site can be found by.
#[derive(Debug, Clone, Copy, PartialEq, Eq, Structural)]
pub enum SiteKey {
    Url,
    Dbname,
}

/// What a site answers to a search: if it is open and public and has
/// `value` under `key`, what it has under the other key.
pub open spec fn site_answer(site: SiteView, key: SiteKey, value: Seq<char>) -> Option<Seq<char>> {
    if site.closed || site.private {
        None
    } else {
        match key {
            SiteKey::Url => if site.url == Some(value) {
                site.dbname
            } else {
                None
            },
            SiteKey::Dbname => if site.dbname == Some(value) {
                site.url
            } else {
                None
            },
        }
    }
}

/// The answer of the first site that has one.
pub open spec fn sites_answer(sites: Seq<SiteView>, key: SiteKey, value: Seq<char>) -> Option<
    Seq<char>,
>
    decreases sites.len(),
{
    if sites.len() == 0 {
        None
    } else {
        match site_answer(sites[0], key, value) {
            Some(a) => Some(a),
            None => sites_answer(sites.skip(1), key, value),
        }
    }
}

/// The answer of an entry: that of its sites.
pub open spec fn entry_answer(entry: SiteMatrixEntryView, key: SiteKey, value: Seq<char>) -> Option<
    Seq<char>,
> {
    match entry {
        SiteMatrixEntryView::Count => None,
        SiteMatrixEntryView::Specials(sites) => sites_answer(sites, key, value),
        SiteMatrixEntryView::Language { code, dir, sites } => match sites {
            Some(s) => sites_answer(s, key, value),
            None => None,
        },
    }
}

/// The answer of the catalogue: that of the first entry that has one.
pub open spec fn matrix_answer(entries: Seq<SiteMatrixEntryView>, key: SiteKey, value: Seq<char>) -> Option<
    Seq<char>,
>
    decreases entries.len(),
{
    if entries.len() == 0 {
        None
    } else {
        match entry_answer(entries[0], key, value) {
            Some(a) => Some(a),
            None => matrix_answer(entries.skip(1), key, value),
        }
    }
}

/// Whether the entry is a language with this code that is written from right to left.
pub open spec fn is_rtl_entry(entry: SiteMatrixEntryView, language: Seq<char>) -> bool {
    match entry {
        SiteMatrixEntryView::Language { code, dir, sites } => code == Some(language) && dir == Some(
            "rtl"@,
        ),
        _ => false,
    }
}

/// Whether the catalogue lists the language as written from right to left.
pub open spec fn is_rtl(entries: Seq<SiteMatrixEntryView>, language: Seq<char>) -> bool {
    exists|i: int| 0 <= i < entries.len() && is_rtl_entry(#[trigger] entries[i], language)
}

/// The server of the Belarusian wiki in classical orthography, which the
/// catalogue lists under another name.
pub open spec fn is_be_tarask(wiki: Seq<char>) -> bool {
    replaced(wiki, "_"@, "-"@) == "be-taraskwiki"@ || replaced(wiki, "_"@, "-"@) == "be-x-oldwiki"@
}

/// The message for a wiki without server.
pub open spec fn no_server_for(wiki: Seq<char>) -> Seq<char> {
    "AppState::get_server_url_for_wiki: Cannot find server for wiki '"@ + wiki + "'"@
}

/// The server of a wiki, or the message that there is none.
pub open spec fn server_url_of(entries: Seq<SiteMatrixEntryView>, wiki: Seq<char>) -> Result<
    Seq<char>,
    Seq<char>,
> {
    if is_be_tarask(wiki) {
        Ok("https://be-tarask.wikipedia.org"@)
    } else {
        match matrix_answer(entries, SiteKey::Dbname, wiki) {
            Some(url) => Ok(url),
            None => Err(no_server_for(wiki)),
        }
    }
}

/// Whether an optional text is this text.
pub fn text_is(t: &Option<String>, value: &str) -> (r: bool)
    ensures
        r == (t.deep_view() == Some(value@)),
{
    match t {
        Some(s) => str_eq(s.as_str(), value),
        None => false,
    }
}

impl Site {
    /// What the site answers to a search.
    pub fn answer(&self, key: SiteKey, value: &str) -> (r: Option<String>)
        ensures
            r.deep_view() == site_answer(self@, key, value@),
    {
        if self.closed || self.private {
            return None;
        }
        match key {
            SiteKey::Url => {
                if text_is(&self.url, value) {
                    clone_text(&self.dbname)
                } else {
                    None
                }
            },
            SiteKey::Dbname => {
                if text_is(&self.dbname, value) {
                    clone_text(&self.url)
                } else {
                    None
                }
            },
        }
    }
}

/// The answer of the first site that has one.
fn search_sites(sites: &Vec<Site>, key: SiteKey, value: &str) -> (r: Option<String>)
    ensures
        r.deep_view() == sites_answer(sites_view(sites@), key, value@),
{
    let ghost all = sites_view(sites@);
    let mut i: usize = 0;
    proof {
        assert(all.skip(0) =~= all);
    }
    while i < sites.len()
        invariant
            i <= sites.len(),
            all == sites_view(sites@),
            sites_answer(all.skip(i as int), key, value@) == sites_answer(all, key, value@),
        decreases sites.len() - i,
    {
        proof {
            assert(all.skip(i as int)[0] == all[i as int]);
            assert(all.skip(i as int).skip(1) =~= all.skip(i + 1));
        }
        match sites[i].answer(key, value) {
            Some(a) => {
                return Some(a);
            },
            None => {},
        }
        i += 1;
    }
    None
}

impl SiteMatrix {
    /// The answer of the catalogue to a search.
    pub fn search(&self, key: SiteKey, value: &str) -> (r: Option<String>)
        ensures
            r.deep_view() == matrix_answer(self@, key, value@),
    {
        let ghost all = self@;
        let mut i: usize = 0;
        proof {
            assert(all.skip(0) =~= all);
        }
        while i < self.entries.len()
            invariant
                i <= self.entries.len(),
                all == self@,
                matrix_answer(all.skip(i as int), key, value@) == matrix_answer(all, key, value@),
            decreases self.entries.len() - i,
        {
            proof {
                assert(all.skip(i as int)[0] == all[i as int]);
                assert(all.skip(i as int).skip(1) =~= all.skip(i + 1));
            }
            let found = match &self.entries[i] {
                SiteMatrixEntry::Count => None,
                SiteMatrixEntry::Specials(sites) => search_sites(sites, key, value),
                SiteMatrixEntry::Language { code, dir, sites } => match sites {
                    Some(s) => search_sites(s, key, value),
                    None => None,
                },
            };
            match found {
                Some(a) => {
                    return Some(a);
                },
                None => {},
            }
            i += 1;
        }
        None
    }

    /// Whether the catalogue lists the language as written from right to left.
    pub fn is_language_rtl(&self, language: &str) -> (r: bool)
        ensures
            r == is_rtl(self@, language@),
    {
        let mut i: usize = 0;
        while i < self.entries.len()
            invariant
                i <= self.entries.len(),
                forall|j: int| 0 <= j < i ==> !is_rtl_entry(#[trigger] self@[j], language@),
            decreases self.entries.len() - i,
        {
            let hit = match &self.entries[i] {
                SiteMatrixEntry::Language { code, dir, sites } => text_is(code, language) && text_is(
                    dir,
                    "rtl",
                ),
                _ => false,
            };
            if hit {
                proof {
                    assert(is_rtl_entry(self@[i as int], language@));
                }
                return true;
            }
            i += 1;
        }
        false
    }

    /// The database name of the wiki on the server `url`: that of the
    /// first open and public site with this server.
    pub fn get_wiki_for_server_url(&self, url: &String) -> (r: Option<String>)
        ensures
            r.deep_view() == matrix_answer(self@, SiteKey::Url, url@),
    {
        self.search(SiteKey::Url, url.as_str())
    }

    /// The server of the wiki with the database name `wiki`.
    pub fn get_server_url_for_wiki(&self, wiki: &String) -> (r: Result<String, String>)
        ensures
            match r {
                Ok(url) => server_url_of(self@, wiki@) == Ok::<Seq<char>, Seq<char>>(url@),
                Err(msg) => server_url_of(self@, wiki@) == Err::<Seq<char>, Seq<char>>(msg@),
            },
    {
        let dashed = replace(wiki.as_str(), "_", "-");
        if str_eq(dashed.as_str(), "be-taraskwiki") || str_eq(dashed.as_str(), "be-x-oldwiki") {
            return Ok(String::from_str("https://be-tarask.wikipedia.org"));
        }
        match self.search(SiteKey::Dbname, wiki.as_str()) {
            Some(url) => Ok(url),
            None => {
                let msg = concat(
                    "AppState::get_server_url_for_wiki: Cannot find server for wiki '",
                    wiki.as_str(),
                );
                Err(concat(msg.as_str(), "'"))
            },
        }
    }
}

} // verus!
