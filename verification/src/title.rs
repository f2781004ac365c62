//! Page titles: a namespace id and a page name.
//!
//! The name is kept in its display form, with spaces for underscores and
//! without surrounding white space. Two titles are the same title exactly if
//! namespace and display name agree.

use vstd::prelude::*;
use vstd::std_specs::cmp::PartialEqSpecImpl;
use crate::text::{
    is_white_space, lemma_trim_end_shape, lemma_trim_start_shape, lemma_trimmed_is_fixed, map_char,
    trimmed, trim_start,
};

verus! {

/// The number of a namespace: 0 for articles, 6 for files, 120 and 146 for
/// Wikidata properties and lexemes.
pub type NamespaceID = i64;

/// The display form of a page name: underscores become spaces, then
/// surrounding white space is dropped.
pub open spec fn display_form(s: Seq<char>) -> Seq<char> {
    trimmed(map_char(s, '_', ' '))
}

/// The database form of a page name: surrounding white space is dropped, then
/// spaces become underscores.
pub open spec fn database_form(s: Seq<char>) -> Seq<char> {
    map_char(trimmed(s), ' ', '_')
}

/// Whether `s` is a display form: what `display_form` leaves unchanged.
pub open spec fn is_display_form(s: Seq<char>) -> bool {
    display_form(s) == s
}

/// The display form of any text is a display form.
pub proof fn lemma_display_form_is_fixed(s: Seq<char>)
    ensures
        is_display_form(display_form(s)),
{
    let m = map_char(s, '_', ' ');
    let a = trim_start(m);
    let d = trimmed(m);
    lemma_trim_start_shape(m);
    lemma_trim_end_shape(a);
    let k = m.len() - a.len();
    assert forall|i: int| 0 <= i < d.len() implies d[i] != '_' by {
        assert(d[i] == a[i]);
        assert(a[i] == m[i + k]);
    }
    assert(map_char(d, '_', ' ') =~= d);
    lemma_trimmed_is_fixed(m);
}

/// `mediawiki::title::Title::underscores_to_spaces`: replaces every
/// underscore by a space and then trims the result.
#[verifier::external_body]
fn outside_underscores_to_spaces(s: &str) -> (r: String)
    ensures
        r@ == display_form(s@),
{
    mediawiki::title::Title::underscores_to_spaces(s)
}

/// `mediawiki::title::Title::spaces_to_underscores`: trims the text and then
/// replaces every space by an underscore.
#[verifier::external_body]
fn outside_spaces_to_underscores(s: &str) -> (r: String)
    ensures
        r@ == database_form(s@),
{
    mediawiki::title::Title::spaces_to_underscores(s)
}

/// What a title is, mathematically.
pub struct TitleView {
    pub namespace_id: NamespaceID,
    pub title: Seq<char>,
}

/// A page title.
#[derive(Debug)]
pub struct Title {
    title: String,
    namespace_id: NamespaceID,
}

impl View for Title {
    type V = TitleView;

    closed spec fn view(&self) -> TitleView {
        TitleView { namespace_id: self.namespace_id, title: self.title@ }
    }
}

impl Clone for Title {
    fn clone(&self) -> (r: Self)
        ensures
            r@ == self@,
    {
        proof {
            use_type_invariant(self);
        }
        Title { title: self.title.clone(), namespace_id: self.namespace_id }
    }
}

impl PartialEq for Title {
    fn eq(&self, other: &Self) -> (r: bool) {
        self.namespace_id == other.namespace_id && self.title == other.title
    }
}

impl PartialEqSpecImpl for Title {
    open spec fn obeys_eq_spec() -> bool {
        true
    }

    open spec fn eq_spec(&self, other: &Self) -> bool {
        self@ == other@
    }
}

impl TitleView {
    /// Whether the name is in display form, as the name of every title is.
    pub open spec fn wf(self) -> bool {
        is_display_form(self.title)
    }
}

impl Title {
    #[verifier::type_invariant]
    pub closed spec fn inv(self) -> bool {
        is_display_form(self.title@)
    }

    /// Every title's name is in display form.
    pub fn is_well_formed(&self)
        ensures
            self@.wf(),
    {
        proof {
            use_type_invariant(self);
        }
    }

    /// A title from a page name without namespace prefix, in either form, and
    /// the namespace it lies in.
    pub fn new(title: &str, namespace_id: NamespaceID) -> (r: Title)
        ensures
            r@ == (TitleView { namespace_id, title: display_form(title@) }),
            r@.wf(),
    {
        proof {
            lemma_display_form_is_fixed(title@);
        }
        Title { title: outside_underscores_to_spaces(title), namespace_id }
    }

    /// The namespace the page lies in.
    pub fn namespace_id(&self) -> (r: NamespaceID)
        ensures
            r == self@.namespace_id,
    {
        self.namespace_id
    }

    /// The page name in display form.
    pub fn pretty(&self) -> (r: &str)
        ensures
            r@ == self@.title,
    {
        self.title.as_str()
    }

    /// The page name in database form.
    pub fn with_underscores(&self) -> (r: String)
        ensures
            r@ == database_form(self@.title),
    {
        outside_spaces_to_underscores(self.title.as_str())
    }

    /// The database form of any page name.
    pub fn spaces_to_underscores(s: &str) -> (r: String)
        ensures
            r@ == database_form(s@),
    {
        outside_spaces_to_underscores(s)
    }

    /// The display form of any page name.
    pub fn underscores_to_spaces(s: &str) -> (r: String)
        ensures
            r@ == display_form(s@),
    {
        outside_underscores_to_spaces(s)
    }

    /// Whether this is the same title as `other`.
    pub fn same(&self, other: &Title) -> (r: bool)
        ensures
            r == (self@ == other@),
    {
        self.namespace_id == other.namespace_id && self.title == other.title
    }
}

} // verus!
