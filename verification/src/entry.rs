//! One page of a result list, with what has been learned of it.

use vstd::prelude::*;
use vstd::std_specs::cmp::PartialEqSpecImpl;
use crate::chance::random_bool;
use crate::coordinates::{PageCoordinates, PageCoordinatesView};
use crate::collate::{compare_text, lowercase, text_sign, to_lowercase};
use crate::file_info::{clone_text, FileInfo, FileInfoView};
use crate::sort::PageListSort;
use crate::title::{Title, TitleView};
use crate::tristate::TriState;

verus! {

/// A number of links.
pub type LinkCount = u32;

/// What an entry is, mathematically.
pub struct EntryView {
    pub title: TitleView,
    pub disambiguation: TriState,
    pub page_id: Option<u32>,
    pub page_bytes: Option<u32>,
    pub incoming_links: Option<LinkCount>,
    pub link_count: Option<LinkCount>,
    pub redlink_count: Option<LinkCount>,
    pub page_timestamp: Option<Seq<char>>,
    pub page_image: Option<Seq<char>>,
    pub wikidata_item: Option<Seq<char>>,
    pub wikidata_label: Option<Seq<char>>,
    pub wikidata_description: Option<Seq<char>>,
    pub defaultsort: Option<Seq<char>>,
    pub coordinates: Option<PageCoordinatesView>,
    pub file_info: Option<FileInfoView>,
}

/// The entry of which only the title is known.
pub open spec fn fresh_entry(title: TitleView) -> EntryView {
    EntryView {
        title,
        disambiguation: TriState::Unknown,
        page_id: None,
        page_bytes: None,
        incoming_links: None,
        link_count: None,
        redlink_count: None,
        page_timestamp: None,
        page_image: None,
        wikidata_item: None,
        wikidata_label: None,
        wikidata_description: None,
        defaultsort: None,
        coordinates: None,
        file_info: None,
    }
}

/// A page of a result list. Its title identifies it; everything else is
/// annotation.
#[derive(Debug)]
pub struct PageListEntry {
    title: Title,
    pub disambiguation: TriState,
    pub page_id: Option<u32>,
    pub page_bytes: Option<u32>,
    pub incoming_links: Option<LinkCount>,
    pub link_count: Option<LinkCount>,
    pub redlink_count: Option<LinkCount>,
    page_timestamp: Option<String>,
    page_image: Option<String>,
    wikidata_item: Option<String>,
    wikidata_label: Option<String>,
    wikidata_description: Option<String>,
    defaultsort: Option<String>,
    coordinates: Option<PageCoordinates>,
    file_info: Option<FileInfo>,
}

impl View for PageListEntry {
    type V = EntryView;

    closed spec fn view(&self) -> EntryView {
        EntryView {
            title: self.title@,
            disambiguation: self.disambiguation,
            page_id: self.page_id,
            page_bytes: self.page_bytes,
            incoming_links: self.incoming_links,
            link_count: self.link_count,
            redlink_count: self.redlink_count,
            page_timestamp: self.page_timestamp.deep_view(),
            page_image: self.page_image.deep_view(),
            wikidata_item: self.wikidata_item.deep_view(),
            wikidata_label: self.wikidata_label.deep_view(),
            wikidata_description: self.wikidata_description.deep_view(),
            defaultsort: self.defaultsort.deep_view(),
            coordinates: self.coordinates.deep_view(),
            file_info: self.file_info.deep_view(),
        }
    }
}

impl DeepView for PageListEntry {
    type V = EntryView;

    open spec fn deep_view(&self) -> EntryView {
        self@
    }
}

impl Clone for PageListEntry {
    fn clone(&self) -> (r: Self)
        ensures
            r@ == self@,
    {
        PageListEntry {
            title: self.title.clone(),
            disambiguation: self.disambiguation,
            page_id: self.page_id,
            page_bytes: self.page_bytes,
            incoming_links: self.incoming_links,
            link_count: self.link_count,
            redlink_count: self.redlink_count,
            page_timestamp: clone_text(&self.page_timestamp),
            page_image: clone_text(&self.page_image),
            wikidata_item: clone_text(&self.wikidata_item),
            wikidata_label: clone_text(&self.wikidata_label),
            wikidata_description: clone_text(&self.wikidata_description),
            defaultsort: clone_text(&self.defaultsort),
            coordinates: match &self.coordinates {
                Some(c) => Some(c.clone()),
                None => None,
            },
            file_info: match &self.file_info {
                Some(f) => Some(f.clone()),
                None => None,
            },
        }
    }
}

impl PartialEq for PageListEntry {
    fn eq(&self, other: &Self) -> (r: bool) {
        self.title.same(&other.title)
    }
}

/// Two entries are the same entry if they have the same title, whatever else
/// is known of either.
impl PartialEqSpecImpl for PageListEntry {
    open spec fn obeys_eq_spec() -> bool {
        true
    }

    open spec fn eq_spec(&self, other: &Self) -> bool {
        self@.title == other@.title
    }
}

impl PageListEntry {
    /// The entry for `title`, with nothing else known.
    pub fn new(title: Title) -> (r: Self)
        ensures
            r@ == fresh_entry(title@),
            r@.title.wf(),
    {
        title.is_well_formed();
        Self {
            title,
            wikidata_item: None,
            page_id: None,
            page_bytes: None,
            page_timestamp: None,
            defaultsort: None,
            disambiguation: TriState::Unknown,
            incoming_links: None,
            page_image: None,
            coordinates: None,
            link_count: None,
            file_info: None,
            wikidata_label: None,
            wikidata_description: None,
            redlink_count: None,
        }
    }

    /// Every entry's title is well formed.
    pub fn is_well_formed(&self)
        ensures
            self@.title.wf(),
    {
        self.title.is_well_formed();
    }

    /// The page's title.
    pub fn title(&self) -> (r: &Title)
        ensures
            r@ == self@.title,
            r@.wf(),
    {
        self.title.is_well_formed();
        &self.title
    }

    /// Whether the page is a disambiguation page.
    pub fn get_disambiguation(&self) -> (r: TriState)
        ensures
            r == self@.disambiguation,
    {
        self.disambiguation
    }

    /// Records whether the page is a disambiguation page.
    pub fn set_disambiguation(&mut self, disambiguation: TriState)
        ensures
            final(self)@ == (EntryView { disambiguation, ..old(self)@ }),
    {
        self.disambiguation = disambiguation;
    }

    /// The page id.
    pub fn get_page_id(&self) -> (r: Option<u32>)
        ensures
            r == self@.page_id,
    {
        self.page_id
    }

    /// Records the page id.
    pub fn set_page_id(&mut self, page_id: Option<u32>)
        ensures
            final(self)@ == (EntryView { page_id, ..old(self)@ }),
    {
        self.page_id = page_id;
    }

    /// The page's size in bytes.
    pub fn get_page_bytes(&self) -> (r: Option<u32>)
        ensures
            r == self@.page_bytes,
    {
        self.page_bytes
    }

    /// Records the page's size in bytes.
    pub fn set_page_bytes(&mut self, page_bytes: Option<u32>)
        ensures
            final(self)@ == (EntryView { page_bytes, ..old(self)@ }),
    {
        self.page_bytes = page_bytes;
    }

    /// The number of links to the page.
    pub fn get_incoming_links(&self) -> (r: Option<LinkCount>)
        ensures
            r == self@.incoming_links,
    {
        self.incoming_links
    }

    /// Records the number of links to the page.
    pub fn set_incoming_links(&mut self, incoming_links: Option<LinkCount>)
        ensures
            final(self)@ == (EntryView { incoming_links, ..old(self)@ }),
    {
        self.incoming_links = incoming_links;
    }

    /// The number of links on the page.
    pub fn get_link_count(&self) -> (r: Option<LinkCount>)
        ensures
            r == self@.link_count,
    {
        self.link_count
    }

    /// Records the number of links on the page.
    pub fn set_link_count(&mut self, link_count: Option<LinkCount>)
        ensures
            final(self)@ == (EntryView { link_count, ..old(self)@ }),
    {
        self.link_count = link_count;
    }

    /// The number of pages that link to this missing page.
    pub fn get_redlink_count(&self) -> (r: Option<LinkCount>)
        ensures
            r == self@.redlink_count,
    {
        self.redlink_count
    }

    /// Records the number of pages that link to this missing page.
    pub fn set_redlink_count(&mut self, redlink_count: Option<LinkCount>)
        ensures
            final(self)@ == (EntryView { redlink_count, ..old(self)@ }),
    {
        self.redlink_count = redlink_count;
    }

    /// The file data, if the page is a file and its data was loaded.
    pub fn get_file_info(&self) -> (r: Option<FileInfo>)
        ensures
            r.deep_view() == self@.file_info,
    {
        match &self.file_info {
            Some(file_info) => Some(file_info.clone()),
            None => None,
        }
    }

    /// Records the file data.
    pub fn set_file_info(&mut self, file_info_option: Option<FileInfo>)
        ensures
            final(self)@ == (EntryView { file_info: file_info_option.deep_view(), ..old(self)@ }),
    {
        self.file_info = file_info_option;
    }

    /// The page's coordinates.
    pub fn get_coordinates(&self) -> (r: Option<PageCoordinates>)
        ensures
            r.deep_view() == self@.coordinates,
    {
        match &self.coordinates {
            Some(coordinates) => Some(coordinates.clone()),
            None => None,
        }
    }

    /// Records the page's coordinates.
    pub fn set_coordinates(&mut self, coordinates_option: Option<PageCoordinates>)
        ensures
            final(self)@ == (EntryView {
                coordinates: coordinates_option.deep_view(),
                ..old(self)@
            }),
    {
        self.coordinates = coordinates_option;
    }

    /// The page's default sort key.
    pub fn get_defaultsort(&self) -> (r: Option<String>)
        ensures
            r.deep_view() == self@.defaultsort,
    {
        clone_text(&self.defaultsort)
    }

    /// Records the page's default sort key.
    pub fn set_defaultsort(&mut self, defaultsort_option: Option<String>)
        ensures
            final(self)@ == (EntryView {
                defaultsort: defaultsort_option.deep_view(),
                ..old(self)@
            }),
    {
        self.defaultsort = defaultsort_option;
    }

    /// The description of the page's Wikidata item.
    pub fn get_wikidata_description(&self) -> (r: Option<String>)
        ensures
            r.deep_view() == self@.wikidata_description,
    {
        clone_text(&self.wikidata_description)
    }

    /// Records the description of the page's Wikidata item.
    pub fn set_wikidata_description(&mut self, wikidata_description_option: Option<String>)
        ensures
            final(self)@ == (EntryView {
                wikidata_description: wikidata_description_option.deep_view(),
                ..old(self)@
            }),
    {
        self.wikidata_description = wikidata_description_option;
    }

    /// The label of the page's Wikidata item.
    pub fn get_wikidata_label(&self) -> (r: Option<String>)
        ensures
            r.deep_view() == self@.wikidata_label,
    {
        clone_text(&self.wikidata_label)
    }

    /// Records the label of the page's Wikidata item.
    pub fn set_wikidata_label(&mut self, wikidata_label_option: Option<String>)
        ensures
            final(self)@ == (EntryView {
                wikidata_label: wikidata_label_option.deep_view(),
                ..old(self)@
            }),
    {
        self.wikidata_label = wikidata_label_option;
    }

    /// The id of the page's Wikidata item.
    pub fn get_wikidata_item(&self) -> (r: Option<String>)
        ensures
            r.deep_view() == self@.wikidata_item,
    {
        clone_text(&self.wikidata_item)
    }

    /// Records the id of the page's Wikidata item.
    pub fn set_wikidata_item(&mut self, wikidata_item_option: Option<String>)
        ensures
            final(self)@ == (EntryView {
                wikidata_item: wikidata_item_option.deep_view(),
                ..old(self)@
            }),
    {
        self.wikidata_item = wikidata_item_option;
    }

    /// The name of the page's image.
    pub fn get_page_image(&self) -> (r: Option<String>)
        ensures
            r.deep_view() == self@.page_image,
    {
        clone_text(&self.page_image)
    }

    /// Records the name of the page's image.
    pub fn set_page_image(&mut self, page_image_option: Option<String>)
        ensures
            final(self)@ == (EntryView {
                page_image: page_image_option.deep_view(),
                ..old(self)@
            }),
    {
        self.page_image = page_image_option;
    }

    /// The time of the page's last edit.
    pub fn get_page_timestamp(&self) -> (r: Option<String>)
        ensures
            r.deep_view() == self@.page_timestamp,
    {
        clone_text(&self.page_timestamp)
    }

    /// Records the time of the page's last edit.
    pub fn set_page_timestamp(&mut self, page_timestamp_option: Option<String>)
        ensures
            final(self)@ == (EntryView {
                page_timestamp: page_timestamp_option.deep_view(),
                ..old(self)@
            }),
    {
        self.page_timestamp = page_timestamp_option;
    }
}

/// The order of two numbers as a sign.
pub open spec fn number_sign(a: int, b: int) -> int {
    if a < b {
        -1
    } else if a > b {
        1
    } else {
        0
    }
}

/// The order of two optional numbers as a sign: a number comes before none.
pub open spec fn optional_number_sign(a: Option<int>, b: Option<int>) -> int {
    match (a, b) {
        (Some(x), Some(y)) => number_sign(x, y),
        (Some(_), None) => -1,
        (None, Some(_)) => 1,
        (None, None) => 0,
    }
}

/// The order of two optional texts as a sign: a text comes before none.
pub open spec fn optional_text_sign(a: Option<Seq<char>>, b: Option<Seq<char>>) -> int {
    match (a, b) {
        (Some(x), Some(y)) => text_sign(x, y),
        (Some(_), None) => -1,
        (None, Some(_)) => 1,
        (None, None) => 0,
    }
}

/// A sign, flipped where descending order is asked for.
pub open spec fn directed(sign: int, descending: bool) -> int {
    if descending {
        -sign
    } else {
        sign
    }
}

/// An optional count as an optional number.
pub open spec fn count_of(c: Option<u32>) -> Option<int> {
    match c {
        Some(x) => Some(x as int),
        None => None,
    }
}

/// The size of the file, where it is known.
pub open spec fn file_size_of(e: EntryView) -> Option<int> {
    match e.file_info {
        Some(f) => match f.img_size {
            Some(x) => Some(x as int),
            None => None,
        },
        None => None,
    }
}

/// The upload time of the file, where it is known.
pub open spec fn upload_date_of(e: EntryView) -> Option<Seq<char>> {
    match e.file_info {
        Some(f) => f.img_timestamp,
        None => None,
    }
}

/// The text an entry is sorted by on Wikidata: its label in lower case,
/// where it has one.
pub open spec fn label_key(e: EntryView) -> Option<Seq<char>> {
    match e.wikidata_label {
        Some(l) => Some(lowercase(l)),
        None => None,
    }
}

/// The order of two entries under a sort key, as a sign, before the
/// direction is applied. Under the random key it is left open.
pub open spec fn key_sign(a: EntryView, b: EntryView, sorter: PageListSort, is_wikidata: bool) -> int {
    match sorter {
        PageListSort::Default(_) => optional_number_sign(count_of(a.page_id), count_of(b.page_id)),
        PageListSort::Title(_) => if is_wikidata {
            optional_text_sign(label_key(a), label_key(b))
        } else {
            text_sign(a.title.title, b.title.title)
        },
        PageListSort::NsTitle(_) => if a.title.namespace_id == b.title.namespace_id {
            text_sign(a.title.title, b.title.title)
        } else {
            number_sign(a.title.namespace_id as int, b.title.namespace_id as int)
        },
        PageListSort::Size(_) => optional_number_sign(
            count_of(a.page_bytes),
            count_of(b.page_bytes),
        ),
        PageListSort::Date(_) => optional_text_sign(a.page_timestamp, b.page_timestamp),
        PageListSort::RedlinksCount(_) => optional_number_sign(
            count_of(a.redlink_count),
            count_of(b.redlink_count),
        ),
        PageListSort::IncomingLinks(_) => optional_number_sign(
            count_of(a.incoming_links),
            count_of(b.incoming_links),
        ),
        PageListSort::FileSize(_) => optional_number_sign(file_size_of(a), file_size_of(b)),
        PageListSort::UploadDate(_) => optional_text_sign(upload_date_of(a), upload_date_of(b)),
        PageListSort::Random(_) => 0,
    }
}

/// The order of two entries under a sort key and its direction, as a sign.
pub open spec fn entry_sign(a: EntryView, b: EntryView, sorter: PageListSort, is_wikidata: bool) -> int {
    directed(key_sign(a, b, sorter, is_wikidata), sorter.descending())
}

/// The order of two optional counts.
fn compare_counts(a: Option<u32>, b: Option<u32>) -> (r: i8)
    ensures
        r == optional_number_sign(count_of(a), count_of(b)),
{
    match (a, b) {
        (Some(x), Some(y)) => {
            if x < y {
                -1
            } else if x > y {
                1
            } else {
                0
            }
        },
        (Some(_), None) => -1,
        (None, Some(_)) => 1,
        (None, None) => 0,
    }
}

/// The order of two optional texts.
fn compare_texts(a: &Option<String>, b: &Option<String>) -> (r: i8)
    ensures
        r == optional_text_sign(a.deep_view(), b.deep_view()),
{
    match (a, b) {
        (Some(x), Some(y)) => compare_text(x.as_str(), y.as_str()),
        (Some(_), None) => -1,
        (None, Some(_)) => 1,
        (None, None) => 0,
    }
}

/// A sign, flipped where descending order is asked for.
fn direct(sign: i8, descending: bool) -> (r: i8)
    requires
        -1 <= sign <= 1,
    ensures
        r == directed(sign as int, descending),
{
    if descending {
        -sign
    } else {
        sign
    }
}

impl PageListEntry {
    /// The size of the file, where it is known.
    fn file_size(&self) -> (r: Option<usize>)
        ensures
            file_size_of(self@) == (match r {
                Some(x) => Some(x as int),
                None => None,
            }),
    {
        match &self.file_info {
            Some(f) => f.img_size,
            None => None,
        }
    }

    /// The order of the file sizes of two entries.
    fn compare_file_sizes(&self, other: &PageListEntry) -> (r: i8)
        ensures
            r == optional_number_sign(file_size_of(self@), file_size_of(other@)),
    {
        match (self.file_size(), other.file_size()) {
            (Some(x), Some(y)) => {
                if x < y {
                    -1
                } else if x > y {
                    1
                } else {
                    0
                }
            },
            (Some(_), None) => -1,
            (None, Some(_)) => 1,
            (None, None) => 0,
        }
    }

    /// The order of the upload times of two entries.
    fn compare_upload_dates(&self, other: &PageListEntry) -> (r: i8)
        ensures
            r == optional_text_sign(upload_date_of(self@), upload_date_of(other@)),
    {
        match (&self.file_info, &other.file_info) {
            (Some(f), Some(g)) => compare_texts(&f.img_timestamp, &g.img_timestamp),
            (Some(f), None) => compare_texts(&f.img_timestamp, &None),
            (None, Some(g)) => compare_texts(&None, &g.img_timestamp),
            (None, None) => 0,
        }
    }

    /// The text the entry is sorted by on Wikidata, where it has one.
    fn label_sort_key(&self) -> (r: Option<String>)
        ensures
            r.deep_view() == label_key(self@),
    {
        match &self.wikidata_label {
            Some(l) => Some(to_lowercase(l.as_str())),
            None => None,
        }
    }

    /// The order of `self` and `other` under `sorter`, as a sign: negative
    /// where `self` comes first, positive where `other` does. Under the
    /// random key the sign is drawn anew at every call and is never zero.
    pub fn compare_sign(&self, other: &Self, sorter: &PageListSort, is_wikidata: bool) -> (r: i8)
        ensures
            -1 <= r <= 1,
            *sorter is Random ==> r != 0,
            !(*sorter is Random) ==> r == entry_sign(self@, other@, *sorter, is_wikidata),
    {
        proof {
            crate::collate::lemma_text_sign_equal(self@.title.title, other@.title.title);
            match (label_key(self@), label_key(other@)) {
                (Some(x), Some(y)) => crate::collate::lemma_text_sign_equal(x, y),
                _ => {},
            }
            match (self@.page_timestamp, other@.page_timestamp) {
                (Some(x), Some(y)) => crate::collate::lemma_text_sign_equal(x, y),
                _ => {},
            }
            match (upload_date_of(self@), upload_date_of(other@)) {
                (Some(x), Some(y)) => crate::collate::lemma_text_sign_equal(x, y),
                _ => {},
            }
        }
        match sorter {
            PageListSort::Default(d) => direct(compare_counts(self.page_id, other.page_id), *d),
            PageListSort::Title(d) => {
                if is_wikidata {
                    let l1 = self.label_sort_key();
                    let l2 = other.label_sort_key();
                    direct(compare_texts(&l1, &l2), *d)
                } else {
                    direct(compare_text(self.title.pretty(), other.title.pretty()), *d)
                }
            },
            PageListSort::NsTitle(d) => {
                if self.title.namespace_id() == other.title.namespace_id() {
                    direct(compare_text(self.title.pretty(), other.title.pretty()), *d)
                } else if self.title.namespace_id() < other.title.namespace_id() {
                    direct(-1, *d)
                } else {
                    direct(1, *d)
                }
            },
            PageListSort::Size(d) => direct(compare_counts(self.page_bytes, other.page_bytes), *d),
            PageListSort::IncomingLinks(d) => direct(
                compare_counts(self.incoming_links, other.incoming_links),
                *d,
            ),
            PageListSort::Date(d) => direct(
                compare_texts(&self.page_timestamp, &other.page_timestamp),
                *d,
            ),
            PageListSort::UploadDate(d) => direct(self.compare_upload_dates(other), *d),
            PageListSort::FileSize(d) => direct(self.compare_file_sizes(other), *d),
            PageListSort::RedlinksCount(d) => direct(
                compare_counts(self.redlink_count, other.redlink_count),
                *d,
            ),
            PageListSort::Random(_) => {
                if random_bool() {
                    -1
                } else {
                    1
                }
            },
        }
    }
}

/// Comparing in the opposite direction gives the opposite outcome.
pub proof fn lemma_entry_sign_swap(a: EntryView, b: EntryView, sorter: PageListSort, is_wikidata: bool)
    ensures
        entry_sign(b, a, sorter, is_wikidata) == -entry_sign(a, b, sorter, is_wikidata),
        -1 <= entry_sign(a, b, sorter, is_wikidata) <= 1,
{
    match sorter {
        PageListSort::Title(_) => {
            if is_wikidata {
                lemma_optional_text_sign_flips(label_key(a), label_key(b));
            } else {
                lemma_text_sign_flips(a.title.title, b.title.title);
            }
        },
        PageListSort::NsTitle(_) => {
            lemma_text_sign_flips(a.title.title, b.title.title);
        },
        PageListSort::Date(_) => {
            lemma_optional_text_sign_flips(a.page_timestamp, b.page_timestamp);
        },
        PageListSort::UploadDate(_) => {
            lemma_optional_text_sign_flips(upload_date_of(a), upload_date_of(b));
        },
        _ => {},
    }
}

/// Swapping two texts flips the sign of their order, which is -1, 0 or 1.
proof fn lemma_text_sign_flips(x: Seq<char>, y: Seq<char>)
    ensures
        text_sign(y, x) == -text_sign(x, y),
        -1 <= text_sign(x, y) <= 1,
{
    crate::collate::lemma_text_sign_swap(x, y);
    crate::collate::lemma_text_sign_equal(x, y);
}

/// Swapping two optional texts flips the sign of their order, which is -1, 0 or 1.
proof fn lemma_optional_text_sign_flips(x: Option<Seq<char>>, y: Option<Seq<char>>)
    ensures
        optional_text_sign(y, x) == -optional_text_sign(x, y),
        -1 <= optional_text_sign(x, y) <= 1,
{
    match (x, y) {
        (Some(p), Some(q)) => {
            lemma_text_sign_flips(p, q);
        },
        _ => {},
    }
}

/// The order of optional texts is transitive.
proof fn lemma_optional_text_sign_transitive(
    a: Option<Seq<char>>,
    b: Option<Seq<char>>,
    c: Option<Seq<char>>,
)
    ensures
        optional_text_sign(a, b) <= 0 && optional_text_sign(b, c) <= 0 ==> optional_text_sign(a, c)
            <= 0,
        optional_text_sign(a, b) >= 0 && optional_text_sign(b, c) >= 0 ==> optional_text_sign(a, c)
            >= 0,
{
    match (a, b, c) {
        (Some(x), Some(y), Some(z)) => {
            lemma_text_sign_both_ways(x, y, z);
        },
        _ => {},
    }
}

/// The order of texts is transitive, upwards and downwards.
proof fn lemma_text_sign_both_ways(x: Seq<char>, y: Seq<char>, z: Seq<char>)
    ensures
        text_sign(x, y) <= 0 && text_sign(y, z) <= 0 ==> text_sign(x, z) <= 0,
        text_sign(x, y) >= 0 && text_sign(y, z) >= 0 ==> text_sign(x, z) >= 0,
{
    if text_sign(x, y) <= 0 && text_sign(y, z) <= 0 {
        crate::collate::lemma_text_sign_transitive(x, y, z);
    }
    if text_sign(x, y) >= 0 && text_sign(y, z) >= 0 {
        crate::collate::lemma_text_sign_swap(x, y);
        crate::collate::lemma_text_sign_swap(y, z);
        crate::collate::lemma_text_sign_swap(x, z);
        crate::collate::lemma_text_sign_transitive(z, y, x);
    }
}

/// Where `a` does not come after `b`, nor `b` after `c`, `a` does not come after `c`.
pub proof fn lemma_entry_sign_transitive(
    a: EntryView,
    b: EntryView,
    c: EntryView,
    sorter: PageListSort,
    is_wikidata: bool,
)
    requires
        entry_sign(a, b, sorter, is_wikidata) <= 0,
        entry_sign(b, c, sorter, is_wikidata) <= 0,
    ensures
        entry_sign(a, c, sorter, is_wikidata) <= 0,
{
    match sorter {
        PageListSort::Title(_) => {
            if is_wikidata {
                lemma_optional_text_sign_transitive(label_key(a), label_key(b), label_key(c));
            } else {
                lemma_text_sign_both_ways(a.title.title, b.title.title, c.title.title);
            }
        },
        PageListSort::NsTitle(_) => {
            lemma_text_sign_both_ways(a.title.title, b.title.title, c.title.title);
            lemma_text_sign_flips(a.title.title, b.title.title);
            lemma_text_sign_flips(b.title.title, c.title.title);
        },
        PageListSort::Date(_) => {
            lemma_optional_text_sign_transitive(a.page_timestamp, b.page_timestamp, c.page_timestamp);
        },
        PageListSort::UploadDate(_) => {
            lemma_optional_text_sign_transitive(
                upload_date_of(a),
                upload_date_of(b),
                upload_date_of(c),
            );
        },
        _ => {},
    }
}

} // verus!
