//! What is known of a file: its image data and the pages that use it.

use vstd::prelude::*;
use vstd::std_specs::cmp::PartialEqSpecImpl;
use crate::numeral::{parse_i64, parsed_i64};
use crate::text::{join_from, join_with, split, split_on};
use crate::title::{display_form, Title, TitleView};

verus! {

/// What a file usage is, mathematically.
pub struct FileUsageView {
    pub title: TitleView,
    pub wiki: Seq<char>,
    pub namespace_name: Seq<char>,
}

/// One use of a file: the page that shows it, on which wiki, and the name of
/// the page's namespace there.
#[derive(Debug)]
pub struct FileUsage {
    title: Title,
    wiki: String,
    namespace_name: String,
}

impl View for FileUsage {
    type V = FileUsageView;

    closed spec fn view(&self) -> FileUsageView {
        FileUsageView {
            title: self.title@,
            wiki: self.wiki@,
            namespace_name: self.namespace_name@,
        }
    }
}

impl Clone for FileUsage {
    fn clone(&self) -> (r: Self)
        ensures
            r@ == self@,
    {
        FileUsage {
            title: self.title.clone(),
            wiki: self.wiki.clone(),
            namespace_name: self.namespace_name.clone(),
        }
    }
}

impl PartialEq for FileUsage {
    fn eq(&self, other: &Self) -> (r: bool) {
        self.title.same(&other.title) && self.wiki == other.wiki && self.namespace_name
            == other.namespace_name
    }
}

impl PartialEqSpecImpl for FileUsage {
    open spec fn obeys_eq_spec() -> bool {
        true
    }

    open spec fn eq_spec(&self, other: &Self) -> bool {
        self@ == other@
    }
}

/// The page name that a usage token carries: its fields from the fourth on,
/// with the colons between them.
pub open spec fn usage_page(fields: Seq<Seq<char>>) -> Seq<char> {
    join_with(fields.skip(3), seq![':'])
}

/// The usage that the token `part` denotes, `wiki:ns_id:ns_name:Page:Title`,
/// if it denotes one: it needs a numeric namespace id and a page name.
pub open spec fn usage_of(part: Seq<char>) -> Option<FileUsageView> {
    let fields = split_on(part, ':');
    if fields.len() >= 4 && parsed_i64(fields[1]) is Some && usage_page(fields).len() > 0 {
        Some(
            FileUsageView {
                title: TitleView {
                    namespace_id: parsed_i64(fields[1])->Some_0,
                    title: display_form(usage_page(fields)),
                },
                wiki: fields[0],
                namespace_name: fields[2],
            },
        )
    } else {
        None
    }
}

impl FileUsage {
    /// Reads one usage token. A token with fewer than four colon-separated
    /// fields is refused, and so is one whose namespace id is no number.
    pub fn new_from_part(part: &String) -> (r: Option<Self>)
        ensures
            r.deep_view() == usage_of(part@),
            split_on(part@, ':').len() < 4 ==> r is None,
            parsed_i64(split_on(part@, ':')[1]) is None ==> r is None,
    {
        let fields = split(part.as_str(), ':');
        proof {
            reveal_strlit(":");
            assert(":"@ =~= seq![':']);
        }
        if fields.len() < 4 {
            return None;
        }
        let namespace_id = match parse_i64(fields[1].as_str()) {
            Some(id) => id,
            None => {
                return None;
            },
        };
        let page = join_from(&fields, 3, ":");
        if page.as_str().unicode_len() == 0 {
            return None;
        }
        Some(
            FileUsage {
                title: Title::new(page.as_str(), namespace_id),
                namespace_name: fields[2].clone(),
                wiki: fields[0].clone(),
            },
        )
    }

    /// The wiki the using page is on.
    pub fn wiki(&self) -> (r: &String)
        ensures
            r@ == self@.wiki,
    {
        &self.wiki
    }

    /// The using page.
    pub fn title(&self) -> (r: &Title)
        ensures
            r@ == self@.title,
    {
        &self.title
    }

    /// The name of the using page's namespace.
    pub fn namespace_name(&self) -> (r: &String)
        ensures
            r@ == self@.namespace_name,
    {
        &self.namespace_name
    }
}

impl DeepView for FileUsage {
    type V = FileUsageView;

    open spec fn deep_view(&self) -> FileUsageView {
        self@
    }
}

/// What a file's data is, mathematically.
pub struct FileInfoView {
    pub file_usage: Seq<FileUsageView>,
    pub img_size: Option<usize>,
    pub img_width: Option<usize>,
    pub img_height: Option<usize>,
    pub img_media_type: Option<Seq<char>>,
    pub img_major_mime: Option<Seq<char>>,
    pub img_minor_mime: Option<Seq<char>>,
    pub img_user_text: Option<Seq<char>>,
    pub img_timestamp: Option<Seq<char>>,
    pub img_sha1: Option<Seq<char>>,
}

/// What is known of a file.
#[derive(Debug)]
pub struct FileInfo {
    pub file_usage: Vec<FileUsage>,
    pub img_size: Option<usize>,
    pub img_width: Option<usize>,
    pub img_height: Option<usize>,
    pub img_media_type: Option<String>,
    pub img_major_mime: Option<String>,
    pub img_minor_mime: Option<String>,
    pub img_user_text: Option<String>,
    pub img_timestamp: Option<String>,
    pub img_sha1: Option<String>,
}

impl View for FileInfo {
    type V = FileInfoView;

    open spec fn view(&self) -> FileInfoView {
        FileInfoView {
            file_usage: self.file_usage.deep_view(),
            img_size: self.img_size,
            img_width: self.img_width,
            img_height: self.img_height,
            img_media_type: self.img_media_type.deep_view(),
            img_major_mime: self.img_major_mime.deep_view(),
            img_minor_mime: self.img_minor_mime.deep_view(),
            img_user_text: self.img_user_text.deep_view(),
            img_timestamp: self.img_timestamp.deep_view(),
            img_sha1: self.img_sha1.deep_view(),
        }
    }
}

impl DeepView for FileInfo {
    type V = FileInfoView;

    open spec fn deep_view(&self) -> FileInfoView {
        self@
    }
}

/// A copy of an optional text.
pub fn clone_text(s: &Option<String>) -> (r: Option<String>)
    ensures
        r.deep_view() == s.deep_view(),
{
    match s {
        Some(t) => Some(t.clone()),
        None => None,
    }
}

impl Clone for FileInfo {
    fn clone(&self) -> (r: Self)
        ensures
            r@ == self@,
    {
        let mut usage: Vec<FileUsage> = Vec::new();
        let mut i: usize = 0;
        while i < self.file_usage.len()
            invariant
                i <= self.file_usage.len(),
                usage.len() == i,
                forall|j: int| 0 <= j < i ==> usage@[j]@ == self.file_usage@[j]@,
            decreases self.file_usage.len() - i,
        {
            usage.push(self.file_usage[i].clone());
            i += 1;
        }
        proof {
            assert(usage.deep_view() =~= self.file_usage.deep_view());
        }
        FileInfo {
            file_usage: usage,
            img_size: self.img_size,
            img_width: self.img_width,
            img_height: self.img_height,
            img_media_type: clone_text(&self.img_media_type),
            img_major_mime: clone_text(&self.img_major_mime),
            img_minor_mime: clone_text(&self.img_minor_mime),
            img_user_text: clone_text(&self.img_user_text),
            img_timestamp: clone_text(&self.img_timestamp),
            img_sha1: clone_text(&self.img_sha1),
        }
    }
}

/// The usages that a run of tokens denotes: every token that denotes one, in order.
pub open spec fn usages_of(parts: Seq<Seq<char>>) -> Seq<FileUsageView>
    decreases parts.len(),
{
    if parts.len() == 0 {
        Seq::<FileUsageView>::empty()
    } else {
        let init = usages_of(parts.drop_last());
        match usage_of(parts.last()) {
            Some(u) => init.push(u),
            None => init,
        }
    }
}

/// A file without image data and without usages.
pub open spec fn empty_file_info() -> FileInfoView {
    FileInfoView {
        file_usage: Seq::<FileUsageView>::empty(),
        img_size: None,
        img_width: None,
        img_height: None,
        img_media_type: None,
        img_major_mime: None,
        img_minor_mime: None,
        img_user_text: None,
        img_timestamp: None,
        img_sha1: None,
    }
}

impl FileInfo {
    /// The file data that a usage group denotes: its tokens, separated by
    /// `|`, each read as a usage; tokens that denote none are passed over.
    pub fn new_from_gil_group(gil_group: &String) -> (r: Self)
        ensures
            r@ == (FileInfoView {
                file_usage: usages_of(split_on(gil_group@, '|')),
                ..empty_file_info()
            }),
    {
        let parts = split(gil_group.as_str(), '|');
        let mut ret = Self::new();
        let mut usage: Vec<FileUsage> = Vec::new();
        let mut i: usize = 0;
        proof {
            assert(parts.deep_view().take(0) =~= Seq::<Seq<char>>::empty());
            assert(usage.deep_view() =~= Seq::<FileUsageView>::empty());
        }
        while i < parts.len()
            invariant
                i <= parts.len(),
                usage.deep_view() == usages_of(parts.deep_view().take(i as int)),
            decreases parts.len() - i,
        {
            let ghost before = usage.deep_view();
            let ghost next = parts.deep_view().take(i + 1);
            proof {
                assert(next.drop_last() =~= parts.deep_view().take(i as int));
                assert(next.last() == parts@[i as int]@);
            }
            match FileUsage::new_from_part(&parts[i]) {
                Some(u) => {
                    usage.push(u);
                    proof {
                        assert(usage.deep_view() =~= before.push(u@));
                    }
                },
                None => {},
            }
            i += 1;
        }
        proof {
            assert(parts.deep_view().take(parts.len() as int) =~= parts.deep_view());
        }
        ret.file_usage = usage;
        ret
    }

    /// A file of which nothing is known.
    pub fn new() -> (r: Self)
        ensures
            r@ == empty_file_info(),
    {
        let r = Self {
            file_usage: Vec::new(),
            img_size: None,
            img_width: None,
            img_height: None,
            img_media_type: None,
            img_major_mime: None,
            img_minor_mime: None,
            img_user_text: None,
            img_timestamp: None,
            img_sha1: None,
        };
        proof {
            assert(r.file_usage.deep_view() =~= Seq::<FileUsageView>::empty());
        }
        r
    }
}

} // verus!
