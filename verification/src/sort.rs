//! The sort keys a result list can be ordered by.

use vstd::prelude::*;
use crate::text::str_eq;

verus! {

/// A sort key; the flag asks for descending order.
#[derive(Debug, Clone, Copy, PartialEq, Eq, Structural)]
pub enum PageListSort {
    Default(bool),
    Title(bool),
    NsTitle(bool),
    Size(bool),
    Date(bool),
    RedlinksCount(bool),
    IncomingLinks(bool),
    FileSize(bool),
    UploadDate(bool),
    Random(bool),
}

/// The sort key that the parameter value `s` names; a value that names none
/// gives the default key.
pub open spec fn sort_named(s: Seq<char>, descending: bool) -> PageListSort {
    if s == "title"@ {
        PageListSort::Title(descending)
    } else if s == "ns_title"@ {
        PageListSort::NsTitle(descending)
    } else if s == "size"@ {
        PageListSort::Size(descending)
    } else if s == "date"@ {
        PageListSort::Date(descending)
    } else if s == "redlinks"@ {
        PageListSort::RedlinksCount(descending)
    } else if s == "incoming_links"@ {
        PageListSort::IncomingLinks(descending)
    } else if s == "filesize"@ {
        PageListSort::FileSize(descending)
    } else if s == "uploaddate"@ {
        PageListSort::UploadDate(descending)
    } else if s == "random"@ {
        PageListSort::Random(descending)
    } else {
        PageListSort::Default(descending)
    }
}

impl PageListSort {
    /// The sort key for the parameter value `s`; every text is accepted.
    pub fn new_from_params(s: &String, descending: bool) -> (r: Self)
        ensures
            r == sort_named(s@, descending),
            r.descending() == descending,
    {
        let s = s.as_str();
        if str_eq(s, "title") {
            PageListSort::Title(descending)
        } else if str_eq(s, "ns_title") {
            PageListSort::NsTitle(descending)
        } else if str_eq(s, "size") {
            PageListSort::Size(descending)
        } else if str_eq(s, "date") {
            PageListSort::Date(descending)
        } else if str_eq(s, "redlinks") {
            PageListSort::RedlinksCount(descending)
        } else if str_eq(s, "incoming_links") {
            PageListSort::IncomingLinks(descending)
        } else if str_eq(s, "filesize") {
            PageListSort::FileSize(descending)
        } else if str_eq(s, "uploaddate") {
            PageListSort::UploadDate(descending)
        } else if str_eq(s, "random") {
            PageListSort::Random(descending)
        } else {
            PageListSort::Default(descending)
        }
    }

    /// Whether descending order is asked for.
    pub open spec fn descending(self) -> bool {
        match self {
            PageListSort::Default(d) => d,
            PageListSort::Title(d) => d,
            PageListSort::NsTitle(d) => d,
            PageListSort::Size(d) => d,
            PageListSort::Date(d) => d,
            PageListSort::RedlinksCount(d) => d,
            PageListSort::IncomingLinks(d) => d,
            PageListSort::FileSize(d) => d,
            PageListSort::UploadDate(d) => d,
            PageListSort::Random(d) => d,
        }
    }
}

} // verus!
