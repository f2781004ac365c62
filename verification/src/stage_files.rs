//! The stages that annotate files with their usage and image data, and
//! pages with their image, coordinates, sort key, disambiguation mark and
//! incoming links.

use vstd::prelude::*;
use crate::annotate::RowAnnotation;
use crate::batch::{chunk_batches, sql_batches, titles_in};
use crate::form_parameters::{is_set, param_of, param_or_blank};
use crate::pagelist::{PageList, PageListView};
use crate::pipeline::{Intake, Query, QueryView, StageAction, StageActionView};
use crate::platform::{Platform, PlatformView, PAGE_BATCH_SIZE};
use crate::rewrite::{list_batches, listed_all, wrap_batches, wrapped_all};
use crate::stage_wikidata::no_wiki_message;
use crate::text::{push_str, str_eq, string_of};

verus! {

/// Whether the parameters ask where files are used.
pub open spec fn file_usage_asked(p: PlatformView) -> bool {
    is_set(p.params, "giu"@) || is_set(p.params, "file_usage_data"@)
}

/// Whether the parameters ask for the data of images: directly, or by
/// sorting by file size or upload date.
pub open spec fn file_data_asked(p: PlatformView) -> bool {
    is_set(p.params, "ext_image_data"@) || param_of(p.params, "sortby"@) == Some("filesize"@)
        || param_of(p.params, "sortby"@) == Some("uploaddate"@)
}

/// The statement that asks for the usage of files, up to the file names.
pub open spec fn file_usage_head() -> Seq<char> {
    "SELECT gil_to,6 AS namespace_id,GROUP_CONCAT(gil_wiki,':',gil_page_namespace_id,':',gil_page_namespace,':',gil_page_title SEPARATOR '|') AS gil_group FROM globalimagelinks WHERE gil_to IN ("@
}

/// The statement that asks for the usage of files, behind the file names.
pub open spec fn file_usage_tail(p: PlatformView) -> Seq<char> {
    ")"@ + (if is_set(p.params, "file_usage_data_ns0"@) {
        " AND gil_page_namespace_id=0"@
    } else {
        Seq::<char>::empty()
    }) + " GROUP BY gil_to"@
}

/// The statement that asks for the data of images, up to the file names.
pub open spec fn file_data_head() -> Seq<char> {
    "SELECT img_name,6 AS namespace_id,img_size,img_width,img_height,img_media_type,img_major_mime,img_minor_mime,img_user_text,img_timestamp,img_sha1 FROM image_compat WHERE img_name IN ("@
}

/// A phase of the files stage. Phase 0 asks where the files of the list
/// are used, phase 1 asks for the data of their images, each if the
/// parameters ask for it. The list stays as it is.
pub open spec fn files_phase(p: PlatformView, list: PageListView, phase: nat) -> StageActionView {
    if phase == 0 {
        if !file_usage_asked(p) {
            StageActionView::Pass
        } else if list.wiki is None {
            StageActionView::Fail(no_wiki_message())
        } else {
            StageActionView::Run(
                QueryView {
                    wiki: list.wiki->Some_0,
                    batches: listed_all(
                        chunk_batches(6, titles_in(list.entries, 6), PAGE_BATCH_SIZE as nat),
                        file_usage_head(),
                        file_usage_tail(p),
                        Seq::empty(),
                    ),
                    chunk_size: 0,
                    intake: Intake::Annotate {
                        col_title: 0,
                        col_ns: 1,
                        annotation: RowAnnotation::FileUsage,
                    },
                },
            )
        }
    } else if phase == 1 {
        if !file_data_asked(p) {
            StageActionView::Pass
        } else if list.wiki is None {
            StageActionView::Fail(no_wiki_message())
        } else {
            StageActionView::Run(
                QueryView {
                    wiki: list.wiki->Some_0,
                    batches: listed_all(
                        sql_batches(list.entries, PAGE_BATCH_SIZE as nat),
                        file_data_head(),
                        ")"@,
                        Seq::empty(),
                    ),
                    chunk_size: 0,
                    intake: Intake::Annotate {
                        col_title: 0,
                        col_ns: 1,
                        annotation: RowAnnotation::FileData,
                    },
                },
            )
        }
    } else {
        StageActionView::Finished
    }
}

/// What the parameters ask of pages.
pub open spec fn page_extras_asked(p: PlatformView) -> RowAnnotation {
    RowAnnotation::PageExtras {
        add_image: is_set(p.params, "add_image"@),
        add_coordinates: is_set(p.params, "add_coordinates"@),
        add_defaultsort: is_set(p.params, "add_defaultsort"@),
        add_disambiguation: is_set(p.params, "add_disambiguation"@),
        add_incoming_links: param_or_blank(p.params, "sortby"@) == "incoming_links"@,
    }
}

/// Whether the annotation asks for anything.
pub open spec fn asks_extras(a: RowAnnotation) -> bool {
    match a {
        RowAnnotation::PageExtras {
            add_image,
            add_coordinates,
            add_defaultsort,
            add_disambiguation,
            add_incoming_links,
        } => add_image || add_coordinates || add_defaultsort || add_disambiguation
            || add_incoming_links,
        _ => false,
    }
}

/// The statement that asks for the extras of pages, up to its condition.
pub open spec fn page_extras_head(a: RowAnnotation) -> Seq<char> {
    match a {
        RowAnnotation::PageExtras {
            add_image,
            add_coordinates,
            add_defaultsort,
            add_disambiguation,
            add_incoming_links,
        } => "SELECT page_title,page_namespace"@ + (if add_image {
            ",(SELECT pp_value FROM page_props WHERE pp_page=page_id AND pp_propname IN ('page_image','page_image_free') LIMIT 1) AS image"@
        } else {
            Seq::<char>::empty()
        }) + (if add_coordinates {
            ",(SELECT concat(gt_lat,',',gt_lon) FROM geo_tags WHERE gt_primary=1 AND gt_globe='earth' AND gt_page_id=page_id LIMIT 1) AS coord"@
        } else {
            Seq::<char>::empty()
        }) + (if add_defaultsort {
            ",(SELECT pp_value FROM page_props WHERE pp_page=page_id AND pp_propname='defaultsort' LIMIT 1) AS defaultsort"@
        } else {
            Seq::<char>::empty()
        }) + (if add_disambiguation {
            ",(SELECT pp_value FROM page_props WHERE pp_page=page_id AND pp_propname='disambiguation' LIMIT 1) AS disambiguation"@
        } else {
            Seq::<char>::empty()
        }) + (if add_incoming_links {
            ",(SELECT count(*) FROM pagelinks WHERE pl_namespace=page_namespace AND pl_title=page_title AND pl_from_namespace=0) AS incoming_links"@
        } else {
            Seq::<char>::empty()
        }) + " FROM page WHERE "@,
        _ => Seq::<char>::empty(),
    }
}

/// A phase of the pages stage: phase 0 asks for what the parameters ask
/// of pages, if they ask for anything. The list stays as it is.
pub open spec fn pages_phase(p: PlatformView, list: PageListView, phase: nat) -> StageActionView {
    if phase > 0 || !asks_extras(page_extras_asked(p)) {
        StageActionView::Finished
    } else if list.wiki is None {
        StageActionView::Fail(no_wiki_message())
    } else {
        StageActionView::Run(
            QueryView {
                wiki: list.wiki->Some_0,
                batches: wrapped_all(
                    sql_batches(list.entries, PAGE_BATCH_SIZE as nat),
                    page_extras_head(page_extras_asked(p)),
                    Seq::empty(),
                    Seq::empty(),
                    Seq::empty(),
                ),
                chunk_size: 0,
                intake: Intake::Annotate {
                    col_title: 0,
                    col_ns: 1,
                    annotation: page_extras_asked(p),
                },
            },
        )
    }
}

impl Platform {
    /// Whether the parameter has this value.
    pub fn param_is(&self, param: &str, value: &str) -> (r: bool)
        ensures
            value@.len() > 0 ==> r == (param_of(self@.params, param@) == Some(value@)),
            r == (param_or_blank(self@.params, param@) == value@),
    {
        str_eq(self.get_param_blank(param).as_str(), value)
    }

    /// One phase of the stage that annotates files.
    pub fn process_files(&self, result: &PageList, phase: usize) -> (r: StageAction)
        ensures
            r@ == files_phase(self@, result@, phase as nat),
    {
        let none: Vec<String> = Vec::new();
        proof {
            assert(none.deep_view() =~= Seq::<Seq<char>>::empty());
            reveal_strlit("filesize");
            reveal_strlit("uploaddate");
        }
        if phase == 0 {
            let file_usage = self.has_param("giu") || self.has_param("file_usage_data");
            if !file_usage {
                return StageAction::Pass;
            }
            let wiki = match result.wiki() {
                Some(w) => w,
                None => {
                    return StageAction::Fail(
                        String::from_str("PageList::run_batch_queries: No wiki"),
                    );
                },
            };
            let mut tail: Vec<char> = Vec::new();
            push_str(&mut tail, ")");
            if self.has_param("file_usage_data_ns0") {
                push_str(&mut tail, " AND gil_page_namespace_id=0");
            }
            push_str(&mut tail, " GROUP BY gil_to");
            proof {
                assert(tail@ =~= file_usage_tail(self@));
            }
            let tail = string_of(&tail);
            let batches = result.to_sql_batches_namespace(PAGE_BATCH_SIZE, 6);
            let batches = list_batches(
                &batches,
                "SELECT gil_to,6 AS namespace_id,GROUP_CONCAT(gil_wiki,':',gil_page_namespace_id,':',gil_page_namespace,':',gil_page_title SEPARATOR '|') AS gil_group FROM globalimagelinks WHERE gil_to IN (",
                tail.as_str(),
                &none,
            );
            StageAction::Run(
                Query {
                    wiki,
                    batches,
                    chunk_size: 0,
                    intake: Intake::Annotate {
                        col_title: 0,
                        col_ns: 1,
                        annotation: RowAnnotation::FileUsage,
                    },
                },
            )
        } else if phase == 1 {
            let file_data = self.has_param("ext_image_data") || self.param_is("sortby", "filesize")
                || self.param_is("sortby", "uploaddate");
            if !file_data {
                return StageAction::Pass;
            }
            let wiki = match result.wiki() {
                Some(w) => w,
                None => {
                    return StageAction::Fail(
                        String::from_str("PageList::run_batch_queries: No wiki"),
                    );
                },
            };
            let batches = result.to_sql_batches(PAGE_BATCH_SIZE);
            let batches = list_batches(
                &batches,
                "SELECT img_name,6 AS namespace_id,img_size,img_width,img_height,img_media_type,img_major_mime,img_minor_mime,img_user_text,img_timestamp,img_sha1 FROM image_compat WHERE img_name IN (",
                ")",
                &none,
            );
            StageAction::Run(
                Query {
                    wiki,
                    batches,
                    chunk_size: 0,
                    intake: Intake::Annotate {
                        col_title: 0,
                        col_ns: 1,
                        annotation: RowAnnotation::FileData,
                    },
                },
            )
        } else {
            StageAction::Finished
        }
    }

    /// What the parameters ask of pages.
    pub fn page_extras(&self) -> (r: RowAnnotation)
        ensures
            r == page_extras_asked(self@),
    {
        RowAnnotation::PageExtras {
            add_image: self.has_param("add_image"),
            add_coordinates: self.has_param("add_coordinates"),
            add_defaultsort: self.has_param("add_defaultsort"),
            add_disambiguation: self.has_param("add_disambiguation"),
            add_incoming_links: self.param_is("sortby", "incoming_links"),
        }
    }

    /// One phase of the stage that annotates pages.
    pub fn process_pages(&self, result: &PageList, phase: usize) -> (r: StageAction)
        ensures
            r@ == pages_phase(self@, result@, phase as nat),
    {
        if phase > 0 {
            return StageAction::Finished;
        }
        let extras = self.page_extras();
        let mut out: Vec<char> = Vec::new();
        push_str(&mut out, "SELECT page_title,page_namespace");
        match extras {
            RowAnnotation::PageExtras {
                add_image,
                add_coordinates,
                add_defaultsort,
                add_disambiguation,
                add_incoming_links,
            } => {
                if !add_image && !add_coordinates && !add_defaultsort && !add_disambiguation
                    && !add_incoming_links {
                    return StageAction::Finished;
                }
                if add_image {
                    push_str(
                        &mut out,
                        ",(SELECT pp_value FROM page_props WHERE pp_page=page_id AND pp_propname IN ('page_image','page_image_free') LIMIT 1) AS image",
                    );
                }
                if add_coordinates {
                    push_str(
                        &mut out,
                        ",(SELECT concat(gt_lat,',',gt_lon) FROM geo_tags WHERE gt_primary=1 AND gt_globe='earth' AND gt_page_id=page_id LIMIT 1) AS coord",
                    );
                }
                if add_defaultsort {
                    push_str(
                        &mut out,
                        ",(SELECT pp_value FROM page_props WHERE pp_page=page_id AND pp_propname='defaultsort' LIMIT 1) AS defaultsort",
                    );
                }
                if add_disambiguation {
                    push_str(
                        &mut out,
                        ",(SELECT pp_value FROM page_props WHERE pp_page=page_id AND pp_propname='disambiguation' LIMIT 1) AS disambiguation",
                    );
                }
                if add_incoming_links {
                    push_str(
                        &mut out,
                        ",(SELECT count(*) FROM pagelinks WHERE pl_namespace=page_namespace AND pl_title=page_title AND pl_from_namespace=0) AS incoming_links",
                    );
                }
            },
            _ => {
                return StageAction::Finished;
            },
        }
        push_str(&mut out, " FROM page WHERE ");
        proof {
            assert(out@ =~= page_extras_head(extras));
            reveal_strlit("");
            assert(""@ =~= Seq::<char>::empty());
        }
        let wiki = match result.wiki() {
            Some(w) => w,
            None => {
                return StageAction::Fail(String::from_str("PageList::run_batch_queries: No wiki"));
            },
        };
        let none: Vec<String> = Vec::new();
        proof {
            assert(none.deep_view() =~= Seq::<Seq<char>>::empty());
        }
        let head = string_of(&out);
        let batches = result.to_sql_batches(PAGE_BATCH_SIZE);
        let batches = wrap_batches(&batches, head.as_str(), "", &none, &none);
        StageAction::Run(
            Query {
                wiki,
                batches,
                chunk_size: 0,
                intake: Intake::Annotate { col_title: 0, col_ns: 1, annotation: extras },
            },
        )
    }
}

} // verus!
