//! Guest-side bridge between content-provider plugins and the reader host.
//!
//! The host owns every value; the guest refers to them through integer handles.
//! [`host::HostTable`] is the handle table, [`value`] gives typed access to its
//! entries, [`structs`] flattens domain records into host constructor calls, and
//! [`dispatch`] turns host-initiated calls into plugin invocations.
use vstd::prelude::*;

pub mod dispatch;
pub mod error;
pub mod host;
pub mod structs;
pub mod value;

pub use dispatch::{
    Request, Source, get_chapter_content, get_chapter_list, get_novel_details, get_novel_list,
    get_novel_listing, get_novel_reviews, get_search_result, handle_notification, initialize,
    modify_image_request, MISSING_ID, MISSING_NOVEL_ID, PLUGIN_ERROR,
};
pub use error::{BunyError, BunyErrorKind, NodeError, Utf8Error, ValueCastError};
pub use host::{HostTable, HostValue, NO_HANDLE};
pub use structs::{
    Chapter, ChapterPageResult, ChapterParagraph, Filter, FilterType, Listing, Novel,
    NovelContentRating, NovelPageResult, NovelStatus, NovelViewer, Review,
};
pub use value::{ArrayRef, ObjectRef, ValueRef};

verus! {

} // verus!
