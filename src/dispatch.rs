use vstd::prelude::*;
use crate::error::BunyError;
use crate::host::{HostTable, HostValue, value_at, extends, has_room, is_array_at, MAX_HANDLES, NO_HANDLE};
use crate::structs::{
    Filter, FilterType, Listing, Novel, NovelPageResult, Review, ChapterPageResult,
    ChapterParagraph, create_all, holds_created_array, page_created,
};
use crate::value::{ValueRef, ObjectRef, text_at, int_at, items_at, field_at};

verus! {

/// Returned in place of a handle when the plugin's own logic failed.
pub const PLUGIN_ERROR: i32 = -401;

/// Returned when the call's primary identifier (novel id, chapter id, listing
/// name) could not be read; the plugin is not invoked.
pub const MISSING_ID: i32 = -402;

/// Returned when the chapter-content call's `novelId` could not be read; the
/// plugin is not invoked.
pub const MISSING_NOVEL_ID: i32 = -403;

/// A handle to an image request that the plugin may modify. The guest does
/// not own it.
#[derive(PartialEq, Eq, Structural, Clone, Copy, Debug)]
pub struct Request {
    pub rid: i32,
    pub owned: bool,
}

/// The entry points a content-provider plugin implements. Each method comes
/// with a predicate that the plugin defines, relating its state before and
/// after the call, the arguments it received, and what it returned; the entry
/// points below state which arguments reach each method.
pub trait Source: Sized {
    /// The plugin went from `before` to `after` running its start-up code.
    open spec fn initialized(before: Self, after: Self) -> bool {
        true
    }

    /// The plugin answered a novel-list request for `page` with `r`.
    open spec fn listed(before: Self, after: Self, page: i32, r: Result<NovelPageResult, BunyError>) -> bool {
        true
    }

    /// The plugin answered a request for `page` of `listing` with `r`.
    open spec fn listing_fetched(
        before: Self,
        after: Self,
        listing: Listing,
        page: i32,
        r: Result<NovelPageResult, BunyError>,
    ) -> bool {
        true
    }

    /// The plugin answered a search with `filters` for `page` with `r`.
    open spec fn searched(
        before: Self,
        after: Self,
        filters: Seq<Filter>,
        page: i32,
        r: Result<NovelPageResult, BunyError>,
    ) -> bool {
        true
    }

    /// The plugin answered a details request for novel `id` with `r`.
    open spec fn details_fetched(before: Self, after: Self, id: String, r: Result<Novel, BunyError>) -> bool {
        true
    }

    /// The plugin answered a reviews request for novel `id` with `r`.
    open spec fn reviews_fetched(before: Self, after: Self, id: String, r: Result<Vec<Review>, BunyError>) -> bool {
        true
    }

    /// The plugin answered a request for `page` of the chapters of novel `id` with `r`.
    open spec fn chapters_listed(
        before: Self,
        after: Self,
        id: String,
        page: i32,
        r: Result<ChapterPageResult, BunyError>,
    ) -> bool {
        true
    }

    /// The plugin answered a content request for chapter `chapter_id` of novel
    /// `novel_id` with `r`.
    open spec fn content_fetched(
        before: Self,
        after: Self,
        novel_id: String,
        chapter_id: String,
        r: Result<Vec<ChapterParagraph>, BunyError>,
    ) -> bool {
        true
    }

    /// The plugin handled the image request `request`.
    open spec fn image_request_modified(before: Self, after: Self, request: Request) -> bool {
        true
    }

    /// The plugin handled the notification `notification`.
    open spec fn notified(before: Self, after: Self, notification: String) -> bool {
        true
    }

    /// Runs once when the source starts.
    fn initialize(&mut self)
        ensures
            Self::initialized(*old(self), *final(self)),
    ;

    /// The default list of novels.
    fn get_novel_list(&mut self, page: i32) -> (r: Result<NovelPageResult, BunyError>)
        ensures
            Self::listed(*old(self), *final(self), page, r),
    ;

    /// A page of a named listing such as "Latest" or "Popular".
    fn get_novel_listing(&mut self, listing: Listing, page: i32) -> (r: Result<NovelPageResult, BunyError>)
        ensures
            Self::listing_fetched(*old(self), *final(self), listing, page, r),
    ;

    /// A page of search results for the given filters.
    fn get_search_result(&mut self, filters: Vec<Filter>, page: i32) -> (r: Result<NovelPageResult, BunyError>)
        ensures
            Self::searched(*old(self), *final(self), filters@, page, r),
    ;

    /// Details of the novel with the given id.
    fn get_novel_details(&mut self, id: String) -> (r: Result<Novel, BunyError>)
        ensures
            Self::details_fetched(*old(self), *final(self), id, r),
    ;

    /// Reviews of the novel with the given id.
    fn get_novel_reviews(&mut self, id: String) -> (r: Result<Vec<Review>, BunyError>)
        ensures
            Self::reviews_fetched(*old(self), *final(self), id, r),
    ;

    /// A page of the chapters of the novel with the given id.
    fn get_chapter_list(&mut self, id: String, page: i32) -> (r: Result<ChapterPageResult, BunyError>)
        ensures
            Self::chapters_listed(*old(self), *final(self), id, page, r),
    ;

    /// The paragraphs of a chapter.
    fn get_chapter_content(&mut self, novel_id: String, chapter_id: String) -> (r: Result<
        Vec<ChapterParagraph>,
        BunyError,
    >)
        ensures
            Self::content_fetched(*old(self), *final(self), novel_id, chapter_id, r),
    ;

    /// Adjusts an image request before the host sends it.
    fn modify_image_request(&mut self, request: Request)
        ensures
            Self::image_request_modified(*old(self), *final(self), request),
    ;

    /// Reacts to a notification from the host.
    fn handle_notification(&mut self, notification: String)
        ensures
            Self::notified(*old(self), *final(self), notification),
    ;
}

/// The string in field `key` of the object behind `obj`, if there is one.
pub open spec fn string_field(host: Seq<HostValue>, obj: int, key: Seq<char>) -> Option<String> {
    text_at(host, field_at(host, obj, key) as int)
}

/// The filter that the element behind `e` decodes to: `None` where it is no
/// object, or lacks a string `"name"` or an integer `"type"`.
pub open spec fn filter_at(host: Seq<HostValue>, e: int) -> Option<Filter> {
    match value_at(host, e) {
        Some(HostValue::Object(_)) => match string_field(host, e, "name"@) {
            Some(name) => match int_at(host, field_at(host, e, "type"@) as int) {
                Some(t) => Some(
                    Filter {
                        kind: FilterType::of_code(t as int),
                        name,
                        value: ValueRef(field_at(host, e, "value"@)),
                        object: ObjectRef(ValueRef(e as i32)),
                    },
                ),
                None => None,
            },
            None => None,
        },
        _ => None,
    }
}

/// The filters that the elements `items` decode to, in order, skipping those
/// that do not decode.
pub open spec fn filters_of(host: Seq<HostValue>, items: Seq<i32>) -> Seq<Filter>
    decreases items.len(),
{
    if items.len() == 0 {
        Seq::empty()
    } else {
        let prev = filters_of(host, items.drop_last());
        match filter_at(host, items.last() as int) {
            Some(f) => prev.push(f),
            None => prev,
        }
    }
}

/// The filter list behind `rid`: empty for a negative handle or a handle that
/// refers to no array.
pub open spec fn decoded_filters(host: Seq<HostValue>, rid: i32) -> Seq<Filter> {
    if rid < 0 {
        Seq::empty()
    } else {
        filters_of(host, items_at(host, rid as int))
    }
}

/// What encoding a novel-page response leaves: the sentinel for an error, the
/// created page for a result.
pub open spec fn novel_page_encoded(
    before: Seq<HostValue>,
    after: Seq<HostValue>,
    resp: Result<NovelPageResult, BunyError>,
    r: i32,
) -> bool {
    match resp {
        Ok(p) => page_created(before, after, p.novel@, true, p.has_more, r),
        Err(_) => r == PLUGIN_ERROR && after == before,
    }
}

/// What encoding a chapter-page response leaves.
pub open spec fn chapter_page_encoded(
    before: Seq<HostValue>,
    after: Seq<HostValue>,
    resp: Result<ChapterPageResult, BunyError>,
    r: i32,
) -> bool {
    match resp {
        Ok(p) => page_created(before, after, p.chapters@, false, p.has_more, r),
        Err(_) => r == PLUGIN_ERROR && after == before,
    }
}

/// What encoding a novel-details response leaves.
pub open spec fn novel_encoded(
    before: Seq<HostValue>,
    after: Seq<HostValue>,
    resp: Result<Novel, BunyError>,
    r: i32,
) -> bool {
    match resp {
        Ok(n) => crate::host::allocated(before, after, n.host_record(), r),
        Err(_) => r == PLUGIN_ERROR && after == before,
    }
}

/// What encoding a flat list of `items` leaves: the array of their created
/// handles, returned directly.
pub open spec fn list_created<T: crate::structs::Marshal>(
    before: Seq<HostValue>,
    after: Seq<HostValue>,
    items: Seq<T>,
    r: i32,
) -> bool {
    &&& extends(before, after)
    &&& before.len() >= MAX_HANDLES ==> r == NO_HANDLE && after == before
    &&& before.len() < MAX_HANDLES ==> r == before.len() && is_array_at(after, r as int)
    &&& has_room(before, items.len() + 1int) ==> {
        &&& r == before.len()
        &&& after.len() == before.len() + 1 + items.len()
        &&& holds_created_array(after, r as int, items)
    }
}

/// What encoding a reviews response leaves.
pub open spec fn reviews_encoded(
    before: Seq<HostValue>,
    after: Seq<HostValue>,
    resp: Result<Vec<Review>, BunyError>,
    r: i32,
) -> bool {
    match resp {
        Ok(v) => list_created(before, after, v@, r),
        Err(_) => r == PLUGIN_ERROR && after == before,
    }
}

/// What encoding a chapter-content response leaves.
pub open spec fn paragraphs_encoded(
    before: Seq<HostValue>,
    after: Seq<HostValue>,
    resp: Result<Vec<ChapterParagraph>, BunyError>,
    r: i32,
) -> bool {
    match resp {
        Ok(v) => list_created(before, after, v@, r),
        Err(_) => r == PLUGIN_ERROR && after == before,
    }
}

/// A negative filter-list handle decodes to no filters, whatever the host holds.
pub proof fn lemma_negative_filters_handle(host: Seq<HostValue>, rid: i32)
    requires
        rid < 0,
    ensures
        decoded_filters(host, rid) == Seq::<Filter>::empty(),
{
}

/// Decoding a concatenation of elements decodes each part on its own.
pub proof fn lemma_filters_of_concat(host: Seq<HostValue>, xs: Seq<i32>, ys: Seq<i32>)
    ensures
        filters_of(host, xs + ys) == filters_of(host, xs) + filters_of(host, ys),
    decreases ys.len(),
{
    if ys.len() == 0 {
        assert(xs + ys =~= xs);
        assert(filters_of(host, xs) + filters_of(host, ys) =~= filters_of(host, xs));
    } else {
        assert((xs + ys).drop_last() =~= xs + ys.drop_last());
        assert((xs + ys).last() == ys.last());
        lemma_filters_of_concat(host, xs, ys.drop_last());
        match filter_at(host, ys.last() as int) {
            Some(f) => {
                assert(filters_of(host, xs) + filters_of(host, ys.drop_last()).push(f)
                    =~= (filters_of(host, xs) + filters_of(host, ys.drop_last())).push(f));
            },
            None => {},
        }
    }
}

/// An element without an integer `"type"` field is skipped: the filters
/// decoded from the elements around it are exactly those decoded without it.
pub proof fn lemma_element_without_type_is_skipped(
    host: Seq<HostValue>,
    before: Seq<i32>,
    e: i32,
    after: Seq<i32>,
)
    requires
        int_at(host, field_at(host, e as int, "type"@) as int) is None,
    ensures
        filters_of(host, before.push(e) + after) == filters_of(host, before) + filters_of(host, after),
{
    lemma_filters_of_concat(host, before.push(e), after);
    assert(before.push(e).drop_last() =~= before);
}

/// Reads the string field `key` of the object behind `rid`.
fn read_string_field(host: &HostTable, rid: i32, key: &str) -> (r: Option<String>)
    ensures
        r == string_field(host@, rid as int, key@),
{
    let field = ObjectRef(ValueRef::new(rid)).get(host, key);
    match field.as_string(host) {
        Ok(s) => Some(s),
        Err(_) => None,
    }
}

/// Decodes the listing argument: the `"name"` field of the object behind `rid`.
pub fn decode_listing(host: &HostTable, rid: i32) -> (r: Result<Listing, i32>)
    ensures
        match string_field(host@, rid as int, "name"@) {
            Some(name) => r == Ok::<Listing, i32>(Listing { name }),
            None => r == Err::<Listing, i32>(MISSING_ID),
        },
{
    match read_string_field(host, rid, "name") {
        Some(name) => Ok(Listing { name }),
        None => Err(MISSING_ID),
    }
}

/// Decodes a novel argument: the `"id"` field of the object behind `rid`.
pub fn decode_novel_id(host: &HostTable, rid: i32) -> (r: Result<String, i32>)
    ensures
        match string_field(host@, rid as int, "id"@) {
            Some(id) => r == Ok::<String, i32>(id),
            None => r == Err::<String, i32>(MISSING_ID),
        },
{
    match read_string_field(host, rid, "id") {
        Some(id) => Ok(id),
        None => Err(MISSING_ID),
    }
}

/// Decodes the chapter-content argument into `(novel id, chapter id)`: the
/// `"novelId"` and `"id"` fields of the object behind `rid`. A missing `"id"`
/// is reported first.
pub fn decode_chapter_ids(host: &HostTable, rid: i32) -> (r: Result<(String, String), i32>)
    ensures
        match (string_field(host@, rid as int, "id"@), string_field(host@, rid as int, "novelId"@)) {
            (None, _) => r == Err::<(String, String), i32>(MISSING_ID),
            (Some(_), None) => r == Err::<(String, String), i32>(MISSING_NOVEL_ID),
            (Some(id), Some(novel_id)) => r == Ok::<(String, String), i32>((novel_id, id)),
        },
{
    let id = match read_string_field(host, rid, "id") {
        Some(id) => id,
        None => return Err(MISSING_ID),
    };
    let novel_id = match read_string_field(host, rid, "novelId") {
        Some(novel_id) => novel_id,
        None => return Err(MISSING_NOVEL_ID),
    };
    Ok((novel_id, id))
}

/// Decodes one filter element, or `None` where it does not decode.
fn decode_filter(host: &HostTable, item: ValueRef) -> (r: Option<Filter>)
    ensures
        r == filter_at(host@, item.0 as int),
{
    let object = match item.as_object(host) {
        Ok(object) => object,
        Err(_) => return None,
    };
    let name = match object.get(host, "name").as_string(host) {
        Ok(name) => name,
        Err(_) => return None,
    };
    let kind = match object.get(host, "type").as_int(host) {
        Ok(t) => FilterType::from(t),
        Err(_) => return None,
    };
    let value = object.get(host, "value");
    Some(Filter { kind, name, value, object })
}

/// Decodes the filter list behind `rid`. A negative handle means no filters
/// and is not looked at; elements that do not decode are skipped.
pub fn decode_filters(host: &HostTable, rid: i32) -> (r: Vec<Filter>)
    ensures
        r@ == decoded_filters(host@, rid),
{
    let mut filters: Vec<Filter> = Vec::new();
    if rid < 0 {
        return filters;
    }
    let items = match ValueRef::new(rid).as_array(host) {
        Ok(arr) => arr.elements(host),
        Err(_) => Vec::new(),
    };
    let ghost handles = items_at(host@, rid as int);
    assert(items@.len() == handles.len());
    let mut i: usize = 0;
    while i < items.len()
        invariant
            i <= items@.len(),
            items@.len() == handles.len(),
            forall|j: int| 0 <= j < items@.len() ==> items@[j].0 == handles[j],
            filters@ == filters_of(host@, handles.subrange(0, i as int)),
        decreases items.len() - i,
    {
        let ghost prefix = handles.subrange(0, i + 1);
        assert(prefix.drop_last() =~= handles.subrange(0, i as int));
        if let Some(f) = decode_filter(host, items[i]) {
            filters.push(f);
        }
        i = i + 1;
    }
    assert(handles.subrange(0, handles.len() as int) =~= handles);
    filters
}

/// Encodes a novel-page response.
pub fn encode_novel_page(host: &mut HostTable, resp: Result<NovelPageResult, BunyError>) -> (r: i32)
    ensures
        novel_page_encoded(old(host)@, final(host)@, resp, r),
{
    match resp {
        Ok(page) => page.create(host),
        Err(_) => PLUGIN_ERROR,
    }
}

/// Encodes a chapter-page response.
pub fn encode_chapter_page(host: &mut HostTable, resp: Result<ChapterPageResult, BunyError>) -> (r: i32)
    ensures
        chapter_page_encoded(old(host)@, final(host)@, resp, r),
{
    match resp {
        Ok(page) => page.create(host),
        Err(_) => PLUGIN_ERROR,
    }
}

/// Encodes a novel-details response.
pub fn encode_novel(host: &mut HostTable, resp: Result<Novel, BunyError>) -> (r: i32)
    ensures
        novel_encoded(old(host)@, final(host)@, resp, r),
{
    match resp {
        Ok(novel) => novel.create(host),
        Err(_) => PLUGIN_ERROR,
    }
}

/// Encodes a reviews response as the array of created reviews; the array's
/// handle passes to the host.
pub fn encode_reviews(host: &mut HostTable, resp: Result<Vec<Review>, BunyError>) -> (r: i32)
    ensures
        reviews_encoded(old(host)@, final(host)@, resp, r),
{
    match resp {
        Ok(reviews) => create_all(reviews, host).into_raw(),
        Err(_) => PLUGIN_ERROR,
    }
}

/// Encodes a chapter-content response as the array of created paragraphs; the
/// array's handle passes to the host.
pub fn encode_paragraphs(host: &mut HostTable, resp: Result<Vec<ChapterParagraph>, BunyError>) -> (r: i32)
    ensures
        paragraphs_encoded(old(host)@, final(host)@, resp, r),
{
    match resp {
        Ok(paragraphs) => create_all(paragraphs, host).into_raw(),
        Err(_) => PLUGIN_ERROR,
    }
}

/// Entry point `initialize`: runs the plugin's start-up code.
pub fn initialize<S: Source>(source: &mut S)
    ensures
        S::initialized(*old(source), *final(source)),
{
    source.initialize();
}

/// Entry point `get_novel_list`: invokes the plugin with `page` and encodes its page.
pub fn get_novel_list<S: Source>(source: &mut S, host: &mut HostTable, page: i32) -> (r: i32)
    ensures
        exists|resp: Result<NovelPageResult, BunyError>|
            S::listed(*old(source), *final(source), page, resp)
            && novel_page_encoded(old(host)@, final(host)@, resp, r),
{
    let resp = source.get_novel_list(page);
    let ghost answer = resp;
    let r = encode_novel_page(host, resp);
    assert(S::listed(*old(source), *source, page, answer) && novel_page_encoded(old(host)@, host@, answer, r));
    r
}

/// Entry point `get_novel_listing`: decodes the listing behind `listing_rid`,
/// invokes the plugin with it and `page`, and encodes its page. Without a
/// readable `"name"` it returns `MISSING_ID` and leaves plugin and host untouched.
pub fn get_novel_listing<S: Source>(source: &mut S, host: &mut HostTable, listing_rid: i32, page: i32) -> (r: i32)
    ensures
        string_field(old(host)@, listing_rid as int, "name"@) is None ==> {
            &&& r == MISSING_ID
            &&& final(host)@ == old(host)@
            &&& *final(source) == *old(source)
        },
        string_field(old(host)@, listing_rid as int, "name"@) matches Some(name) ==>
            exists|resp: Result<NovelPageResult, BunyError>|
                S::listing_fetched(*old(source), *final(source), Listing { name }, page, resp)
                && novel_page_encoded(old(host)@, final(host)@, resp, r),
{
    let listing = match decode_listing(host, listing_rid) {
        Ok(listing) => listing,
        Err(code) => return code,
    };
    let ghost given = listing;
    let resp = source.get_novel_listing(listing, page);
    let ghost answer = resp;
    let r = encode_novel_page(host, resp);
    assert(S::listing_fetched(*old(source), *source, given, page, answer)
        && novel_page_encoded(old(host)@, host@, answer, r));
    r
}

/// Entry point `get_search_result`: decodes the filter list behind
/// `filters_rid` (none for a negative handle), invokes the plugin with it and
/// `page`, and encodes its page.
pub fn get_search_result<S: Source>(source: &mut S, host: &mut HostTable, filters_rid: i32, page: i32) -> (r: i32)
    ensures
        exists|resp: Result<NovelPageResult, BunyError>|
            S::searched(*old(source), *final(source), decoded_filters(old(host)@, filters_rid), page, resp)
            && novel_page_encoded(old(host)@, final(host)@, resp, r),
{
    let filters = decode_filters(host, filters_rid);
    let resp = source.get_search_result(filters, page);
    let ghost answer = resp;
    let r = encode_novel_page(host, resp);
    assert(S::searched(*old(source), *source, decoded_filters(old(host)@, filters_rid), page, answer)
        && novel_page_encoded(old(host)@, host@, answer, r));
    r
}

/// Entry point `get_novel_details`: decodes the novel id behind `novel_rid`,
/// invokes the plugin with it, and encodes the novel. Without a readable
/// `"id"` it returns `MISSING_ID` and leaves plugin and host untouched.
pub fn get_novel_details<S: Source>(source: &mut S, host: &mut HostTable, novel_rid: i32) -> (r: i32)
    ensures
        string_field(old(host)@, novel_rid as int, "id"@) is None ==> {
            &&& r == MISSING_ID
            &&& final(host)@ == old(host)@
            &&& *final(source) == *old(source)
        },
        string_field(old(host)@, novel_rid as int, "id"@) matches Some(id) ==>
            exists|resp: Result<Novel, BunyError>|
                S::details_fetched(*old(source), *final(source), id, resp)
                && novel_encoded(old(host)@, final(host)@, resp, r),
{
    let id = match decode_novel_id(host, novel_rid) {
        Ok(id) => id,
        Err(code) => return code,
    };
    let ghost given = id;
    let resp = source.get_novel_details(id);
    let ghost answer = resp;
    let r = encode_novel(host, resp);
    assert(S::details_fetched(*old(source), *source, given, answer) && novel_encoded(old(host)@, host@, answer, r));
    r
}

/// Entry point `get_novel_reviews`: decodes the novel id behind `novel_rid`,
/// invokes the plugin with it, and returns the array of created reviews.
/// Without a readable `"id"` it returns `MISSING_ID` and leaves plugin and
/// host untouched.
pub fn get_novel_reviews<S: Source>(source: &mut S, host: &mut HostTable, novel_rid: i32) -> (r: i32)
    ensures
        string_field(old(host)@, novel_rid as int, "id"@) is None ==> {
            &&& r == MISSING_ID
            &&& final(host)@ == old(host)@
            &&& *final(source) == *old(source)
        },
        string_field(old(host)@, novel_rid as int, "id"@) matches Some(id) ==>
            exists|resp: Result<Vec<Review>, BunyError>|
                S::reviews_fetched(*old(source), *final(source), id, resp)
                && reviews_encoded(old(host)@, final(host)@, resp, r),
{
    let id = match decode_novel_id(host, novel_rid) {
        Ok(id) => id,
        Err(code) => return code,
    };
    let ghost given = id;
    let resp = source.get_novel_reviews(id);
    let ghost answer = resp;
    let r = encode_reviews(host, resp);
    assert(S::reviews_fetched(*old(source), *source, given, answer) && reviews_encoded(old(host)@, host@, answer, r));
    r
}

/// Entry point `get_chapter_list`: decodes the novel id behind `novel_rid`,
/// invokes the plugin with it and `page`, and encodes its page of chapters.
/// Without a readable `"id"` it returns `MISSING_ID` and leaves plugin and
/// host untouched.
pub fn get_chapter_list<S: Source>(source: &mut S, host: &mut HostTable, novel_rid: i32, page: i32) -> (r: i32)
    ensures
        string_field(old(host)@, novel_rid as int, "id"@) is None ==> {
            &&& r == MISSING_ID
            &&& final(host)@ == old(host)@
            &&& *final(source) == *old(source)
        },
        string_field(old(host)@, novel_rid as int, "id"@) matches Some(id) ==>
            exists|resp: Result<ChapterPageResult, BunyError>|
                S::chapters_listed(*old(source), *final(source), id, page, resp)
                && chapter_page_encoded(old(host)@, final(host)@, resp, r),
{
    let id = match decode_novel_id(host, novel_rid) {
        Ok(id) => id,
        Err(code) => return code,
    };
    let ghost given = id;
    let resp = source.get_chapter_list(id, page);
    let ghost answer = resp;
    let r = encode_chapter_page(host, resp);
    assert(S::chapters_listed(*old(source), *source, given, page, answer)
        && chapter_page_encoded(old(host)@, host@, answer, r));
    r
}

/// Entry point `get_chapter_content`: decodes the chapter id and novel id
/// behind `chapter_rid`, invokes the plugin with `(novel id, chapter id)`, and
/// returns the array of created paragraphs. A missing `"id"` gives
/// `MISSING_ID`, a missing `"novelId"` gives `MISSING_NOVEL_ID`; either way
/// plugin and host stay untouched.
pub fn get_chapter_content<S: Source>(source: &mut S, host: &mut HostTable, chapter_rid: i32) -> (r: i32)
    ensures
        string_field(old(host)@, chapter_rid as int, "id"@) is None ==> {
            &&& r == MISSING_ID
            &&& final(host)@ == old(host)@
            &&& *final(source) == *old(source)
        },
        string_field(old(host)@, chapter_rid as int, "id"@) is Some
            && string_field(old(host)@, chapter_rid as int, "novelId"@) is None ==> {
            &&& r == MISSING_NOVEL_ID
            &&& final(host)@ == old(host)@
            &&& *final(source) == *old(source)
        },
        match (string_field(old(host)@, chapter_rid as int, "id"@), string_field(old(host)@, chapter_rid as int, "novelId"@)) {
            (Some(id), Some(novel_id)) => exists|resp: Result<Vec<ChapterParagraph>, BunyError>|
                S::content_fetched(*old(source), *final(source), novel_id, id, resp)
                && paragraphs_encoded(old(host)@, final(host)@, resp, r),
            _ => true,
        },
{
    let (novel_id, chapter_id) = match decode_chapter_ids(host, chapter_rid) {
        Ok(ids) => ids,
        Err(code) => return code,
    };
    let ghost given_novel = novel_id;
    let ghost given_chapter = chapter_id;
    let resp = source.get_chapter_content(novel_id, chapter_id);
    let ghost answer = resp;
    let r = encode_paragraphs(host, resp);
    assert(S::content_fetched(*old(source), *source, given_novel, given_chapter, answer)
        && paragraphs_encoded(old(host)@, host@, answer, r));
    r
}

/// Entry point `modify_image_request`: hands the plugin the request behind
/// `request_rid`, which the guest does not own.
pub fn modify_image_request<S: Source>(source: &mut S, request_rid: i32)
    ensures
        S::image_request_modified(*old(source), *final(source), Request { rid: request_rid, owned: false }),
{
    source.modify_image_request(Request { rid: request_rid, owned: false });
}

/// Entry point `handle_notification`: decodes the notification text behind
/// `notification_rid` and hands it to the plugin. Where it is no string the
/// plugin is not invoked.
pub fn handle_notification<S: Source>(source: &mut S, host: &HostTable, notification_rid: i32)
    ensures
        text_at(host@, notification_rid as int) is None ==> *final(source) == *old(source),
        text_at(host@, notification_rid as int) matches Some(text) ==>
            S::notified(*old(source), *final(source), text),
{
    match ValueRef::new(notification_rid).as_string(host) {
        Ok(notification) => source.handle_notification(notification),
        Err(_) => {},
    }
}

} // verus!
