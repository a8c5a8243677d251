use vstd::prelude::*;
use crate::host::{
    HostTable, HostValue, NovelRecord, ReviewRecord, ChapterRecord, ParagraphRecord, PageRecord,
    allocated, array_items, has_room, extends, is_array_at, MAX_HANDLES, NO_HANDLE,
};
use crate::value::{ArrayRef, ValueRef, ObjectRef};
use vstd::std_specs::cmp::PartialEqSpec;

verus! {

/// The kind of a search filter, encoded on the wire as `0..=9`.
#[derive(PartialEq, Eq, Structural, Clone, Copy, Debug)]
pub enum FilterType {
    Base,
    Group,
    Text,
    Check,
    Select,
    Sort,
    SortSelection,
    Title,
    Author,
    Genre,
}

impl FilterType {
    /// The wire code of this filter kind.
    pub open spec fn code(self) -> i32 {
        match self {
            FilterType::Base => 0,
            FilterType::Group => 1,
            FilterType::Text => 2,
            FilterType::Check => 3,
            FilterType::Select => 4,
            FilterType::Sort => 5,
            FilterType::SortSelection => 6,
            FilterType::Title => 7,
            FilterType::Author => 8,
            FilterType::Genre => 9,
        }
    }

    /// The filter kind that a wire integer decodes to: `Base` outside `0..=9`.
    pub open spec fn of_code(n: int) -> FilterType {
        if n == 1 {
            FilterType::Group
        } else if n == 2 {
            FilterType::Text
        } else if n == 3 {
            FilterType::Check
        } else if n == 4 {
            FilterType::Select
        } else if n == 5 {
            FilterType::Sort
        } else if n == 6 {
            FilterType::SortSelection
        } else if n == 7 {
            FilterType::Title
        } else if n == 8 {
            FilterType::Author
        } else if n == 9 {
            FilterType::Genre
        } else {
            FilterType::Base
        }
    }

    pub fn to_int(&self) -> (r: i32)
        ensures
            r == self.code(),
    {
        match self {
            FilterType::Base => 0,
            FilterType::Group => 1,
            FilterType::Text => 2,
            FilterType::Check => 3,
            FilterType::Select => 4,
            FilterType::Sort => 5,
            FilterType::SortSelection => 6,
            FilterType::Title => 7,
            FilterType::Author => 8,
            FilterType::Genre => 9,
        }
    }
}

impl Default for FilterType {
    fn default() -> (r: FilterType)
        ensures
            r == FilterType::Base,
    {
        FilterType::Base
    }
}

impl From<i64> for FilterType {
    fn from(value: i64) -> (r: FilterType)
        ensures
            r == FilterType::of_code(value as int),
    {
        match value {
            1 => FilterType::Group,
            2 => FilterType::Text,
            3 => FilterType::Check,
            4 => FilterType::Select,
            5 => FilterType::Sort,
            6 => FilterType::SortSelection,
            7 => FilterType::Title,
            8 => FilterType::Author,
            9 => FilterType::Genre,
            _ => FilterType::Base,
        }
    }
}

impl vstd::std_specs::convert::FromSpecImpl<i64> for FilterType {
    open spec fn obeys_from_spec() -> bool {
        true
    }

    open spec fn from_spec(v: i64) -> FilterType {
        FilterType::of_code(v as int)
    }
}

impl From<i32> for FilterType {
    fn from(value: i32) -> (r: FilterType)
        ensures
            r == FilterType::of_code(value as int),
    {
        <FilterType as From<i64>>::from(value as i64)
    }
}

impl vstd::std_specs::convert::FromSpecImpl<i32> for FilterType {
    open spec fn obeys_from_spec() -> bool {
        true
    }

    open spec fn from_spec(v: i32) -> FilterType {
        FilterType::of_code(v as int)
    }
}

/// The status of a novel, encoded on the wire as `0..=4`.
#[derive(PartialEq, Eq, Structural, Clone, Copy, Debug)]
pub enum NovelStatus {
    /// The novel status cannot be determined.
    Unknown,
    /// The novel is still releasing chapters or being translated.
    Ongoing,
    /// The novel has completed production or translation.
    Completed,
    /// The novel, or its translation, has been dropped.
    Cancelled,
    /// The novel is on hiatus.
    Hiatus,
}

impl NovelStatus {
    /// The wire code of this status.
    pub open spec fn code(self) -> i32 {
        match self {
            NovelStatus::Unknown => 0,
            NovelStatus::Ongoing => 1,
            NovelStatus::Completed => 2,
            NovelStatus::Cancelled => 3,
            NovelStatus::Hiatus => 4,
        }
    }

    pub fn to_int(&self) -> (r: i32)
        ensures
            r == self.code(),
    {
        match self {
            NovelStatus::Unknown => 0,
            NovelStatus::Ongoing => 1,
            NovelStatus::Completed => 2,
            NovelStatus::Cancelled => 3,
            NovelStatus::Hiatus => 4,
        }
    }
}

impl Default for NovelStatus {
    fn default() -> (r: NovelStatus)
        ensures
            r == NovelStatus::Unknown,
    {
        NovelStatus::Unknown
    }
}

/// The content rating of a novel, encoded on the wire as `0..=2`.
#[derive(PartialEq, Eq, Structural, Clone, Copy, Debug)]
pub enum NovelContentRating {
    Safe,
    Suggestive,
    Nsfw,
}

impl NovelContentRating {
    /// The wire code of this rating.
    pub open spec fn code(self) -> i32 {
        match self {
            NovelContentRating::Safe => 0,
            NovelContentRating::Suggestive => 1,
            NovelContentRating::Nsfw => 2,
        }
    }

    pub fn to_int(&self) -> (r: i32)
        ensures
            r == self.code(),
    {
        match self {
            NovelContentRating::Safe => 0,
            NovelContentRating::Suggestive => 1,
            NovelContentRating::Nsfw => 2,
        }
    }
}

impl Default for NovelContentRating {
    fn default() -> (r: NovelContentRating)
        ensures
            r == NovelContentRating::Safe,
    {
        NovelContentRating::Safe
    }
}

/// The preferred reading method of a novel, encoded on the wire as `0..=4`.
#[derive(PartialEq, Eq, Structural, Clone, Copy, Debug)]
pub enum NovelViewer {
    /// Deprecated: the host ignores it and uses the right-to-left viewer.
    Default,
    Rtl,
    Ltr,
    Vertical,
    Scroll,
}

impl NovelViewer {
    /// The wire code of this viewer.
    pub open spec fn code(self) -> i32 {
        match self {
            NovelViewer::Default => 0,
            NovelViewer::Rtl => 1,
            NovelViewer::Ltr => 2,
            NovelViewer::Vertical => 3,
            NovelViewer::Scroll => 4,
        }
    }

    pub fn to_int(&self) -> (r: i32)
        ensures
            r == self.code(),
    {
        match self {
            NovelViewer::Default => 0,
            NovelViewer::Rtl => 1,
            NovelViewer::Ltr => 2,
            NovelViewer::Vertical => 3,
            NovelViewer::Scroll => 4,
        }
    }
}

impl Default for NovelViewer {
    fn default() -> (r: NovelViewer)
        ensures
            r == NovelViewer::Rtl,
    {
        NovelViewer::Rtl
    }
}

/// A search filter as the host sent it.
#[derive(Clone, Default)]
pub struct Filter {
    /// The filter variant.
    pub kind: FilterType,
    /// The filter's name, as the source declared it.
    pub name: String,
    /// The filter's current value; what it holds depends on the kind.
    pub value: ValueRef,
    /// The raw filter object.
    pub object: ObjectRef,
}

/// Information about a novel. Novels are told apart by their `id` alone, which
/// must be unique within a source.
#[derive(Clone, Debug, Default)]
pub struct Novel {
    /// The identifier of the novel, from a number to the entire URL.
    pub id: String,
    /// A URL pointing to a thumbnail of the novel.
    pub cover: String,
    pub title: String,
    /// Authors, joined into one string.
    pub author: String,
    /// Artists, joined into one string.
    pub artist: String,
    pub description: String,
    /// The URL used for sharing and for the in-app browser.
    pub url: String,
    /// Tags and categories.
    pub categories: Vec<String>,
    pub status: NovelStatus,
    pub nsfw: NovelContentRating,
    pub viewer: NovelViewer,
}

impl PartialEq for Novel {
    fn eq(&self, other: &Novel) -> (r: bool) {
        self.id == other.id
    }
}

impl vstd::std_specs::cmp::PartialEqSpecImpl for Novel {
    open spec fn obeys_eq_spec() -> bool {
        true
    }

    open spec fn eq_spec(&self, other: &Novel) -> bool {
        self.id@ == other.id@
    }
}

/// A page of novels, in display order.
#[derive(Clone, Debug, Default)]
pub struct NovelPageResult {
    pub novel: Vec<Novel>,
    /// Whether the host should ask for another page.
    pub has_more: bool,
}

/// A review of a novel.
#[derive(Clone, Debug)]
pub struct Review {
    pub username: String,
    /// URL of the user's profile picture.
    pub cover: String,
    /// The review text.
    pub content: String,
    /// Bit pattern of an `f32` rating from 0.0 to 1.0.
    pub rating: u32,
    /// The date as free text ("1/1/11", "3 days ago"), or empty.
    pub date_string: String,
}

/// Bit pattern of the `f32` value 1.0.
pub const ONE_F32_BITS: u32 = 0x3f80_0000;

/// Bit pattern of the `f32` value -1.0.
pub const MINUS_ONE_F32_BITS: u32 = 0xbf80_0000;

/// Bit pattern of the `f64` value -1.0.
pub const MINUS_ONE_F64_BITS: u64 = 0xbff0_0000_0000_0000;

impl Default for Review {
    fn default() -> (r: Review)
        ensures
            r.username@.len() == 0,
            r.cover@.len() == 0,
            r.content@.len() == 0,
            r.rating == ONE_F32_BITS,
            r.date_string@.len() == 0,
    {
        Review {
            username: String::new(),
            cover: String::new(),
            content: String::new(),
            rating: ONE_F32_BITS,
            date_string: String::new(),
        }
    }
}

/// A listing of novels, such as "Latest" or "Popular".
#[derive(Clone, Debug)]
pub struct Listing {
    pub name: String,
}

impl PartialEq for Listing {
    fn eq(&self, other: &Listing) -> (r: bool) {
        self.name == other.name
    }
}

impl vstd::std_specs::cmp::PartialEqSpecImpl for Listing {
    open spec fn obeys_eq_spec() -> bool {
        true
    }

    open spec fn eq_spec(&self, other: &Listing) -> bool {
        self.name@ == other.name@
    }
}

/// Metadata of a chapter. Chapters are told apart by their `id` alone, which
/// must be unique within a novel.
#[derive(Clone, Debug)]
pub struct Chapter {
    pub id: String,
    pub title: String,
    /// Bit pattern of the `f32` volume number.
    pub volume: u32,
    /// Bit pattern of the `f32` chapter number.
    pub chapter: u32,
    /// Bit pattern of the `f64` publishing date.
    pub date_updated: u64,
    /// The scanlator or scanlation group.
    pub scanlator: String,
    pub url: String,
    /// A language code.
    pub lang: String,
}

impl PartialEq for Chapter {
    fn eq(&self, other: &Chapter) -> (r: bool) {
        self.id == other.id
    }
}

impl vstd::std_specs::cmp::PartialEqSpecImpl for Chapter {
    open spec fn obeys_eq_spec() -> bool {
        true
    }

    open spec fn eq_spec(&self, other: &Chapter) -> bool {
        self.id@ == other.id@
    }
}

impl Default for Chapter {
    fn default() -> (r: Chapter)
        ensures
            r.id@.len() == 0,
            r.title@.len() == 0,
            r.volume == MINUS_ONE_F32_BITS,
            r.chapter == MINUS_ONE_F32_BITS,
            r.date_updated == MINUS_ONE_F64_BITS,
            r.scanlator@.len() == 0,
            r.url@.len() == 0,
            r.lang@.len() == 0,
    {
        Chapter {
            id: String::new(),
            title: String::new(),
            volume: MINUS_ONE_F32_BITS,
            chapter: MINUS_ONE_F32_BITS,
            date_updated: MINUS_ONE_F64_BITS,
            scanlator: String::new(),
            url: String::new(),
            lang: String::new(),
        }
    }
}

/// A page of chapters, in display order.
#[derive(Clone, Debug, Default)]
pub struct ChapterPageResult {
    pub chapters: Vec<Chapter>,
    /// Whether the novel has more pages of chapters.
    pub has_more: bool,
}

/// One paragraph of a chapter's text.
#[derive(Clone, Debug, Default)]
pub struct ChapterParagraph {
    /// The index of the paragraph, starting from 0.
    pub index: i32,
    pub paragraph: String,
}

/// A record that one host constructor call turns into a new host value.
pub trait Marshal: Sized {
    /// The value the host stores for this record.
    spec fn host_value(&self) -> HostValue;

    /// Hands the record to its host constructor and returns the new handle.
    fn create_in(self, host: &mut HostTable) -> (h: i32)
        ensures
            allocated(old(host)@, final(host)@, self.host_value(), h),
    ;
}

/// The handles `first, first + 1, ...`, `n` of them.
pub open spec fn consecutive(first: int, n: nat) -> Seq<i32> {
    Seq::new(n, |i: int| (first + i) as i32)
}

/// What creating every record of `items` in order leaves in the host, after
/// the array at handle `arr` that collects their handles.
pub open spec fn holds_created_array<T: Marshal>(host: Seq<HostValue>, arr: int, items: Seq<T>) -> bool {
    &&& host.len() >= arr + 1 + items.len()
    &&& 0 <= arr
    &&& host[arr] is Array
    &&& array_items(host[arr]) == consecutive(arr + 1, items.len())
    &&& forall|i: int| 0 <= i < items.len() ==> #[trigger] host[arr + 1 + i] == items[i].host_value()
}

/// Creates every record of `items` in order, and an array of their handles.
/// With room for all of them, the array comes first, the records follow it,
/// and the array lists their handles in order.
pub fn create_all<T: Marshal>(items: Vec<T>, host: &mut HostTable) -> (arr: ArrayRef)
    ensures
        extends(old(host)@, final(host)@),
        old(host)@.len() >= MAX_HANDLES ==> arr.0.0 == NO_HANDLE && final(host)@ == old(host)@,
        old(host)@.len() < MAX_HANDLES ==> arr.0.0 == old(host)@.len() && is_array_at(final(host)@, arr.0.0 as int),
        !has_room(old(host)@, items@.len() + 1int) ==> final(host)@.len() >= MAX_HANDLES,
        has_room(old(host)@, items@.len() + 1int) ==> {
            &&& arr.0.0 == old(host)@.len()
            &&& final(host)@.len() == old(host)@.len() + 1 + items@.len()
            &&& holds_created_array(final(host)@, arr.0.0 as int, items@)
        },
{
    let ghost before = host@;
    let ghost all = items@;
    let ghost room = has_room(before, all.len() + 1int);
    let arr = ArrayRef::new(host);
    let a = arr.0.0;
    proof {
        assert(host@.subrange(0, before.len() as int) =~= before);
        if room {
            assert(array_items(host@[a as int]) =~= consecutive(a + 1, 0));
        }
    }
    for item in it: items
        invariant
            it.seq() == all,
            room == has_room(before, all.len() + 1int),
            a == arr.0.0,
            extends(before, host@),
            a == NO_HANDLE || a >= before.len(),
            before.len() >= MAX_HANDLES ==> a == NO_HANDLE && host@ == before,
            before.len() < MAX_HANDLES ==> a == before.len() && is_array_at(host@, a as int),
            host@.len() >= MAX_HANDLES || host@.len() == before.len() + 1 + it.index(),
            room ==> {
                &&& a == before.len()
                &&& host@.len() == before.len() + 1 + it.index()
                &&& holds_created_array(host@, a as int, all.subrange(0, it.index() as int))
            },
    {
        let ghost mid = host@;
        let h = item.create_in(host);
        let ghost mid2 = host@;
        proof {
            assert(mid2.subrange(0, before.len() as int) =~= mid.subrange(0, before.len() as int));
            if room {
                assert(mid2[a as int] == mid[a as int]);
            }
        }
        arr.insert(host, ValueRef::new(h));
        proof {
            assert forall|j: int| 0 <= j < before.len() implies host@[j] == mid2[j] by {
                assert(j != a);
            }
            assert(host@.subrange(0, before.len() as int) =~= mid2.subrange(0, before.len() as int));
            if room {
                let k = it.index();
                let done = all.subrange(0, k + 1);
                assert(array_items(host@[a as int]) =~= consecutive(a + 1, done.len()));
                assert forall|i: int| 0 <= i < done.len() implies #[trigger] host@[a + 1 + i] == done[i].host_value() by {
                    if i < k {
                        assert(all.subrange(0, k as int)[i] == done[i]);
                    }
                }
            }
        }
    }
    proof {
        if room {
            assert(all.subrange(0, all.len() as int) =~= all);
        }
    }
    arr
}

/// Storing one more value keeps what an earlier creation left in the host.
pub proof fn lemma_created_array_push<T: Marshal>(host: Seq<HostValue>, arr: int, items: Seq<T>, v: HostValue)
    requires
        holds_created_array(host, arr, items),
    ensures
        holds_created_array(host.push(v), arr, items),
{
    assert forall|i: int| 0 <= i < items.len() implies #[trigger] host.push(v)[arr + 1 + i] == items[i].host_value() by {
        assert(host[arr + 1 + i] == items[i].host_value());
    }
}

/// What a page-result constructor stores, for the array at `arr`.
pub open spec fn page_value(novel_page: bool, arr: int, has_more: bool) -> HostValue {
    if novel_page {
        HostValue::NovelPage(PageRecord { items: arr as i32, has_more })
    } else {
        HostValue::ChapterPage(PageRecord { items: arr as i32, has_more })
    }
}

/// What creating a page of `items` leaves in the host, where `before` is the
/// host before and `h` the handle returned: with room for every record, the
/// array of their handles, then the records in order, then the page record.
pub open spec fn page_created<T: Marshal>(
    before: Seq<HostValue>,
    after: Seq<HostValue>,
    items: Seq<T>,
    novel_page: bool,
    has_more: bool,
    h: i32,
) -> bool {
    &&& extends(before, after)
    &&& !has_room(before, items.len() + 2int) ==> h == NO_HANDLE
    &&& has_room(before, items.len() + 2int) ==> {
        &&& h == before.len() + 1 + items.len()
        &&& after.len() == h + 1
        &&& holds_created_array(after, before.len() as int, items)
        &&& after[h as int] == page_value(novel_page, before.len() as int, has_more)
    }
}

/// Creates the array of records for a page, then the page record itself.
fn create_page<T: Marshal>(items: Vec<T>, novel_page: bool, has_more: bool, host: &mut HostTable) -> (h: i32)
    ensures
        page_created(old(host)@, final(host)@, items@, novel_page, has_more, h),
{
    let ghost before = host@;
    let ghost all = items@;
    let arr = create_all(items, host);
    let ghost mid = host@;
    let a = arr.into_raw();
    let page = PageRecord { items: a, has_more };
    let h = if novel_page {
        host.store(HostValue::NovelPage(page))
    } else {
        host.store(HostValue::ChapterPage(page))
    };
    proof {
        assert(host@.subrange(0, before.len() as int) =~= mid.subrange(0, before.len() as int));
        if has_room(before, all.len() + 2int) {
            lemma_created_array_push(mid, a as int, all, host@[h as int]);
        }
    }
    h
}

impl Novel {
    /// The value the host's novel constructor stores for this novel.
    pub open spec fn host_record(self) -> HostValue {
        HostValue::Novel(NovelRecord {
            id: self.id,
            cover: self.cover,
            title: self.title,
            author: self.author,
            artist: self.artist,
            description: self.description,
            url: self.url,
            categories: self.categories,
            status: self.status.code(),
            nsfw: self.nsfw.code(),
            viewer: self.viewer.code(),
        })
    }

    /// Hands the novel to the host's novel constructor and returns the new handle.
    pub fn create(self, host: &mut HostTable) -> (h: i32)
        ensures
            allocated(old(host)@, final(host)@, self.host_record(), h),
    {
        let status = self.status.to_int();
        let nsfw = self.nsfw.to_int();
        let viewer = self.viewer.to_int();
        host.store(HostValue::Novel(NovelRecord {
            id: self.id,
            cover: self.cover,
            title: self.title,
            author: self.author,
            artist: self.artist,
            description: self.description,
            url: self.url,
            categories: self.categories,
            status,
            nsfw,
            viewer,
        }))
    }
}

impl Marshal for Novel {
    open spec fn host_value(&self) -> HostValue {
        self.host_record()
    }

    fn create_in(self, host: &mut HostTable) -> (h: i32) {
        self.create(host)
    }
}

impl NovelPageResult {
    /// Creates every novel in order, collects their handles in a new host
    /// array, and hands that array to the page-result constructor.
    pub fn create(self, host: &mut HostTable) -> (h: i32)
        ensures
            page_created(old(host)@, final(host)@, self.novel@, true, self.has_more, h),
    {
        create_page(self.novel, true, self.has_more, host)
    }
}

impl Review {
    /// The value the host's review constructor stores for this review.
    pub open spec fn host_record(self) -> HostValue {
        HostValue::Review(ReviewRecord {
            username: self.username,
            cover: self.cover,
            content: self.content,
            rating: self.rating,
            date_string: self.date_string,
        })
    }

    /// Hands the review to the host's review constructor and returns the new handle.
    pub fn create(self, host: &mut HostTable) -> (h: i32)
        ensures
            allocated(old(host)@, final(host)@, self.host_record(), h),
    {
        host.store(HostValue::Review(ReviewRecord {
            username: self.username,
            cover: self.cover,
            content: self.content,
            rating: self.rating,
            date_string: self.date_string,
        }))
    }
}

impl Marshal for Review {
    open spec fn host_value(&self) -> HostValue {
        self.host_record()
    }

    fn create_in(self, host: &mut HostTable) -> (h: i32) {
        self.create(host)
    }
}

impl Chapter {
    /// The value the host's chapter constructor stores for this chapter.
    pub open spec fn host_record(self) -> HostValue {
        HostValue::Chapter(ChapterRecord {
            id: self.id,
            title: self.title,
            volume: self.volume,
            chapter: self.chapter,
            date_updated: self.date_updated,
            scanlator: self.scanlator,
            url: self.url,
            lang: self.lang,
        })
    }

    /// Hands the chapter to the host's chapter constructor and returns the new handle.
    pub fn create(self, host: &mut HostTable) -> (h: i32)
        ensures
            allocated(old(host)@, final(host)@, self.host_record(), h),
    {
        host.store(HostValue::Chapter(ChapterRecord {
            id: self.id,
            title: self.title,
            volume: self.volume,
            chapter: self.chapter,
            date_updated: self.date_updated,
            scanlator: self.scanlator,
            url: self.url,
            lang: self.lang,
        }))
    }
}

impl Marshal for Chapter {
    open spec fn host_value(&self) -> HostValue {
        self.host_record()
    }

    fn create_in(self, host: &mut HostTable) -> (h: i32) {
        self.create(host)
    }
}

impl ChapterPageResult {
    /// Creates every chapter in order, collects their handles in a new host
    /// array, and hands that array to the page-result constructor.
    pub fn create(self, host: &mut HostTable) -> (h: i32)
        ensures
            page_created(old(host)@, final(host)@, self.chapters@, false, self.has_more, h),
    {
        create_page(self.chapters, false, self.has_more, host)
    }
}

impl ChapterParagraph {
    /// The value the host's chapter-content constructor stores for this paragraph.
    pub open spec fn host_record(self) -> HostValue {
        HostValue::Paragraph(ParagraphRecord { index: self.index, paragraph: self.paragraph })
    }

    /// Hands the paragraph to the host's chapter-content constructor and returns the new handle.
    pub fn create(self, host: &mut HostTable) -> (h: i32)
        ensures
            allocated(old(host)@, final(host)@, self.host_record(), h),
    {
        host.store(HostValue::Paragraph(ParagraphRecord { index: self.index, paragraph: self.paragraph }))
    }
}

impl Marshal for ChapterParagraph {
    open spec fn host_value(&self) -> HostValue {
        self.host_record()
    }

    fn create_in(self, host: &mut HostTable) -> (h: i32) {
        self.create(host)
    }
}

/// Novels are equal exactly when their ids are, whatever their other fields.
pub proof fn lemma_novel_identity(a: Novel, b: Novel)
    ensures
        a.eq_spec(&b) <==> a.id@ == b.id@,
{
}

/// Chapters are equal exactly when their ids are, whatever their other fields.
pub proof fn lemma_chapter_identity(a: Chapter, b: Chapter)
    ensures
        a.eq_spec(&b) <==> a.id@ == b.id@,
{
}

/// Decoding a wire code and encoding it again gives the code back for every
/// code in `0..=9`; every other integer decodes to `Base`.
pub proof fn lemma_filter_type_code_round_trip(n: int)
    ensures
        0 <= n <= 9 ==> FilterType::of_code(n).code() == n,
        !(0 <= n <= 9) ==> FilterType::of_code(n) == FilterType::Base,
{
}

} // verus!
