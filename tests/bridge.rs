use buny::dispatch::{decode_chapter_ids, decode_filters, decode_listing, decode_novel_id};
use buny::host::PageRecord;
use buny::structs::{MINUS_ONE_F32_BITS, MINUS_ONE_F64_BITS, ONE_F32_BITS};
use buny::{
    get_chapter_content, get_chapter_list, get_novel_details, get_novel_list, get_novel_listing,
    get_novel_reviews, get_search_result, handle_notification, initialize, modify_image_request,
};
use buny::{
    ArrayRef, BunyError, BunyErrorKind, Chapter, ChapterPageResult, ChapterParagraph, Filter,
    FilterType, HostTable, HostValue, Listing, NodeError, Novel, NovelContentRating,
    NovelPageResult, NovelStatus, NovelViewer, ObjectRef, Request, Review, Source, Utf8Error,
    ValueCastError, ValueRef, MISSING_ID, MISSING_NOVEL_ID, NO_HANDLE, PLUGIN_ERROR,
};

fn text(host: &mut HostTable, s: &str) -> i32 {
    host.store(HostValue::Text(s.to_string()))
}

fn object(host: &mut HostTable, fields: Vec<(&str, i32)>) -> i32 {
    let entries = fields.into_iter().map(|(k, v)| (k.to_string(), v)).collect();
    host.store(HostValue::Object(entries))
}

fn novel(id: &str, title: &str) -> Novel {
    Novel { id: id.to_string(), title: title.to_string(), ..Novel::default() }
}

fn novel_id_of(host: &HostTable, h: i32) -> String {
    match host.get(h) {
        Some(HostValue::Novel(rec)) => rec.id.clone(),
        _ => panic!("handle {} holds no novel record", h),
    }
}

fn array_of(host: &HostTable, h: i32) -> Vec<i32> {
    match host.get(h) {
        Some(HostValue::Array(items)) => items.clone(),
        _ => panic!("handle {} holds no array", h),
    }
}

#[derive(Default)]
struct Probe {
    calls: Vec<String>,
    filters: Option<Vec<Filter>>,
    fail: bool,
    novels: Vec<Novel>,
    paragraphs: Vec<String>,
}

fn err() -> BunyError {
    BunyError { reason: BunyErrorKind::Unimplemented }
}

impl Source for Probe {
    fn initialize(&mut self) {
        self.calls.push("initialize".to_string());
    }

    fn get_novel_list(&mut self, page: i32) -> Result<NovelPageResult, BunyError> {
        self.calls.push(format!("list {}", page));
        if self.fail {
            return Err(err());
        }
        Ok(NovelPageResult { novel: self.novels.clone(), has_more: true })
    }

    fn get_novel_listing(&mut self, listing: Listing, page: i32) -> Result<NovelPageResult, BunyError> {
        self.calls.push(format!("listing {} {}", listing.name, page));
        if self.fail {
            return Err(err());
        }
        Ok(NovelPageResult { novel: self.novels.clone(), has_more: false })
    }

    fn get_search_result(&mut self, filters: Vec<Filter>, page: i32) -> Result<NovelPageResult, BunyError> {
        self.calls.push(format!("search {}", page));
        self.filters = Some(filters);
        if self.fail {
            return Err(err());
        }
        Ok(NovelPageResult { novel: self.novels.clone(), has_more: false })
    }

    fn get_novel_details(&mut self, id: String) -> Result<Novel, BunyError> {
        self.calls.push(format!("details {}", id));
        if self.fail {
            return Err(err());
        }
        Ok(novel(&id, "Details"))
    }

    fn get_novel_reviews(&mut self, id: String) -> Result<Vec<Review>, BunyError> {
        self.calls.push(format!("reviews {}", id));
        if self.fail {
            return Err(err());
        }
        let mut first = Review::default();
        first.username = "ann".to_string();
        let mut second = Review::default();
        second.username = "bob".to_string();
        Ok(vec![first, second])
    }

    fn get_chapter_list(&mut self, id: String, page: i32) -> Result<ChapterPageResult, BunyError> {
        self.calls.push(format!("chapters {} {}", id, page));
        if self.fail {
            return Err(err());
        }
        let mut c = Chapter::default();
        c.id = format!("{}-1", id);
        Ok(ChapterPageResult { chapters: vec![c], has_more: true })
    }

    fn get_chapter_content(&mut self, novel_id: String, chapter_id: String) -> Result<Vec<ChapterParagraph>, BunyError> {
        self.calls.push(format!("content {} {}", novel_id, chapter_id));
        if self.fail {
            return Err(err());
        }
        Ok(self
            .paragraphs
            .iter()
            .enumerate()
            .map(|(i, p)| ChapterParagraph { index: i as i32, paragraph: p.clone() })
            .collect())
    }

    fn modify_image_request(&mut self, request: Request) {
        self.calls.push(format!("image {} {}", request.rid, request.owned));
    }

    fn handle_notification(&mut self, notification: String) {
        self.calls.push(format!("notify {}", notification));
    }
}

#[test]
fn filter_type_round_trips_codes() {
    for n in 0..=9i32 {
        assert_eq!(FilterType::from(n).to_int(), n);
        assert_eq!(FilterType::from(n as i64).to_int(), n);
    }
}

#[test]
fn filter_type_out_of_range_is_base() {
    for n in [-1i64, 10, 11, 1 << 32, (1 << 32) + 3, i64::MAX, i64::MIN] {
        assert_eq!(FilterType::from(n), FilterType::Base);
    }
    assert_eq!(FilterType::from(-7i32), FilterType::Base);
    assert_eq!(FilterType::from(i32::MAX), FilterType::Base);
}

#[test]
fn filter_type_codes_are_fixed() {
    assert_eq!(FilterType::Base.to_int(), 0);
    assert_eq!(FilterType::Group.to_int(), 1);
    assert_eq!(FilterType::Text.to_int(), 2);
    assert_eq!(FilterType::Check.to_int(), 3);
    assert_eq!(FilterType::Select.to_int(), 4);
    assert_eq!(FilterType::Sort.to_int(), 5);
    assert_eq!(FilterType::SortSelection.to_int(), 6);
    assert_eq!(FilterType::Title.to_int(), 7);
    assert_eq!(FilterType::Author.to_int(), 8);
    assert_eq!(FilterType::Genre.to_int(), 9);
    assert_eq!(FilterType::default(), FilterType::Base);
}

#[test]
fn novel_enum_codes_are_fixed() {
    assert_eq!(NovelStatus::Unknown.to_int(), 0);
    assert_eq!(NovelStatus::Ongoing.to_int(), 1);
    assert_eq!(NovelStatus::Completed.to_int(), 2);
    assert_eq!(NovelStatus::Cancelled.to_int(), 3);
    assert_eq!(NovelStatus::Hiatus.to_int(), 4);
    assert_eq!(NovelContentRating::Safe.to_int(), 0);
    assert_eq!(NovelContentRating::Suggestive.to_int(), 1);
    assert_eq!(NovelContentRating::Nsfw.to_int(), 2);
    assert_eq!(NovelViewer::Default.to_int(), 0);
    assert_eq!(NovelViewer::Rtl.to_int(), 1);
    assert_eq!(NovelViewer::Ltr.to_int(), 2);
    assert_eq!(NovelViewer::Vertical.to_int(), 3);
    assert_eq!(NovelViewer::Scroll.to_int(), 4);
    assert_eq!(NovelViewer::default(), NovelViewer::Rtl);
    assert_eq!(NovelStatus::default(), NovelStatus::Unknown);
    assert_eq!(NovelContentRating::default(), NovelContentRating::Safe);
}

#[test]
fn downcasts_follow_the_host_kind() {
    let mut host = HostTable::new();
    let s = text(&mut host, "hello");
    let i = host.store(HostValue::Int(42));
    let f = host.store(HostValue::Float(2.5f64.to_bits()));
    let b = host.store(HostValue::Bool(true));
    let n = host.store(HostValue::Node);
    let z = host.store(HostValue::Null);
    assert_eq!(ValueRef::new(s).as_string(&host), Ok("hello".to_string()));
    assert_eq!(ValueRef::new(i).as_int(&host), Ok(42));
    assert_eq!(ValueRef::new(f).as_float(&host).map(f64::from_bits), Ok(2.5));
    assert_eq!(ValueRef::new(b).as_bool(&host), Ok(true));
    assert_eq!(ValueRef::new(n).as_node(&host), Ok(ValueRef(n)));
    assert!(ValueRef::new(z).is_none(&host));
    assert!(ValueRef::new(NO_HANDLE).is_none(&host));
    assert!(!ValueRef::new(s).is_none(&host));
    assert_eq!(ValueRef::new(i).as_string(&host).err(), Some(BunyError::from(ValueCastError::NotString)));
    assert_eq!(ValueRef::new(s).as_int(&host).err(), Some(BunyError::from(ValueCastError::NotInt)));
    assert_eq!(ValueRef::new(s).as_float(&host).err(), Some(BunyError::from(ValueCastError::NotFloat)));
    assert_eq!(ValueRef::new(s).as_bool(&host).err(), Some(BunyError::from(ValueCastError::NotBool)));
    assert_eq!(ValueRef::new(s).as_array(&host).err(), Some(BunyError::from(ValueCastError::NotArray)));
    assert_eq!(ValueRef::new(s).as_object(&host).err(), Some(BunyError::from(ValueCastError::NotObject)));
    assert_eq!(ValueRef::new(s).as_node(&host).err(), Some(BunyError::from(ValueCastError::NotNode)));
    assert_eq!(ValueRef::new(99).as_string(&host).err(), Some(BunyError::from(ValueCastError::NotString)));
    assert_eq!(ValueRef::new(-5).as_int(&host).err(), Some(BunyError::from(ValueCastError::NotInt)));
}

#[test]
fn object_get_finds_fields_and_misses_quietly() {
    let mut host = HostTable::new();
    let a = text(&mut host, "first");
    let b = text(&mut host, "second");
    let obj = object(&mut host, vec![("a", a), ("b", b), ("a", b)]);
    let o = ValueRef::new(obj).as_object(&host).unwrap();
    assert_eq!(o.get(&host, "a"), ValueRef(a));
    assert_eq!(o.get(&host, "b").as_string(&host), Ok("second".to_string()));
    let missing = o.get(&host, "c");
    assert_eq!(missing, ValueRef(NO_HANDLE));
    assert_eq!(missing.as_string(&host), Err(BunyError::from(ValueCastError::NotString)));
    assert_eq!(ObjectRef(ValueRef(a)).get(&host, "a"), ValueRef(NO_HANDLE));
}

#[test]
fn array_insert_appends_in_call_order() {
    let mut host = HostTable::new();
    let arr = ArrayRef::new(&mut host);
    assert_eq!(arr.0 .0, 0);
    assert_eq!(arr.elements(&host), vec![]);
    arr.insert(&mut host, ValueRef::new(7));
    arr.insert(&mut host, ValueRef::new(3));
    arr.insert(&mut host, ValueRef::new(5));
    assert_eq!(arr.elements(&host), vec![ValueRef(7), ValueRef(3), ValueRef(5)]);
    assert_eq!(ValueRef::new(0).as_array(&host), Ok(arr));
    assert_eq!(arr.into_raw(), 0);
    assert_eq!(host.len(), 1);
}

#[test]
fn insert_into_non_array_changes_nothing() {
    let mut host = HostTable::new();
    let s = text(&mut host, "x");
    ArrayRef(ValueRef(s)).insert(&mut host, ValueRef::new(1));
    ArrayRef(ValueRef(NO_HANDLE)).insert(&mut host, ValueRef::new(1));
    assert_eq!(host.len(), 1);
    assert_eq!(ValueRef::new(s).as_string(&host), Ok("x".to_string()));
}

#[test]
fn novel_create_passes_every_field() {
    let mut host = HostTable::new();
    text(&mut host, "existing");
    let n = Novel {
        id: "n1".to_string(),
        cover: "c".to_string(),
        title: "t".to_string(),
        author: "au".to_string(),
        artist: "ar".to_string(),
        description: "d".to_string(),
        url: "u".to_string(),
        categories: vec!["fantasy".to_string(), "action".to_string()],
        status: NovelStatus::Hiatus,
        nsfw: NovelContentRating::Suggestive,
        viewer: NovelViewer::Scroll,
    };
    let h = n.create(&mut host);
    assert_eq!(h, 1);
    match host.get(h) {
        Some(HostValue::Novel(rec)) => {
            assert_eq!(rec.id, "n1");
            assert_eq!(rec.cover, "c");
            assert_eq!(rec.title, "t");
            assert_eq!(rec.author, "au");
            assert_eq!(rec.artist, "ar");
            assert_eq!(rec.description, "d");
            assert_eq!(rec.url, "u");
            assert_eq!(rec.categories, vec!["fantasy".to_string(), "action".to_string()]);
            assert_eq!(rec.status, 4);
            assert_eq!(rec.nsfw, 1);
            assert_eq!(rec.viewer, 4);
        }
        _ => panic!("no novel record"),
    }
}

#[test]
fn novel_page_creates_every_novel_in_order() {
    let mut host = HostTable::new();
    text(&mut host, "existing");
    let page = NovelPageResult { novel: vec![novel("a", "A"), novel("b", "B"), novel("c", "C")], has_more: true };
    let h = page.create(&mut host);
    assert_eq!(h, 5);
    assert_eq!(host.len(), 6);
    let items = array_of(&host, 1);
    assert_eq!(items, vec![2, 3, 4]);
    let ids: Vec<String> = items.iter().map(|&i| novel_id_of(&host, i)).collect();
    assert_eq!(ids, vec!["a", "b", "c"]);
    match host.get(h) {
        Some(HostValue::NovelPage(p)) => assert_eq!(*p, PageRecord { items: 1, has_more: true }),
        _ => panic!("no page record"),
    }
}

#[test]
fn empty_novel_page_still_builds_an_array() {
    let mut host = HostTable::new();
    let h = NovelPageResult { novel: vec![], has_more: false }.create(&mut host);
    assert_eq!(h, 1);
    assert_eq!(array_of(&host, 0), Vec::<i32>::new());
    match host.get(h) {
        Some(HostValue::NovelPage(p)) => assert_eq!(*p, PageRecord { items: 0, has_more: false }),
        _ => panic!("no page record"),
    }
}

#[test]
fn chapter_page_creates_every_chapter_in_order() {
    let mut host = HostTable::new();
    let mut c1 = Chapter::default();
    c1.id = "c1".to_string();
    c1.chapter = 1.5f32.to_bits();
    let mut c2 = Chapter::default();
    c2.id = "c2".to_string();
    let h = ChapterPageResult { chapters: vec![c1, c2], has_more: true }.create(&mut host);
    assert_eq!(h, 3);
    assert_eq!(array_of(&host, 0), vec![1, 2]);
    match host.get(1) {
        Some(HostValue::Chapter(rec)) => {
            assert_eq!(rec.id, "c1");
            assert_eq!(f32::from_bits(rec.chapter), 1.5);
            assert_eq!(f32::from_bits(rec.volume), -1.0);
        }
        _ => panic!("no chapter record"),
    }
    match host.get(h) {
        Some(HostValue::ChapterPage(p)) => assert_eq!(*p, PageRecord { items: 0, has_more: true }),
        _ => panic!("no page record"),
    }
}

#[test]
fn review_and_paragraph_create_pass_their_fields() {
    let mut host = HostTable::new();
    let r = Review {
        username: "u".to_string(),
        cover: "c".to_string(),
        content: "great".to_string(),
        rating: 0.75f32.to_bits(),
        date_string: "3 days ago".to_string(),
    };
    assert_eq!(r.create(&mut host), 0);
    match host.get(0) {
        Some(HostValue::Review(rec)) => {
            assert_eq!(rec.content, "great");
            assert_eq!(f32::from_bits(rec.rating), 0.75);
            assert_eq!(rec.date_string, "3 days ago");
        }
        _ => panic!("no review record"),
    }
    let p = ChapterParagraph { index: 4, paragraph: "text".to_string() };
    assert_eq!(p.create(&mut host), 1);
    match host.get(1) {
        Some(HostValue::Paragraph(rec)) => {
            assert_eq!(rec.index, 4);
            assert_eq!(rec.paragraph, "text");
        }
        _ => panic!("no paragraph record"),
    }
}

#[test]
fn defaults_use_sentinel_numbers() {
    let r = Review::default();
    assert_eq!(r.rating, ONE_F32_BITS);
    assert_eq!(f32::from_bits(r.rating), 1.0);
    assert!(r.username.is_empty() && r.content.is_empty() && r.date_string.is_empty());
    let c = Chapter::default();
    assert_eq!(f32::from_bits(c.volume), -1.0);
    assert_eq!(f32::from_bits(c.chapter), -1.0);
    assert_eq!(f64::from_bits(c.date_updated), -1.0);
    assert_eq!(c.volume, MINUS_ONE_F32_BITS);
    assert_eq!(c.date_updated, MINUS_ONE_F64_BITS);
}

#[test]
fn novels_with_same_id_are_equal() {
    let mut a = novel("same", "One");
    a.status = NovelStatus::Ongoing;
    let mut b = novel("same", "Two");
    b.status = NovelStatus::Completed;
    assert!(a == b);
    assert!(novel("x", "T") != novel("y", "T"));
}

#[test]
fn chapters_with_same_id_are_equal() {
    let mut a = Chapter::default();
    a.id = "c".to_string();
    a.chapter = 1.0f32.to_bits();
    let mut b = Chapter::default();
    b.id = "c".to_string();
    b.chapter = 2.0f32.to_bits();
    assert!(a == b);
    b.id = "d".to_string();
    assert!(a != b);
}

#[test]
fn listings_compare_by_name() {
    assert!(Listing { name: "Latest".to_string() } == Listing { name: "Latest".to_string() });
    assert!(Listing { name: "Latest".to_string() } != Listing { name: "Popular".to_string() });
}

#[test]
fn errors_convert_into_the_unified_type() {
    assert_eq!(
        BunyError::from(ValueCastError::NotArray).reason,
        BunyErrorKind::ValueCast(ValueCastError::NotArray)
    );
    assert_eq!(BunyError::from(NodeError::ParseError).reason, BunyErrorKind::NodeError(NodeError::ParseError));
    let bad = Utf8Error { valid_up_to: 2, error_len: Some(1) };
    assert_eq!(BunyError::from(bad).reason, BunyErrorKind::Utf8Error(bad));
    assert_eq!(BunyError::cast(ValueCastError::NotBool).reason, BunyErrorKind::ValueCast(ValueCastError::NotBool));
}

fn filter_element(host: &mut HostTable, name: Option<&str>, kind: Option<i64>, value: i32) -> i32 {
    let mut fields = vec![("value", value)];
    if let Some(name) = name {
        let h = text(host, name);
        fields.push(("name", h));
    }
    if let Some(kind) = kind {
        let h = host.store(HostValue::Int(kind));
        fields.push(("type", h));
    }
    object(host, fields)
}

#[test]
fn negative_filters_handle_gives_no_filters() {
    let mut host = HostTable::new();
    let e = filter_element(&mut host, Some("genre"), Some(9), NO_HANDLE);
    host.store(HostValue::Array(vec![e]));
    assert!(decode_filters(&host, -1).is_empty());
    assert!(decode_filters(&host, i32::MIN).is_empty());
}

#[test]
fn search_with_negative_handle_invokes_plugin_with_no_filters() {
    let mut host = HostTable::new();
    let mut probe = Probe { novels: vec![novel("a", "A")], ..Probe::default() };
    let r = get_search_result(&mut probe, &mut host, -1, 2);
    assert_eq!(probe.calls, vec!["search 2"]);
    assert_eq!(probe.filters.as_ref().map(|f| f.len()), Some(0));
    assert_eq!(r, 2);
    assert_eq!(array_of(&host, 0), vec![1]);
}

#[test]
fn filter_without_type_is_skipped_alone() {
    let mut host = HostTable::new();
    let v = text(&mut host, "v");
    let first = filter_element(&mut host, Some("sort"), Some(5), v);
    let untyped = filter_element(&mut host, Some("broken"), None, v);
    let last = filter_element(&mut host, Some("genre"), Some(9), NO_HANDLE);
    let arr = host.store(HostValue::Array(vec![first, untyped, last]));
    let filters = decode_filters(&host, arr);
    assert_eq!(filters.len(), 2);
    assert_eq!(filters[0].name, "sort");
    assert_eq!(filters[0].kind, FilterType::Sort);
    assert_eq!(filters[0].value, ValueRef(v));
    assert_eq!(filters[0].object, ObjectRef(ValueRef(first)));
    assert_eq!(filters[1].name, "genre");
    assert_eq!(filters[1].kind, FilterType::Genre);
    assert_eq!(filters[1].value, ValueRef(NO_HANDLE));
}

#[test]
fn malformed_filter_elements_are_skipped() {
    let mut host = HostTable::new();
    let not_object = text(&mut host, "plain");
    let unnamed = filter_element(&mut host, None, Some(2), NO_HANDLE);
    let name_not_string = {
        let n = host.store(HostValue::Int(3));
        let t = host.store(HostValue::Int(3));
        object(&mut host, vec![("name", n), ("type", t)])
    };
    let type_not_int = {
        let n = text(&mut host, "t");
        let t = text(&mut host, "3");
        object(&mut host, vec![("name", n), ("type", t)])
    };
    let big = filter_element(&mut host, Some("big"), Some((1 << 32) + 3), NO_HANDLE);
    let arr = host.store(HostValue::Array(vec![not_object, unnamed, name_not_string, type_not_int, big, 999]));
    let filters = decode_filters(&host, arr);
    assert_eq!(filters.len(), 1);
    assert_eq!(filters[0].name, "big");
    assert_eq!(filters[0].kind, FilterType::Base);
    assert!(decode_filters(&host, not_object).is_empty());
    assert!(decode_filters(&host, 12345).is_empty());
}

#[test]
fn search_passes_decoded_filters_to_plugin() {
    let mut host = HostTable::new();
    let e = filter_element(&mut host, Some("title"), Some(7), NO_HANDLE);
    let arr = host.store(HostValue::Array(vec![e]));
    let mut probe = Probe::default();
    let r = get_search_result(&mut probe, &mut host, arr, 1);
    let filters = probe.filters.expect("plugin was invoked");
    assert_eq!(filters.len(), 1);
    assert_eq!(filters[0].kind, FilterType::Title);
    assert_eq!(r, arr + 2);
}

#[test]
fn novel_details_without_id_returns_missing_id() {
    let mut host = HostTable::new();
    let t = text(&mut host, "x");
    let obj = object(&mut host, vec![("title", t)]);
    let mut probe = Probe::default();
    assert_eq!(get_novel_details(&mut probe, &mut host, obj), MISSING_ID);
    assert!(probe.calls.is_empty());
    assert_eq!(host.len(), 2);
    assert_eq!(get_novel_details(&mut probe, &mut host, NO_HANDLE), MISSING_ID);
    assert!(probe.calls.is_empty());
}

#[test]
fn novel_details_with_id_creates_novel() {
    let mut host = HostTable::new();
    let id = text(&mut host, "n7");
    let obj = object(&mut host, vec![("id", id)]);
    let mut probe = Probe::default();
    let h = get_novel_details(&mut probe, &mut host, obj);
    assert_eq!(probe.calls, vec!["details n7"]);
    assert_eq!(h, 2);
    assert_eq!(novel_id_of(&host, h), "n7");
}

#[test]
fn plugin_error_returns_plugin_error_sentinel() {
    let mut host = HostTable::new();
    let id = text(&mut host, "n7");
    let obj = object(&mut host, vec![("id", id), ("novelId", id), ("name", id)]);
    let mut probe = Probe { fail: true, ..Probe::default() };
    assert_eq!(get_novel_details(&mut probe, &mut host, obj), PLUGIN_ERROR);
    assert_eq!(get_novel_reviews(&mut probe, &mut host, obj), PLUGIN_ERROR);
    assert_eq!(get_chapter_list(&mut probe, &mut host, obj, 1), PLUGIN_ERROR);
    assert_eq!(get_chapter_content(&mut probe, &mut host, obj), PLUGIN_ERROR);
    assert_eq!(get_novel_list(&mut probe, &mut host, 1), PLUGIN_ERROR);
    assert_eq!(get_novel_listing(&mut probe, &mut host, obj, 1), PLUGIN_ERROR);
    assert_eq!(get_search_result(&mut probe, &mut host, -1, 1), PLUGIN_ERROR);
    assert_eq!(probe.calls.len(), 7);
    assert_eq!(host.len(), 2);
}

#[test]
fn chapter_content_without_novel_id_returns_missing_novel_id() {
    let mut host = HostTable::new();
    let id = text(&mut host, "c1");
    let obj = object(&mut host, vec![("id", id)]);
    let mut probe = Probe::default();
    assert_eq!(get_chapter_content(&mut probe, &mut host, obj), MISSING_NOVEL_ID);
    assert!(probe.calls.is_empty());
    assert_eq!(host.len(), 2);
}

#[test]
fn chapter_content_without_id_returns_missing_id() {
    let mut host = HostTable::new();
    let nid = text(&mut host, "n1");
    let obj = object(&mut host, vec![("novelId", nid)]);
    let empty = object(&mut host, vec![]);
    let mut probe = Probe::default();
    assert_eq!(get_chapter_content(&mut probe, &mut host, obj), MISSING_ID);
    assert_eq!(get_chapter_content(&mut probe, &mut host, empty), MISSING_ID);
    assert!(probe.calls.is_empty());
}

#[test]
fn chapter_content_returns_array_of_paragraphs() {
    let mut host = HostTable::new();
    let id = text(&mut host, "c1");
    let nid = text(&mut host, "n1");
    let obj = object(&mut host, vec![("id", id), ("novelId", nid)]);
    let mut probe = Probe { paragraphs: vec!["one".to_string(), "two".to_string()], ..Probe::default() };
    let h = get_chapter_content(&mut probe, &mut host, obj);
    assert_eq!(probe.calls, vec!["content n1 c1"]);
    assert_eq!(h, 3);
    assert_eq!(array_of(&host, h), vec![4, 5]);
    match host.get(5) {
        Some(HostValue::Paragraph(p)) => {
            assert_eq!(p.index, 1);
            assert_eq!(p.paragraph, "two");
        }
        _ => panic!("no paragraph record"),
    }
}

#[test]
fn decoders_read_identifier_fields() {
    let mut host = HostTable::new();
    let id = text(&mut host, "c1");
    let nid = text(&mut host, "n1");
    let obj = object(&mut host, vec![("name", nid), ("id", id), ("novelId", nid)]);
    assert_eq!(decode_chapter_ids(&host, obj), Ok(("n1".to_string(), "c1".to_string())));
    assert_eq!(decode_novel_id(&host, obj), Ok("c1".to_string()));
    assert_eq!(decode_listing(&host, obj).map(|l| l.name), Ok("n1".to_string()));
    assert_eq!(decode_novel_id(&host, id).err(), Some(MISSING_ID));
    assert_eq!(decode_listing(&host, id).err(), Some(MISSING_ID));
}

#[test]
fn reviews_return_array_of_created_reviews() {
    let mut host = HostTable::new();
    let id = text(&mut host, "n1");
    let obj = object(&mut host, vec![("id", id)]);
    let mut probe = Probe::default();
    let h = get_novel_reviews(&mut probe, &mut host, obj);
    assert_eq!(h, 2);
    assert_eq!(array_of(&host, h), vec![3, 4]);
    match host.get(4) {
        Some(HostValue::Review(r)) => assert_eq!(r.username, "bob"),
        _ => panic!("no review record"),
    }
    assert_eq!(get_novel_reviews(&mut probe, &mut host, id), MISSING_ID);
    assert_eq!(probe.calls, vec!["reviews n1"]);
}

#[test]
fn chapter_list_and_listing_dispatch() {
    let mut host = HostTable::new();
    let id = text(&mut host, "n1");
    let name = text(&mut host, "Latest");
    let novel_obj = object(&mut host, vec![("id", id)]);
    let listing_obj = object(&mut host, vec![("name", name)]);
    let mut probe = Probe { novels: vec![novel("a", "A"), novel("b", "B")], ..Probe::default() };
    let h = get_chapter_list(&mut probe, &mut host, novel_obj, 3);
    assert_eq!(h, 6);
    assert_eq!(array_of(&host, 4), vec![5]);
    let h = get_novel_listing(&mut probe, &mut host, listing_obj, 2);
    assert_eq!(h, 10);
    assert_eq!(array_of(&host, 7), vec![8, 9]);
    assert_eq!(get_novel_listing(&mut probe, &mut host, novel_obj, 2), MISSING_ID);
    assert_eq!(get_chapter_list(&mut probe, &mut host, listing_obj, 2), MISSING_ID);
    assert_eq!(probe.calls, vec!["chapters n1 3", "listing Latest 2"]);
    let h = get_novel_list(&mut probe, &mut host, 1);
    match host.get(h) {
        Some(HostValue::NovelPage(p)) => assert!(p.has_more),
        _ => panic!("no page record"),
    }
}

#[test]
fn side_effect_entry_points_invoke_plugin() {
    let mut host = HostTable::new();
    let s = text(&mut host, "update");
    let i = host.store(HostValue::Int(1));
    let mut probe = Probe::default();
    initialize(&mut probe);
    modify_image_request(&mut probe, 12);
    handle_notification(&mut probe, &host, s);
    handle_notification(&mut probe, &host, i);
    handle_notification(&mut probe, &host, NO_HANDLE);
    assert_eq!(probe.calls, vec!["initialize", "image 12 false", "notify update"]);
}
