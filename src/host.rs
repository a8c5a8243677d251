use vstd::prelude::*;

verus! {

/// Number of handles the host can hand out: handles are the non-negative `i32`s.
pub const MAX_HANDLES: usize = 2147483647;

/// The handle that refers to nothing: the host returns it when it has no room
/// left, and field lookups return it for a missing key. Every downcast of it fails.
pub const NO_HANDLE: i32 = -1;

/// What the host's novel constructor receives.
pub struct NovelRecord {
    pub id: String,
    pub cover: String,
    pub title: String,
    pub author: String,
    pub artist: String,
    pub description: String,
    pub url: String,
    pub categories: Vec<String>,
    pub status: i32,
    pub nsfw: i32,
    pub viewer: i32,
}

/// What the host's review constructor receives; `rating` is an `f32` bit pattern.
pub struct ReviewRecord {
    pub username: String,
    pub cover: String,
    pub content: String,
    pub rating: u32,
    pub date_string: String,
}

/// What the host's chapter constructor receives; `volume` and `chapter` are
/// `f32` bit patterns, `date_updated` an `f64` bit pattern.
pub struct ChapterRecord {
    pub id: String,
    pub title: String,
    pub volume: u32,
    pub chapter: u32,
    pub date_updated: u64,
    pub scanlator: String,
    pub url: String,
    pub lang: String,
}

/// What the host's chapter-content constructor receives.
pub struct ParagraphRecord {
    pub index: i32,
    pub paragraph: String,
}

/// What a page-result constructor receives: the handle of the array of
/// created elements, and whether another page follows.
#[derive(PartialEq, Eq, Structural, Clone, Copy, Debug)]
pub struct PageRecord {
    pub items: i32,
    pub has_more: bool,
}

/// A value owned by the host. The first eight variants are the dynamic kinds
/// that plugins read; the others are records built by the host constructors.
pub enum HostValue {
    Text(String),
    Int(i64),
    /// An `f64` bit pattern.
    Float(u64),
    Bool(bool),
    /// The handles of the elements, in order.
    Array(Vec<i32>),
    /// Keys with the handles of their values.
    Object(Vec<(String, i32)>),
    Node,
    Null,
    Novel(NovelRecord),
    NovelPage(PageRecord),
    Review(ReviewRecord),
    Chapter(ChapterRecord),
    ChapterPage(PageRecord),
    Paragraph(ParagraphRecord),
}

/// The elements of an array value; empty for any other value.
pub open spec fn array_items(v: HostValue) -> Seq<i32> {
    match v {
        HostValue::Array(items) => items@,
        _ => Seq::empty(),
    }
}

/// The value behind a handle, if the handle refers to one.
pub open spec fn value_at(host: Seq<HostValue>, h: int) -> Option<HostValue> {
    if 0 <= h < host.len() {
        Some(host[h])
    } else {
        None
    }
}

/// `h` refers to an array.
pub open spec fn is_array_at(host: Seq<HostValue>, h: int) -> bool {
    value_at(host, h) matches Some(HostValue::Array(_))
}

/// The outcome of asking the host to store `v`: with room left, `v` is appended
/// and its handle is the old length; without, nothing changes and the handle is
/// `NO_HANDLE`.
pub open spec fn allocated(before: Seq<HostValue>, after: Seq<HostValue>, v: HostValue, h: i32) -> bool {
    if before.len() < MAX_HANDLES {
        h == before.len() && after == before.push(v)
    } else {
        h == NO_HANDLE && after == before
    }
}

/// The host can store `k` more values.
pub open spec fn has_room(host: Seq<HostValue>, k: int) -> bool {
    host.len() + k <= MAX_HANDLES
}

/// `after` keeps every value of `before` and only adds values after them.
pub open spec fn extends(before: Seq<HostValue>, after: Seq<HostValue>) -> bool {
    before.len() <= after.len() && after.subrange(0, before.len() as int) == before
}

/// The host's table of values, indexed by handle.
pub struct HostTable {
    values: Vec<HostValue>,
}

impl View for HostTable {
    type V = Seq<HostValue>;

    closed spec fn view(&self) -> Seq<HostValue> {
        self.values@
    }
}

impl HostTable {
    /// A table that holds no value yet.
    pub fn new() -> (r: HostTable)
        ensures
            r@ == Seq::<HostValue>::empty(),
    {
        HostTable { values: Vec::new() }
    }

    /// Number of values stored.
    pub fn len(&self) -> (r: usize)
        ensures
            r == self@.len(),
    {
        self.values.len()
    }

    /// Stores `v` and returns its handle, or `NO_HANDLE` when the table is full.
    pub fn store(&mut self, v: HostValue) -> (h: i32)
        ensures
            allocated(old(self)@, final(self)@, v, h),
    {
        if self.values.len() < MAX_HANDLES {
            let h = self.values.len() as i32;
            self.values.push(v);
            h
        } else {
            NO_HANDLE
        }
    }

    /// The value behind `h`, if `h` refers to one.
    pub fn get(&self, h: i32) -> (r: Option<&HostValue>)
        ensures
            r matches Some(v) ==> value_at(self@, h as int) == Some(*v),
            r is None ==> value_at(self@, h as int) is None,
    {
        if 0 <= h && (h as usize) < self.values.len() {
            Some(&self.values[h as usize])
        } else {
            None
        }
    }

    /// Appends `item` to the array behind `arr`; does nothing where `arr`
    /// refers to no array.
    pub fn push_item(&mut self, arr: i32, item: i32)
        ensures
            final(self)@.len() == old(self)@.len(),
            forall|j: int| 0 <= j < old(self)@.len() && j != arr ==> final(self)@[j] == old(self)@[j],
            is_array_at(old(self)@, arr as int) ==> is_array_at(final(self)@, arr as int)
                && array_items(final(self)@[arr as int]) == array_items(old(self)@[arr as int]).push(item),
            !is_array_at(old(self)@, arr as int) ==> final(self)@ == old(self)@,
    {
        if 0 <= arr && (arr as usize) < self.values.len() {
            let i = arr as usize;
            if let HostValue::Array(_) = &self.values[i] {
                let slot = self.values.remove(i);
                if let HostValue::Array(mut items) = slot {
                    items.push(item);
                    self.values.insert(i, HostValue::Array(items));
                }
                assert(self.values@ =~= old(self)@.update(arr as int, self.values@[arr as int]));
            }
        }
    }
}

} // verus!
