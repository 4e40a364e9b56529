//! The object store: cutting an upload into parts, reading a listing page by
//! page, and naming what went wrong.

use vstd::prelude::*;
use crate::number::{int_text, push_nat};
use crate::text::same;

verus! {

#[verifier::external_type_specification]
#[verifier::external_body]
pub struct ExBytesMut(bytes::BytesMut);

#[verifier::external_type_specification]
#[verifier::external_body]
pub struct ExBytes(bytes::Bytes);

/// The bytes that a growing buffer holds.
pub uninterp spec fn buffer_bytes(b: bytes::BytesMut) -> Seq<u8>;

/// The bytes that a frozen buffer holds.
pub uninterp spec fn frozen_bytes(b: bytes::Bytes) -> Seq<u8>;

/// `bytes::BytesMut::with_capacity`: a buffer that holds nothing yet.
#[verifier::external_body]
fn new_buffer(capacity: usize) -> (r: bytes::BytesMut)
    requires
        capacity <= isize::MAX,
    ensures
        buffer_bytes(r).len() == 0,
{
    bytes::BytesMut::with_capacity(capacity)
}

/// `bytes::BytesMut::len`: how many bytes the buffer holds.
#[verifier::external_body]
fn buffer_len(b: &bytes::BytesMut) -> (r: usize)
    ensures
        r == buffer_bytes(*b).len(),
{
    b.len()
}

/// `bytes::BytesMut::is_empty`: whether the buffer holds nothing.
#[verifier::external_body]
fn buffer_is_empty(b: &bytes::BytesMut) -> (r: bool)
    ensures
        r == (buffer_bytes(*b).len() == 0),
{
    b.is_empty()
}

/// `bytes::BytesMut::extend_from_slice`: the buffer with `more` after what it
/// held. What no allocation can hold is left out.
#[verifier::external_body]
fn buffer_extend(b: &mut bytes::BytesMut, more: &[u8])
    requires
        buffer_bytes(*old(b)).len() + more@.len() <= isize::MAX,
    ensures
        buffer_bytes(*final(b)) == buffer_bytes(*old(b)) + more@,
{
    b.extend_from_slice(more);
}

/// `bytes::BytesMut::split_to`: takes the first `at` bytes off the buffer.
#[verifier::external_body]
fn buffer_split_to(b: &mut bytes::BytesMut, at: usize) -> (r: bytes::BytesMut)
    requires
        at <= buffer_bytes(*old(b)).len(),
    ensures
        buffer_bytes(r) == buffer_bytes(*old(b)).take(at as int),
        buffer_bytes(*final(b)) == buffer_bytes(*old(b)).skip(at as int),
{
    b.split_to(at)
}

/// `bytes::BytesMut::freeze`: the same bytes, no longer to be changed.
#[verifier::external_body]
fn buffer_freeze(b: bytes::BytesMut) -> (r: bytes::Bytes)
    ensures
        frozen_bytes(r) == buffer_bytes(b),
{
    b.freeze()
}

/// The size at which a part is sent off. The store asks for at least 5 MiB in
/// every part but the last; this is also what an upload keeps in memory.
pub const PART_SIZE: usize = 0x80_0000;

/// What can go wrong with the object store.
#[derive(Debug, PartialEq, Eq)]
pub enum StorageError {
    TooLarge { limit: u64 },
    Upstream,
    NotFound,
    InvalidRange,
    S3(String),
}

impl StorageError {
    /// The error in words.
    pub open spec fn message_view(self) -> Seq<char> {
        match self {
            StorageError::TooLarge { limit } => "upload exceeds the maximum allowed size of "@
                + int_text(limit as int) + " bytes"@,
            StorageError::Upstream => "error reading the upload stream"@,
            StorageError::NotFound => "object not found"@,
            StorageError::InvalidRange => "invalid Range header"@,
            StorageError::S3(detail) => "S3 error: "@ + detail@,
        }
    }

    /// The error in words.
    pub fn message(&self) -> (r: String)
        ensures
            r@ == self.message_view(),
    {
        match self {
            StorageError::TooLarge { limit } => {
                let mut out: String = "upload exceeds the maximum allowed size of ".to_owned();
                push_nat(&mut out, *limit as u128);
                out.append(" bytes");
                out
            },
            StorageError::Upstream => "error reading the upload stream".to_owned(),
            StorageError::NotFound => "object not found".to_owned(),
            StorageError::InvalidRange => "invalid Range header".to_owned(),
            StorageError::S3(detail) => {
                let mut out: String = "S3 error: ".to_owned();
                out.append(detail.as_str());
                out
            },
        }
    }
}

/// A failed call of the store: which operation, and what the store said.
pub fn s3_error(operation: &str, detail: &str) -> (r: StorageError)
    ensures
        r matches StorageError::S3(t) && t@ == operation@ + ": "@ + detail@,
{
    let mut out: String = operation.to_owned();
    out.append(": ");
    out.append(detail);
    StorageError::S3(out)
}

/// A failed upload of the part with the given number.
pub fn part_error(part_number: i32, detail: &str) -> (r: StorageError)
    ensures
        r matches StorageError::S3(t) && t@ == "upload_part "@ + int_text(part_number as int)
            + ": "@ + detail@,
{
    let mut operation: String = "upload_part ".to_owned();
    operation.append(crate::number::decimal(part_number as i64).as_str());
    s3_error(operation.as_str(), detail)
}

/// Whether `r` is what [`get_error`] owes its caller.
pub open spec fn get_error_outcome(
    r: StorageError,
    no_such_key: bool,
    code: Option<&str>,
    detail: &str,
) -> bool {
    &&& no_such_key ==> r == StorageError::NotFound
    &&& !no_such_key && code is Some && code->0@ == "InvalidRange"@ ==> r
        == StorageError::InvalidRange
    &&& !no_such_key && !(code is Some && code->0@ == "InvalidRange"@) ==> (r matches
        StorageError::S3(t) && t@ == "get_object"@ + ": "@ + detail@)
}

/// A failed download: the object does not exist, the range cannot be met, or
/// the store failed in some other way. The store reports an unmet range only
/// by its error code.
pub fn get_error(no_such_key: bool, code: Option<&str>, detail: &str) -> (r: StorageError)
    ensures
        get_error_outcome(r, no_such_key, code, detail),
{
    if no_such_key {
        return StorageError::NotFound;
    }
    if let Some(code) = code {
        if same(code, "InvalidRange") {
            return StorageError::InvalidRange;
        }
    }
    s3_error("get_object", detail)
}

/// A failed look at an object's metadata.
pub fn head_error(not_found: bool, detail: &str) -> (r: StorageError)
    ensures
        not_found ==> r == StorageError::NotFound,
        !not_found ==> (r matches StorageError::S3(t) && t@ == "head_object"@ + ": "@ + detail@),
{
    if not_found {
        StorageError::NotFound
    } else {
        s3_error("head_object", detail)
    }
}

/// All the bytes of the parts, one part after the other.
pub open spec fn concat(parts: Seq<Seq<u8>>) -> Seq<u8>
    decreases parts.len(),
{
    if parts.len() == 0 {
        Seq::empty()
    } else {
        concat(parts.drop_last()) + parts.last()
    }
}

/// An upload on its way to the store. Chunks come in as they are received;
/// parts go out as soon as they are full.
pub struct Upload {
    buf: bytes::BytesMut,
    part_count: i32,
    total: u64,
    max_bytes: u64,
    parts: Ghost<Seq<Seq<u8>>>,
    received: Ghost<Seq<u8>>,
}

impl Upload {
    /// The parts that have gone out.
    pub closed spec fn parts(self) -> Seq<Seq<u8>> {
        self.parts@
    }

    /// The bytes that have come in.
    pub closed spec fn received(self) -> Seq<u8> {
        self.received@
    }

    /// The bytes that have come in and not gone out.
    pub closed spec fn pending(self) -> Seq<u8> {
        buffer_bytes(self.buf)
    }

    /// The most bytes that the upload may have.
    pub closed spec fn limit(self) -> u64 {
        self.max_bytes
    }

    /// No byte is lost, added or reordered; every part that has gone out is
    /// full; the limit is kept.
    pub closed spec fn wf(self) -> bool {
        &&& concat(self.parts@) + buffer_bytes(self.buf) == self.received@
        &&& forall|i: int|
            0 <= i < self.parts@.len() ==> (#[trigger] self.parts@[i]).len() == PART_SIZE
        &&& concat(self.parts@).len() == self.parts@.len() * PART_SIZE
        &&& self.part_count == self.parts@.len()
        &&& self.total == self.received@.len()
        &&& self.total <= self.max_bytes
        &&& self.max_bytes <= 0x7fff_fffd * PART_SIZE
    }

    /// What the invariant says of the bytes.
    pub proof fn bytes_are_accounted_for(self)
        requires
            self.wf(),
        ensures
            concat(self.parts()) + self.pending() == self.received(),
            forall|i: int|
                0 <= i < self.parts().len() ==> (#[trigger] self.parts()[i]).len() == PART_SIZE,
            self.received().len() <= self.limit(),
    {
    }

    /// An upload of at most `max_bytes` bytes, with nothing received. The
    /// number of parts must fit the store's part numbers.
    pub fn new(max_bytes: u64) -> (r: Upload)
        requires
            max_bytes <= 0x7fff_fffd * PART_SIZE,
        ensures
            r.wf(),
            r.limit() == max_bytes,
            r.received() == Seq::<u8>::empty(),
            r.parts() == Seq::<Seq<u8>>::empty(),
            r.pending() == Seq::<u8>::empty(),
    {
        let r: Upload = Upload {
            buf: new_buffer(PART_SIZE),
            part_count: 0,
            total: 0,
            max_bytes,
            parts: Ghost(Seq::empty()),
            received: Ghost(Seq::empty()),
        };
        assert(r.wf());
        r
    }

    /// How many bytes have come in.
    pub fn total(&self) -> (r: u64)
        requires
            self.wf(),
        ensures
            r == self.received().len(),
    {
        self.total
    }

    /// Takes in a chunk, or refuses it where the upload would then be larger
    /// than allowed.
    pub fn receive(&mut self, chunk: &[u8]) -> (r: Result<(), StorageError>)
        requires
            old(self).wf(),
            old(self).pending().len() < PART_SIZE,
            chunk@.len() + PART_SIZE <= isize::MAX,
        ensures
            final(self).wf(),
            final(self).limit() == old(self).limit(),
            final(self).parts() == old(self).parts(),
            r is Ok <==> old(self).received().len() + chunk@.len() <= old(self).limit(),
            match r {
                Ok(()) => final(self).received() == old(self).received() + chunk@
                    && final(self).pending() == old(self).pending() + chunk@,
                Err(e) => e == (StorageError::TooLarge { limit: old(self).limit() })
                    && *final(self) == *old(self),
            },
    {
        let len: u64 = chunk.len() as u64;
        if len > self.max_bytes - self.total {
            return Err(StorageError::TooLarge { limit: self.max_bytes });
        }
        buffer_extend(&mut self.buf, chunk);
        self.total = self.total + len;
        self.received = Ghost(self.received@ + chunk@);
        assert(concat(self.parts@) + buffer_bytes(self.buf) =~= self.received@);
        Ok(())
    }

    /// The next full part with its number, while a full part is waiting.
    pub fn next_part(&mut self) -> (r: Option<(i32, bytes::Bytes)>)
        requires
            old(self).wf(),
        ensures
            final(self).wf(),
            final(self).limit() == old(self).limit(),
            final(self).received() == old(self).received(),
            r is Some <==> old(self).pending().len() >= PART_SIZE,
            match r {
                Some((number, part)) => {
                    &&& number == old(self).parts().len() + 1
                    &&& frozen_bytes(part) == old(self).pending().take(PART_SIZE as int)
                    &&& final(self).parts() == old(self).parts().push(frozen_bytes(part))
                    &&& final(self).pending() == old(self).pending().skip(PART_SIZE as int)
                },
                None => *final(self) == *old(self),
            },
    {
        if buffer_len(&self.buf) < PART_SIZE {
            return None;
        }
        let ghost before = *self;
        proof {
            let c = concat(self.parts@);
            let b = buffer_bytes(self.buf);
            assert((c + b).len() == c.len() + b.len());
            assert(self.parts@.len() < 0x7fff_fffd) by (nonlinear_arith)
                requires
                    c.len() == self.parts@.len() * 0x80_0000,
                    c.len() + 0x80_0000 <= 0x7fff_fffd * 0x80_0000,
            ;
        }
        let part: bytes::Bytes = buffer_freeze(buffer_split_to(&mut self.buf, PART_SIZE));
        self.part_count = self.part_count + 1;
        self.parts = Ghost(self.parts@.push(frozen_bytes(part)));
        proof {
            assert(self.parts@.drop_last() =~= before.parts@);
            let b = buffer_bytes(before.buf);
            assert(b == b.take(PART_SIZE as int) + b.skip(PART_SIZE as int));
            assert(concat(self.parts@) + buffer_bytes(self.buf) =~= self.received@);
        }
        Some((self.part_count, part))
    }

    /// Ends the upload: what is left goes out as a last part. The store takes
    /// no upload without parts, so an empty body still gives one.
    pub fn finish(self) -> (r: Option<(i32, bytes::Bytes)>)
        requires
            self.wf(),
            self.pending().len() < PART_SIZE,
        ensures
            r is Some <==> self.pending().len() > 0 || self.parts().len() == 0,
            match r {
                Some((number, part)) => {
                    &&& number == self.parts().len() + 1
                    &&& frozen_bytes(part) == self.pending()
                    &&& frozen_bytes(part).len() < PART_SIZE
                    &&& concat(self.parts().push(frozen_bytes(part))) == self.received()
                },
                None => concat(self.parts()) == self.received(),
            },
    {
        proof {
            let c = concat(self.parts@);
            let b = buffer_bytes(self.buf);
            assert((c + b).len() == c.len() + b.len());
            assert(self.parts@.len() <= 0x7fff_fffd) by (nonlinear_arith)
                requires
                    c.len() == self.parts@.len() * 0x80_0000,
                    c.len() <= 0x7fff_fffd * 0x80_0000,
            ;
            assert(self.parts@.push(b).drop_last() =~= self.parts@);
            if b.len() == 0 {
                assert(c + b == c);
            }
        }
        if !buffer_is_empty(&self.buf) || self.part_count == 0 {
            Some((self.part_count + 1, buffer_freeze(self.buf)))
        } else {
            None
        }
    }
}

/// A point in time at or after 1970: whole seconds and what is left in
/// nanoseconds.
#[derive(Clone, Copy, Debug, PartialEq, Eq, Structural)]
pub struct Timestamp {
    pub secs: u64,
    pub nanos: u32,
}

/// Metadata of a stored object.
#[derive(Clone, Copy, Debug, PartialEq, Eq, Structural)]
pub struct ObjectHead {
    pub size: u64,
    pub modified: Option<Timestamp>,
}

/// An object in a listing.
#[derive(Debug)]
pub struct ListedObject {
    /// The whole key.
    pub key: String,
    pub size: u64,
    pub modified: Option<Timestamp>,
}

/// One level of a listing: the objects, and the directories below.
#[derive(Debug)]
pub struct DirListing {
    pub objects: Vec<ListedObject>,
    /// Each ends in `/`.
    pub dirs: Vec<String>,
}

/// A size that the store reported; none, or one below zero, counts as zero.
pub open spec fn reported_size(size: Option<i64>) -> u64 {
    match size {
        Some(n) => if n > 0 {
            n as u64
        } else {
            0
        },
        None => 0,
    }
}

/// A time that the store reported, in seconds and nanoseconds since 1970; one
/// before that counts as none.
pub open spec fn reported_time(time: Option<(i64, u32)>) -> Option<Timestamp> {
    match time {
        Some((secs, nanos)) => if secs >= 0 {
            Some(Timestamp { secs: secs as u64, nanos })
        } else {
            None
        },
        None => None,
    }
}

fn size_of(size: Option<i64>) -> (r: u64)
    ensures
        r == reported_size(size),
{
    match size {
        Some(n) => {
            if n > 0 {
                n as u64
            } else {
                0
            }
        },
        None => 0,
    }
}

fn time_of(time: Option<(i64, u32)>) -> (r: Option<Timestamp>)
    ensures
        r == reported_time(time),
{
    match time {
        Some((secs, nanos)) => {
            if secs >= 0 {
                Some(Timestamp { secs: secs as u64, nanos })
            } else {
                None
            }
        },
        None => None,
    }
}

/// Whether `h` is the metadata that the store reported.
pub open spec fn is_head_of(h: ObjectHead, size: Option<i64>, modified: Option<(i64, u32)>) -> bool {
    h == (ObjectHead { size: reported_size(size), modified: reported_time(modified) })
}

/// An object has the size and the time that the store reports, as far as those
/// make sense.
pub proof fn an_object_has_what_the_store_reports(
    h: ObjectHead,
    size: Option<i64>,
    modified: Option<(i64, u32)>,
)
    requires
        is_head_of(h, size, modified),
    ensures
        forall|n: i64| n >= 0 && size == Some(n) ==> h.size == n,
        size is None || size->0 < 0 ==> h.size == 0,
        forall|secs: i64, nanos: u32|
            secs >= 0 && modified == Some((secs, nanos)) ==> (h.modified matches Some(t) && t.secs
                == secs && t.nanos == nanos),
        forall|secs: i64, nanos: u32|
            secs < 0 && modified == Some((secs, nanos)) ==> h.modified is None,
        modified is None ==> h.modified is None,
{
}

/// The metadata that the store reported of an object.
pub fn object_head(size: Option<i64>, modified: Option<(i64, u32)>) -> (r: ObjectHead)
    ensures
        is_head_of(r, size, modified),
{
    ObjectHead { size: size_of(size), modified: time_of(modified) }
}

/// An object as a listing page reports it.
pub struct PageEntry {
    pub key: Option<String>,
    pub size: Option<i64>,
    pub modified: Option<(i64, u32)>,
}

/// One page of a listing as the store reports it.
pub struct ListingPage {
    pub prefixes: Vec<Option<String>>,
    pub contents: Vec<PageEntry>,
    pub truncated: Option<bool>,
    pub next_token: Option<String>,
}

/// The directories among the prefixes of a page.
pub open spec fn listed_dirs(prefixes: Seq<Option<String>>) -> Seq<String>
    decreases prefixes.len(),
{
    if prefixes.len() == 0 {
        Seq::empty()
    } else {
        let init = listed_dirs(prefixes.drop_last());
        match prefixes.last() {
            Some(p) => init.push(p),
            None => init,
        }
    }
}

/// The objects among the entries of a page. The entry whose key is the listed
/// prefix itself only marks the directory.
pub open spec fn listed_objects(entries: Seq<PageEntry>, prefix: Seq<char>) -> Seq<ListedObject>
    decreases entries.len(),
{
    if entries.len() == 0 {
        Seq::empty()
    } else {
        let init = listed_objects(entries.drop_last(), prefix);
        let e = entries.last();
        match e.key {
            Some(key) => if key@ == prefix {
                init
            } else {
                init.push(
                    ListedObject {
                        key,
                        size: reported_size(e.size),
                        modified: reported_time(e.modified),
                    },
                )
            },
            None => init,
        }
    }
}

/// Going through the pages of a listing leaves nothing out: the directories and
/// the objects of one page and then of the next are those of both together.
pub proof fn listings_add_up(
    one_dirs: Seq<Option<String>>,
    next_dirs: Seq<Option<String>>,
    one: Seq<PageEntry>,
    next: Seq<PageEntry>,
    prefix: Seq<char>,
)
    ensures
        listed_dirs(one_dirs + next_dirs) == listed_dirs(one_dirs) + listed_dirs(next_dirs),
        listed_objects(one + next, prefix) == listed_objects(one, prefix) + listed_objects(
            next,
            prefix,
        ),
{
    lemma_dirs_add_up(one_dirs, next_dirs);
    lemma_objects_add_up(one, next, prefix);
}

proof fn lemma_dirs_add_up(one: Seq<Option<String>>, next: Seq<Option<String>>)
    ensures
        listed_dirs(one + next) == listed_dirs(one) + listed_dirs(next),
    decreases next.len(),
{
    if next.len() == 0 {
        assert(one + next == one);
        assert(listed_dirs(one) + Seq::<String>::empty() == listed_dirs(one));
    } else {
        assert((one + next).drop_last() == one + next.drop_last());
        assert((one + next).last() == next.last());
        lemma_dirs_add_up(one, next.drop_last());
        assert(listed_dirs(one + next) == listed_dirs(one) + listed_dirs(next));
    }
}

proof fn lemma_objects_add_up(one: Seq<PageEntry>, next: Seq<PageEntry>, prefix: Seq<char>)
    ensures
        listed_objects(one + next, prefix) == listed_objects(one, prefix) + listed_objects(
            next,
            prefix,
        ),
    decreases next.len(),
{
    if next.len() == 0 {
        assert(one + next == one);
        assert(listed_objects(one, prefix) + Seq::<ListedObject>::empty() == listed_objects(
            one,
            prefix,
        ));
    } else {
        assert((one + next).drop_last() == one + next.drop_last());
        assert((one + next).last() == next.last());
        lemma_objects_add_up(one, next.drop_last(), prefix);
        assert(listed_objects(one + next, prefix) == listed_objects(one, prefix)
            + listed_objects(next, prefix));
    }
}

/// Whether a listing shows the entry `e` as the object `o`.
pub open spec fn lists_entry(o: ListedObject, e: PageEntry) -> bool {
    &&& e.key matches Some(key) && key@ == o.key@
    &&& forall|n: i64| n >= 0 && e.size == Some(n) ==> o.size == n
    &&& e.size is None || e.size->0 < 0 ==> o.size == 0
    &&& forall|secs: i64, nanos: u32|
        secs >= 0 && e.modified == Some((secs, nanos)) ==> (o.modified matches Some(t) && t.secs
            == secs && t.nanos == nanos)
    &&& e.modified is None ==> o.modified is None
    &&& forall|secs: i64, nanos: u32|
        secs < 0 && e.modified == Some((secs, nanos)) ==> o.modified is None
}

/// Whether the listing `after` is the listing `before` with a page of `prefix`
/// added to it.
pub open spec fn page_added(
    before: DirListing,
    after: DirListing,
    page: ListingPage,
    prefix: Seq<char>,
) -> bool {
    &&& after.dirs@ == before.dirs@ + listed_dirs(page.prefixes@)
    &&& after.objects@ == before.objects@ + listed_objects(page.contents@, prefix)
}

/// Whether `r` is the token to ask for the page after `page` with.
pub open spec fn goes_on_from(r: Option<String>, page: ListingPage) -> bool {
    r == (if page.truncated == Some(true) {
        page.next_token
    } else {
        None
    })
}

/// A listing goes on exactly where the store says that there is more, from the
/// token that the store gave.
pub proof fn a_listing_goes_on_while_there_is_more(r: Option<String>, page: ListingPage)
    requires
        goes_on_from(r, page),
    ensures
        r is Some <==> page.truncated == Some(true) && page.next_token is Some,
        r is Some ==> r->0@ == page.next_token->0@,
{
}

/// A page adds each object that it reports to the listing, with its key, its
/// size and its time, and adds nothing else; only the mark of the listed
/// directory itself is passed over. `from` says which entry each object that
/// was added comes from.
pub proof fn each_reported_object_is_listed(
    before: DirListing,
    after: DirListing,
    page: ListingPage,
    prefix: Seq<char>,
) -> (from: Seq<int>)
    requires
        page_added(before, after, page, prefix),
    ensures
        after.objects@.len() == before.objects@.len() + from.len(),
        forall|k: int|
            0 <= k < before.objects@.len() ==> #[trigger] after.objects@[k] == before.objects@[k],
        forall|k: int|
            0 <= k < from.len() ==> 0 <= #[trigger] from[k] < page.contents@.len() && lists_entry(
                after.objects@[before.objects@.len() + k],
                page.contents@[from[k]],
            ) && after.objects@[before.objects@.len() + k].key@ != prefix,
        forall|k: int, l: int| 0 <= k < l < from.len() ==> #[trigger] from[k] < #[trigger] from[l],
        forall|j: int|
            0 <= j < page.contents@.len() && ((#[trigger] page.contents@[j]).key matches Some(key)
                && key@ != prefix) ==> from.contains(j),
{
    let from = lemma_listed_objects_from(page.contents@, prefix);
    assert forall|k: int| 0 <= k < from.len() implies 0 <= #[trigger] from[k]
        < page.contents@.len() && lists_entry(
        after.objects@[before.objects@.len() + k],
        page.contents@[from[k]],
    ) && after.objects@[before.objects@.len() + k].key@ != prefix by {
        assert(after.objects@[before.objects@.len() + k] == listed_objects(
            page.contents@,
            prefix,
        )[k]);
    }
    from
}

proof fn lemma_listed_objects_from(entries: Seq<PageEntry>, prefix: Seq<char>) -> (from: Seq<int>)
    ensures
        from.len() == listed_objects(entries, prefix).len(),
        forall|k: int|
            0 <= k < from.len() ==> 0 <= #[trigger] from[k] < entries.len() && lists_entry(
                listed_objects(entries, prefix)[k],
                entries[from[k]],
            ) && listed_objects(entries, prefix)[k].key@ != prefix,
        forall|k: int, l: int| 0 <= k < l < from.len() ==> #[trigger] from[k] < #[trigger] from[l],
        forall|j: int|
            0 <= j < entries.len() && ((#[trigger] entries[j]).key matches Some(key) && key@
                != prefix) ==> from.contains(j),
    decreases entries.len(),
{
    if entries.len() == 0 {
        Seq::empty()
    } else {
        let init = entries.drop_last();
        let before = lemma_listed_objects_from(init, prefix);
        let e = entries.last();
        let from = if e.key matches Some(key) && key@ != prefix {
            before.push(entries.len() - 1)
        } else {
            before
        };
        assert forall|k: int| 0 <= k < from.len() implies 0 <= #[trigger] from[k] < entries.len()
            && lists_entry(listed_objects(entries, prefix)[k], entries[from[k]]) && listed_objects(
            entries,
            prefix,
        )[k].key@ != prefix by {
            if k < before.len() {
                assert(from[k] == before[k]);
                assert(init[before[k]] == entries[before[k]]);
            }
        }
        assert forall|j: int|
            0 <= j < entries.len() && ((#[trigger] entries[j]).key matches Some(key) && key@
                != prefix) implies from.contains(j) by {
            if j < init.len() {
                assert(init[j] == entries[j]);
                let k = choose|k: int| 0 <= k < before.len() && before[k] == j;
                assert(from[k] == j);
            } else {
                assert(from[before.len() as int] == j);
            }
        }
        from
    }
}

/// A page adds each directory that it names to the listing, and no other.
pub proof fn each_reported_directory_is_listed(
    before: DirListing,
    after: DirListing,
    page: ListingPage,
    prefix: Seq<char>,
) -> (from: Seq<int>)
    requires
        page_added(before, after, page, prefix),
    ensures
        after.dirs@.len() == before.dirs@.len() + from.len(),
        forall|k: int|
            0 <= k < before.dirs@.len() ==> #[trigger] after.dirs@[k] == before.dirs@[k],
        forall|k: int|
            0 <= k < from.len() ==> 0 <= #[trigger] from[k] < page.prefixes@.len()
                && page.prefixes@[from[k]] == Some(after.dirs@[before.dirs@.len() + k]),
        forall|k: int, l: int| 0 <= k < l < from.len() ==> #[trigger] from[k] < #[trigger] from[l],
        forall|j: int|
            0 <= j < page.prefixes@.len() && (#[trigger] page.prefixes@[j]) is Some
                ==> from.contains(j),
{
    let from = lemma_listed_dirs_from(page.prefixes@);
    assert forall|k: int| 0 <= k < from.len() implies 0 <= #[trigger] from[k]
        < page.prefixes@.len() && page.prefixes@[from[k]] == Some(
        after.dirs@[before.dirs@.len() + k],
    ) by {
        assert(after.dirs@[before.dirs@.len() + k] == listed_dirs(page.prefixes@)[k]);
    }
    from
}

proof fn lemma_listed_dirs_from(prefixes: Seq<Option<String>>) -> (from: Seq<int>)
    ensures
        from.len() == listed_dirs(prefixes).len(),
        forall|k: int|
            0 <= k < from.len() ==> 0 <= #[trigger] from[k] < prefixes.len() && prefixes[from[k]]
                == Some(listed_dirs(prefixes)[k]),
        forall|k: int, l: int| 0 <= k < l < from.len() ==> #[trigger] from[k] < #[trigger] from[l],
        forall|j: int|
            0 <= j < prefixes.len() && (#[trigger] prefixes[j]) is Some ==> from.contains(j),
    decreases prefixes.len(),
{
    if prefixes.len() == 0 {
        Seq::empty()
    } else {
        let init = prefixes.drop_last();
        let before = lemma_listed_dirs_from(init);
        let from = if prefixes.last() is Some {
            before.push(prefixes.len() - 1)
        } else {
            before
        };
        assert forall|k: int| 0 <= k < from.len() implies 0 <= #[trigger] from[k] < prefixes.len()
            && prefixes[from[k]] == Some(listed_dirs(prefixes)[k]) by {
            if k < before.len() {
                assert(from[k] == before[k]);
                assert(init[before[k]] == prefixes[before[k]]);
            }
        }
        assert forall|j: int| 0 <= j < prefixes.len() && (#[trigger] prefixes[j]) is Some implies
            from.contains(j) by {
            if j < init.len() {
                assert(init[j] == prefixes[j]);
                let k = choose|k: int| 0 <= k < before.len() && before[k] == j;
                assert(from[k] == j);
            } else {
                assert(from[before.len() as int] == j);
            }
        }
        from
    }
}

/// Adds a page to a listing of `prefix`. Gives the token to ask for the next
/// page with, or `None` where this was the last.
pub fn absorb_page(listing: &mut DirListing, prefix: &str, page: &ListingPage) -> (r: Option<
    String,
>)
    ensures
        page_added(*old(listing), *final(listing), *page, prefix@),
        goes_on_from(r, *page),
{
    let mut i: usize = 0;
    assert(page.prefixes@.take(0) == Seq::<Option<String>>::empty());
    while i < page.prefixes.len()
        invariant
            i <= page.prefixes.len(),
            listing.dirs@ == old(listing).dirs@ + listed_dirs(page.prefixes@.take(i as int)),
            listing.objects@ == old(listing).objects@,
        decreases page.prefixes.len() - i,
    {
        assert(page.prefixes@.take(i + 1).drop_last() == page.prefixes@.take(i as int));
        if let Some(p) = &page.prefixes[i] {
            listing.dirs.push(p.clone());
        }
        assert(listing.dirs@ == old(listing).dirs@ + listed_dirs(page.prefixes@.take(i + 1)));
        i = i + 1;
    }
    assert(page.prefixes@.take(page.prefixes@.len() as int) == page.prefixes@);
    let mut j: usize = 0;
    assert(page.contents@.take(0) == Seq::<PageEntry>::empty());
    while j < page.contents.len()
        invariant
            j <= page.contents.len(),
            listing.dirs@ == old(listing).dirs@ + listed_dirs(page.prefixes@),
            listing.objects@ == old(listing).objects@ + listed_objects(
                page.contents@.take(j as int),
                prefix@,
            ),
        decreases page.contents.len() - j,
    {
        assert(page.contents@.take(j + 1).drop_last() == page.contents@.take(j as int));
        let e: &PageEntry = &page.contents[j];
        if let Some(key) = &e.key {
            if !same(key.as_str(), prefix) {
                listing.objects.push(
                    ListedObject {
                        key: key.clone(),
                        size: size_of(e.size),
                        modified: time_of(e.modified),
                    },
                );
            }
        }
        assert(listing.objects@ == old(listing).objects@ + listed_objects(
            page.contents@.take(j + 1),
            prefix@,
        ));
        j = j + 1;
    }
    assert(page.contents@.take(page.contents@.len() as int) == page.contents@);
    if let Some(true) = page.truncated {
        page.next_token.clone()
    } else {
        None
    }
}

/// A version of an object, or the mark of its deletion, as a page reports it.
pub struct VersionEntry {
    pub key: Option<String>,
    pub version: Option<String>,
}

/// One page of the versions below a key as the store reports it.
pub struct VersionPage {
    pub entries: Vec<VersionEntry>,
    pub truncated: Option<bool>,
    pub next_key: Option<String>,
    pub next_version: Option<String>,
}

/// The versions of the object `key` among the entries of a page. Objects whose
/// key only begins like it are passed over.
pub open spec fn versions_of(entries: Seq<VersionEntry>, key: Seq<char>) -> Seq<String>
    decreases entries.len(),
{
    if entries.len() == 0 {
        Seq::empty()
    } else {
        let init = versions_of(entries.drop_last(), key);
        let e = entries.last();
        match (e.key, e.version) {
            (Some(k), Some(v)) => if k@ == key {
                init.push(v)
            } else {
                init
            },
            _ => init,
        }
    }
}

/// Going through the pages leaves no version out: what is found on one page and
/// then on the next is what is found on both together.
pub proof fn versions_add_up(one: Seq<VersionEntry>, next: Seq<VersionEntry>, key: Seq<char>)
    ensures
        versions_of(one + next, key) == versions_of(one, key) + versions_of(next, key),
    decreases next.len(),
{
    if next.len() == 0 {
        assert(one + next == one);
        assert(versions_of(one, key) + Seq::<String>::empty() == versions_of(one, key));
    } else {
        assert((one + next).drop_last() == one + next.drop_last());
        assert((one + next).last() == next.last());
        versions_add_up(one, next.drop_last(), key);
        assert(versions_of(one + next, key) == versions_of(one, key) + versions_of(next, key));
    }
}

/// Whether `after` is `before` with the versions of the object `key` on a page
/// added, and `r` the place to go on from.
pub open spec fn versions_added(
    r: Option<(String, Option<String>)>,
    before: Seq<String>,
    after: Seq<String>,
    page: VersionPage,
    key: Seq<char>,
) -> bool {
    &&& after == before + versions_of(page.entries@, key)
    &&& r == (match page.next_key {
        Some(next) => if page.truncated == Some(true) {
            Some((next, page.next_version))
        } else {
            None
        },
        None => None,
    })
}

/// Every version of an object that a page reports is found, in order, and none
/// of any other object; `from` says which entry each comes from. The search
/// goes on exactly where the store says that there is more.
pub proof fn each_version_of_the_object_is_found(
    r: Option<(String, Option<String>)>,
    before: Seq<String>,
    after: Seq<String>,
    page: VersionPage,
    key: Seq<char>,
) -> (from: Seq<int>)
    requires
        versions_added(r, before, after, page, key),
    ensures
        after.len() == before.len() + from.len(),
        forall|k: int| 0 <= k < before.len() ==> #[trigger] after[k] == before[k],
        forall|k: int|
            0 <= k < from.len() ==> {
                let e = page.entries@[#[trigger] from[k]];
                &&& 0 <= from[k] < page.entries@.len()
                &&& e.key is Some && e.key->0@ == key
                &&& e.version is Some && e.version->0@ == after[before.len() + k]@
            },
        forall|k: int, l: int| 0 <= k < l < from.len() ==> #[trigger] from[k] < #[trigger] from[l],
        forall|j: int|
            0 <= j < page.entries@.len() && (#[trigger] page.entries@[j]).key is Some
                && page.entries@[j].key->0@ == key && page.entries@[j].version is Some
                ==> from.contains(j),
        r is Some <==> page.truncated == Some(true) && page.next_key is Some,
        r matches Some((next, version)) ==> next@ == page.next_key->0@ && version
            == page.next_version,
{
    let from = lemma_versions_from(page.entries@, key);
    assert forall|k: int| 0 <= k < from.len() implies {
        let e = page.entries@[#[trigger] from[k]];
        &&& 0 <= from[k] < page.entries@.len()
        &&& e.key is Some && e.key->0@ == key
        &&& e.version is Some && e.version->0@ == after[before.len() + k]@
    } by {
        assert(after[before.len() + k] == versions_of(page.entries@, key)[k]);
    }
    from
}

proof fn lemma_versions_from(entries: Seq<VersionEntry>, key: Seq<char>) -> (from: Seq<int>)
    ensures
        from.len() == versions_of(entries, key).len(),
        forall|k: int|
            0 <= k < from.len() ==> {
                let e = entries[#[trigger] from[k]];
                &&& 0 <= from[k] < entries.len()
                &&& e.key is Some && e.key->0@ == key
                &&& e.version == Some(versions_of(entries, key)[k])
            },
        forall|k: int, l: int| 0 <= k < l < from.len() ==> #[trigger] from[k] < #[trigger] from[l],
        forall|j: int|
            0 <= j < entries.len() && (#[trigger] entries[j]).key is Some && entries[j].key->0@
                == key && entries[j].version is Some ==> from.contains(j),
    decreases entries.len(),
{
    if entries.len() == 0 {
        Seq::empty()
    } else {
        let init = entries.drop_last();
        let before = lemma_versions_from(init, key);
        let e = entries.last();
        let from = if e.key is Some && e.key->0@ == key && e.version is Some {
            before.push(entries.len() - 1)
        } else {
            before
        };
        assert forall|k: int| 0 <= k < from.len() implies {
            let e = entries[#[trigger] from[k]];
            &&& 0 <= from[k] < entries.len()
            &&& e.key is Some && e.key->0@ == key
            &&& e.version == Some(versions_of(entries, key)[k])
        } by {
            if k < before.len() {
                assert(from[k] == before[k]);
                assert(init[before[k]] == entries[before[k]]);
            }
        }
        assert forall|j: int|
            0 <= j < entries.len() && (#[trigger] entries[j]).key is Some && entries[j].key->0@
                == key && entries[j].version is Some implies from.contains(j) by {
            if j < init.len() {
                assert(init[j] == entries[j]);
                let k = choose|k: int| 0 <= k < before.len() && before[k] == j;
                assert(from[k] == j);
            } else {
                assert(from[before.len() as int] == j);
            }
        }
        from
    }
}

/// Adds a page to the versions of the object `key`. Gives the place to ask for
/// the next page from, or `None` where this was the last.
pub fn absorb_versions(found: &mut Vec<String>, key: &str, page: &VersionPage) -> (r: Option<
    (String, Option<String>),
>)
    ensures
        versions_added(r, old(found)@, final(found)@, *page, key@),
{
    let mut i: usize = 0;
    assert(page.entries@.take(0) == Seq::<VersionEntry>::empty());
    while i < page.entries.len()
        invariant
            i <= page.entries.len(),
            found@ == old(found)@ + versions_of(page.entries@.take(i as int), key@),
        decreases page.entries.len() - i,
    {
        assert(page.entries@.take(i + 1).drop_last() == page.entries@.take(i as int));
        let e: &VersionEntry = &page.entries[i];
        if let Some(k) = &e.key {
            if let Some(v) = &e.version {
                if same(k.as_str(), key) {
                    found.push(v.clone());
                }
            }
        }
        assert(found@ == old(found)@ + versions_of(page.entries@.take(i + 1), key@));
        i = i + 1;
    }
    assert(page.entries@.take(page.entries@.len() as int) == page.entries@);
    match &page.next_key {
        Some(next) => {
            if let Some(true) = page.truncated {
                Some((next.clone(), page.next_version.clone()))
            } else {
                None
            }
        },
        None => None,
    }
}

/// Whether `r` is what [`after_delete`] owes its caller.
pub open spec fn after_delete_outcome(
    r: Result<(), StorageError>,
    so_far: Result<(), StorageError>,
    failed: Option<&str>,
) -> bool {
    match (so_far, failed) {
        (Err(e), _) => r == Err::<(), StorageError>(e),
        (Ok(()), None) => r is Ok,
        (Ok(()), Some(detail)) => r matches Err(StorageError::S3(m)) && m@
            == "delete_object: "@ + detail@,
    }
}

/// How deleting versions one after the other stands after one more, `failed`
/// being what the store said where it refused: the first failure is kept, and
/// is no reason not to try the others.
pub fn after_delete(so_far: Result<(), StorageError>, failed: Option<&str>) -> (r: Result<
    (),
    StorageError,
>)
    ensures
        after_delete_outcome(r, so_far, failed),
{
    match so_far {
        Err(e) => Err(e),
        Ok(()) => match failed {
            None => Ok(()),
            Some(detail) => {
                proof {
                    reveal_strlit("delete_object");
                    reveal_strlit(": ");
                    reveal_strlit("delete_object: ");
                    assert("delete_object"@ + ": "@ =~= "delete_object: "@);
                }
                Err(s3_error("delete_object", detail))
            },
        },
    }
}

/// Deleting goes on after a failure, and the first failure is the one that is
/// reported.
pub proof fn the_first_failure_is_kept(
    r: Result<(), StorageError>,
    so_far: Result<(), StorageError>,
    failed: Option<&str>,
)
    requires
        after_delete_outcome(r, so_far, failed),
    ensures
        so_far is Err ==> r == so_far,
        so_far is Ok ==> (r is Ok <==> failed is None),
        so_far is Ok && failed is Some ==> (r matches Err(StorageError::S3(m)) && m@
            == "delete_object: "@ + failed->0@),
{
}

/// An object that does not exist and a range that cannot be met are told from
/// other failures, of which the store's own words are kept.
pub proof fn a_missing_object_is_told_from_a_failure(
    r: StorageError,
    no_such_key: bool,
    code: Option<&str>,
    detail: &str,
)
    requires
        get_error_outcome(r, no_such_key, code, detail),
    ensures
        r is NotFound <==> no_such_key,
        r is InvalidRange <==> !no_such_key && code is Some && code->0@ == "InvalidRange"@,
        !no_such_key && code is None ==> (r matches StorageError::S3(t)
            && t@ == "get_object"@ + ": "@
            + detail@),
{
}

} // verus!
