//! Directory listings and their pages.
//!
//! The engine lists a directory whole. The protocol reads it in pages: each
//! read names a cookie, the index of the first entry it has not seen, and
//! takes as many entries as its buffer holds. Nothing is kept between reads.
use vstd::prelude::*;
use crate::attr::{kind_of_object, object_to_kind, FileKind};
use crate::error::{
    protocol_error_of,
    to_protocol_error,
    EngineError,
    ErrorCode,
    Failure,
    Fatal,
    ProtocolError,
};

verus! {

/// An entry of a directory, as the engine lists it.
#[derive(Clone, Debug, PartialEq, Eq)]
pub struct DirectoryEntry {
    pub name: String,
    pub inum: u64,
    /// The entry's type tag.
    pub typ: u8,
}

/// An entry of a directory, as a page hands it to the protocol.
#[derive(Clone, Debug, PartialEq, Eq)]
pub struct PageEntry {
    pub inum: u64,
    /// The cookie to read on from after this entry.
    pub cookie: i64,
    pub kind: FileKind,
    pub name: String,
}

/// A run of consecutive entries of a listing.
#[derive(Clone, Debug, PartialEq, Eq)]
pub struct DirectoryPage {
    pub entries: Vec<PageEntry>,
    /// The index of the first entry after the page.
    pub next_cookie: i64,
    /// Whether the listing holds nothing after the page.
    pub done: bool,
}

/// A listing begins with the entry of the directory itself and the entry of
/// its parent.
pub open spec fn well_begun(entries: Seq<DirectoryEntry>) -> bool {
    entries.len() >= 2 && entries[0].name@ == "."@ && entries[1].name@ == ".."@
}

/// How many entries a page takes from a listing of `len` entries, read from
/// `cookie` into a buffer that holds `capacity` entries.
pub open spec fn page_len(len: nat, cookie: nat, capacity: nat) -> nat {
    if cookie >= len {
        0
    } else if len - cookie <= capacity {
        (len - cookie) as nat
    } else {
        capacity
    }
}

/// The cookie after such a page.
pub open spec fn page_end(len: nat, cookie: nat, capacity: nat) -> nat {
    cookie + page_len(len, cookie, capacity)
}

/// A page entry presents the listing's entry at `index`.
pub open spec fn presents(p: PageEntry, e: DirectoryEntry, index: int) -> bool {
    p.inum == e.inum && p.cookie == index + 1 && kind_of_object(e.typ) == Some(p.kind) && p.name@
        == e.name@
}

/// `page` is the page of `entries` read from `cookie` with room for `capacity` entries.
pub open spec fn is_page_of(
    page: DirectoryPage,
    entries: Seq<DirectoryEntry>,
    cookie: nat,
    capacity: nat,
) -> bool {
    &&& page.entries@.len() == page_len(entries.len(), cookie, capacity)
    &&& forall|i: int|
        0 <= i < page.entries@.len() ==> presents(
            #[trigger] page.entries@[i],
            entries[cookie + i],
            cookie + i,
        )
    &&& page.next_cookie == page_end(entries.len(), cookie, capacity)
    &&& page.done == (page_end(entries.len(), cookie, capacity) >= entries.len())
}

/// Some entry the page would take has a type tag that names no file type.
pub open spec fn page_has_unknown_type(
    entries: Seq<DirectoryEntry>,
    cookie: nat,
    capacity: nat,
) -> bool {
    exists|i: int|
        cookie <= i < page_end(entries.len(), cookie, capacity) && kind_of_object(
            (#[trigger] entries[i]).typ,
        ) is None
}

/// Whether an inode can be listed: it must resolve, and be a directory.
/// `inode` is `None` where the engine does not resolve it, and else says
/// whether it is a directory.
pub fn directory_check(inode: Option<bool>) -> (r: Result<(), ProtocolError>)
    ensures
        r == match inode {
            None => Err::<(), ProtocolError>(ProtocolError::Code(ErrorCode::NotFound)),
            Some(false) => Err::<(), ProtocolError>(ProtocolError::Code(ErrorCode::NotDirectory)),
            Some(true) => Ok::<(), ProtocolError>(()),
        },
{
    match inode {
        None => Err(ProtocolError::Code(ErrorCode::NotFound)),
        Some(false) => Err(ProtocolError::Code(ErrorCode::NotDirectory)),
        Some(true) => Ok(()),
    }
}

/// Takes over what the engine returned for a listing. An engine error becomes
/// the reply's error. A listing passes only if it begins with "." and "..":
/// one that does not is a breach of the engine's contract and fatal.
pub fn accept_listing(listing: Result<Vec<DirectoryEntry>, EngineError>) -> (r: Result<
    Vec<DirectoryEntry>,
    Failure,
>)
    ensures
        match listing {
            Err(e) => r == Err::<Vec<DirectoryEntry>, Failure>(
                Failure::Reply(protocol_error_of(e)),
            ),
            Ok(v) => if well_begun(v@) {
                r == Ok::<Vec<DirectoryEntry>, Failure>(v)
            } else {
                r == Err::<Vec<DirectoryEntry>, Failure>(Failure::Fatal(Fatal::MalformedListing))
            },
        },
        r matches Ok(v) ==> well_begun(v@),
{
    match listing {
        Err(e) => Err(Failure::Reply(to_protocol_error(e))),
        Ok(v) => {
            if v.len() < 2 {
                return Err(Failure::Fatal(Fatal::MalformedListing));
            }
            let dot = ".".to_owned();
            let dotdot = "..".to_owned();
            if v[0].name == dot && v[1].name == dotdot {
                Ok(v)
            } else {
                Err(Failure::Fatal(Fatal::MalformedListing))
            }
        },
    }
}

/// Cuts a page out of a listing: the entries from index `cookie` on, in
/// order, until the listing ends or `capacity` entries are taken.
///
/// A cookie at or past the end gives an empty page that is done. It is fatal
/// if the listing is too long for its cookies, if the cookie is negative, or
/// if an entry of the page has a type tag that names no file type.
pub fn page(entries: &Vec<DirectoryEntry>, cookie: i64, capacity: usize) -> (r: Result<
    DirectoryPage,
    Fatal,
>)
    ensures
        entries.len() > i64::MAX ==> r == Err::<DirectoryPage, Fatal>(Fatal::OutOfRange),
        entries.len() <= i64::MAX && cookie < 0 ==> r == Err::<DirectoryPage, Fatal>(
            Fatal::NegativeOffset,
        ),
        entries.len() <= i64::MAX && cookie >= 0 ==> match r {
            Ok(p) => is_page_of(p, entries@, cookie as nat, capacity as nat)
                && !page_has_unknown_type(entries@, cookie as nat, capacity as nat),
            Err(f) => f == Fatal::UnknownFileType && page_has_unknown_type(
                entries@,
                cookie as nat,
                capacity as nat,
            ),
        },
{
    let len = entries.len();
    if len as u64 > i64::MAX as u64 {
        return Err(Fatal::OutOfRange);
    }
    if cookie < 0 {
        return Err(Fatal::NegativeOffset);
    }
    let mut out: Vec<PageEntry> = Vec::new();
    if cookie as u64 >= len as u64 {
        return Ok(DirectoryPage { entries: out, next_cookie: cookie, done: true });
    }
    let start: usize = cookie as usize;
    let mut i: usize = start;
    let ghost end = page_end(len as nat, cookie as nat, capacity as nat);
    while i < len && out.len() < capacity
        invariant
            len == entries.len(),
            len <= i64::MAX,
            0 <= cookie < len,
            start == cookie,
            start <= i <= len,
            out@.len() == i - start,
            out@.len() <= capacity,
            end == page_end(len as nat, cookie as nat, capacity as nat),
            i <= end,
            forall|j: int|
                0 <= j < out@.len() ==> presents(#[trigger] out@[j], entries@[start + j], start + j),
        decreases len - i,
    {
        let e = &entries[i];
        let kind = match object_to_kind(e.typ) {
            Ok(k) => k,
            Err(f) => {
                assert(kind_of_object(entries@[i as int].typ) is None);
                return Err(f);
            },
        };
        out.push(PageEntry { inum: e.inum, cookie: (i + 1) as i64, kind, name: e.name.clone() });
        i += 1;
    }
    assert(i == end);
    assert(!page_has_unknown_type(entries@, cookie as nat, capacity as nat)) by {
        assert forall|k: int| cookie <= k < end implies kind_of_object(
            (#[trigger] entries@[k]).typ,
        ) is Some by {
            assert(presents(out@[k - start], entries@[start + (k - start)], start + (k - start)));
        }
    }
    Ok(DirectoryPage { entries: out, next_cookie: i as i64, done: i >= len })
}

/// The directory reply of the kernel channel: a buffer of entries with a
/// size limit in bytes. Nothing of its inside is known here.
#[verifier::external_type_specification]
#[verifier::external_body]
pub struct ExReplyDirectory(fuser::ReplyDirectory);

/// The entries a directory reply holds, in the order they were added: of
/// each its inode number, its cookie, its file type and its name.
pub uninterp spec fn reply_entries(reply: fuser::ReplyDirectory) -> Seq<
    (u64, i64, FileKind, Seq<char>),
>;

/// The size limit in bytes that a directory reply was made with.
pub uninterp spec fn reply_limit(reply: fuser::ReplyDirectory) -> nat;

/// The length of a name in bytes, as the machine counts it.
pub open spec fn byte_len(name: Seq<char>) -> usize {
    vstd::utf8::encode_utf8(name).len() as usize
}

/// The bytes an entry takes in a directory reply: a header of 24 bytes and
/// the name, filled up to a multiple of 8.
pub open spec fn entry_bytes(name: Seq<char>) -> nat {
    (((24 + byte_len(name) + 7) / 8) * 8) as nat
}

/// The bytes that entries take in a directory reply together.
pub open spec fn used_bytes(held: Seq<(u64, i64, FileKind, Seq<char>)>) -> nat
    decreases held.len(),
{
    if held.len() == 0 {
        0
    } else {
        used_bytes(held.drop_last()) + entry_bytes(held.last().3)
    }
}

/// Calls `fuser::ReplyDirectory::add`. The reply has no room for an entry
/// when the bytes it holds and the bytes of the entry together are more than
/// its limit: it then stays as it is and the call returns `true`. Else it
/// takes the entry at its end and the call returns `false`. The limit never
/// changes. The name's length must fit 32 bits: the call panics on a longer
/// one.
#[verifier::external_body]
fn reply_add(
    reply: &mut fuser::ReplyDirectory,
    inum: u64,
    cookie: i64,
    kind: FileKind,
    name: &String,
) -> (full: bool)
    requires
        byte_len(name@) <= u32::MAX,
    ensures
        full == (used_bytes(reply_entries(*old(reply))) + entry_bytes(name@) > reply_limit(
            *old(reply),
        )),
        full ==> reply_entries(*final(reply)) == reply_entries(*old(reply)),
        !full ==> reply_entries(*final(reply)) == reply_entries(*old(reply)).push(
            (inum, cookie, kind, name@),
        ),
        reply_limit(*final(reply)) == reply_limit(*old(reply)),
{
    let kind = match kind {
        FileKind::Directory => fuser::FileType::Directory,
        FileKind::RegularFile => fuser::FileType::RegularFile,
        FileKind::NamedPipe => fuser::FileType::NamedPipe,
        FileKind::CharDevice => fuser::FileType::CharDevice,
        FileKind::BlockDevice => fuser::FileType::BlockDevice,
        FileKind::Symlink => fuser::FileType::Symlink,
        FileKind::Socket => fuser::FileType::Socket,
    };
    reply.add(inum, cookie, kind, name.as_str())
}

/// How far a directory reply was filled.
#[derive(Clone, Copy, Debug, PartialEq, Eq, Structural)]
pub struct Filled {
    /// The index of the first entry that was not added.
    pub next_cookie: i64,
    /// Whether the listing holds nothing after the entries added.
    pub done: bool,
}

/// The entries `from..to` of a listing, as a directory reply holds them.
pub open spec fn buffered(entries: Seq<DirectoryEntry>, from: int, to: int) -> Seq<
    (u64, i64, FileKind, Seq<char>),
> {
    Seq::new(
        (to - from) as nat,
        |i: int|
            (
                entries[from + i].inum,
                (from + i + 1) as i64,
                kind_of_object(entries[from + i].typ)->0,
                entries[from + i].name@,
            ),
    )
}

/// Every entry `from..to` of a listing has a type tag that names a file type.
pub open spec fn types_known(entries: Seq<DirectoryEntry>, from: int, to: int) -> bool {
    forall|j: int| from <= j < to ==> kind_of_object((#[trigger] entries[j]).typ) is Some
}

/// A reply that held `before` and has the limit `limit` holds `after` once
/// it has been filled from index `cookie` of a listing, with the result `f`:
/// the entries from `cookie` up to the cookie returned were added in order,
/// all that was added fits the limit, and where the listing has not ended
/// the entry at the cookie returned does not fit.
pub open spec fn is_fill(
    before: Seq<(u64, i64, FileKind, Seq<char>)>,
    after: Seq<(u64, i64, FileKind, Seq<char>)>,
    limit: nat,
    entries: Seq<DirectoryEntry>,
    cookie: int,
    f: Filled,
) -> bool {
    &&& cookie <= f.next_cookie <= entries.len()
    &&& f.done == (f.next_cookie == entries.len())
    &&& types_known(entries, cookie, f.next_cookie as int)
    &&& after == before + buffered(entries, cookie, f.next_cookie as int)
    &&& f.next_cookie > cookie ==> used_bytes(after) <= limit
    &&& !f.done ==> used_bytes(after) + entry_bytes(entries[f.next_cookie as int].name@) > limit
}

/// Adds the entries of a listing to a directory reply, from index `cookie`
/// on and in order, until the listing ends or the reply has no room for the
/// next entry. Every entry that is added fits the reply's limit, and where
/// the listing has not ended the entry at the cookie returned does not.
///
/// A cookie at or past the end adds nothing. It is fatal if the listing is
/// too long for its cookies or if the cookie is negative; the reply then
/// stays as it is. It is fatal, too, to come to an entry whose type tag names
/// no file type, or whose name is too long for the reply; the entries before
/// it have then been added.
pub fn fill_directory(
    reply: &mut fuser::ReplyDirectory,
    entries: &Vec<DirectoryEntry>,
    cookie: i64,
) -> (r: Result<Filled, Fatal>)
    ensures
        entries.len() > i64::MAX ==> r == Err::<Filled, Fatal>(Fatal::OutOfRange) && *final(reply)
            == *old(reply),
        entries.len() <= i64::MAX && cookie < 0 ==> r == Err::<Filled, Fatal>(
            Fatal::NegativeOffset,
        ) && *final(reply) == *old(reply),
        entries.len() <= i64::MAX && cookie >= entries.len() ==> r == Ok::<Filled, Fatal>(
            Filled { next_cookie: cookie, done: true },
        ) && *final(reply) == *old(reply),
        reply_limit(*final(reply)) == reply_limit(*old(reply)),
        entries.len() <= i64::MAX && 0 <= cookie < entries.len() ==> match r {
            Ok(f) => is_fill(
                reply_entries(*old(reply)),
                reply_entries(*final(reply)),
                reply_limit(*final(reply)),
                entries@,
                cookie as int,
                f,
            ),
            Err(f) => exists|k: int|
                {
                    &&& cookie <= k < entries.len()
                    &&& types_known(entries@, cookie as int, k)
                    &&& #[trigger] reply_entries(*final(reply)) == reply_entries(*old(reply))
                        + buffered(entries@, cookie as int, k)
                    &&& if kind_of_object(entries@[k].typ) is None {
                        f == Fatal::UnknownFileType
                    } else {
                        f == Fatal::OutOfRange && byte_len(entries@[k].name@) > u32::MAX
                    }
                },
        },
{
    let len = entries.len();
    if len as u64 > i64::MAX as u64 {
        return Err(Fatal::OutOfRange);
    }
    if cookie < 0 {
        return Err(Fatal::NegativeOffset);
    }
    if cookie as u64 >= len as u64 {
        return Ok(Filled { next_cookie: cookie, done: true });
    }
    let ghost before = reply_entries(*reply);
    let mut i: usize = cookie as usize;
    assert(buffered(entries@, cookie as int, cookie as int) == Seq::<
        (u64, i64, FileKind, Seq<char>),
    >::empty());
    while i < len
        invariant
            len == entries.len(),
            len <= i64::MAX,
            0 <= cookie < len,
            cookie <= i <= len,
            before == reply_entries(*old(reply)),
            reply_limit(*reply) == reply_limit(*old(reply)),
            i > cookie ==> used_bytes(reply_entries(*reply)) <= reply_limit(*reply),
            types_known(entries@, cookie as int, i as int),
            reply_entries(*reply) == before + buffered(entries@, cookie as int, i as int),
        decreases len - i,
    {
        let e = &entries[i];
        let kind = match object_to_kind(e.typ) {
            Ok(k) => k,
            Err(f) => {
                return Err(f);
            },
        };
        if e.name.as_str().len() as u64 > u32::MAX as u64 {
            return Err(Fatal::OutOfRange);
        }
        let full = reply_add(reply, e.inum, (i + 1) as i64, kind, &e.name);
        if full {
            return Ok(Filled { next_cookie: i as i64, done: false });
        }
        assert(buffered(entries@, cookie as int, i + 1) == buffered(
            entries@,
            cookie as int,
            i as int,
        ).push((e.inum, (i + 1) as i64, kind, e.name@)));
        assert(reply_entries(*reply).drop_last() == before + buffered(
            entries@,
            cookie as int,
            i as int,
        ));
        i += 1;
    }
    Ok(Filled { next_cookie: i as i64, done: true })
}

/// The bytes of two runs of entries are the bytes of the one and of the other.
pub proof fn used_bytes_of_runs(
    a: Seq<(u64, i64, FileKind, Seq<char>)>,
    b: Seq<(u64, i64, FileKind, Seq<char>)>,
)
    ensures
        used_bytes(a + b) == used_bytes(a) + used_bytes(b),
    decreases b.len(),
{
    if b.len() == 0 {
        assert(a + b == a);
    } else {
        assert((a + b).drop_last() == a + b.drop_last());
        used_bytes_of_runs(a, b.drop_last());
    }
}

/// A fill adds entries while the reply has room: if the entries from
/// `cookie` up to `k` fit the reply's limit together with what it held, all
/// of them are added. So a reply with room for two entries takes "." and
/// ".." from the start of a listing, and a reply with room for the whole
/// listing takes all of it and is done.
pub proof fn fill_takes_what_fits(
    before: Seq<(u64, i64, FileKind, Seq<char>)>,
    after: Seq<(u64, i64, FileKind, Seq<char>)>,
    limit: nat,
    entries: Seq<DirectoryEntry>,
    cookie: int,
    f: Filled,
    k: int,
)
    requires
        is_fill(before, after, limit, entries, cookie, f),
        0 <= cookie <= k <= entries.len(),
        used_bytes(before) + used_bytes(buffered(entries, cookie, k)) <= limit,
    ensures
        f.next_cookie >= k,
        k == entries.len() ==> f.done,
{
    let next = f.next_cookie as int;
    if next < k {
        let head = buffered(entries, cookie, next);
        let upto = buffered(entries, cookie, next + 1);
        let rest = buffered(entries, next + 1, k);
        assert(buffered(entries, cookie, k) == upto + rest);
        assert(upto.drop_last() == head);
        assert(upto.last().3 == entries[next].name@);
        used_bytes_of_runs(upto, rest);
        used_bytes_of_runs(before, head);
    }
}

/// What a fill adds to the reply is a page of the listing: the page read from
/// `cookie` with room for as many entries as the fill added. Entry for entry
/// the reply holds what that page holds, and the page ends at the cookie the
/// fill returned.
pub proof fn filled_is_page(
    entries: Seq<DirectoryEntry>,
    cookie: int,
    next_cookie: int,
    page: DirectoryPage,
)
    requires
        0 <= cookie <= next_cookie <= entries.len() <= i64::MAX,
        is_page_of(page, entries, cookie as nat, (next_cookie - cookie) as nat),
    ensures
        page_end(entries.len(), cookie as nat, (next_cookie - cookie) as nat) == next_cookie,
        page.next_cookie == next_cookie,
        page.done == (next_cookie == entries.len()),
        page.entries@.len() == buffered(entries, cookie, next_cookie).len(),
        forall|i: int|
            0 <= i < next_cookie - cookie ==> #[trigger] buffered(entries, cookie, next_cookie)[i]
                == (
                page.entries@[i].inum,
                page.entries@[i].cookie,
                page.entries@[i].kind,
                page.entries@[i].name@,
            ),
{
    assert forall|i: int| 0 <= i < next_cookie - cookie implies #[trigger] buffered(
        entries,
        cookie,
        next_cookie,
    )[i] == (
        page.entries@[i].inum,
        page.entries@[i].cookie,
        page.entries@[i].kind,
        page.entries@[i].name@,
    ) by {
        assert(presents(page.entries@[i], entries[cookie + i], cookie + i));
    }
}

/// The cookie reached by reading a listing of `len` entries from its start,
/// one page after the other, with the given buffer capacities.
pub open spec fn cookie_after(len: nat, capacities: Seq<nat>) -> nat
    decreases capacities.len(),
{
    if capacities.len() == 0 {
        0
    } else {
        page_end(len, cookie_after(len, capacities.drop_last()), capacities.last())
    }
}

/// The entries handed out by those reads, in the order of the reads.
pub open spec fn paged<A>(entries: Seq<A>, capacities: Seq<nat>) -> Seq<A>
    decreases capacities.len(),
{
    if capacities.len() == 0 {
        Seq::empty()
    } else {
        let before = capacities.drop_last();
        let cookie = cookie_after(entries.len(), before);
        paged(entries, before) + entries.subrange(
            cookie as int,
            page_end(entries.len(), cookie, capacities.last()) as int,
        )
    }
}

/// Reading page after page, each from the cookie the last one returned and
/// the first from 0, hands out a prefix of the listing: every entry before
/// the cookie reached, once and in order, whatever the buffers hold.
pub proof fn pages_form_prefix<A>(entries: Seq<A>, capacities: Seq<nat>)
    ensures
        cookie_after(entries.len(), capacities) <= entries.len(),
        paged(entries, capacities) == entries.subrange(
            0,
            cookie_after(entries.len(), capacities) as int,
        ),
    decreases capacities.len(),
{
    if capacities.len() > 0 {
        pages_form_prefix(entries, capacities.drop_last());
    }
}

/// Where every read takes at least one entry, as many reads as the listing
/// has entries hand out the whole listing, once and in order, and the read
/// after them is empty and done.
pub proof fn pages_cover_listing<A>(entries: Seq<A>, capacities: Seq<nat>, capacity: nat)
    requires
        capacities.len() >= entries.len(),
        forall|i: int| 0 <= i < capacities.len() ==> capacities[i] >= 1,
    ensures
        cookie_after(entries.len(), capacities) == entries.len(),
        paged(entries, capacities) == entries,
        page_len(entries.len(), entries.len(), capacity) == 0,
        page_end(entries.len(), entries.len(), capacity) >= entries.len(),
{
    pages_advance(entries.len(), capacities);
    pages_form_prefix(entries, capacities);
    assert(entries.subrange(0, entries.len() as int) == entries);
}

/// A read that takes at least one entry moves the cookie on until the end:
/// after `n` such reads the cookie is `n`, or the listing's end if that is less.
proof fn pages_advance(len: nat, capacities: Seq<nat>)
    requires
        forall|i: int| 0 <= i < capacities.len() ==> capacities[i] >= 1,
    ensures
        cookie_after(len, capacities) <= len,
        cookie_after(len, capacities) >= len || cookie_after(len, capacities) >= capacities.len(),
    decreases capacities.len(),
{
    if capacities.len() > 0 {
        pages_advance(len, capacities.drop_last());
    }
}

} // verus!
