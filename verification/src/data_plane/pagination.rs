//! Paging through shortcuts: pagination requests, continuation tokens and pages.
use vstd::prelude::*;
use base64::Engine;

use crate::data_plane::error::{error_view, DataPlaneError, DataPlaneResult, ErrorKind};
use crate::data_plane::model::{
    CommittedAlias, CommittedDestination, CommittedShortcut, CommittedShortcutList,
};

verus! {

/// A request for a page: either a continuation token from a previous page, or a page size
/// to start from the first page.
#[derive(Debug, Clone, PartialEq, Eq)]
pub struct PaginationRequest {
    pub continuation_token: Option<String>,
    pub page_size: Option<i32>,
}

/// How to continue after a page: the token of the next page, if any.
#[derive(Debug, Clone, PartialEq, Eq)]
pub struct PaginationContinuation {
    pub next_continuation_token: Option<String>,
}

/// A page of shortcuts and how to continue after it.
#[derive(Debug, Clone, PartialEq, Eq)]
pub struct ListShortcutsResponse {
    /// The list of shortcuts.
    pub shortcuts: CommittedShortcutList,
    /// The pagination continuation structure.
    pub pagination: PaginationContinuation,
}

/// Where a page starts: its size and the number of shortcuts before it.
#[derive(Debug, Clone, Copy, PartialEq, Eq)]
pub struct ContinuationToken {
    pub page_size: u32,
    pub offset: u32,
}

/// The character of a 6-bit value in the URL-safe Base64 alphabet.
pub open spec fn base64_url_char(v: int) -> char {
    if v < 26 {
        (65 + v) as char
    } else if v < 52 {
        (97 + v - 26) as char
    } else if v < 62 {
        (48 + v - 52) as char
    } else if v == 62 {
        '-'
    } else {
        '_'
    }
}

/// URL-safe Base64 without padding: every 3 bytes become 4 characters, and a final
/// 1 or 2 bytes become 2 or 3 characters.
pub open spec fn base64_url_encode(bytes: Seq<u8>) -> Seq<char>
    decreases bytes.len(),
{
    if bytes.len() == 0 {
        Seq::empty()
    } else if bytes.len() == 1 {
        seq![base64_url_char((bytes[0] as int) / 4), base64_url_char(((bytes[0] as int) % 4) * 16)]
    } else if bytes.len() == 2 {
        seq![
            base64_url_char((bytes[0] as int) / 4),
            base64_url_char(((bytes[0] as int) % 4) * 16 + (bytes[1] as int) / 16),
            base64_url_char(((bytes[1] as int) % 16) * 4),
        ]
    } else {
        seq![
            base64_url_char((bytes[0] as int) / 4),
            base64_url_char(((bytes[0] as int) % 4) * 16 + (bytes[1] as int) / 16),
            base64_url_char(((bytes[1] as int) % 16) * 4 + (bytes[2] as int) / 64),
            base64_url_char((bytes[2] as int) % 64),
        ] + base64_url_encode(bytes.skip(3))
    }
}

/// The message `base64` gives for a text it cannot decode.
pub uninterp spec fn base64_decode_error_text(text: Seq<char>) -> Seq<char>;

/// Calls `Engine::encode` of `base64::engine::general_purpose::URL_SAFE_NO_PAD`.
///
/// Claimed: the text is the URL-safe Base64 encoding of the bytes, without padding.
#[verifier::external_body]
fn base64_encode(bytes: &[u8]) -> (text: String)
    ensures
        text@ == base64_url_encode(bytes@),
{
    base64::engine::general_purpose::URL_SAFE_NO_PAD.encode(bytes)
}

/// Calls `Engine::decode` of `base64::engine::general_purpose::URL_SAFE_NO_PAD`.
///
/// Claimed: decoding succeeds on exactly the texts that are the encoding of some bytes
/// (the engine requires no padding and canonical trailing bits), and gives those bytes;
/// the error message is a function of the text.
#[verifier::external_body]
fn base64_decode(text: &str) -> (bytes: Result<Vec<u8>, String>)
    ensures
        bytes is Ok <==> exists|b: Seq<u8>| base64_url_encode(b) == text@,
        bytes matches Ok(v) ==> base64_url_encode(v@) == text@,
        bytes matches Err(m) ==> m@ == base64_decode_error_text(text@),
{
    base64::engine::general_purpose::URL_SAFE_NO_PAD.decode(text).map_err(|err| err.to_string())
}

/// Where a page starts, as a request for it gives it: either the serialized token to
/// decode, or a fresh token for the first page.
#[derive(Debug, Clone, PartialEq, Eq)]
pub enum TokenSource {
    /// The serialized (JSON) form of a token that a previous page handed out.
    Encoded(Vec<u8>),
    /// A token for the first page.
    Fresh(ContinuationToken),
}

impl ContinuationToken {
    pub fn new(page_size: u32, offset: Option<u32>) -> (token: Self)
        ensures
            token.page_size == page_size,
            token.offset == match offset {
                Some(o) => o,
                None => 0,
            },
    {
        ContinuationToken {
            page_size,
            offset: match offset {
                Some(o) => o,
                None => 0,
            },
        }
    }

    /// The text handed out as a continuation token for a token's serialized form.
    pub fn encode_serialized(serialized: &Vec<u8>) -> (text: String)
        ensures
            text@ == base64_url_encode(serialized@),
    {
        base64_encode(serialized.as_slice())
    }

    /// The serialized form of the token that a continuation token's text stands for.
    pub fn decode_text(text: &str) -> (serialized: DataPlaneResult<Vec<u8>>)
        ensures
            serialized is Ok <==> exists|b: Seq<u8>| base64_url_encode(b) == text@,
            serialized matches Ok(v) ==> base64_url_encode(v@) == text@,
            serialized matches Err(e) ==> error_view(e) == (
                ErrorKind::Base64Decode,
                base64_decode_error_text(text@),
            ),
    {
        match base64_decode(text) {
            Ok(bytes) => Ok(bytes),
            Err(message) => Err(DataPlaneError::Base64Decode { message }),
        }
    }

    /// Where the page that a pagination request asks for starts.
    ///
    /// A continuation token is decoded; without one, a page size starts at the first
    /// page; without either the request is invalid.
    pub fn try_from_pagination_request(pagination_request: &PaginationRequest) -> (source:
        DataPlaneResult<TokenSource>)
        ensures
            pagination_request.continuation_token matches Some(t) ==> match source {
                Ok(TokenSource::Encoded(v)) => base64_url_encode(v@) == t@,
                Ok(TokenSource::Fresh(_)) => false,
                Err(e) => error_view(e) == (ErrorKind::Base64Decode, base64_decode_error_text(t@))
                    && !exists|b: Seq<u8>| base64_url_encode(b) == t@,
            },
            pagination_request.continuation_token is None && pagination_request.page_size is Some
                ==> source == Ok::<TokenSource, DataPlaneError>(
                TokenSource::Fresh(
                    ContinuationToken {
                        page_size: pagination_request.page_size->0 as u32,
                        offset: 0,
                    },
                ),
            ),
            pagination_request.continuation_token is None && pagination_request.page_size is None
                ==> (source matches Err(e) && error_view(e) == (
                ErrorKind::InvalidArgument,
                "Must supply either page_size or continuation_token"@,
            )),
    {
        match &pagination_request.continuation_token {
            Some(token) => match Self::decode_text(token.as_str()) {
                Ok(serialized) => Ok(TokenSource::Encoded(serialized)),
                Err(e) => Err(e),
            },
            None => match pagination_request.page_size {
                Some(page_size) => Ok(TokenSource::Fresh(Self::new(page_size as u32, None))),
                None => Err(
                    DataPlaneError::InvalidArgument {
                        message: "Must supply either page_size or continuation_token".to_owned(),
                    },
                ),
            },
        }
    }
}

/// The error a listing reports for a continuation token that could not be read: a token
/// that is not Base64, or does not deserialize, is not one the server issued, so it is an
/// invalid argument; other errors stay as they are.
pub open spec fn listing_token_error(err: DataPlaneError) -> (ErrorKind, Seq<char>) {
    match err {
        DataPlaneError::SerdeJson { .. } => (ErrorKind::InvalidArgument, "Invalid continuation token"@),
        DataPlaneError::Base64Decode { .. } => (ErrorKind::InvalidArgument, "Invalid continuation token"@),
        _ => error_view(err),
    }
}

pub fn listing_token_error_of(err: DataPlaneError) -> (mapped: DataPlaneError)
    ensures
        error_view(mapped) == listing_token_error(err),
{
    match err {
        DataPlaneError::SerdeJson { .. } => DataPlaneError::InvalidArgument {
            message: "Invalid continuation token".to_owned(),
        },
        DataPlaneError::Base64Decode { .. } => DataPlaneError::InvalidArgument {
            message: "Invalid continuation token".to_owned(),
        },
        other => other,
    }
}

/// The aliases of the destination with this UID, in their order.
pub open spec fn aliases_for(aliases: Seq<CommittedAlias>, uid: Seq<char>) -> Seq<CommittedAlias>
    decreases aliases.len(),
{
    if aliases.len() == 0 {
        Seq::empty()
    } else {
        let rest = aliases_for(aliases.drop_last(), uid);
        if aliases.last().destination_uid matches Some(u) && u@ == uid {
            rest.push(aliases.last())
        } else {
            rest
        }
    }
}

/// Whether an earlier destination of the page has the same UID as the `i`-th.
pub open spec fn repeats_earlier_uid(destinations: Seq<CommittedDestination>, i: int) -> bool {
    exists|j: int| 0 <= j < i && #[trigger] destinations[j].uid@ == destinations[i].uid@
}

/// The aliases that the `i`-th shortcut of a page gets: those of its destination,
/// unless an earlier destination of the page already took them.
pub open spec fn page_aliases(
    destinations: Seq<CommittedDestination>,
    aliases: Seq<CommittedAlias>,
    i: int,
) -> Seq<CommittedAlias> {
    if repeats_earlier_uid(destinations, i) {
        Seq::empty()
    } else {
        aliases_for(aliases, destinations[i].uid@)
    }
}

fn clone_alias(alias: &CommittedAlias) -> (copy: CommittedAlias)
    ensures
        copy == *alias,
{
    CommittedAlias {
        destination_uid: alias.destination_uid.clone(),
        uid: alias.uid.clone(),
        name: alias.name.clone(),
    }
}

fn collect_aliases_for(aliases: &Vec<CommittedAlias>, uid: &String) -> (found: Vec<CommittedAlias>)
    ensures
        found@ == aliases_for(aliases@, uid@),
{
    let mut found: Vec<CommittedAlias> = Vec::new();
    let mut i: usize = 0;
    while i < aliases.len()
        invariant
            0 <= i <= aliases.len(),
            found@ == aliases_for(aliases@.take(i as int), uid@),
        decreases aliases.len() - i,
    {
        assert(aliases@.take(i + 1).drop_last() =~= aliases@.take(i as int));
        assert(aliases@.take(i + 1).last() == aliases@[i as int]);
        let matches = match &aliases[i].destination_uid {
            Some(u) => u.eq(uid),
            None => false,
        };
        if matches {
            found.push(clone_alias(&aliases[i]));
        }
        i = i + 1;
    }
    assert(aliases@.take(aliases.len() as int) =~= aliases@);
    found
}

fn uid_seen_before(destinations: &Vec<CommittedDestination>, i: usize) -> (seen: bool)
    requires
        i < destinations.len(),
    ensures
        seen == repeats_earlier_uid(destinations@, i as int),
{
    let mut j: usize = 0;
    while j < i
        invariant
            i < destinations.len(),
            0 <= j <= i,
            forall|k: int| 0 <= k < j ==> #[trigger] destinations@[k].uid@ != destinations@[i as int].uid@,
        decreases i - j,
    {
        if destinations[j].uid.eq(&destinations[i].uid) {
            return true;
        }
        j = j + 1;
    }
    false
}

/// Whether `page` is the page of shortcuts made of `destinations`, in their order,
/// each with the aliases it gets.
pub open spec fn is_page(
    page: Seq<CommittedShortcut>,
    destinations: Seq<CommittedDestination>,
    aliases: Seq<CommittedAlias>,
) -> bool {
    &&& page.len() == destinations.len()
    &&& forall|i: int|
        0 <= i < page.len() ==> (#[trigger] page[i]).destination == destinations[i]
            && page[i].aliases@ == page_aliases(destinations, aliases, i)
}

/// Put a page of shortcuts together: each destination, in order, with the aliases of
/// its destination UID, in their order.
pub fn assemble_page(destinations: Vec<CommittedDestination>, aliases: &Vec<CommittedAlias>) -> (page:
    CommittedShortcutList)
    ensures
        is_page(page.shortcuts@, destinations@, aliases@),
{
    let mut shortcuts: Vec<CommittedShortcut> = Vec::new();
    let mut i: usize = 0;
    while i < destinations.len()
        invariant
            0 <= i <= destinations.len(),
            shortcuts@.len() == i,
            forall|k: int|
                0 <= k < i ==> (#[trigger] shortcuts@[k]).destination == destinations@[k]
                    && shortcuts@[k].aliases@ == page_aliases(destinations@, aliases@, k),
        decreases destinations.len() - i,
    {
        let group = if uid_seen_before(&destinations, i) {
            Vec::new()
        } else {
            collect_aliases_for(aliases, &destinations[i].uid)
        };
        assert(group@ == page_aliases(destinations@, aliases@, i as int));
        let destination = CommittedDestination {
            uid: destinations[i].uid.clone(),
            url: destinations[i].url.clone(),
            num_params: destinations[i].num_params,
            is_fallback: destinations[i].is_fallback,
            is_default_fallback: destinations[i].is_default_fallback,
            description: destinations[i].description.clone(),
        };
        shortcuts.push(CommittedShortcut { destination, aliases: group });
        i = i + 1;
    }
    CommittedShortcutList { shortcuts }
}

/// The token of the page after one that listed `listed` shortcuts: none after an empty
/// page, otherwise a page of the same size that starts after them.
pub fn next_page_token(token: &ContinuationToken, listed: usize) -> (next: Option<ContinuationToken>)
    requires
        token.offset + listed <= u32::MAX,
    ensures
        listed == 0 ==> next is None,
        listed > 0 ==> next == Some(
            ContinuationToken { page_size: token.page_size, offset: (token.offset + listed) as u32 },
        ),
{
    if listed == 0 {
        None
    } else {
        Some(ContinuationToken::new(token.page_size, Some(token.offset + listed as u32)))
    }
}

proof fn lemma_base64_url_char_injective(x: int, y: int)
    requires
        0 <= x < 64,
        0 <= y < 64,
        base64_url_char(x) == base64_url_char(y),
    ensures
        x == y,
{
    assert(base64_url_char(x) as int == base64_url_char(y) as int);
}

proof fn lemma_base64_group_injective(a: Seq<u8>, b: Seq<u8>, n: int)
    requires
        1 <= n <= 3,
        a.len() >= n,
        b.len() >= n,
        n >= 1 ==> base64_url_char((a[0] as int) / 4) == base64_url_char((b[0] as int) / 4),
        n == 1 ==> base64_url_char(((a[0] as int) % 4) * 16) == base64_url_char(((b[0] as int) % 4) * 16),
        n >= 2 ==> base64_url_char(((a[0] as int) % 4) * 16 + (a[1] as int) / 16) == base64_url_char(
            ((b[0] as int) % 4) * 16 + (b[1] as int) / 16,
        ),
        n == 2 ==> base64_url_char(((a[1] as int) % 16) * 4) == base64_url_char(((b[1] as int) % 16) * 4),
        n == 3 ==> base64_url_char(((a[1] as int) % 16) * 4 + (a[2] as int) / 64) == base64_url_char(
            ((b[1] as int) % 16) * 4 + (b[2] as int) / 64,
        ),
        n == 3 ==> base64_url_char((a[2] as int) % 64) == base64_url_char((b[2] as int) % 64),
    ensures
        forall|i: int| 0 <= i < n ==> a[i] == b[i],
{
    let a0 = a[0] as int;
    let b0 = b[0] as int;
    lemma_base64_url_char_injective(a0 / 4, b0 / 4);
    if n == 1 {
        lemma_base64_url_char_injective((a0 % 4) * 16, (b0 % 4) * 16);
    } else {
        let a1 = a[1] as int;
        let b1 = b[1] as int;
        lemma_base64_url_char_injective((a0 % 4) * 16 + a1 / 16, (b0 % 4) * 16 + b1 / 16);
        if n == 2 {
            lemma_base64_url_char_injective((a1 % 16) * 4, (b1 % 16) * 4);
        } else {
            let a2 = a[2] as int;
            let b2 = b[2] as int;
            lemma_base64_url_char_injective((a1 % 16) * 4 + a2 / 64, (b1 % 16) * 4 + b2 / 64);
            lemma_base64_url_char_injective(a2 % 64, b2 % 64);
        }
    }
}

proof fn lemma_base64_url_encode_len(bytes: Seq<u8>)
    ensures
        bytes.len() == 0 ==> base64_url_encode(bytes).len() == 0,
        bytes.len() == 1 ==> base64_url_encode(bytes).len() == 2,
        bytes.len() == 2 ==> base64_url_encode(bytes).len() == 3,
        bytes.len() >= 3 ==> base64_url_encode(bytes).len() >= 4,
{
}

/// Base64 text names its bytes: no two byte strings have the same URL-safe Base64
/// encoding, so a continuation token handed out decodes to the very bytes it was made of.
pub proof fn lemma_base64_url_encode_injective(a: Seq<u8>, b: Seq<u8>)
    requires
        base64_url_encode(a) == base64_url_encode(b),
    ensures
        a == b,
    decreases a.len(),
{
    let ea = base64_url_encode(a);
    let eb = base64_url_encode(b);
    lemma_base64_url_encode_len(a);
    lemma_base64_url_encode_len(b);
    if a.len() == 0 {
        assert(b.len() == 0);
        assert(a =~= b);
    } else if a.len() < 3 {
        assert(b.len() == a.len());
        assert(ea[0] == eb[0] && ea[1] == eb[1]);
        if a.len() == 2 {
            assert(ea[2] == eb[2]);
        }
        lemma_base64_group_injective(a, b, a.len() as int);
        assert(a =~= b);
    } else {
        assert(b.len() >= 3);
        assert(ea[0] == eb[0] && ea[1] == eb[1] && ea[2] == eb[2] && ea[3] == eb[3]);
        lemma_base64_group_injective(a, b, 3);
        assert(base64_url_encode(a.skip(3)) =~= ea.skip(4));
        assert(base64_url_encode(b.skip(3)) =~= eb.skip(4));
        lemma_base64_url_encode_injective(a.skip(3), b.skip(3));
        assert forall|i: int| 0 <= i < a.len() implies a[i] == b[i] by {
            if i >= 3 {
                assert(a.skip(3)[i - 3] == b.skip(3)[i - 3]);
            }
        }
        assert(a =~= b);
    }
}

/// Whether an alias belongs to the destination with this UID.
pub open spec fn belongs_to(alias: CommittedAlias, uid: Seq<char>) -> bool {
    alias.destination_uid matches Some(u) && u@ == uid
}

proof fn lemma_aliases_for(aliases: Seq<CommittedAlias>, uid: Seq<char>)
    ensures
        forall|j: int| 0 <= j < aliases_for(aliases, uid).len() ==> belongs_to(#[trigger] aliases_for(aliases, uid)[j], uid),
        forall|k: int| 0 <= k < aliases.len() && belongs_to(#[trigger] aliases[k], uid) ==> aliases_for(aliases, uid).contains(aliases[k]),
    decreases aliases.len(),
{
    if aliases.len() > 0 {
        let rest = aliases.drop_last();
        lemma_aliases_for(rest, uid);
        let found = aliases_for(aliases, uid);
        let found_rest = aliases_for(rest, uid);
        assert forall|k: int| 0 <= k < aliases.len() && belongs_to(#[trigger] aliases[k], uid) implies found.contains(aliases[k]) by {
            if k < aliases.len() - 1 {
                assert(rest[k] == aliases[k]);
                let j = choose|j: int| 0 <= j < found_rest.len() && found_rest[j] == rest[k];
                if belongs_to(aliases.last(), uid) {
                    assert(found[j] == found_rest[j]);
                } else {
                    assert(found[j] == found_rest[j]);
                }
            } else {
                assert(found[found.len() - 1] == aliases[k]);
            }
        }
    }
}

/// A page groups aliases by destination: each shortcut of a page holds only aliases of
/// its own destination, and, unless its destination was listed earlier on the page,
/// every alias of its destination.
pub proof fn lemma_page_groups_aliases(
    page: Seq<CommittedShortcut>,
    destinations: Seq<CommittedDestination>,
    aliases: Seq<CommittedAlias>,
)
    requires
        is_page(page, destinations, aliases),
    ensures
        forall|i: int, j: int|
            0 <= i < page.len() && 0 <= j < page[i].aliases@.len() ==> belongs_to(
                #[trigger] page[i].aliases@[j],
                page[i].destination.uid@,
            ),
        forall|i: int, k: int|
            0 <= i < page.len() && !repeats_earlier_uid(destinations, i) && 0 <= k < aliases.len()
                && belongs_to(#[trigger] aliases[k], page[i].destination.uid@) ==> #[trigger] page[i].aliases@.contains(
                aliases[k],
            ),
{
    assert forall|i: int, j: int|
        0 <= i < page.len() && 0 <= j < page[i].aliases@.len() implies belongs_to(
            #[trigger] page[i].aliases@[j],
            page[i].destination.uid@,
        ) by {
        lemma_aliases_for(aliases, destinations[i].uid@);
    }
    assert forall|i: int, k: int|
        0 <= i < page.len() && !repeats_earlier_uid(destinations, i) && 0 <= k < aliases.len()
            && belongs_to(#[trigger] aliases[k], page[i].destination.uid@) implies #[trigger] page[i].aliases@.contains(
            aliases[k],
        ) by {
        lemma_aliases_for(aliases, destinations[i].uid@);
    }
}

/// The page that `LIMIT page_size OFFSET offset` selects from rows in a fixed order.
pub open spec fn query_page<T>(rows: Seq<T>, page_size: nat, offset: nat) -> Seq<T> {
    let start = if offset < rows.len() { offset as int } else { rows.len() as int };
    let end = if offset + page_size < rows.len() { (offset + page_size) as int } else { rows.len() as int };
    rows.subrange(start, end)
}

/// The offset of the page after one that started at `offset` and listed `listed` rows, as
/// `next_page_token` gives it.
pub open spec fn following_offset(offset: nat, listed: nat) -> nat {
    offset + listed
}

/// What listing from `offset` on gives, page after page, until a page comes back empty.
pub open spec fn listed_from<T>(rows: Seq<T>, page_size: nat, offset: nat) -> Seq<T>
    decreases rows.len() - offset,
{
    let page = query_page(rows, page_size, offset);
    if page.len() == 0 || offset >= rows.len() {
        Seq::empty()
    } else {
        page + listed_from(rows, page_size, following_offset(offset, page.len()))
    }
}

/// How many requests listing from `offset` on makes, the last one coming back empty.
pub open spec fn listing_requests<T>(rows: Seq<T>, page_size: nat, offset: nat) -> nat
    decreases rows.len() - offset,
{
    let page = query_page(rows, page_size, offset);
    if page.len() == 0 || offset >= rows.len() {
        1
    } else {
        1 + listing_requests(rows, page_size, following_offset(offset, page.len()))
    }
}

#[verifier::spinoff_prover]
proof fn lemma_listing_from<T>(rows: Seq<T>, page_size: nat, offset: nat)
    requires
        page_size > 0,
        offset <= rows.len(),
    ensures
        listed_from(rows, page_size, offset) == rows.skip(offset as int),
        (listing_requests(rows, page_size, offset) - 1) * page_size >= rows.len() - offset,
        listing_requests(rows, page_size, offset) == 1 || (listing_requests(rows, page_size, offset) - 2) * page_size
            < rows.len() - offset,
    decreases rows.len() - offset,
{
    let page = query_page(rows, page_size, offset);
    let x = rows.len() - offset;
    if offset == rows.len() {
        assert(rows.skip(offset as int) =~= Seq::<T>::empty());
    } else {
        let m = page.len();
        assert(m > 0);
        assert(m <= page_size && m <= x);
        lemma_listing_from(rows, page_size, (offset + m) as nat);
        assert(rows.skip(offset as int) =~= page + rows.skip((offset + m) as int));
        let c = listing_requests(rows, page_size, (offset + m) as nat);
        let r = listing_requests(rows, page_size, offset);
        let p = page_size as int;
        assert(r == 1 + c);
        assert((c - 1) * p >= x - m);
        assert(c * p == (c - 1) * p + p) by (nonlinear_arith);
        assert((r - 1) * p >= x);
        if c == 1 {
            assert((r - 2) * p == 0) by (nonlinear_arith)
                requires
                    r == 2,
            ;
        } else {
            assert((c - 2) * p < x - m);
            assert((c - 1) * p == (c - 2) * p + p) by (nonlinear_arith);
            if m < p {
                assert(m == x);
                assert((c - 2) * p < 0);
                assert(c < 2) by (nonlinear_arith)
                    requires
                        (c - 2) * p < 0,
                        p > 0,
                ;
            }
            assert((r - 2) * p < x);
        }
    }
}

/// Listing pages through every shortcut exactly once: with a page size above zero,
/// following the continuation tokens from the first page lists every row, once and in
/// order, and takes `k + 1` requests, where `k` is the number of rows divided by the page
/// size, rounded up (the last request comes back empty).
pub proof fn lemma_listing_is_complete<T>(rows: Seq<T>, page_size: nat)
    requires
        page_size > 0,
    ensures
        listed_from(rows, page_size, 0) == rows,
        (listing_requests(rows, page_size, 0) - 1) * page_size >= rows.len(),
        listing_requests(rows, page_size, 0) == 1 || (listing_requests(rows, page_size, 0) - 2) * page_size
            < rows.len(),
{
    lemma_listing_from(rows, page_size, 0);
    assert(rows.skip(0) =~= rows);
}

} // verus!
