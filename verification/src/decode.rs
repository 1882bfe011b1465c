//! The body decoder: turns a raw HTTP payload into a well-typed backend
//! request, or exactly one [`RestApiError`]. The rules run in a fixed
//! order — size ceiling first (so an oversized body is rejected before any
//! decode work), then content type, then structural decode, then semantic
//! validation of the decoded value — and a failure at any rule leaves no
//! partial result.

use vstd::prelude::*;
use vstd::string::StrSliceExecFns;

use crate::envelope;
use crate::envelope::BatchView;
use crate::errors::{RestApiError, RestApiErrorKind};

verus! {

/// Number of hexadecimal characters in a block, batch, or transaction id.
pub const RESOURCE_ID_LEN: usize = 128;

/// Number of hexadecimal characters in a state address.
pub const STATE_ADDRESS_LEN: usize = 70;

/// A decoded, validated request ready to hand to the backend channel.
pub enum BackendRequest {
    SubmitBatches { envelope: Vec<u8> },
    BatchStatuses { batch_ids: Vec<String> },
    TransactionReceipts { transaction_ids: Vec<String> },
}

/// The characters an ASCII byte sequence spells.
pub open spec fn ascii_chars(bytes: Seq<u8>) -> Seq<char> {
    bytes.map_values(|b: u8| b as char)
}

/// Whether a byte is a lowercase hexadecimal digit.
pub open spec fn spec_hex_byte(b: u8) -> bool {
    (0x30 <= b <= 0x39) || (0x61 <= b <= 0x66)
}

/// Whether a byte sequence is a well-formed resource id: exactly
/// [`RESOURCE_ID_LEN`] lowercase hexadecimal characters.
pub open spec fn spec_valid_resource_id(id: Seq<u8>) -> bool {
    id.len() == RESOURCE_ID_LEN && forall|k: int| 0 <= k < id.len() ==> spec_hex_byte(#[trigger] id[k])
}

/// Whether every batch in a decoded envelope carries a well-formed id.
pub open spec fn spec_all_ids_valid(batches: Seq<BatchView>) -> bool {
    forall|i: int| 0 <= i < batches.len() ==> spec_valid_resource_id(#[trigger] batches[i].id)
}

/// Relies on std's `String::from_utf8`: ASCII bytes are valid UTF-8 and
/// decode to the identical sequence of characters.
#[verifier::external_body]
fn string_from_ascii(bytes: &Vec<u8>) -> (text: String)
    requires
        forall|k: int| 0 <= k < bytes@.len() ==> bytes@[k] < 0x80,
    ensures
        text@ == ascii_chars(bytes@),
{
    match String::from_utf8(bytes.clone()) {
        Ok(text) => text,
        Err(_) => String::new(),
    }
}

/// Compares two strings character by character.
fn str_eq(a: &str, b: &str) -> (eq: bool)
    ensures
        eq == (a@ == b@),
{
    let len_a = a.unicode_len();
    let len_b = b.unicode_len();
    if len_a != len_b {
        proof {
            if a@ == b@ {
                assert(a@.len() == b@.len());
            }
        }
        return false;
    }
    let mut i: usize = 0;
    while i < len_a
        invariant
            i <= len_a,
            len_a == a@.len(),
            len_a == b@.len(),
            forall|j: int| 0 <= j < i ==> a@[j] == b@[j],
        decreases len_a - i,
    {
        if a.get_char(i) != b.get_char(i) {
            return false;
        }
        i += 1;
    }
    proof {
        assert(a@ =~= b@);
    }
    true
}

/// Checks that an id is exactly [`RESOURCE_ID_LEN`] lowercase hexadecimal
/// bytes.
pub fn check_resource_id(id: &Vec<u8>) -> (ok: bool)
    ensures
        ok == spec_valid_resource_id(id@),
{
    if id.len() != RESOURCE_ID_LEN {
        return false;
    }
    let mut k: usize = 0;
    while k < id.len()
        invariant
            k <= id@.len(),
            id@.len() == RESOURCE_ID_LEN,
            forall|j: int| 0 <= j < k ==> spec_hex_byte(#[trigger] id@[j]),
        decreases id@.len() - k,
    {
        let b = id[k];
        if !((0x30 <= b && b <= 0x39) || (0x61 <= b && b <= 0x66)) {
            return false;
        }
        k += 1;
    }
    true
}

/// Every id a well-formed envelope yields is ASCII: the grammar refuses id
/// bytes outside the ASCII range.
proof fn lemma_parsed_ids_ascii(s: Seq<u8>, n: int)
    ensures
        match envelope::spec_parse_batches(s, n) {
            Some(parsed) => forall|i: int, k: int|
                0 <= i < parsed.0.len() && 0 <= k < parsed.0[i].id.len() ==> #[trigger] parsed.0[i].id[k]
                    < 0x80,
            None => true,
        },
    decreases n,
{
    if n > 0 {
        match envelope::spec_parse_batch(s) {
            None => {},
            Some(first) => {
                lemma_parsed_ids_ascii(first.1, n - 1);
            },
        }
    }
}

/// Decodes a body posted to the batch submission endpoint. The rules, in
/// order: a body over `max_size` bytes is rejected as too large before any
/// decode work; a content type other than `application/octet-stream` is
/// rejected; a body the envelope grammar refuses is rejected as
/// undecodable; an envelope with no batches is rejected; a batch whose id
/// is not a well-formed resource id is rejected, the first offending id
/// carried as detail. Otherwise the body is accepted and forwarded
/// unchanged as the backend submission.
pub fn submit_batches(content_type: &str, body: Vec<u8>, max_size: usize) -> (decoded: Result<
    BackendRequest,
    RestApiError,
>)
    ensures
        body@.len() > max_size ==> (decoded matches Err(e) && e.kind
            == RestApiErrorKind::SubmissionTooLarge && e.info is None),
        body@.len() <= max_size && content_type@ != "application/octet-stream"@ ==> (decoded
            matches Err(e) && e.kind == RestApiErrorKind::SubmissionWrongContentType
            && e.info is None),
        body@.len() <= max_size && content_type@ == "application/octet-stream"@ ==> match envelope::spec_parse_batch_list(
            body@,
        ) {
            None => decoded matches Err(e) && e.kind == RestApiErrorKind::BadProtobufSubmitted
                && e.info is None,
            Some(batches) => {
                &&& batches.len() == 0 ==> (decoded matches Err(e) && e.kind
                    == RestApiErrorKind::NoBatchesSubmitted && e.info is None)
                &&& batches.len() > 0 && !spec_all_ids_valid(batches) ==> (decoded matches Err(e)
                    && e.kind == RestApiErrorKind::InvalidResourceId && (exists|i: int|
                    {
                        &&& 0 <= i < batches.len()
                        &&& !spec_valid_resource_id(#[trigger] batches[i].id)
                        &&& forall|j: int|
                            0 <= j < i ==> spec_valid_resource_id(#[trigger] batches[j].id)
                        &&& (e.info matches Some(detail) && detail@ == ascii_chars(
                            batches[i].id,
                        ))
                    }))
                &&& batches.len() > 0 && spec_all_ids_valid(batches) ==> (decoded matches Ok(req)
                    && req matches BackendRequest::SubmitBatches { envelope } && envelope@
                    == body@)
            },
        },
{
    if body.len() > max_size {
        return Err(RestApiError { info: None, kind: RestApiErrorKind::SubmissionTooLarge });
    }
    if !str_eq(content_type, "application/octet-stream") {
        return Err(
            RestApiError { info: None, kind: RestApiErrorKind::SubmissionWrongContentType },
        );
    }
    match envelope::parse_batch_list(&body) {
        None => Err(RestApiError { info: None, kind: RestApiErrorKind::BadProtobufSubmitted }),
        Some(batches) => {
            let ghost views = batches@.map_values(|b: envelope::Batch| b@);
            if batches.len() == 0 {
                return Err(
                    RestApiError { info: None, kind: RestApiErrorKind::NoBatchesSubmitted },
                );
            }
            let mut i: usize = 0;
            while i < batches.len()
                invariant
                    i <= batches@.len(),
                    body@.len() <= max_size,
                    content_type@ == "application/octet-stream"@,
                    batches@.len() > 0,
                    views == batches@.map_values(|b: envelope::Batch| b@),
                    envelope::spec_parse_batch_list(body@) == Some(views),
                    forall|j: int|
                        0 <= j < i ==> spec_valid_resource_id(#[trigger] views[j].id),
                decreases batches@.len() - i,
            {
                if !check_resource_id(&batches[i].id) {
                    proof {
                        assert(views[i as int].id == batches@[i as int].id@);
                        if body@.len() >= 4 {
                            lemma_parsed_ids_ascii(
                                body@.skip(4),
                                envelope::spec_be32(body@.subrange(0, 4)),
                            );
                        }
                    }
                    let detail = string_from_ascii(&batches[i].id);
                    return Err(
                        RestApiError {
                            info: Some(detail),
                            kind: RestApiErrorKind::InvalidResourceId,
                        },
                    );
                }
                i += 1;
            }
            Ok(BackendRequest::SubmitBatches { envelope: body })
        },
    }
}

/// The position of the first comma in `s`, if any.
pub open spec fn spec_first_comma(s: Seq<char>) -> Option<int>
    decreases s.len(),
{
    if s.len() == 0 {
        None
    } else if s[0] == ',' {
        Some(0int)
    } else {
        match spec_first_comma(s.drop_first()) {
            None => None,
            Some(j) => Some(j + 1),
        }
    }
}

/// `spec_first_comma` finds exactly the first comma.
proof fn lemma_first_comma(s: Seq<char>)
    ensures
        match spec_first_comma(s) {
            None => forall|j: int| 0 <= j < s.len() ==> s[j] != ',',
            Some(i) => 0 <= i < s.len() && s[i] == ',' && forall|j: int| 0 <= j < i ==> s[j]
                != ',',
        },
    decreases s.len(),
{
    if s.len() > 0 && s[0] != ',' {
        let rest = s.drop_first();
        lemma_first_comma(rest);
        match spec_first_comma(rest) {
            None => {
                assert forall|j: int| 0 <= j < s.len() implies s[j] != ',' by {
                    if j > 0 {
                        assert(rest[j - 1] == s[j]);
                    }
                }
            },
            Some(i) => {
                assert(rest[i] == s[i + 1]);
                assert forall|j: int| 0 <= j < i + 1 implies s[j] != ',' by {
                    if j > 0 {
                        assert(rest[j - 1] == s[j]);
                    }
                }
            },
        }
    }
}

/// The comma-separated pieces of `s`, commas removed, empty pieces kept.
pub open spec fn spec_split_ids(s: Seq<char>) -> Seq<Seq<char>>
    decreases s.len(),
{
    match spec_first_comma(s) {
        None => seq![s],
        Some(i) => if 0 <= i < s.len() {
            seq![s.take(i)] + spec_split_ids(s.skip(i + 1))
        } else {
            seq![s]
        },
    }
}

/// Whether a character is a lowercase hexadecimal digit.
pub open spec fn spec_hex_char(c: char) -> bool {
    ('0' <= c <= '9') || ('a' <= c <= 'f')
}

/// Whether a string is a well-formed resource id: exactly
/// [`RESOURCE_ID_LEN`] lowercase hexadecimal characters.
pub open spec fn spec_valid_id_chars(id: Seq<char>) -> bool {
    id.len() == RESOURCE_ID_LEN && forall|k: int| 0 <= k < id.len() ==> spec_hex_char(
        #[trigger] id[k],
    )
}

/// Whether a string is a well-formed state address: exactly
/// [`STATE_ADDRESS_LEN`] lowercase hexadecimal characters.
pub open spec fn spec_valid_state_address(address: Seq<char>) -> bool {
    address.len() == STATE_ADDRESS_LEN && forall|k: int|
        0 <= k < address.len() ==> spec_hex_char(#[trigger] address[k])
}

/// Whether every piece of a split id list is a well-formed resource id.
pub open spec fn spec_all_parts_valid(parts: Seq<Seq<char>>) -> bool {
    forall|i: int| 0 <= i < parts.len() ==> spec_valid_id_chars(#[trigger] parts[i])
}

/// Checks that a string is exactly [`RESOURCE_ID_LEN`] lowercase
/// hexadecimal characters.
pub fn check_resource_id_str(id: &str) -> (ok: bool)
    ensures
        ok == spec_valid_id_chars(id@),
{
    let len = id.unicode_len();
    if len != RESOURCE_ID_LEN {
        return false;
    }
    let mut k: usize = 0;
    while k < len
        invariant
            k <= len,
            len == id@.len(),
            forall|j: int| 0 <= j < k ==> spec_hex_char(#[trigger] id@[j]),
        decreases len - k,
    {
        let c = id.get_char(k);
        if !(('0' <= c && c <= '9') || ('a' <= c && c <= 'f')) {
            return false;
        }
        k += 1;
    }
    true
}

/// The position of the first comma at or after `start`, or the string's
/// length if there is none.
fn find_comma(query: &str, start: usize) -> (end: usize)
    requires
        start <= query@.len(),
    ensures
        start <= end <= query@.len(),
        forall|j: int| start <= j < end ==> query@[j] != ',',
        end < query@.len() ==> query@[end as int] == ',',
{
    let n = query.unicode_len();
    let mut end: usize = start;
    while end < n
        invariant
            start <= end <= n,
            n == query@.len(),
            forall|j: int| start <= j < end ==> query@[j] != ',',
        decreases n - end,
    {
        if query.get_char(end) == ',' {
            return end;
        }
        end += 1;
    }
    end
}

/// Decodes a comma-separated `id` query parameter. An absent or empty
/// parameter is rejected with `empty_kind`, the endpoint's invalid-id-query
/// kind; otherwise every comma-separated piece must be a well-formed
/// resource id, and the first piece that is not is carried as detail. On
/// success the ids come back in query order.
fn id_list_query(query: &str, empty_kind: RestApiErrorKind) -> (decoded: Result<
    Vec<String>,
    RestApiError,
>)
    ensures
        query@.len() == 0 ==> (decoded matches Err(e) && e.kind == empty_kind && e.info is None),
        query@.len() > 0 ==> ({
            let parts = spec_split_ids(query@);
            match decoded {
                Ok(ids) => ids@.map_values(|id: String| id@) == parts && spec_all_parts_valid(
                    parts,
                ),
                Err(e) => e.kind == RestApiErrorKind::InvalidResourceId && (exists|i: int|
                    {
                        &&& 0 <= i < parts.len()
                        &&& !spec_valid_id_chars(#[trigger] parts[i])
                        &&& forall|j: int| 0 <= j < i ==> spec_valid_id_chars(#[trigger] parts[j])
                        &&& (e.info matches Some(detail) && detail@ == parts[i])
                    }),
            }
        }),
{
    let n = query.unicode_len();
    if n == 0 {
        return Err(RestApiError { info: None, kind: empty_kind });
    }
    let ghost parts = spec_split_ids(query@);
    let mut ids: Vec<String> = Vec::new();
    let mut start: usize = 0;
    proof {
        assert(query@.skip(0) =~= query@);
        assert(ids@.map_values(|id: String| id@) =~= Seq::<Seq<char>>::empty());
        assert(Seq::<Seq<char>>::empty() + spec_split_ids(query@) =~= spec_split_ids(query@));
    }
    loop
        invariant
            start <= n,
            n == query@.len(),
            n > 0,
            parts == spec_split_ids(query@),
            parts =~= ids@.map_values(|id: String| id@) + spec_split_ids(
                query@.skip(start as int),
            ),
            forall|j: int|
                0 <= j < ids@.len() ==> spec_valid_id_chars(#[trigger] parts[j]),
        decreases n - start,
    {
        let ghost front = ids@.map_values(|id: String| id@);
        let ghost remaining = query@.skip(start as int);
        let end = find_comma(query, start);
        proof {
            lemma_first_comma(remaining);
            assert(forall|k: int|
                0 <= k < remaining.len() ==> remaining[k] == query@[start + k]);
            if end < n {
                assert(remaining[end - start] == ',');
                match spec_first_comma(remaining) {
                    None => {
                        assert(remaining[end - start] != ',');
                    },
                    Some(i) => {
                        if i < end - start {
                            assert(query@[start + i] == ',');
                        }
                        if i > end - start {
                            assert(remaining[end - start] != ',');
                        }
                        assert(i == end - start);
                    },
                }
                assert(remaining.take(end - start) =~= query@.subrange(
                    start as int,
                    end as int,
                ));
                assert(remaining.skip(end - start + 1) =~= query@.skip(end + 1));
            } else {
                match spec_first_comma(remaining) {
                    None => {},
                    Some(i) => {
                        assert(query@[start + i] == ',');
                    },
                }
                assert(remaining =~= query@.subrange(start as int, end as int));
            }
        }
        let token = query.substring_char(start, end);
        proof {
            assert(token@ == query@.subrange(start as int, end as int));
            if end < n {
                assert(spec_split_ids(remaining) == seq![query@.subrange(
                    start as int,
                    end as int,
                )] + spec_split_ids(query@.skip(end + 1)));
            } else {
                assert(spec_split_ids(remaining) == seq![query@.subrange(
                    start as int,
                    end as int,
                )]);
            }
            assert(parts[front.len() as int] == token@);
        }
        if !check_resource_id_str(token) {
            let detail = token.to_owned();
            return Err(
                RestApiError { info: Some(detail), kind: RestApiErrorKind::InvalidResourceId },
            );
        }
        let tid = token.to_owned();
        ids.push(tid);
        proof {
            assert(ids@.map_values(|id: String| id@) =~= front.push(token@));
        }
        if end == n {
            proof {
                assert(spec_split_ids(remaining) =~= seq![token@]);
                assert(front + seq![token@] =~= front.push(token@));
                assert(parts =~= ids@.map_values(|id: String| id@));
            }
            return Ok(ids);
        }
        start = end + 1;
        proof {
            assert(front + (seq![token@] + spec_split_ids(query@.skip(start as int)))
                =~= front.push(token@) + spec_split_ids(query@.skip(start as int)));
        }
    }
}

/// Decodes the `id` query parameter of a batch-status request. An absent
/// or empty parameter is an invalid status id query; otherwise every
/// comma-separated piece must be a well-formed resource id, the first
/// offending piece carried as detail.
pub fn batch_status_id_query(query: &str) -> (decoded: Result<BackendRequest, RestApiError>)
    ensures
        query@.len() == 0 ==> (decoded matches Err(e) && e.kind
            == RestApiErrorKind::StatusIdQueryInvalid && e.info is None),
        query@.len() > 0 ==> ({
            let parts = spec_split_ids(query@);
            match decoded {
                Ok(req) => req matches BackendRequest::BatchStatuses { batch_ids }
                    && batch_ids@.map_values(|id: String| id@) == parts && spec_all_parts_valid(
                    parts,
                ),
                Err(e) => e.kind == RestApiErrorKind::InvalidResourceId && (exists|i: int|
                    {
                        &&& 0 <= i < parts.len()
                        &&& !spec_valid_id_chars(#[trigger] parts[i])
                        &&& forall|j: int| 0 <= j < i ==> spec_valid_id_chars(#[trigger] parts[j])
                        &&& (e.info matches Some(detail) && detail@ == parts[i])
                    }),
            }
        }),
{
    match id_list_query(query, RestApiErrorKind::StatusIdQueryInvalid) {
        Ok(batch_ids) => Ok(BackendRequest::BatchStatuses { batch_ids }),
        Err(e) => Err(e),
    }
}

/// Decodes the `id` query parameter of a transaction-receipt request, under
/// the receipt endpoint's invalid-id-query kind.
pub fn receipt_id_query(query: &str) -> (decoded: Result<BackendRequest, RestApiError>)
    ensures
        query@.len() == 0 ==> (decoded matches Err(e) && e.kind
            == RestApiErrorKind::ReceiptIdQueryInvalid && e.info is None),
        query@.len() > 0 ==> ({
            let parts = spec_split_ids(query@);
            match decoded {
                Ok(req) => req matches BackendRequest::TransactionReceipts { transaction_ids }
                    && transaction_ids@.map_values(|id: String| id@) == parts
                    && spec_all_parts_valid(parts),
                Err(e) => e.kind == RestApiErrorKind::InvalidResourceId && (exists|i: int|
                    {
                        &&& 0 <= i < parts.len()
                        &&& !spec_valid_id_chars(#[trigger] parts[i])
                        &&& forall|j: int| 0 <= j < i ==> spec_valid_id_chars(#[trigger] parts[j])
                        &&& (e.info matches Some(detail) && detail@ == parts[i])
                    }),
            }
        }),
{
    match id_list_query(query, RestApiErrorKind::ReceiptIdQueryInvalid) {
        Ok(transaction_ids) => Ok(BackendRequest::TransactionReceipts { transaction_ids }),
        Err(e) => Err(e),
    }
}

/// The position of the first comma in a byte sequence, if any.
pub open spec fn spec_first_comma_byte(s: Seq<u8>) -> Option<int>
    decreases s.len(),
{
    if s.len() == 0 {
        None
    } else if s[0] == 0x2c {
        Some(0int)
    } else {
        match spec_first_comma_byte(s.drop_first()) {
            None => None,
            Some(j) => Some(j + 1),
        }
    }
}

/// `spec_first_comma_byte` finds exactly the first comma.
proof fn lemma_first_comma_byte(s: Seq<u8>)
    ensures
        match spec_first_comma_byte(s) {
            None => forall|j: int| 0 <= j < s.len() ==> s[j] != 0x2c,
            Some(i) => 0 <= i < s.len() && s[i] == 0x2c && forall|j: int| 0 <= j < i ==> s[j]
                != 0x2c,
        },
    decreases s.len(),
{
    if s.len() > 0 && s[0] != 0x2c {
        let rest = s.drop_first();
        lemma_first_comma_byte(rest);
        match spec_first_comma_byte(rest) {
            None => {
                assert forall|j: int| 0 <= j < s.len() implies s[j] != 0x2c by {
                    if j > 0 {
                        assert(rest[j - 1] == s[j]);
                    }
                }
            },
            Some(i) => {
                assert(rest[i] == s[i + 1]);
                assert forall|j: int| 0 <= j < i + 1 implies s[j] != 0x2c by {
                    if j > 0 {
                        assert(rest[j - 1] == s[j]);
                    }
                }
            },
        }
    }
}

/// The comma-separated pieces of a byte sequence, commas removed, empty
/// pieces kept.
pub open spec fn spec_split_bytes(s: Seq<u8>) -> Seq<Seq<u8>>
    decreases s.len(),
{
    match spec_first_comma_byte(s) {
        None => seq![s],
        Some(i) => if 0 <= i < s.len() {
            seq![s.take(i)] + spec_split_bytes(s.skip(i + 1))
        } else {
            seq![s]
        },
    }
}

/// A byte allowed inside a quoted id string: printable ASCII with no
/// escapes, quotes, or backslashes — ids are plain hexadecimal text, so a
/// status request that needs more is not well formed.
pub open spec fn spec_id_text_byte(b: u8) -> bool {
    0x20 <= b <= 0x7e && b != 0x22 && b != 0x5c
}

/// Whether a piece of the id array is a well-formed quoted string.
pub open spec fn spec_quoted(piece: Seq<u8>) -> bool {
    &&& piece.len() >= 2
    &&& piece[0] == 0x22
    &&& piece[piece.len() - 1] == 0x22
    &&& forall|k: int| 1 <= k < piece.len() - 1 ==> spec_id_text_byte(#[trigger] piece[k])
}

/// The text inside a quoted piece.
pub open spec fn spec_unquoted(piece: Seq<u8>) -> Seq<u8> {
    piece.subrange(1, piece.len() - 1)
}

/// The bytes a status POST body must open with: `{"batch_ids":[`.
pub open spec fn spec_status_prefix() -> Seq<u8> {
    seq![0x7b, 0x22, 0x62, 0x61, 0x74, 0x63, 0x68, 0x5f, 0x69, 0x64, 0x73, 0x22, 0x3a, 0x5b]
}

/// Whether a body has the status request frame: the opening
/// `{"batch_ids":[` and the closing `]}`.
pub open spec fn spec_status_framed(s: Seq<u8>) -> bool {
    s.len() >= 16 && s.subrange(0, 14) == spec_status_prefix() && s[s.len() - 2] == 0x5d && s[s.len()
        - 1] == 0x7d
}

/// The id array bytes between the frame's brackets.
pub open spec fn spec_status_middle(s: Seq<u8>) -> Seq<u8> {
    s.subrange(14, s.len() - 2)
}

/// The position of the first comma in `bytes` at or after `start`, or
/// `bytes`' length if there is none.
fn find_comma_bytes(bytes: &Vec<u8>, start: usize) -> (end: usize)
    requires
        start <= bytes@.len(),
    ensures
        start <= end <= bytes@.len(),
        forall|j: int| start <= j < end ==> bytes@[j] != 0x2c,
        end < bytes@.len() ==> bytes@[end as int] == 0x2c,
{
    let n = bytes.len();
    let mut end: usize = start;
    while end < n
        invariant
            start <= end <= n,
            n == bytes@.len(),
            forall|j: int| start <= j < end ==> bytes@[j] != 0x2c,
        decreases n - end,
    {
        if bytes[end] == 0x2c {
            return end;
        }
        end += 1;
    }
    end
}

/// Unwraps the piece `bytes[start..end]` as a quoted id string, returning
/// the text between the quotes.
fn take_quoted(bytes: &Vec<u8>, start: usize, end: usize) -> (unquoted: Option<Vec<u8>>)
    requires
        start <= end <= bytes@.len(),
    ensures
        ({
            let piece = bytes@.subrange(start as int, end as int);
            match unquoted {
                Some(interior) => spec_quoted(piece) && interior@ == spec_unquoted(piece),
                None => !spec_quoted(piece),
            }
        }),
{
    let ghost piece = bytes@.subrange(start as int, end as int);
    if end - start < 2 {
        return None;
    }
    if bytes[start] != 0x22 || bytes[end - 1] != 0x22 {
        return None;
    }
    let n = bytes.len();
    assert(end <= n);
    let mut interior: Vec<u8> = Vec::new();
    let mut k: usize = start + 1;
    while k < end - 1
        invariant
            start + 1 <= k <= end - 1,
            end <= bytes@.len() <= usize::MAX,
            start + 2 <= end,
            piece == bytes@.subrange(start as int, end as int),
            interior@ == bytes@.subrange(start + 1, k as int),
            forall|j: int| start + 1 <= j < k ==> spec_id_text_byte(#[trigger] bytes@[j]),
        decreases end - k,
    {
        let b = bytes[k];
        if !(0x20 <= b && b <= 0x7e) || b == 0x22 || b == 0x5c {
            proof {
                assert(piece[k - start] == bytes@[k as int]);
            }
            return None;
        }
        interior.push(b);
        proof {
            assert(interior@ =~= bytes@.subrange(start + 1, k + 1));
        }
        k += 1;
    }
    proof {
        assert(piece[0] == bytes@[start as int]);
        assert(piece[piece.len() - 1] == bytes@[end - 1]);
        assert forall|j: int| 1 <= j < piece.len() - 1 implies spec_id_text_byte(
            #[trigger] piece[j],
        ) by {
            assert(piece[j] == bytes@[start + j]);
        }
        assert(interior@ =~= spec_unquoted(piece));
    }
    Some(interior)
}

/// Checks a body for the status request frame.
fn status_framed(body: &Vec<u8>) -> (framed: bool)
    ensures
        framed == spec_status_framed(body@),
{
    let n = body.len();
    if n < 16 {
        return false;
    }
    let ok = body[0] == 0x7b && body[1] == 0x22 && body[2] == 0x62 && body[3] == 0x61 && body[4]
        == 0x74 && body[5] == 0x63 && body[6] == 0x68 && body[7] == 0x5f && body[8] == 0x69
        && body[9] == 0x64 && body[10] == 0x73 && body[11] == 0x22 && body[12] == 0x3a && body[13]
        == 0x5b && body[n - 2] == 0x5d && body[n - 1] == 0x7d;
    proof {
        if ok {
            assert(body@.subrange(0, 14) =~= spec_status_prefix());
        } else if spec_status_framed(body@) {
            assert forall|i: int| 0 <= i < 14 implies body@[i] == spec_status_prefix()[i] by {
                assert(body@.subrange(0, 14)[i] == body@[i]);
            }
        }
    }
    ok
}

/// Whether the first `count` pieces of the id array are well-formed quoted
/// resource ids.
pub open spec fn spec_pieces_ok(pieces: Seq<Seq<u8>>, count: int) -> bool {
    forall|j: int|
        0 <= j < count ==> spec_quoted(#[trigger] pieces[j]) && spec_valid_resource_id(
            spec_unquoted(pieces[j]),
        )
}

/// Decodes a body posted to the batch-status endpoint: a JSON object of
/// the exact shape `{"batch_ids":["<id>",...]}`, as serializers emit it,
/// with no surrounding whitespace. The rules, in order: a body over
/// `max_size` bytes is rejected as too large before any decode work; a
/// content type other than `application/json` is rejected; a body outside
/// the shape, or with an empty id array, is a bad status request; every id
/// must be a well-formed resource id, the first offending one carried as
/// detail. On success the ids come back in body order.
pub fn batch_statuses_post(content_type: &str, body: &Vec<u8>, max_size: usize) -> (decoded:
    Result<BackendRequest, RestApiError>)
    ensures
        body@.len() > max_size ==> (decoded matches Err(e) && e.kind
            == RestApiErrorKind::SubmissionTooLarge && e.info is None),
        body@.len() <= max_size && content_type@ != "application/json"@ ==> (decoded matches Err(e)
            && e.kind == RestApiErrorKind::StatusWrongContentType && e.info is None),
        body@.len() <= max_size && content_type@ == "application/json"@ && (!spec_status_framed(
            body@,
        ) || spec_status_middle(body@).len() == 0) ==> (decoded matches Err(e) && e.kind
            == RestApiErrorKind::StatusBodyInvalid && e.info is None),
        body@.len() <= max_size && content_type@ == "application/json"@ && spec_status_framed(body@)
            && spec_status_middle(body@).len() > 0 ==> ({
            let pieces = spec_split_bytes(spec_status_middle(body@));
            match decoded {
                Ok(req) => req matches BackendRequest::BatchStatuses { batch_ids } && ({
                    &&& batch_ids@.len() == pieces.len()
                    &&& spec_pieces_ok(pieces, pieces.len() as int)
                    &&& forall|i: int|
                        0 <= i < pieces.len() ==> (#[trigger] batch_ids@[i])@ == ascii_chars(
                            spec_unquoted(pieces[i]),
                        )
                }),
                Err(e) => (exists|i: int|
                    {
                        &&& 0 <= i < pieces.len()
                        &&& spec_pieces_ok(pieces, i)
                        &&& if spec_quoted(pieces[i]) {
                            &&& !spec_valid_resource_id(spec_unquoted(pieces[i]))
                            &&& e.kind == RestApiErrorKind::InvalidResourceId
                            &&& (e.info matches Some(detail) && detail@ == ascii_chars(
                                spec_unquoted(pieces[i]),
                            ))
                        } else {
                            e.kind == RestApiErrorKind::StatusBodyInvalid && e.info is None
                        }
                    }),
            }
        }),
{
    if body.len() > max_size {
        return Err(RestApiError { info: None, kind: RestApiErrorKind::SubmissionTooLarge });
    }
    if !str_eq(content_type, "application/json") {
        return Err(RestApiError { info: None, kind: RestApiErrorKind::StatusWrongContentType });
    }
    let n = body.len();
    if !status_framed(body) {
        return Err(RestApiError { info: None, kind: RestApiErrorKind::StatusBodyInvalid });
    }
    let mut middle: Vec<u8> = Vec::new();
    let mut k: usize = 14;
    while k < n - 2
        invariant
            14 <= k <= n - 2,
            n == body@.len(),
            n >= 16,
            middle@ == body@.subrange(14, k as int),
        decreases n - 2 - k,
    {
        middle.push(body[k]);
        proof {
            assert(middle@ =~= body@.subrange(14, k + 1));
        }
        k += 1;
    }
    proof {
        assert(middle@ =~= spec_status_middle(body@));
    }
    if middle.len() == 0 {
        return Err(RestApiError { info: None, kind: RestApiErrorKind::StatusBodyInvalid });
    }
    let ghost mid = middle@;
    let ghost pieces = spec_split_bytes(mid);
    let m = middle.len();
    let mut ids: Vec<String> = Vec::new();
    let mut start: usize = 0;
    proof {
        assert(mid.skip(0) =~= mid);
        assert(pieces.skip(0) =~= pieces);
    }
    loop
        invariant
            start <= m,
            middle@ == mid,
            m == mid.len(),
            m >= 1,
            body@.len() <= max_size,
            content_type@ == "application/json"@,
            spec_status_framed(body@),
            mid == spec_status_middle(body@),
            pieces == spec_split_bytes(mid),
            ids@.len() <= pieces.len(),
            pieces.skip(ids@.len() as int) == spec_split_bytes(mid.skip(start as int)),
            spec_pieces_ok(pieces, ids@.len() as int),
            forall|j: int|
                0 <= j < ids@.len() ==> (#[trigger] ids@[j])@ == ascii_chars(
                    spec_unquoted(pieces[j]),
                ),
        decreases m - start,
    {
        let ghost done = ids@.len() as int;
        let ghost remaining = mid.skip(start as int);
        let end = find_comma_bytes(&middle, start);
        proof {
            lemma_first_comma_byte(remaining);
            assert(forall|j: int|
                0 <= j < remaining.len() ==> remaining[j] == mid[start + j]);
            if end < m {
                assert(remaining[end - start] == 0x2c);
                match spec_first_comma_byte(remaining) {
                    None => {
                        assert(remaining[end - start] != 0x2c);
                    },
                    Some(i) => {
                        if i < end - start {
                            assert(mid[start + i] == 0x2c);
                        }
                        if i > end - start {
                            assert(remaining[end - start] != 0x2c);
                        }
                        assert(i == end - start);
                    },
                }
                assert(remaining.take(end - start) =~= mid.subrange(start as int, end as int));
                assert(remaining.skip(end - start + 1) =~= mid.skip(end + 1));
                assert(spec_split_bytes(remaining) == seq![mid.subrange(
                    start as int,
                    end as int,
                )] + spec_split_bytes(mid.skip(end + 1)));
            } else {
                match spec_first_comma_byte(remaining) {
                    None => {},
                    Some(i) => {
                        assert(mid[start + i] == 0x2c);
                    },
                }
                assert(remaining =~= mid.subrange(start as int, end as int));
                assert(spec_split_bytes(remaining) == seq![mid.subrange(
                    start as int,
                    end as int,
                )]);
            }
            assert(spec_split_bytes(remaining).len() >= 1);
            assert(pieces.skip(done).len() == pieces.len() - done);
            assert(done < pieces.len());
            assert(pieces.skip(done)[0] == pieces[done]);
            assert(spec_split_bytes(remaining)[0] == mid.subrange(start as int, end as int));
            assert(pieces[done] == mid.subrange(start as int, end as int));
        }
        match take_quoted(&middle, start, end) {
            None => {
                return Err(RestApiError { info: None, kind: RestApiErrorKind::StatusBodyInvalid });
            },
            Some(interior) => {
                proof {
                    assert forall|j: int| 0 <= j < interior@.len() implies interior@[j]
                        < 0x80 by {
                        let piece = mid.subrange(start as int, end as int);
                        assert(spec_unquoted(piece)[j] == piece[j + 1]);
                    }
                }
                if !check_resource_id(&interior) {
                    let detail = string_from_ascii(&interior);
                    return Err(
                        RestApiError {
                            info: Some(detail),
                            kind: RestApiErrorKind::InvalidResourceId,
                        },
                    );
                }
                let id_text = string_from_ascii(&interior);
                let ghost ids_pre = ids@;
                ids.push(id_text);
                proof {
                    assert(ids@.len() == done + 1);
                    assert(forall|j: int| 0 <= j < done ==> ids@[j] == ids_pre[j]);
                }
                if end == m {
                    proof {
                        assert(pieces.skip(done) =~= seq![pieces[done]]);
                        assert(pieces.len() == done + 1);
                    }
                    return Ok(BackendRequest::BatchStatuses { batch_ids: ids });
                }
                start = end + 1;
                proof {
                    assert(pieces.skip(done).skip(1) =~= pieces.skip(done + 1));
                    assert((seq![pieces[done]] + spec_split_bytes(mid.skip(start as int))).skip(1)
                        =~= spec_split_bytes(mid.skip(start as int)));
                }
            },
        }
    }
}

/// Validates the address segment of a state fetch: exactly
/// [`STATE_ADDRESS_LEN`] lowercase hexadecimal characters, or an
/// invalid-state-address failure carrying the offending value as detail.
pub fn validate_state_address(address: &str) -> (checked: Result<(), RestApiError>)
    ensures
        spec_valid_state_address(address@) ==> checked is Ok,
        !spec_valid_state_address(address@) ==> (checked matches Err(e) && e.kind
            == RestApiErrorKind::InvalidStateAddress && (e.info matches Some(detail) && detail@
            == address@)),
{
    let len = address.unicode_len();
    let mut valid = len == STATE_ADDRESS_LEN;
    let mut k: usize = 0;
    while valid && k < len
        invariant
            k <= len,
            len == address@.len(),
            valid ==> len == STATE_ADDRESS_LEN,
            valid ==> forall|j: int| 0 <= j < k ==> spec_hex_char(#[trigger] address@[j]),
            !valid ==> !spec_valid_state_address(address@),
        decreases len - k,
    {
        let c = address.get_char(k);
        if !(('0' <= c && c <= '9') || ('a' <= c && c <= 'f')) {
            valid = false;
        }
        k += 1;
    }
    if valid {
        Ok(())
    } else {
        Err(
            RestApiError {
                info: Some(address.to_owned()),
                kind: RestApiErrorKind::InvalidStateAddress,
            },
        )
    }
}

} // verus!
