//! The wire format of a settlement transaction's body.
//!
//! The matching algorithm hands over a list of matched exchanges, each an
//! opaque record, in Borsh encoding. The body of the settlement transaction
//! is that list followed by the address the settlement is made from, again
//! in Borsh encoding. Encoding and decoding are borsh's; this module states
//! the format and proves what the body is.

use crate::message::rows;
use borsh::{BorshDeserialize, BorshSerialize};
use vstd::prelude::*;

verus! {

/// The four bytes of `n`, least significant first.
pub open spec fn le_u32(n: nat) -> Seq<u8> {
    seq![
        (n % 256) as u8,
        (n / 256 % 256) as u8,
        (n / 65536 % 256) as u8,
        (n / 16777216 % 256) as u8,
    ]
}

/// A byte string behind its length.
pub open spec fn framed(bytes: Seq<u8>) -> Seq<u8> {
    le_u32(bytes.len()) + bytes
}

/// The records of `records`, each behind its length, one after the other.
pub open spec fn framed_each(records: Seq<Seq<u8>>) -> Seq<u8>
    decreases records.len(),
{
    if records.len() == 0 {
        Seq::empty()
    } else {
        framed(records.first()) + framed_each(records.drop_first())
    }
}

/// The encoding of a list of records: their number, then each record behind
/// its length.
pub open spec fn exchange_list(records: Seq<Seq<u8>>) -> Seq<u8> {
    le_u32(records.len()) + framed_each(records)
}

/// Whether the format can hold `records`: every length in it is written in
/// four bytes.
pub open spec fn encodable(records: Seq<Seq<u8>>) -> bool {
    &&& records.len() <= u32::MAX
    &&& forall|i: int| 0 <= i < records.len() ==> (#[trigger] records[i]).len() <= u32::MAX
}

/// Whether `payload` is the encoding of some list of matched exchanges.
pub open spec fn is_exchange_list(payload: Seq<u8>) -> bool {
    exists|records: Seq<Seq<u8>>| encodable(records) && payload == #[trigger] exchange_list(records)
}

/// The body of the transaction that settles the exchanges in `payload` from
/// the address `source`: the payload as it is, then the framed address.
/// There is none where the payload is no exchange list or the address is
/// too long to frame.
pub open spec fn transfers_body(payload: Seq<u8>, source: Seq<u8>) -> Option<Seq<u8>> {
    if is_exchange_list(payload) && source.len() <= u32::MAX {
        Some(payload + framed(source))
    } else {
        None
    }
}

/// Whether `body` is the encoding of the transfers that settle `records`
/// from the address `source`.
pub open spec fn holds_transfers(body: Seq<u8>, records: Seq<Seq<u8>>, source: Seq<u8>) -> bool {
    &&& encodable(records)
    &&& source.len() <= u32::MAX
    &&& body == exchange_list(records) + framed(source)
}

/// Two byte strings that begin with parts of one length are equal part by
/// part.
proof fn lemma_same_head(head: Seq<u8>, tail: Seq<u8>, head2: Seq<u8>, tail2: Seq<u8>)
    requires
        head.len() == head2.len(),
        head + tail == head2 + tail2,
    ensures
        head == head2,
        tail == tail2,
{
    let whole = head + tail;
    assert(head =~= whole.subrange(0, head.len() as int));
    assert(head2 =~= whole.subrange(0, head.len() as int));
    assert(tail =~= whole.subrange(head.len() as int, whole.len() as int));
    assert(tail2 =~= whole.subrange(head.len() as int, whole.len() as int));
}

/// Four length bytes stand for one length only.
proof fn lemma_length_is_read_one_way(a: nat, b: nat)
    requires
        a <= u32::MAX,
        b <= u32::MAX,
        le_u32(a) == le_u32(b),
    ensures
        a == b,
{
    let x = le_u32(a);
    let y = le_u32(b);
    assert(x[0] == y[0] && x[1] == y[1] && x[2] == y[2] && x[3] == y[3]);
    assert(a == a % 256 + 256 * (a / 256 % 256) + 65536 * (a / 65536 % 256) + 16777216 * (a
        / 16777216 % 256));
    assert(b == b % 256 + 256 * (b / 256 % 256) + 65536 * (b / 65536 % 256) + 16777216 * (b
        / 16777216 % 256));
}

/// Framed records are read in one way only: two lists of one length whose
/// framings, each followed by more bytes, are the same bytes are the same
/// list, followed by the same bytes.
proof fn lemma_records_are_read_one_way(
    a: Seq<Seq<u8>>,
    b: Seq<Seq<u8>>,
    rest_a: Seq<u8>,
    rest_b: Seq<u8>,
)
    requires
        a.len() == b.len(),
        encodable(a),
        encodable(b),
        framed_each(a) + rest_a == framed_each(b) + rest_b,
    ensures
        a == b,
        rest_a == rest_b,
    decreases a.len(),
{
    if a.len() == 0 {
        assert(framed_each(a) + rest_a =~= rest_a);
        assert(framed_each(b) + rest_b =~= rest_b);
        assert(a =~= b);
    } else {
        let x = a.first();
        let y = b.first();
        let after_x = framed_each(a.drop_first()) + rest_a;
        let after_y = framed_each(b.drop_first()) + rest_b;
        assert(framed_each(a) + rest_a =~= le_u32(x.len()) + (x + after_x));
        assert(framed_each(b) + rest_b =~= le_u32(y.len()) + (y + after_y));
        lemma_same_head(le_u32(x.len()), x + after_x, le_u32(y.len()), y + after_y);
        lemma_length_is_read_one_way(x.len(), y.len());
        lemma_same_head(x, after_x, y, after_y);
        assert forall|i: int| 0 <= i < a.drop_first().len() implies (#[trigger] a.drop_first()[i]).len()
            <= u32::MAX by {
            assert(a.drop_first()[i] == a[i + 1]);
        }
        assert forall|i: int| 0 <= i < b.drop_first().len() implies (#[trigger] b.drop_first()[i]).len()
            <= u32::MAX by {
            assert(b.drop_first()[i] == b[i + 1]);
        }
        lemma_records_are_read_one_way(a.drop_first(), b.drop_first(), rest_a, rest_b);
        assert(a =~= seq![x] + a.drop_first());
        assert(b =~= seq![y] + b.drop_first());
    }
}

/// A transaction body is read in one way only: the encoding of the
/// transfers that settle one list of exchanges from one address is the
/// encoding of no other list and of no other address.
pub proof fn lemma_body_is_read_one_way(
    body: Seq<u8>,
    records: Seq<Seq<u8>>,
    source: Seq<u8>,
    records2: Seq<Seq<u8>>,
    source2: Seq<u8>,
)
    requires
        holds_transfers(body, records, source),
        holds_transfers(body, records2, source2),
    ensures
        records == records2,
        source == source2,
{
    assert(body =~= le_u32(records.len()) + (framed_each(records) + framed(source)));
    assert(body =~= le_u32(records2.len()) + (framed_each(records2) + framed(source2)));
    lemma_same_head(
        le_u32(records.len()),
        framed_each(records) + framed(source),
        le_u32(records2.len()),
        framed_each(records2) + framed(source2),
    );
    lemma_length_is_read_one_way(records.len(), records2.len());
    lemma_records_are_read_one_way(records, records2, framed(source), framed(source2));
    lemma_same_head(le_u32(source.len()), source, le_u32(source2.len()), source2);
}

/// The body built for a list of exchanges holds that list and the address
/// it was built with: whatever list and address a reader finds in it are
/// the list that the payload encodes and that address, none other.
pub proof fn lemma_body_holds_payload_and_source(
    payload: Seq<u8>,
    source: Seq<u8>,
    records: Seq<Seq<u8>>,
    settled_from: Seq<u8>,
)
    requires
        transfers_body(payload, source) is Some,
        holds_transfers(transfers_body(payload, source)->Some_0, records, settled_from),
    ensures
        settled_from == source,
        payload == exchange_list(records),
{
    let encoded = choose|encoded: Seq<Seq<u8>>|
        encodable(encoded) && payload == #[trigger] exchange_list(encoded);
    lemma_body_is_read_one_way(
        transfers_body(payload, source)->Some_0,
        records,
        settled_from,
        encoded,
        source,
    );
}

/// The encoding of every list of exchanges that the format can hold has a
/// body for every address that can be framed, and the body holds exactly
/// that list and that address.
pub proof fn lemma_body_of_a_list(records: Seq<Seq<u8>>, source: Seq<u8>)
    requires
        encodable(records),
        source.len() <= u32::MAX,
    ensures
        transfers_body(exchange_list(records), source) == Some(
            exchange_list(records) + framed(source),
        ),
        holds_transfers(exchange_list(records) + framed(source), records, source),
{
    assert(is_exchange_list(exchange_list(records)));
}

/// `BorshDeserialize::try_from_slice` for a vector of byte vectors.
///
/// Trusted: borsh reads a four-byte little-endian count, then that many
/// records, each a four-byte little-endian length followed by as many bytes,
/// and fails if the input ends early or if bytes are left over. So it
/// succeeds exactly on the encodings of lists, and returns the list whose
/// encoding it read.
#[verifier::external_body]
fn decode_exchanges(payload: &Vec<u8>) -> (decoded: Option<Vec<Vec<u8>>>)
    ensures
        decoded is Some <==> is_exchange_list(payload@),
        decoded matches Some(records) ==> encodable(rows(records)) && payload@ == exchange_list(
            rows(records),
        ),
{
    Vec::<Vec<u8>>::try_from_slice(payload.as_slice()).ok()
}

/// `BorshSerialize::try_to_vec` for a list of records and an address, taken
/// together as a pair.
///
/// Trusted: borsh writes the parts of a pair one after the other, a vector
/// as its length in four little-endian bytes followed by its elements, and
/// fails only where a length does not fit in four bytes.
#[verifier::external_body]
fn encode_transfers(exchanges: &Vec<Vec<u8>>, source: &Vec<u8>) -> (encoded: Option<Vec<u8>>)
    ensures
        encoded is Some <==> (encodable(rows(*exchanges)) && source@.len() <= u32::MAX),
        encoded matches Some(bytes) ==> bytes@ == exchange_list(rows(*exchanges)) + framed(
            source@,
        ),
{
    (exchanges, source).try_to_vec().ok()
}

/// Builds the body of the transaction that settles the exchanges in
/// `payload` from the address `source`.
///
/// The payload is decoded as a list of matched exchanges and encoded again
/// together with the address. The result is `None` exactly where the payload
/// is no such list, or where the address is too long for the format.
pub fn intent_transfers(payload: &Vec<u8>, source: &Vec<u8>) -> (body: Option<Vec<u8>>)
    ensures
        match transfers_body(payload@, source@) {
            Some(bytes) => body is Some && body->Some_0@ == bytes,
            None => body is None,
        },
{
    match decode_exchanges(payload) {
        Some(exchanges) => encode_transfers(&exchanges, source),
        None => None,
    }
}

} // verus!
