//! The topics of an event as a contract hands them over: one byte that holds
//! their number, then the topics themselves, all of one width.

use vstd::prelude::*;
use vstd::slice::{slice_subrange, slice_to_vec};
use crate::codec::decode_compact_byte;
use crate::test_api::byte_strings;

verus! {

/// The number of topics that the first byte announces.
pub open spec fn topic_count(encoded: Seq<u8>) -> nat
    recommends
        encoded.len() >= 1,
{
    (encoded[0] / 4) as nat
}

/// Whether `encoded` holds a count and that many topics of one width: the
/// first byte is a compact count, and the bytes after it, if topics are
/// announced, are there and split evenly.
pub open spec fn topics_well_formed(encoded: Seq<u8>) -> bool {
    &&& encoded.len() >= 1
    &&& encoded[0] % 4 == 0
    &&& topic_count(encoded) > 0 ==> encoded.len() > 1 && (encoded.len() - 1) % (topic_count(
        encoded,
    ) as int) == 0
}

/// The width of each topic.
pub open spec fn topic_width(encoded: Seq<u8>) -> int
    recommends
        topics_well_formed(encoded),
        topic_count(encoded) > 0,
{
    (encoded.len() - 1) / (topic_count(encoded) as int)
}

/// The topics that `encoded` holds, in order.
pub open spec fn event_topics(encoded: Seq<u8>) -> Seq<Seq<u8>>
    recommends
        topics_well_formed(encoded),
{
    Seq::new(
        topic_count(encoded),
        |i: int|
            encoded.subrange(1 + i * topic_width(encoded), 1 + (i + 1) * topic_width(encoded)),
    )
}

/// Splits encoded topics into the topics they hold, or returns nothing where
/// they are not well formed.
pub fn split_topics(encoded: &[u8]) -> (topics: Option<Vec<Vec<u8>>>)
    ensures
        topics is Some <==> topics_well_formed(encoded@),
        topics matches Some(list) ==> byte_strings(list@) == event_topics(encoded@),
{
    if encoded.len() < 1 {
        return None;
    }
    let count = match decode_compact_byte(slice_subrange(encoded, 0, 1)) {
        Some(count) => count as usize,
        None => {
            return None;
        },
    };
    let mut list: Vec<Vec<u8>> = Vec::new();
    if count == 0 {
        assert(byte_strings(list@) =~= event_topics(encoded@));
        return Some(list);
    }
    let rest = encoded.len() - 1;
    if rest == 0 || rest % count != 0 {
        return None;
    }
    let width = rest / count;
    assert(width * count == rest) by (nonlinear_arith)
        requires
            rest % count == 0,
            width == rest / count,
            count > 0,
    ;
    let mut i: usize = 0;
    while i < count
        invariant
            i <= count,
            count > 0,
            width * count == rest,
            rest == encoded.len() - 1,
            width as int == topic_width(encoded@),
            count as nat == topic_count(encoded@),
            list@.len() == i,
            forall|j: int|
                0 <= j < i ==> (#[trigger] list@[j])@ == encoded@.subrange(
                    1 + j * width,
                    1 + (j + 1) * width,
                ),
        decreases count - i,
    {
        assert((i + 1) * width <= count * width) by (nonlinear_arith)
            requires
                i < count,
                width >= 0,
        ;
        assert(i * width <= (i + 1) * width) by (nonlinear_arith)
            requires
                width >= 0,
        ;
        let from = 1 + i * width;
        let to = 1 + (i + 1) * width;
        let topic = slice_to_vec(slice_subrange(encoded, from, to));
        list.push(topic);
        i += 1;
    }
    assert(byte_strings(list@) =~= event_topics(encoded@));
    Some(list)
}

} // verus!
