//! Splitting messages into batches that fit into blocks.
use crate::ibc::any::Any;
use vstd::prelude::*;

verus! {

/// How often the weight of a batch exceeds the weight of a block.
pub open spec fn weight_ratio(batch_weight: u64, block_max_weight: u64) -> usize {
    (batch_weight / block_max_weight) as usize
}

/// How many messages a batch holds at most where all of them together are too heavy for a block.
pub open spec fn batch_size(ratio: usize) -> int {
    if ratio == 1 {
        ratio * 2
    } else {
        ratio + 2
    }
}

/// A sequence cut into pieces of the given size, the last of which may be shorter.
pub open spec fn pieces<T>(s: Seq<T>, size: int) -> Seq<Seq<T>>
    decreases s.len(),
{
    if s.len() == 0 || size <= 0 {
        Seq::empty()
    } else if s.len() <= size {
        seq![s]
    } else {
        seq![s.take(size)] + pieces(s.skip(size), size)
    }
}

/// The batches in which messages are sent: all at once where they fit into a block, in pieces
/// otherwise.
pub open spec fn message_batches<T>(
    messages: Seq<T>,
    batch_weight: u64,
    block_max_weight: u64,
) -> Seq<Seq<T>> {
    let ratio = weight_ratio(batch_weight, block_max_weight);
    if ratio == 0 {
        seq![messages]
    } else {
        pieces(messages, batch_size(ratio))
    }
}

/// Cuts messages into the batches in which they are submitted to a chain, one after the other,
/// given the estimated weight of all of them and the weight that a block takes.
pub fn flush_message_batch(
    msgs: Vec<Any>,
    batch_weight: u64,
    block_max_weight: u64,
) -> (batches: Vec<Vec<Any>>)
    requires
        block_max_weight != 0,
        weight_ratio(batch_weight, block_max_weight) + 2 <= usize::MAX,
    ensures
        batches@.map_values(|batch: Vec<Any>| batch@) == message_batches(
            msgs@,
            batch_weight,
            block_max_weight,
        ),
{
    let ghost all = msgs@;
    let ghost contents = |batch: Vec<Any>| batch@;
    let mut batches: Vec<Vec<Any>> = Vec::new();
    let ratio: usize = (batch_weight / block_max_weight) as usize;
    let mut rest: Vec<Any> = msgs;
    if ratio == 0 {
        batches.push(rest);
        assert(batches@.map_values(contents) =~= seq![all]);
        return batches;
    }
    let chunk: usize = if ratio == 1 {
        ratio * 2
    } else {
        ratio + 2
    };
    assert(batches@.map_values(contents) + pieces(rest@, chunk as int) =~= pieces(
        all,
        chunk as int,
    ));
    while rest.len() > chunk
        invariant
            chunk > 0,
            contents == |batch: Vec<Any>| batch@,
            batches@.map_values(contents) + pieces(rest@, chunk as int) == pieces(
                all,
                chunk as int,
            ),
        decreases rest.len(),
    {
        let ghost before = batches@.map_values(contents);
        let ghost whole = rest@;
        let tail: Vec<Any> = rest.split_off(chunk);
        assert(rest@ =~= whole.take(chunk as int));
        assert(tail@ =~= whole.skip(chunk as int));
        batches.push(rest);
        rest = tail;
        assert(batches@.map_values(contents) =~= before.push(whole.take(chunk as int)));
        assert(batches@.map_values(contents) + pieces(rest@, chunk as int) =~= before + pieces(
            whole,
            chunk as int,
        ));
    }
    if rest.len() > 0 {
        let ghost before = batches@.map_values(contents);
        let ghost last = rest@;
        batches.push(rest);
        assert(batches@.map_values(contents) =~= before + seq![last]);
    } else {
        assert(batches@.map_values(contents) + pieces(rest@, chunk as int) =~= batches@.map_values(
            contents,
        ));
    }
    batches
}

proof fn lemma_pieces<T>(s: Seq<T>, size: int)
    requires
        size > 0,
    ensures
        pieces(s, size).flatten() == s,
        forall|i: int|
            0 <= i < pieces(s, size).len() ==> 0 < #[trigger] pieces(s, size)[i].len() <= size,
        pieces(s, size).len() * size >= s.len(),
        (pieces(s, size).len() - 1) * size < s.len() || s.len() == 0,
    decreases s.len(),
{
    if s.len() == 0 {
        assert(pieces(s, size).flatten() =~= s);
        assert(0 * size == 0);
    } else if s.len() <= size {
        seq![s].lemma_flatten_one_element();
        assert(1 * size == size && (1 - 1) * size == 0);
    } else {
        let head = s.take(size);
        let tail = s.skip(size);
        let rest = pieces(tail, size);
        lemma_pieces(tail, size);
        let all = pieces(s, size);
        assert(all =~= seq![head] + rest);
        assert(all.first() == head);
        assert(all.drop_first() =~= rest);
        assert(all.flatten() == head + rest.flatten());
        assert(head + tail =~= s);
        assert(all.len() == rest.len() + 1);
        assert(all.len() * size == rest.len() * size + size) by (nonlinear_arith)
            requires
                all.len() == rest.len() + 1,
        ;
        assert((all.len() - 1) * size == (rest.len() - 1) * size + size) by (nonlinear_arith)
            requires
                all.len() == rest.len() + 1,
        ;
        assert forall|i: int| 0 <= i < all.len() implies 0 < #[trigger] all[i].len() <= size by {
            if i > 0 {
                assert(all[i] == rest[i - 1]);
            }
        }
    }
}

/// Batches lose no message, add none and keep the order: one after the other they are the
/// messages.
pub proof fn law_batches_are_the_messages<T>(
    messages: Seq<T>,
    batch_weight: u64,
    block_max_weight: u64,
)
    requires
        block_max_weight != 0,
    ensures
        message_batches(messages, batch_weight, block_max_weight).flatten() == messages,
{
    let ratio = weight_ratio(batch_weight, block_max_weight);
    if ratio == 0 {
        seq![messages].lemma_flatten_one_element();
    } else {
        lemma_pieces(messages, batch_size(ratio));
    }
}

/// Messages that are too heavy for a block are sent in batches of at least one message and at
/// most the batch size, and in as few of them as that allows.
pub proof fn law_heavy_messages_are_split<T>(
    messages: Seq<T>,
    batch_weight: u64,
    block_max_weight: u64,
)
    requires
        block_max_weight != 0,
        weight_ratio(batch_weight, block_max_weight) != 0,
    ensures
        ({
            let size = batch_size(weight_ratio(batch_weight, block_max_weight));
            let batches = message_batches(messages, batch_weight, block_max_weight);
            &&& forall|i: int|
                0 <= i < batches.len() ==> 0 < #[trigger] batches[i].len() <= size
            &&& batches.len() * size >= messages.len()
            &&& messages.len() > 0 ==> (batches.len() - 1) * size < messages.len()
        }),
{
    lemma_pieces(messages, batch_size(weight_ratio(batch_weight, block_max_weight)));
}

/// Messages whose weight is below that of a block are sent in one batch.
pub proof fn law_light_messages_stay_together<T>(
    messages: Seq<T>,
    batch_weight: u64,
    block_max_weight: u64,
)
    requires
        batch_weight < block_max_weight,
    ensures
        message_batches(messages, batch_weight, block_max_weight) == seq![messages],
{
    assert(batch_weight / block_max_weight == 0) by (nonlinear_arith)
        requires
            batch_weight < block_max_weight,
    ;
}

/// Messages as heavy as a block or heavier, whose weight is that of `blocks` blocks and a part of
/// one more, are sent in batches of `blocks` + 2 messages, and of two where it is one block and a
/// part. Only the last batch may hold fewer messages, and one after the other the batches are the
/// messages.
pub proof fn law_batch_size_grows_with_the_weight<T>(
    messages: Seq<T>,
    batch_weight: u64,
    block_max_weight: u64,
    blocks: nat,
)
    requires
        0 < block_max_weight <= batch_weight,
        blocks * block_max_weight <= batch_weight < (blocks + 1) * block_max_weight,
        blocks <= usize::MAX,
    ensures
        ({
            let size = if blocks == 1 {
                2
            } else {
                blocks + 2
            };
            let batches = message_batches(messages, batch_weight, block_max_weight);
            &&& batches.flatten() == messages
            &&& forall|i: int|
                0 <= i < batches.len() - 1 ==> #[trigger] batches[i].len() == size
            &&& messages.len() > 0 ==> 0 < batches.last().len() <= size
            &&& messages.len() > 0 <==> batches.len() > 0
        }),
{
    let weight = batch_weight as int;
    let block = block_max_weight as int;
    let rest = weight - blocks * block;
    assert((blocks + 1) * block == blocks * block + block) by (nonlinear_arith);
    vstd::arithmetic::div_mod::lemma_fundamental_div_mod_converse(
        weight,
        block,
        blocks as int,
        rest,
    );
    assert(blocks != 0) by (nonlinear_arith)
        requires
            block <= weight,
            weight < (blocks + 1) * block,
    ;
    let size = batch_size(weight_ratio(batch_weight, block_max_weight));
    lemma_pieces(messages, size);
    lemma_whole_pieces(messages, size);
}

proof fn lemma_whole_pieces<T>(s: Seq<T>, size: int)
    requires
        size > 0,
    ensures
        forall|i: int|
            0 <= i < pieces(s, size).len() - 1 ==> #[trigger] pieces(s, size)[i].len() == size,
        s.len() > 0 <==> pieces(s, size).len() > 0,
    decreases s.len(),
{
    if s.len() > size {
        let rest = pieces(s.skip(size), size);
        lemma_whole_pieces(s.skip(size), size);
        assert forall|i: int| 0 <= i < pieces(s, size).len() - 1 implies #[trigger] pieces(
            s,
            size,
        )[i].len() == size by {
            if i > 0 {
                assert(pieces(s, size)[i] == rest[i - 1]);
            }
        }
    }
}

} // verus!
