//! A payload is a run of varints, one per element, with nothing between them.

use crate::codec::varint::{lemma_varint_roundtrip, varint_bytes, varint_read};
use vstd::prelude::*;

verus! {

/// The varints of `codes`, one after the other.
pub open spec fn varints(codes: Seq<nat>) -> Seq<u8>
    decreases codes.len(),
{
    if codes.len() == 0 {
        Seq::empty()
    } else {
        varints(codes.drop_last()) + varint_bytes(codes.last())
    }
}

/// Reads `n` varints one after the other, the first at `pos`. `None` as soon
/// as one read fails.
pub open spec fn read_varints(bytes: Seq<u8>, pos: int, n: nat, max: nat, limit: nat) -> Option<
    Seq<nat>,
>
    decreases n,
{
    if n == 0 {
        Some(Seq::empty())
    } else {
        match varint_read(bytes, pos, max, limit) {
            None => None,
            Some((v, next)) => match read_varints(bytes, next, (n - 1) as nat, max, limit) {
                None => None,
                Some(rest) => Some(seq![v] + rest),
            },
        }
    }
}

/// Splitting the varints of a sequence at its first element.
pub proof fn lemma_varints_first(codes: Seq<nat>)
    requires
        codes.len() > 0,
    ensures
        varints(codes) == varint_bytes(codes[0]) + varints(codes.drop_first()),
    decreases codes.len(),
{
    if codes.len() == 1 {
        assert(codes.drop_last() =~= Seq::<nat>::empty());
        assert(codes.drop_first() =~= Seq::<nat>::empty());
        assert(varints(codes) =~= varint_bytes(codes[0]) + varints(codes.drop_first()));
    } else {
        let front = codes.drop_last();
        lemma_varints_first(front);
        assert(front.drop_first() =~= codes.drop_first().drop_last());
        assert(codes.drop_first().last() == codes.last());
        assert(varints(codes) =~= varint_bytes(codes[0]) + varints(codes.drop_first()));
    }
}

/// Reading back a payload gives the codes it was written from: `bytes` holds
/// at `pos` the varints of `codes`, none longer than `max` bytes nor above
/// `limit`.
pub proof fn lemma_stream_roundtrip(
    bytes: Seq<u8>,
    pos: int,
    codes: Seq<nat>,
    max: nat,
    limit: nat,
)
    requires
        0 <= pos,
        pos + varints(codes).len() <= bytes.len(),
        bytes.subrange(pos, pos + varints(codes).len()) == varints(codes),
        forall|i: int| 0 <= i < codes.len() ==> #[trigger] codes[i] <= limit,
        forall|i: int| 0 <= i < codes.len() ==> varint_bytes(#[trigger] codes[i]).len() <= max,
    ensures
        read_varints(bytes, pos, codes.len(), max, limit) == Some(codes),
    decreases codes.len(),
{
    if codes.len() == 0 {
        assert(codes =~= Seq::<nat>::empty());
    } else {
        let first = varint_bytes(codes[0]);
        let rest = codes.drop_first();
        let all = varints(codes);
        lemma_varints_first(codes);
        assert(bytes.subrange(pos, pos + first.len()) =~= first) by {
            assert forall|i: int| 0 <= i < first.len() implies bytes.subrange(
                pos,
                pos + first.len(),
            )[i] == first[i] by {
                assert(bytes.subrange(pos, pos + all.len())[i] == bytes[pos + i]);
            }
        }
        lemma_varint_roundtrip(bytes, pos, codes[0], max, limit);
        let next = pos + first.len();
        assert(bytes.subrange(next, next + varints(rest).len()) =~= varints(rest)) by {
            assert forall|i: int| 0 <= i < varints(rest).len() implies bytes.subrange(
                next,
                next + varints(rest).len(),
            )[i] == varints(rest)[i] by {
                assert(bytes.subrange(pos, pos + all.len())[first.len() + i] == bytes[next + i]);
            }
        }
        assert forall|i: int| 0 <= i < rest.len() implies #[trigger] rest[i] <= limit by {
            assert(rest[i] == codes[i + 1]);
        }
        assert forall|i: int| 0 <= i < rest.len() implies varint_bytes(#[trigger] rest[i]).len()
            <= max by {
            assert(rest[i] == codes[i + 1]);
        }
        lemma_stream_roundtrip(bytes, next, rest, max, limit);
        assert(seq![codes[0]] + rest =~= codes);
    }
}

} // verus!
