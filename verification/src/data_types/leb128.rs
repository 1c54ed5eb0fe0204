//! The variable-length layout of integers: seven bits to a byte, the low
//! group first, and in every byte but the last the high bit set to say that
//! another byte follows.

use vstd::prelude::*;

verus! {

/// The bytes of the variable-length form of `n`.
pub open spec fn leb128(n: nat) -> Seq<u8>
    decreases n,
{
    if n < 128 {
        seq![n as u8]
    } else {
        seq![(n % 128 + 128) as u8] + leb128(n / 128)
    }
}

/// 128 to the power `k`: the weight of the group in byte `k`.
pub open spec fn group_weight(k: nat) -> nat
    decreases k,
{
    if k == 0 {
        1
    } else {
        128 * group_weight((k - 1) as nat)
    }
}

/// The number that the low seven bits of the bytes spell, the first byte
/// being the lowest group.
pub open spec fn groups_value(buf: Seq<u8>) -> nat
    decreases buf.len(),
{
    if buf.len() == 0 {
        0
    } else {
        groups_value(buf.drop_last()) + (buf.last() % 128) as nat * group_weight(
            (buf.len() - 1) as nat,
        )
    }
}

/// The number of bytes that a reader takes: up to and including the first
/// byte without the high bit, or all of them where every byte has it.
pub open spec fn bytes_read(buf: Seq<u8>) -> nat
    decreases buf.len(),
{
    if buf.len() == 0 {
        0
    } else if buf[0] < 128 {
        1
    } else {
        1 + bytes_read(buf.drop_first())
    }
}

/// Whether each of the first `k` bytes says that another byte follows.
pub open spec fn all_continue(buf: Seq<u8>, k: int) -> bool {
    forall|j: int| 0 <= j < k ==> #[trigger] buf[j] >= 128
}

/// The weights of the first eleven groups.
pub proof fn lemma_group_weights()
    ensures
        group_weight(0) == 0x1,
        group_weight(1) == 0x80,
        group_weight(2) == 0x4000,
        group_weight(3) == 0x200000,
        group_weight(4) == 0x10000000,
        group_weight(5) == 0x800000000,
        group_weight(6) == 0x40000000000,
        group_weight(7) == 0x2000000000000,
        group_weight(8) == 0x100000000000000,
        group_weight(9) == 0x8000000000000000,
        group_weight(10) == 0x400000000000000000,
{
    assert(group_weight(0) == 1);
    assert(group_weight(1) == 128 * group_weight(0));
    assert(group_weight(2) == 128 * group_weight(1));
    assert(group_weight(3) == 128 * group_weight(2));
    assert(group_weight(4) == 128 * group_weight(3));
    assert(group_weight(5) == 128 * group_weight(4));
    assert(group_weight(6) == 128 * group_weight(5));
    assert(group_weight(7) == 128 * group_weight(6));
    assert(group_weight(8) == 128 * group_weight(7));
    assert(group_weight(9) == 128 * group_weight(8));
    assert(group_weight(10) == 128 * group_weight(9));
}

/// Where the first `k` bytes all continue, a reader takes more than `k`
/// bytes or the whole buffer.
pub proof fn lemma_bytes_read_continues(buf: Seq<u8>, k: int)
    requires
        0 <= k <= buf.len(),
        all_continue(buf, k),
    ensures
        bytes_read(buf) >= k,
        k == buf.len() ==> bytes_read(buf) == k,
        k < buf.len() && buf[k] < 128 ==> bytes_read(buf) == k + 1,
    decreases k,
{
    if k == 0 {
    } else {
        let rest = buf.drop_first();
        assert(buf[0] >= 128);
        assert forall|j: int| 0 <= j < k - 1 implies #[trigger] rest[j] >= 128 by {
            assert(rest[j] == buf[j + 1]);
        }
        lemma_bytes_read_continues(rest, k - 1);
        if k < buf.len() {
            assert(rest[k - 1] == buf[k]);
        }
    }
}

/// The value of `k` groups is below the weight of group `k`.
pub proof fn lemma_groups_bound(buf: Seq<u8>)
    ensures
        groups_value(buf) < group_weight(buf.len()),
    decreases buf.len(),
{
    if buf.len() > 0 {
        lemma_groups_bound(buf.drop_last());
        let w = group_weight((buf.len() - 1) as nat);
        let g = (buf.last() % 128) as nat;
        assert(g * w <= 127 * w) by (nonlinear_arith)
            requires
                g <= 127,
        ;
    }
}

/// A reader takes no more bytes than there are.
pub proof fn lemma_bytes_read_bound(buf: Seq<u8>)
    ensures
        bytes_read(buf) <= buf.len(),
        buf.len() > 0 ==> bytes_read(buf) >= 1,
    decreases buf.len(),
{
    if buf.len() > 0 && buf[0] >= 128 {
        lemma_bytes_read_bound(buf.drop_first());
    }
}

/// Later groups weigh more.
pub proof fn lemma_group_weight_grows(j: nat, k: nat)
    requires
        j <= k,
    ensures
        group_weight(j) <= group_weight(k),
        group_weight(j) >= 1,
    decreases k,
{
    if j < k {
        lemma_group_weight_grows(j, (k - 1) as nat);
    } else if j > 0 {
        lemma_group_weight_grows((j - 1) as nat, (j - 1) as nat);
    }
}

/// A number below the weight of group `k` takes at most `k` bytes.
pub proof fn lemma_leb128_len(n: nat, k: nat)
    requires
        k >= 1,
        n < group_weight(k),
    ensures
        1 <= leb128(n).len() <= k,
    decreases k,
{
    if n >= 128 {
        assert(group_weight(1) == 128 * group_weight(0));
        assert(k >= 2);
        assert(group_weight(k) == 128 * group_weight((k - 1) as nat));
        lemma_leb128_len(n / 128, (k - 1) as nat);
    }
}

/// The first byte is the lowest group: it adds its seven bits to 128
/// times what the bytes behind it spell.
pub proof fn lemma_groups_front(b: u8, rest: Seq<u8>)
    ensures
        groups_value(seq![b] + rest) == (b % 128) as nat + 128 * groups_value(rest),
    decreases rest.len(),
{
    let whole = seq![b] + rest;
    assert(whole.len() == rest.len() + 1);
    if rest.len() == 0 {
        assert(whole.drop_last() =~= Seq::<u8>::empty());
        assert(groups_value(whole.drop_last()) == 0);
        assert(whole.last() == b);
        assert(group_weight(0) == 1);
        assert(groups_value(whole) == groups_value(whole.drop_last()) + (whole.last() % 128) as nat
            * group_weight(0));
        assert(groups_value(rest) == 0);
    } else {
        lemma_groups_front(b, rest.drop_last());
        assert(whole.drop_last() =~= seq![b] + rest.drop_last());
        assert(whole.last() == rest.last());
        let g = (rest.last() % 128) as nat;
        let w = group_weight((rest.len() - 1) as nat);
        let inner = groups_value(rest.drop_last());
        assert(group_weight(rest.len()) == 128 * w);
        assert(groups_value(rest) == inner + g * w);
        assert(groups_value(whole) == groups_value(whole.drop_last()) + g * group_weight(
            rest.len(),
        ));
        assert(g * (128 * w) == 128 * (g * w)) by (nonlinear_arith);
        assert(128 * (inner + g * w) == 128 * inner + 128 * (g * w)) by (nonlinear_arith);
    }
}

/// The variable-length form of a number is read back whole, and spells
/// the number: every byte but the last announces another one, the last
/// one does not.
pub proof fn lemma_leb128_reads_back(n: nat)
    ensures
        leb128(n).len() >= 1,
        all_continue(leb128(n), leb128(n).len() - 1),
        leb128(n).last() < 128,
        bytes_read(leb128(n)) == leb128(n).len(),
        groups_value(leb128(n)) == n,
    decreases n,
{
    let bytes = leb128(n);
    if n < 128 {
        assert(bytes.drop_last() =~= Seq::<u8>::empty());
        assert(groups_value(bytes.drop_last()) == 0);
        assert(group_weight(0) == 1);
    } else {
        let first = (n % 128 + 128) as u8;
        let rest = leb128(n / 128);
        lemma_leb128_reads_back(n / 128);
        assert(bytes.drop_first() =~= rest);
        lemma_groups_front(first, rest);
        assert forall|j: int| 0 <= j < bytes.len() - 1 implies #[trigger] bytes[j] >= 128 by {
            if j > 0 {
                assert(bytes[j] == rest[j - 1]);
            }
        }
        assert(bytes.last() == rest.last());
    }
}

} // verus!
