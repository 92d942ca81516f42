use vstd::prelude::*;
use crate::protocol::PACKET_SIZE;

verus! {

/// One packet of a file transfer: a full packet of `PACKET_SIZE` bytes,
/// or the closing packet, sent as its length (`u16`) and that many bytes.
#[derive(Clone, Copy, Debug, PartialEq, Eq, Structural)]
pub enum Packet {
    Full,
    Last(u16),
}

/// The packet size as a mathematical integer.
pub open spec fn psize() -> int {
    65533
}

/// The largest file that a sender can announce: the packet count is a
/// `u16`, so at most 65535 full packets.
pub open spec fn max_transfer() -> int {
    65535 * psize()
}

/// The largest transferable size, in bytes.
pub const MAX_TRANSFER: u64 = 4294705155;

/// The packet count that a sender announces for `size` bytes: the number
/// of packets needed, `ceil(size / PACKET_SIZE)`, saturated at `u16::MAX`.
pub open spec fn spec_packet_count(size: int) -> int {
    let c = if size % psize() == 0 {
        size / psize()
    } else {
        size / psize() + 1
    };
    if c > 65535 {
        65535
    } else {
        c
    }
}

/// `n` full packets.
pub open spec fn full_packets(n: nat) -> Seq<Packet> {
    Seq::new(n, |_i: int| Packet::Full)
}

/// The packets that a sender writes for a file of `size` bytes: full
/// packets while at least a full packet's worth remains, then the rest
/// as a closing packet; a file of exactly one packet goes as a closing
/// packet, and a larger exact multiple goes as full packets only.
pub open spec fn spec_sender_packets(size: int) -> Seq<Packet> {
    if size <= 0 {
        Seq::empty()
    } else if size % psize() == 0 {
        if size == psize() {
            seq![Packet::Last(65533u16)]
        } else {
            full_packets((size / psize()) as nat)
        }
    } else {
        full_packets((size / psize()) as nat).push(Packet::Last((size % psize()) as u16))
    }
}

/// The number of bytes that a sequence of packets carries.
pub open spec fn packets_bytes(pkts: Seq<Packet>) -> int
    decreases pkts.len(),
{
    if pkts.len() == 0 {
        0
    } else {
        packets_bytes(pkts.drop_last()) + match pkts.last() {
            Packet::Full => psize(),
            Packet::Last(n) => n as int,
        }
    }
}

/// The number of full packets a receiver reads before it reads the
/// closing packet, given the announced packet count and total size.
pub open spec fn spec_receiver_full_packets(tol: int, total: int) -> int {
    if tol >= 2 && total >= psize() {
        tol - 1
    } else {
        0
    }
}

/// Whether a receiver, told `tol` packets and `total` bytes, reads
/// exactly the packets `pkts`: its full packets, then one closing packet.
pub open spec fn receiver_accepts(tol: int, total: int, pkts: Seq<Packet>) -> bool {
    let k = spec_receiver_full_packets(tol, total);
    &&& pkts.len() == k + 1
    &&& forall|i: int| 0 <= i < k ==> #[trigger] pkts[i] == Packet::Full
    &&& pkts[k] is Last
}

/// The packet count to announce for a file of `size` bytes.
pub fn packet_count(size: u64) -> (tol: u16)
    ensures
        tol == spec_packet_count(size as int),
{
    let p: u64 = 65533;
    let q = size / p;
    let r = size % p;
    let c = if r == 0 {
        q
    } else {
        q + 1
    };
    if c > 65535 {
        65535
    } else {
        c as u16
    }
}

/// What the sender does next, given the announced count `tol`, the file
/// size, the number `i` of packets written so far and the bytes `sent`.
#[derive(Clone, Copy, Debug, PartialEq, Eq, Structural)]
pub enum SendStep {
    /// Read a full packet from the file and write it.
    Full,
    /// Write the closing length and the remaining bytes, then stop.
    Last(u16),
    /// Every announced packet was written.
    Done,
}

/// The sender's step rule: a closing packet when only one packet was
/// announced or less than a full packet remains.
pub open spec fn spec_send_step(tol: int, size: int, i: int, sent: int) -> SendStep {
    if i >= tol {
        SendStep::Done
    } else if tol == 1 || size - sent < psize() {
        SendStep::Last((size - sent) as u16)
    } else {
        SendStep::Full
    }
}

/// The sender's next step.
pub fn send_step(tol: u16, size: u64, i: u16, sent: u64) -> (step: SendStep)
    requires
        sent <= size,
    ensures
        step == spec_send_step(tol as int, size as int, i as int, sent as int),
{
    if i >= tol {
        SendStep::Done
    } else if tol == 1 || size - sent < 65533 {
        SendStep::Last((size - sent) as u16)
    } else {
        SendStep::Full
    }
}

proof fn lemma_full_push(n: nat)
    ensures
        full_packets(n).push(Packet::Full) == full_packets(n + 1),
{
    assert(full_packets(n).push(Packet::Full) =~= full_packets(n + 1));
}

proof fn lemma_full_bytes(n: nat)
    ensures
        packets_bytes(full_packets(n)) == n * psize(),
    decreases n,
{
    if n > 0 {
        lemma_full_bytes((n - 1) as nat);
        assert(full_packets(n).drop_last() =~= full_packets((n - 1) as nat));
        assert(n * psize() == (n - 1) * psize() + psize()) by (nonlinear_arith);
    }
}

proof fn lemma_div_mod(size: int)
    requires
        size >= 0,
    ensures
        size == (size / psize()) * psize() + size % psize(),
        0 <= size % psize() < psize(),
        size / psize() >= 0,
{
    vstd::arithmetic::div_mod::lemma_fundamental_div_mod(size, psize());
}

proof fn lemma_remaining(i: int, q: int, r: int)
    requires
        0 <= i <= q,
        0 <= r < psize(),
    ensures
        i < q ==> q * psize() + r - i * psize() >= psize(),
        i == q ==> q * psize() + r - i * psize() == r,
        i * psize() <= q * psize(),
        (i + 1) * psize() == i * psize() + psize(),
{
    assert(i < q ==> q * psize() + r - i * psize() >= psize()) by (nonlinear_arith)
        requires
            0 <= i <= q,
            0 <= r,
    ;
    assert(i * psize() <= q * psize()) by (nonlinear_arith)
        requires
            0 <= i <= q,
    ;
    assert((i + 1) * psize() == i * psize() + psize()) by (nonlinear_arith);
}

proof fn lemma_count_bounds(size: int, q: int, r: int)
    requires
        0 <= size <= max_transfer(),
        size == q * psize() + r,
        0 <= r < psize(),
        q >= 0,
    ensures
        q <= 65535,
        r != 0 ==> q <= 65534,
        spec_packet_count(size) == if r == 0 {
            q
        } else {
            q + 1
        },
        q == size / psize(),
        r == size % psize(),
{
    assert(q <= 65535) by (nonlinear_arith)
        requires
            size == q * psize() + r,
            size <= max_transfer(),
            r >= 0,
            q >= 0,
    ;
    assert(r != 0 ==> q <= 65534) by (nonlinear_arith)
        requires
            size == q * psize() + r,
            size <= max_transfer(),
            r >= 0,
            q >= 0,
    ;
    vstd::arithmetic::div_mod::lemma_fundamental_div_mod_converse(size, psize(), q, r);
}

/// The packets a sender writes for a file of `size` bytes, step by step;
/// their bytes add up to the size.
pub fn sender_packets(size: u64) -> (pkts: Vec<Packet>)
    requires
        size <= MAX_TRANSFER,
    ensures
        pkts@ == spec_sender_packets(size as int),
        packets_bytes(pkts@) == size,
{
    let tol = packet_count(size);
    let mut pkts: Vec<Packet> = Vec::new();
    let mut i: u16 = 0;
    let mut sent: u64 = 0;
    proof {
        lemma_div_mod(size as int);
        lemma_count_bounds(size as int, size as int / psize(), size as int % psize());
    }
    let ghost q = size as int / psize();
    let ghost r = size as int % psize();
    loop
        invariant_except_break
            tol == spec_packet_count(size as int),
            size <= MAX_TRANSFER,
            size as int == q * psize() + r,
            0 <= r < psize(),
            0 <= q <= 65535,
            r != 0 ==> q <= 65534,
            tol == if r == 0 {
                q
            } else {
                q + 1
            },
            q == size as int / psize(),
            r == size as int % psize(),
            sent == i * psize(),
            0 <= i <= q,
            tol == 1 ==> i == 0,
            pkts@ == full_packets(i as nat),
        ensures
            pkts@ == spec_sender_packets(size as int),
        decreases q - i,
    {
        proof {
            lemma_remaining(i as int, q, r);
        }
        let step = send_step(tol, size, i, sent);
        match step {
            SendStep::Done => {
                break;
            },
            SendStep::Last(n) => {
                pkts.push(Packet::Last(n));
                proof {
                    if tol == 1 {
                        assert(size as int <= psize());
                        if size as int == psize() {
                            assert(pkts@ =~= seq![Packet::Last(65533u16)]);
                        }
                    }
                }
                break;
            },
            SendStep::Full => {
                pkts.push(Packet::Full);
                proof {
                    lemma_full_push(i as nat);
                }
                sent = sent + 65533;
                i = i + 1;
            },
        }
    }
    proof {
        lemma_full_bytes(q as nat);
        if size == 0 {
            assert(pkts@.len() == 0);
        } else if r != 0 {
            assert(full_packets(q as nat).push(Packet::Last(r as u16)).drop_last() =~= full_packets(
                q as nat,
            ));
            assert(packets_bytes(pkts@) == q * psize() + r);
        } else if size as int == psize() {
            let one = seq![Packet::Last(65533u16)];
            assert(one.drop_last() =~= Seq::<Packet>::empty());
            assert(packets_bytes(Seq::<Packet>::empty()) == 0);
            assert(one.last() == Packet::Last(65533u16));
            assert(pkts@ == one);
            assert(packets_bytes(one) == 65533);
            assert(packets_bytes(pkts@) == psize());
        }
    }
    pkts
}

/// What the receiver does next: read a full packet, or read the closing
/// length and that many bytes.
#[derive(Clone, Copy, Debug, PartialEq, Eq, Structural)]
pub enum ReceiveStep {
    Full,
    Last,
}

/// The receiver's step rule, after `i` full packets: it reads full packets
/// while more than one packet was announced, fewer than `tol - 1` were read
/// and the total is at least a full packet; then it reads the closing packet.
pub open spec fn spec_receive_step(tol: int, total: int, i: int) -> ReceiveStep {
    if tol >= 2 && i < tol - 1 && total >= psize() {
        ReceiveStep::Full
    } else {
        ReceiveStep::Last
    }
}

/// The receiver's next step.
pub fn receive_step(tol: u16, total: u64, i: u16) -> (step: ReceiveStep)
    ensures
        step == spec_receive_step(tol as int, total as int, i as int),
{
    if tol >= 2 && i < tol - 1 && total >= 65533 {
        ReceiveStep::Full
    } else {
        ReceiveStep::Last
    }
}

/// The number of full packets the receiver reads before the closing one,
/// found by running its step rule.
pub fn receiver_full_packets(tol: u16, total: u64) -> (k: u16)
    ensures
        k == spec_receiver_full_packets(tol as int, total as int),
{
    let mut i: u16 = 0;
    while receive_step(tol, total, i) == ReceiveStep::Full
        invariant
            0 <= i <= spec_receiver_full_packets(tol as int, total as int),
        decreases tol - i,
    {
        i = i + 1;
    }
    i
}

/// The bytes a receiver writes to its file: `k` full packets and a
/// closing packet of `last` bytes.
pub open spec fn received_bytes(k: int, last: int) -> int {
    k * psize() + last
}

/// Transfer law: for every transferable size, the receiver reads exactly
/// the packets the sender writes if and only if the file is not empty and
/// is not an exact multiple of the packet size larger than one packet; and
/// then the bytes it writes are exactly the file's size.
pub proof fn law_transfer_agreement(size: u64)
    requires
        size <= MAX_TRANSFER,
    ensures
        receiver_accepts(spec_packet_count(size as int), size as int, spec_sender_packets(size as int))
            <==> (size > 0 && (size as int % psize() != 0 || size as int == psize())),
        receiver_accepts(spec_packet_count(size as int), size as int, spec_sender_packets(size as int))
            ==> ({
            let pkts = spec_sender_packets(size as int);
            let k = spec_receiver_full_packets(spec_packet_count(size as int), size as int);
            &&& pkts[k] matches Packet::Last(n)
            &&& received_bytes(k, n as int) == size
        }),
{
    lemma_div_mod(size as int);
    let q = size as int / psize();
    let r = size as int % psize();
    lemma_count_bounds(size as int, q, r);
    let tol = spec_packet_count(size as int);
    let pkts = spec_sender_packets(size as int);
    let k = spec_receiver_full_packets(tol, size as int);
    if size == 0 {
        assert(!receiver_accepts(tol, size as int, pkts));
    } else if r == 0 {
        if q == 1 {
            assert(size as int == psize());
            assert(receiver_accepts(tol, size as int, pkts));
        } else {
            assert(q >= 2) by (nonlinear_arith)
                requires
                    size > 0,
                    size as int == q * psize() + r,
                    r == 0,
                    q != 1,
                    q >= 0,
            ;
            assert(q * psize() >= psize()) by (nonlinear_arith)
                requires
                    q >= 2,
            ;
            assert(k == q - 1);
            assert(pkts[k] == Packet::Full);
            assert(!receiver_accepts(tol, size as int, pkts));
        }
    } else {
        if q == 0 {
            assert(k == 0);
            assert(pkts[0] == Packet::Last(r as u16));
        } else {
            assert(q * psize() >= psize()) by (nonlinear_arith)
                requires
                    q >= 1,
            ;
            assert(k == q);
            assert(pkts[q] == Packet::Last(r as u16));
            assert(forall|i: int| 0 <= i < k ==> #[trigger] pkts[i] == Packet::Full);
        }
        assert(receiver_accepts(tol, size as int, pkts));
        assert(received_bytes(k, r) == size);
    }
}

/// The number of file bytes a packet carries.
pub open spec fn packet_len(p: Packet) -> int {
    match p {
        Packet::Full => psize(),
        Packet::Last(n) => n as int,
    }
}

/// The bytes of `data` that the sender's `i`-th packet carries: packets
/// are cut from the file one after the other, each starting a full
/// packet's length after the previous one.
pub open spec fn sender_chunks(data: Seq<u8>) -> Seq<Seq<u8>> {
    let pkts = spec_sender_packets(data.len() as int);
    Seq::new(
        pkts.len(),
        |i: int| data.subrange(i * psize(), i * psize() + packet_len(pkts[i])),
    )
}

/// The bytes of a sequence of chunks, one after the other.
pub open spec fn concat_chunks(chunks: Seq<Seq<u8>>) -> Seq<u8>
    decreases chunks.len(),
{
    if chunks.len() == 0 {
        Seq::empty()
    } else {
        concat_chunks(chunks.drop_last()) + chunks.last()
    }
}

proof fn lemma_full_chunks(data: Seq<u8>, k: nat)
    requires
        k * psize() <= data.len(),
    ensures
        concat_chunks(
            Seq::new(k, |i: int| data.subrange(i * psize(), i * psize() + psize())),
        ) == data.subrange(0, k * psize()),
    decreases k,
{
    let f = |i: int| data.subrange(i * psize(), i * psize() + psize());
    if k == 0 {
        assert(data.subrange(0, 0) =~= Seq::<u8>::empty());
    } else {
        let km1 = (k - 1) as nat;
        assert(km1 * psize() + psize() == k * psize()) by (nonlinear_arith)
            requires
                km1 == k - 1,
        ;
        assert(km1 * psize() >= 0) by (nonlinear_arith);
        lemma_full_chunks(data, km1);
        assert(Seq::new(k, f).drop_last() =~= Seq::new(km1, f));
        assert(Seq::new(k, f).last() == data.subrange(km1 * psize(), k * psize()));
        assert(data.subrange(0, km1 * psize()) + data.subrange(km1 * psize(), k * psize())
            =~= data.subrange(0, k * psize()));
    }
}

/// Content law: the chunks the sender cuts from a transferable file,
/// written one after the other, give back the file; each chunk has its
/// packet's length.
pub proof fn law_transfer_content(data: Seq<u8>)
    requires
        data.len() <= max_transfer(),
    ensures
        concat_chunks(sender_chunks(data)) == data,
        forall|i: int|
            0 <= i < sender_chunks(data).len() ==> (#[trigger] sender_chunks(data)[i]).len()
                == packet_len(spec_sender_packets(data.len() as int)[i]),
{
    let size = data.len() as int;
    lemma_div_mod(size);
    let q = size / psize();
    let r = size % psize();
    lemma_count_bounds(size, q, r);
    let pkts = spec_sender_packets(size);
    let chunks = sender_chunks(data);
    let f = |i: int| data.subrange(i * psize(), i * psize() + psize());
    assert forall|i: int| 0 <= i < chunks.len() implies (#[trigger] chunks[i]).len()
        == packet_len(pkts[i]) by {
        assert(i * psize() >= 0) by (nonlinear_arith)
            requires
                i >= 0,
        ;
        if r == 0 && size != psize() {
            assert(i + 1 <= q);
            assert((i + 1) * psize() <= q * psize()) by (nonlinear_arith)
                requires
                    i + 1 <= q,
            ;
            assert(i * psize() + psize() == (i + 1) * psize()) by (nonlinear_arith);
        } else if r != 0 {
            if i < q {
                assert((i + 1) * psize() <= q * psize()) by (nonlinear_arith)
                    requires
                        i + 1 <= q,
                ;
                assert(i * psize() + psize() == (i + 1) * psize()) by (nonlinear_arith);
            } else {
                assert(i == q);
            }
        }
    }
    if size == 0 {
        assert(data =~= Seq::<u8>::empty());
        assert(chunks.len() == 0);
        assert(concat_chunks(chunks) == Seq::<u8>::empty());
    } else if r == 0 {
        if size == psize() {
            assert(chunks.drop_last() =~= Seq::<Seq<u8>>::empty());
            assert(concat_chunks(chunks.drop_last()) == Seq::<u8>::empty());
            assert(chunks.last() =~= data);
            assert(concat_chunks(chunks) == concat_chunks(chunks.drop_last()) + chunks.last());
            assert(Seq::<u8>::empty() + data =~= data);
        } else {
            assert forall|i: int| 0 <= i < q implies chunks[i] == f(i) by {}
            assert(chunks =~= Seq::new(q as nat, f));
            lemma_full_chunks(data, q as nat);
            assert(data.subrange(0, q * psize()) =~= data);
        }
    } else {
        assert(q * psize() >= 0) by (nonlinear_arith)
            requires
                q >= 0,
        ;
        assert forall|i: int| 0 <= i < q implies chunks.drop_last()[i] == f(i) by {}
        assert(chunks.drop_last() =~= Seq::new(q as nat, f));
        lemma_full_chunks(data, q as nat);
        assert(chunks.last() == data.subrange(q * psize(), size));
        assert(concat_chunks(chunks) == concat_chunks(chunks.drop_last()) + chunks.last());
        assert(data.subrange(0, q * psize()) + data.subrange(q * psize(), size) =~= data);
    }
}

} // verus!
