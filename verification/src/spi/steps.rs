//! The bit-banged transactions as sequences of bus steps: the caller performs
//! each step on the pins (selecting the chip, driving MOSI, toggling SCK,
//! waiting, sampling MISO) and assembles the samples with `assemble_word`.
use vstd::prelude::*;
use crate::spi::{
    OBCSPIBitBang, PayloadSPIBitBang, PayloadSpiOp, SckPhase, SpiFrame, bit_of, low_bits, obc_mosi_level,
    payload_mosi_level, payload_frame_loopback, spec_assemble, spec_obc_mosi_level, spec_payload_mosi_level,
};

verus! {

/// One action on a bit-banged bus.
#[derive(Clone, Copy, Debug, PartialEq, Eq, Structural)]
pub enum BusStep {
    /// Drive the chip select low.
    Select,
    /// Drive the chip select high.
    Deselect,
    /// Drive MOSI to a level.
    Mosi(bool),
    /// Toggle SCK.
    ToggleSck,
    /// Wait about this many CPU cycles (duty-cycle correction).
    Delay(u32),
    /// Sample MISO and shift the sample into the received word.
    SampleMiso,
}

/// Number of clock cycles of a payload transaction.
pub open spec fn spec_op_len(op: PayloadSpiOp) -> nat {
    match op {
        PayloadSpiOp::Send(f) => f.len as nat,
        PayloadSpiOp::Receive(len) => len as nat,
        PayloadSpiOp::SendReceive(f) => f.len as nat,
    }
}

/// The MOSI level a payload transaction sends in cycle `k`, if it sends.
pub open spec fn spec_op_mosi(op: PayloadSpiOp, k: int) -> Option<bool> {
    match op {
        PayloadSpiOp::Send(f) => Some(spec_payload_mosi_level(f.len, f.data, k as u8)),
        PayloadSpiOp::Receive(_) => None,
        PayloadSpiOp::SendReceive(f) => Some(spec_payload_mosi_level(f.len, f.data, k as u8)),
    }
}

/// Whether a payload transaction samples MISO.
pub open spec fn spec_op_samples(op: PayloadSpiOp) -> bool {
    !(op is Send)
}

/// The steps of one clock cycle. A peripheral that samples on the first edge
/// gets its bit before that edge, and answers on the second; one that samples
/// on the second edge gets its bit between the edges, and answers on the
/// first.
pub open spec fn spec_payload_cycle(phase: SckPhase, mosi: Option<bool>, sample: bool) -> Seq<BusStep> {
    match phase {
        SckPhase::SampleFirstEdge => match mosi {
            Some(l) => if sample {
                seq![BusStep::Mosi(l), BusStep::ToggleSck, BusStep::Delay(80), BusStep::ToggleSck, BusStep::SampleMiso]
            } else {
                seq![BusStep::Mosi(l), BusStep::ToggleSck, BusStep::Delay(80), BusStep::ToggleSck]
            },
            None => seq![BusStep::ToggleSck, BusStep::Delay(80), BusStep::ToggleSck, BusStep::SampleMiso],
        },
        SckPhase::SampleSecondEdge => match mosi {
            Some(l) => if sample {
                seq![BusStep::ToggleSck, BusStep::SampleMiso, BusStep::Delay(80), BusStep::Mosi(l), BusStep::ToggleSck]
            } else {
                seq![BusStep::ToggleSck, BusStep::Delay(80), BusStep::Mosi(l), BusStep::ToggleSck]
            },
            None => seq![BusStep::ToggleSck, BusStep::SampleMiso, BusStep::ToggleSck, BusStep::Delay(80)],
        },
    }
}

/// The steps of the first `k` clock cycles of a payload transaction.
pub open spec fn spec_payload_cycles(op: PayloadSpiOp, phase: SckPhase, k: nat) -> Seq<BusStep>
    decreases k,
{
    if k == 0 {
        Seq::empty()
    } else {
        spec_payload_cycles(op, phase, (k - 1) as nat) + spec_payload_cycle(
            phase,
            spec_op_mosi(op, k - 1),
            spec_op_samples(op),
        )
    }
}

/// A whole payload transaction: select the chip, run every clock cycle,
/// deselect it.
pub open spec fn spec_payload_steps(op: PayloadSpiOp, phase: SckPhase) -> Seq<BusStep> {
    seq![BusStep::Select] + spec_payload_cycles(op, phase, spec_op_len(op)) + seq![BusStep::Deselect]
}

/// Whether a transaction's frame fits the 32-bit shift register.
pub open spec fn spec_op_fits(op: PayloadSpiOp) -> bool {
    match op {
        PayloadSpiOp::Send(f) => f.len <= 32,
        PayloadSpiOp::Receive(_) => true,
        PayloadSpiOp::SendReceive(f) => f.len <= 32,
    }
}

/// Appends the steps of one payload clock cycle.
fn push_payload_cycle(steps: &mut Vec<BusStep>, phase: SckPhase, mosi: Option<bool>, sample: bool)
    ensures
        final(steps)@ == old(steps)@ + spec_payload_cycle(phase, mosi, sample),
{
    let ghost start = steps@;
    match phase {
        SckPhase::SampleFirstEdge => match mosi {
            Some(l) => {
                steps.push(BusStep::Mosi(l));
                steps.push(BusStep::ToggleSck);
                steps.push(BusStep::Delay(80));
                steps.push(BusStep::ToggleSck);
                if sample {
                    steps.push(BusStep::SampleMiso);
                }
            },
            None => {
                steps.push(BusStep::ToggleSck);
                steps.push(BusStep::Delay(80));
                steps.push(BusStep::ToggleSck);
                steps.push(BusStep::SampleMiso);
            },
        },
        SckPhase::SampleSecondEdge => match mosi {
            Some(l) => {
                steps.push(BusStep::ToggleSck);
                if sample {
                    steps.push(BusStep::SampleMiso);
                }
                steps.push(BusStep::Delay(80));
                steps.push(BusStep::Mosi(l));
                steps.push(BusStep::ToggleSck);
            },
            None => {
                steps.push(BusStep::ToggleSck);
                steps.push(BusStep::SampleMiso);
                steps.push(BusStep::ToggleSck);
                steps.push(BusStep::Delay(80));
            },
        },
    }
    assert(steps@ =~= start + spec_payload_cycle(phase, mosi, sample));
}

/// The steps of a payload transaction for a peripheral with phase `phase`.
pub fn payload_steps(op: PayloadSpiOp, phase: SckPhase) -> (steps: Vec<BusStep>)
    requires
        spec_op_fits(op),
    ensures
        steps@ == spec_payload_steps(op, phase),
{
    let (len, frame, sample) = match op {
        PayloadSpiOp::Send(f) => (f.len, Some(f), false),
        PayloadSpiOp::Receive(l) => (l, None, true),
        PayloadSpiOp::SendReceive(f) => (f.len, Some(f), true),
    };
    let mut steps: Vec<BusStep> = Vec::new();
    steps.push(BusStep::Select);
    let mut pos: u8 = 0;
    assert(steps@ =~= seq![BusStep::Select] + spec_payload_cycles(op, phase, 0));
    while pos < len
        invariant
            spec_op_fits(op),
            len as nat == spec_op_len(op),
            sample == spec_op_samples(op),
            frame is Some <==> !(op is Receive),
            frame matches Some(f) ==> (op == PayloadSpiOp::Send(f) || op == PayloadSpiOp::SendReceive(f)),
            pos <= len,
            steps@ == seq![BusStep::Select] + spec_payload_cycles(op, phase, pos as nat),
        decreases len - pos,
    {
        let mosi = match frame {
            Some(f) => Some(payload_mosi_level(f.len, f.data, pos)),
            None => None,
        };
        assert(mosi == spec_op_mosi(op, pos as int));
        let ghost before = steps@;
        push_payload_cycle(&mut steps, phase, mosi, sample);
        assert(steps@ =~= seq![BusStep::Select] + spec_payload_cycles(op, phase, (pos + 1) as nat));
        pos += 1;
    }
    let ghost before = steps@;
    steps.push(BusStep::Deselect);
    assert(steps@ =~= before + seq![BusStep::Deselect]);
    steps
}

impl<Miso, Mosi, Sck> PayloadSPIBitBang<Miso, Mosi, Sck> {
    /// Steps that send a packet of up to 32 bits, most significant bit first.
    pub fn send(&self, len: u8, data: u32) -> (steps: Vec<BusStep>)
        requires
            len <= 32,
        ensures
            steps@ == spec_payload_steps(PayloadSpiOp::Send(SpiFrame { len, data }), self.phase),
    {
        payload_steps(PayloadSpiOp::Send(SpiFrame { len, data }), self.phase)
    }

    /// Steps that receive a packet of `len` bits.
    pub fn receive(&self, len: u8) -> (steps: Vec<BusStep>)
        ensures
            steps@ == spec_payload_steps(PayloadSpiOp::Receive(len), self.phase),
    {
        payload_steps(PayloadSpiOp::Receive(len), self.phase)
    }

    /// Steps that send a packet of up to 32 bits while receiving another.
    pub fn send_receive(&self, len: u8, data: u32) -> (steps: Vec<BusStep>)
        requires
            len <= 32,
        ensures
            steps@ == spec_payload_steps(PayloadSpiOp::SendReceive(SpiFrame { len, data }), self.phase),
    {
        payload_steps(PayloadSpiOp::SendReceive(SpiFrame { len, data }), self.phase)
    }
}

/// The MISO samples a sequence of steps takes when MISO is wired to MOSI,
/// MOSI starting at `mosi`.
pub open spec fn spec_loopback(steps: Seq<BusStep>, mosi: bool) -> Seq<bool>
    decreases steps.len(),
{
    if steps.len() == 0 {
        Seq::empty()
    } else {
        match steps[0] {
            BusStep::Mosi(l) => spec_loopback(steps.drop_first(), l),
            BusStep::SampleMiso => seq![mosi] + spec_loopback(steps.drop_first(), mosi),
            _ => spec_loopback(steps.drop_first(), mosi),
        }
    }
}

/// The MOSI level after a sequence of steps, starting at `mosi`.
pub open spec fn spec_final_mosi(steps: Seq<BusStep>, mosi: bool) -> bool
    decreases steps.len(),
{
    if steps.len() == 0 {
        mosi
    } else {
        match steps[0] {
            BusStep::Mosi(l) => spec_final_mosi(steps.drop_first(), l),
            _ => spec_final_mosi(steps.drop_first(), mosi),
        }
    }
}

/// Looping back two sequences one after the other.
proof fn lemma_loopback_concat(a: Seq<BusStep>, b: Seq<BusStep>, mosi: bool)
    ensures
        spec_loopback(a + b, mosi) == spec_loopback(a, mosi) + spec_loopback(b, spec_final_mosi(a, mosi)),
        spec_final_mosi(a + b, mosi) == spec_final_mosi(b, spec_final_mosi(a, mosi)),
    decreases a.len(),
{
    if a.len() == 0 {
        assert(a + b =~= b);
        assert(spec_loopback(a, mosi) =~= Seq::<bool>::empty());
        assert(spec_loopback(a, mosi) + spec_loopback(b, mosi) =~= spec_loopback(b, mosi));
    } else {
        assert((a + b).drop_first() =~= a.drop_first() + b);
        assert((a + b)[0] == a[0]);
        match a[0] {
            BusStep::Mosi(l) => {
                lemma_loopback_concat(a.drop_first(), b, l);
            },
            BusStep::SampleMiso => {
                lemma_loopback_concat(a.drop_first(), b, mosi);
                assert(seq![mosi] + (spec_loopback(a.drop_first(), mosi) + spec_loopback(
                    b,
                    spec_final_mosi(a.drop_first(), mosi),
                )) =~= (seq![mosi] + spec_loopback(a.drop_first(), mosi)) + spec_loopback(
                    b,
                    spec_final_mosi(a.drop_first(), mosi),
                ));
            },
            _ => {
                lemma_loopback_concat(a.drop_first(), b, mosi);
            },
        }
    }
}

/// The first `k` cycles of a first-edge full-duplex transaction, looped
/// back, sample exactly the levels they send.
proof fn lemma_first_edge_cycles_loopback(frame: SpiFrame, k: nat, mosi: bool)
    requires
        k <= frame.len,
    ensures
        spec_loopback(spec_payload_cycles(PayloadSpiOp::SendReceive(frame), SckPhase::SampleFirstEdge, k), mosi)
            == Seq::new(k, |i: int| spec_payload_mosi_level(frame.len, frame.data, i as u8)),
    decreases k,
{
    let op = PayloadSpiOp::SendReceive(frame);
    if k == 0 {
        assert(spec_loopback(spec_payload_cycles(op, SckPhase::SampleFirstEdge, 0), mosi) =~= Seq::<bool>::empty());
        assert(Seq::new(0, |i: int| spec_payload_mosi_level(frame.len, frame.data, i as u8)) =~= Seq::<bool>::empty());
    } else {
        let prev = spec_payload_cycles(op, SckPhase::SampleFirstEdge, (k - 1) as nat);
        let l = spec_payload_mosi_level(frame.len, frame.data, (k - 1) as u8);
        let cycle = spec_payload_cycle(SckPhase::SampleFirstEdge, Some(l), true);
        lemma_first_edge_cycles_loopback(frame, (k - 1) as nat, mosi);
        lemma_loopback_concat(prev, cycle, mosi);
        reveal_with_fuel(spec_loopback, 6);
        assert(spec_loopback(cycle, spec_final_mosi(prev, mosi)) =~= seq![l]);
        assert(Seq::new(k, |i: int| spec_payload_mosi_level(frame.len, frame.data, i as u8)) =~= Seq::new(
            (k - 1) as nat,
            |i: int| spec_payload_mosi_level(frame.len, frame.data, i as u8),
        ) + seq![l]);
    }
}

/// Law: a full-duplex transaction with a peripheral that samples on the
/// first edge, its MISO wired to MOSI, receives exactly the frame it sends
/// (its `len` low bits).
pub proof fn payload_transaction_loopback(frame: SpiFrame, mosi: bool)
    requires
        1 <= frame.len <= 32,
    ensures
        spec_assemble(spec_loopback(spec_payload_steps(PayloadSpiOp::SendReceive(frame), SckPhase::SampleFirstEdge), mosi))
            == low_bits(frame.data, frame.len as u32),
{
    let op = PayloadSpiOp::SendReceive(frame);
    let cycles = spec_payload_cycles(op, SckPhase::SampleFirstEdge, frame.len as nat);
    lemma_first_edge_cycles_loopback(frame, frame.len as nat, mosi);
    lemma_loopback_concat(seq![BusStep::Select], cycles, mosi);
    lemma_loopback_concat(seq![BusStep::Select] + cycles, seq![BusStep::Deselect], mosi);
    reveal_with_fuel(spec_loopback, 2);
    reveal_with_fuel(spec_final_mosi, 2);
    let levels = Seq::new(frame.len as nat, |i: int| spec_payload_mosi_level(frame.len, frame.data, i as u8));
    assert(spec_loopback(seq![BusStep::Select], mosi) =~= Seq::<bool>::empty());
    assert(spec_loopback(seq![BusStep::Deselect], spec_final_mosi(seq![BusStep::Select] + cycles, mosi))
        =~= Seq::<bool>::empty());
    assert(spec_final_mosi(seq![BusStep::Select], mosi) == mosi);
    assert(spec_loopback(spec_payload_steps(op, SckPhase::SampleFirstEdge), mosi) =~= levels);
    payload_frame_loopback(frame, levels);
}

/// Number of MISO samples in a sequence of steps.
pub open spec fn spec_sample_count(steps: Seq<BusStep>) -> nat
    decreases steps.len(),
{
    if steps.len() == 0 {
        0
    } else {
        (if steps[0] == BusStep::SampleMiso { 1nat } else { 0nat }) + spec_sample_count(steps.drop_first())
    }
}

proof fn lemma_sample_count_concat(a: Seq<BusStep>, b: Seq<BusStep>)
    ensures
        spec_sample_count(a + b) == spec_sample_count(a) + spec_sample_count(b),
    decreases a.len(),
{
    if a.len() == 0 {
        assert(a + b =~= b);
    } else {
        assert((a + b).drop_first() =~= a.drop_first() + b);
        assert((a + b)[0] == a[0]);
        lemma_sample_count_concat(a.drop_first(), b);
    }
}

proof fn lemma_cycles_sample_count(op: PayloadSpiOp, phase: SckPhase, k: nat)
    ensures
        spec_sample_count(spec_payload_cycles(op, phase, k)) == (if spec_op_samples(op) { k } else { 0 }),
    decreases k,
{
    if k > 0 {
        lemma_cycles_sample_count(op, phase, (k - 1) as nat);
        let cycle = spec_payload_cycle(phase, spec_op_mosi(op, k - 1), spec_op_samples(op));
        lemma_sample_count_concat(spec_payload_cycles(op, phase, (k - 1) as nat), cycle);
        reveal_with_fuel(spec_sample_count, 6);
    }
}

/// Law: a payload transaction samples MISO once per clock cycle when it
/// receives, and never when it only sends.
pub proof fn payload_transaction_sample_count(op: PayloadSpiOp, phase: SckPhase)
    ensures
        spec_sample_count(spec_payload_steps(op, phase)) == (if spec_op_samples(op) { spec_op_len(op) } else { 0 }),
{
    let cycles = spec_payload_cycles(op, phase, spec_op_len(op));
    lemma_cycles_sample_count(op, phase, spec_op_len(op));
    lemma_sample_count_concat(seq![BusStep::Select], cycles);
    lemma_sample_count_concat(seq![BusStep::Select] + cycles, seq![BusStep::Deselect]);
    reveal_with_fuel(spec_sample_count, 2);
}

/// Number of clock edges (SCK toggles) in a sequence of steps.
pub open spec fn spec_edge_count(steps: Seq<BusStep>) -> nat
    decreases steps.len(),
{
    if steps.len() == 0 {
        0
    } else {
        (if steps[0] == BusStep::ToggleSck { 1nat } else { 0nat }) + spec_edge_count(steps.drop_first())
    }
}

/// Whether a step drives MOSI.
pub open spec fn is_mosi_step(step: BusStep) -> bool {
    step is Mosi
}

/// Where the steps' MISO samples and MOSI writes fall relative to the clock
/// edges, counted from the start: every sample follows at least one edge,
/// after a number of edges of parity `sample_parity`; every MOSI write
/// follows a number of edges of parity `mosi_parity`.
pub open spec fn spec_edge_placement(steps: Seq<BusStep>, sample_parity: nat, mosi_parity: nat) -> bool {
    &&& forall|j: int|
        0 <= j < steps.len() && #[trigger] steps[j] == BusStep::SampleMiso ==> spec_edge_count(steps.take(j)) >= 1
            && spec_edge_count(steps.take(j)) % 2 == sample_parity
    &&& forall|j: int|
        0 <= j < steps.len() && is_mosi_step(#[trigger] steps[j]) ==> spec_edge_count(steps.take(j)) % 2
            == mosi_parity
}

proof fn lemma_edge_count_concat(a: Seq<BusStep>, b: Seq<BusStep>)
    ensures
        spec_edge_count(a + b) == spec_edge_count(a) + spec_edge_count(b),
    decreases a.len(),
{
    if a.len() == 0 {
        assert(a + b =~= b);
    } else {
        assert((a + b).drop_first() =~= a.drop_first() + b);
        assert((a + b)[0] == a[0]);
        lemma_edge_count_concat(a.drop_first(), b);
    }
}

/// Placement survives appending a block of steps to a prefix with an even
/// number of edges.
proof fn lemma_edge_placement_concat(a: Seq<BusStep>, b: Seq<BusStep>, sample_parity: nat, mosi_parity: nat)
    requires
        spec_edge_placement(a, sample_parity, mosi_parity),
        spec_edge_placement(b, sample_parity, mosi_parity),
        spec_edge_count(a) % 2 == 0,
    ensures
        spec_edge_placement(a + b, sample_parity, mosi_parity),
{
    let s = a + b;
    assert forall|j: int| 0 <= j < s.len() implies (#[trigger] s[j] == BusStep::SampleMiso ==> spec_edge_count(
        s.take(j),
    ) >= 1 && spec_edge_count(s.take(j)) % 2 == sample_parity) && (is_mosi_step(s[j]) ==> spec_edge_count(
        s.take(j),
    ) % 2 == mosi_parity) by {
        if j < a.len() {
            assert(s.take(j) =~= a.take(j));
            assert(s[j] == a[j]);
        } else {
            let jb = j - a.len();
            assert(s.take(j) =~= a + b.take(jb));
            assert(s[j] == b[jb]);
            lemma_edge_count_concat(a, b.take(jb));
        }
    }
}

/// The edges and placement within one clock cycle.
proof fn lemma_cycle_placement(phase: SckPhase, mosi: Option<bool>, sample: bool)
    ensures
        spec_edge_count(spec_payload_cycle(phase, mosi, sample)) == 2,
        spec_edge_placement(
            spec_payload_cycle(phase, mosi, sample),
            if phase == SckPhase::SampleFirstEdge { 0 } else { 1 },
            if phase == SckPhase::SampleFirstEdge { 0 } else { 1 },
        ),
{
    let c = spec_payload_cycle(phase, mosi, sample);
    reveal_with_fuel(spec_edge_count, 6);
    let sp: nat = if phase == SckPhase::SampleFirstEdge { 0 } else { 1 };
    assert forall|j: int| 0 <= j < c.len() implies (#[trigger] c[j] == BusStep::SampleMiso ==> spec_edge_count(
        c.take(j),
    ) >= 1 && spec_edge_count(c.take(j)) % 2 == sp) && (is_mosi_step(c[j]) ==> spec_edge_count(c.take(j)) % 2
        == sp) by {
        assert(c.take(j).len() == j);
        if j >= 1 {
            assert(c.take(j).drop_first() =~= c.drop_first().take(j - 1));
        }
        if j >= 2 {
            assert(c.take(j).drop_first().drop_first() =~= c.drop_first().drop_first().take(j - 2));
        }
        if j >= 3 {
            assert(c.take(j).drop_first().drop_first().drop_first() =~= c.drop_first().drop_first().drop_first().take(
                j - 3,
            ));
        }
        if j >= 4 {
            assert(c.take(j).drop_first().drop_first().drop_first().drop_first() =~= c.drop_first().drop_first().drop_first().drop_first().take(
                j - 4,
            ));
        }
    }
}

proof fn lemma_cycles_placement(op: PayloadSpiOp, phase: SckPhase, k: nat)
    ensures
        spec_edge_count(spec_payload_cycles(op, phase, k)) == 2 * k,
        spec_edge_placement(
            spec_payload_cycles(op, phase, k),
            if phase == SckPhase::SampleFirstEdge { 0 } else { 1 },
            if phase == SckPhase::SampleFirstEdge { 0 } else { 1 },
        ),
    decreases k,
{
    let p: nat = if phase == SckPhase::SampleFirstEdge { 0 } else { 1 };
    if k == 0 {
        assert(spec_payload_cycles(op, phase, 0) =~= Seq::<BusStep>::empty());
    } else {
        let prev = spec_payload_cycles(op, phase, (k - 1) as nat);
        let cycle = spec_payload_cycle(phase, spec_op_mosi(op, k - 1), spec_op_samples(op));
        lemma_cycles_placement(op, phase, (k - 1) as nat);
        lemma_cycle_placement(phase, spec_op_mosi(op, k - 1), spec_op_samples(op));
        lemma_edge_count_concat(prev, cycle);
        assert((2 * (k - 1)) % 2 == 0) by (nonlinear_arith);
        lemma_edge_placement_concat(prev, cycle, p, p);
    }
}

/// Law: in every payload transaction the clock toggles twice per cycle and
/// ends where it started; with a peripheral that samples on the first edge,
/// MOSI is written before the first edge of its cycle and MISO is sampled
/// only after the second (after an even, nonzero number of edges); with one
/// that samples on the second edge, MOSI is written between the edges and
/// MISO sampled after the first (after an odd number of edges).
pub proof fn payload_edges_and_sampling(op: PayloadSpiOp, phase: SckPhase)
    ensures
        spec_edge_count(spec_payload_steps(op, phase)) == 2 * spec_op_len(op),
        phase == SckPhase::SampleFirstEdge ==> spec_edge_placement(spec_payload_steps(op, phase), 0, 0),
        phase == SckPhase::SampleSecondEdge ==> spec_edge_placement(spec_payload_steps(op, phase), 1, 1),
{
    let p: nat = if phase == SckPhase::SampleFirstEdge { 0 } else { 1 };
    let cycles = spec_payload_cycles(op, phase, spec_op_len(op));
    lemma_cycles_placement(op, phase, spec_op_len(op));
    let sel = seq![BusStep::Select];
    let desel = seq![BusStep::Deselect];
    reveal_with_fuel(spec_edge_count, 2);
    assert(spec_edge_count(sel) == 0);
    assert(spec_edge_count(desel) == 0);
    assert(spec_edge_placement(sel, p, p));
    assert(spec_edge_placement(desel, p, p));
    lemma_edge_placement_concat(sel, cycles, p, p);
    lemma_edge_count_concat(sel, cycles);
    assert((2 * spec_op_len(op)) % 2 == 0) by (nonlinear_arith);
    lemma_edge_placement_concat(sel + cycles, desel, p, p);
    lemma_edge_count_concat(sel + cycles, desel);
}

/// The steps of one clock cycle on the on-board-computer bus.
pub open spec fn spec_obc_cycle(mosi: Option<bool>, sample: bool) -> Seq<BusStep> {
    match mosi {
        Some(l) => if sample {
            seq![BusStep::Mosi(l), BusStep::ToggleSck, BusStep::Delay(80), BusStep::SampleMiso, BusStep::ToggleSck]
        } else {
            seq![BusStep::Mosi(l), BusStep::ToggleSck, BusStep::Delay(80), BusStep::ToggleSck]
        },
        None => seq![BusStep::ToggleSck, BusStep::Delay(40), BusStep::SampleMiso, BusStep::ToggleSck],
    }
}

/// The steps of the first `k` cycles of an on-board-computer transaction of
/// `len` cycles, sending `data` when it is given.
pub open spec fn spec_obc_cycles(len: u8, data: Option<u32>, sample: bool, k: nat) -> Seq<BusStep>
    decreases k,
{
    if k == 0 {
        Seq::empty()
    } else {
        spec_obc_cycles(len, data, sample, (k - 1) as nat) + spec_obc_cycle(
            match data {
                Some(d) => Some(spec_obc_mosi_level(len, d, (k - 1) as u8)),
                None => None,
            },
            sample,
        )
    }
}

/// Appends the steps of one on-board-computer clock cycle.
fn push_obc_cycle(steps: &mut Vec<BusStep>, mosi: Option<bool>, sample: bool)
    ensures
        final(steps)@ == old(steps)@ + spec_obc_cycle(mosi, sample),
{
    let ghost start = steps@;
    match mosi {
        Some(l) => {
            steps.push(BusStep::Mosi(l));
            steps.push(BusStep::ToggleSck);
            steps.push(BusStep::Delay(80));
            if sample {
                steps.push(BusStep::SampleMiso);
            }
            steps.push(BusStep::ToggleSck);
        },
        None => {
            steps.push(BusStep::ToggleSck);
            steps.push(BusStep::Delay(40));
            steps.push(BusStep::SampleMiso);
            steps.push(BusStep::ToggleSck);
        },
    }
    assert(steps@ =~= start + spec_obc_cycle(mosi, sample));
}

/// The steps of an on-board-computer transaction of `len` cycles.
fn obc_steps(len: u8, data: Option<u32>, sample: bool) -> (steps: Vec<BusStep>)
    requires
        data is Some ==> len <= 32,
        data is None ==> sample,
    ensures
        steps@ == spec_obc_cycles(len, data, sample, len as nat),
{
    let mut steps: Vec<BusStep> = Vec::new();
    let mut pos: u8 = 0;
    while pos < len
        invariant
            data is Some ==> len <= 32,
            data is None ==> sample,
            pos <= len,
            steps@ == spec_obc_cycles(len, data, sample, pos as nat),
        decreases len - pos,
    {
        let mosi = match data {
            Some(d) => Some(obc_mosi_level(len, d, pos)),
            None => None,
        };
        push_obc_cycle(&mut steps, mosi, sample);
        pos += 1;
    }
    steps
}

/// The first `k` cycles of a full-duplex on-board-computer transaction,
/// looped back, sample exactly the levels they send.
proof fn lemma_obc_cycles_loopback(len: u8, data: u32, k: nat, mosi: bool)
    requires
        k <= len,
    ensures
        spec_loopback(spec_obc_cycles(len, Some(data), true, k), mosi) == Seq::new(
            k,
            |i: int| spec_obc_mosi_level(len, data, i as u8),
        ),
    decreases k,
{
    if k == 0 {
        assert(spec_loopback(spec_obc_cycles(len, Some(data), true, 0), mosi) =~= Seq::<bool>::empty());
        assert(Seq::new(0, |i: int| spec_obc_mosi_level(len, data, i as u8)) =~= Seq::<bool>::empty());
    } else {
        let prev = spec_obc_cycles(len, Some(data), true, (k - 1) as nat);
        let l = spec_obc_mosi_level(len, data, (k - 1) as u8);
        let cycle = spec_obc_cycle(Some(l), true);
        lemma_obc_cycles_loopback(len, data, (k - 1) as nat, mosi);
        lemma_loopback_concat(prev, cycle, mosi);
        reveal_with_fuel(spec_loopback, 6);
        assert(spec_loopback(cycle, spec_final_mosi(prev, mosi)) =~= seq![l]);
        assert(Seq::new(k, |i: int| spec_obc_mosi_level(len, data, i as u8)) =~= Seq::new(
            (k - 1) as nat,
            |i: int| spec_obc_mosi_level(len, data, i as u8),
        ) + seq![l]);
    }
}

/// Law: a full-duplex on-board-computer transaction whose MISO is wired to
/// MOSI receives exactly the frame it sends (its `len` low bits).
pub proof fn obc_transaction_loopback(len: u8, data: u32, mosi: bool)
    requires
        1 <= len <= 32,
    ensures
        spec_assemble(spec_loopback(spec_obc_cycles(len, Some(data), true, len as nat), mosi)) == low_bits(
            data,
            len as u32,
        ),
{
    lemma_obc_cycles_loopback(len, data, len as nat, mosi);
    let levels = Seq::new(len as nat, |i: int| spec_obc_mosi_level(len, data, i as u8));
    payload_frame_loopback(SpiFrame { len, data }, levels);
}

/// A bit-banged bus to the on-board computer.
pub trait OBCSPI {
    /// Steps that send `len` bits of `data`.
    fn send(&self, len: u8, data: u32) -> (steps: Vec<BusStep>)
        requires
            len <= 32,
        ensures
            steps@ == spec_obc_cycles(len, Some(data), false, len as nat),
    ;

    /// Steps that receive `len` bits.
    fn receive(&self, len: u8) -> (steps: Vec<BusStep>)
        ensures
            steps@ == spec_obc_cycles(len, None, true, len as nat),
    ;

    /// Steps that send `len` bits of `data` while receiving as many.
    fn send_receive(&self, len: u8, data: u32) -> (steps: Vec<BusStep>)
        requires
            len <= 32,
        ensures
            steps@ == spec_obc_cycles(len, Some(data), true, len as nat),
    ;
}

impl<Miso, Mosi, Sck, Cs, CsInterrupt> OBCSPI for OBCSPIBitBang<Miso, Mosi, Sck, Cs, CsInterrupt> {
    fn send(&self, len: u8, data: u32) -> (steps: Vec<BusStep>) {
        obc_steps(len, Some(data), false)
    }

    fn receive(&self, len: u8) -> (steps: Vec<BusStep>) {
        obc_steps(len, None, true)
    }

    fn send_receive(&self, len: u8, data: u32) -> (steps: Vec<BusStep>) {
        obc_steps(len, Some(data), true)
    }
}

} // verus!
