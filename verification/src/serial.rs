//! Debug serial port: the writer wrapper, text colours, and the decisions
//! behind reading from the port — waiting for a packet, a character or a
//! string, and reading a decimal number typed by the user.
//!
//! Reading is blocking on the device: the caller polls the port and hands
//! each received byte to a reader, which says when it is done. The `wait_for_*`
//! and `maybe_read_num` functions give the same answer for a whole sequence
//! of received bytes at once.
use vstd::prelude::*;

verus! {

pub const ASCII_ZERO: u8 = 48;
pub const ASCII_NINE: u8 = 57;
pub const CARRIAGE_RETURN: u8 = 13;
pub const NEGATIVE_SIGN: u8 = 45;

/// Colours for highlighted output.
#[derive(Clone, Copy, Debug, PartialEq, Eq, Structural)]
pub enum TextColours {
    Red,
    Green,
    Yellow,
}

impl TextColours {
    /// The ANSI SGR foreground code of the colour (`ESC [ code m`).
    pub fn ansi_code(&self) -> (code: u8)
        ensures
            *self == TextColours::Red ==> code == 31,
            *self == TextColours::Green ==> code == 32,
            *self == TextColours::Yellow ==> code == 33,
    {
        match self {
            TextColours::Red => 31,
            TextColours::Green => 32,
            TextColours::Yellow => 33,
        }
    }
}

/// Wraps the transmit half of a serial port so text can be written to it.
pub struct SerialWriter<Tx> {
    serial: Tx,
}

impl<Tx> SerialWriter<Tx> {
    /// The wrapped port.
    pub closed spec fn port(&self) -> Tx {
        self.serial
    }

    pub fn new(serial: Tx) -> (writer: SerialWriter<Tx>)
        ensures
            writer.port() == serial,
    {
        SerialWriter { serial }
    }

    /// Consumes the writer and returns the port.
    pub fn return_pin(self) -> (serial: Tx)
        ensures
            serial == self.port(),
    {
        self.serial
    }
}

/// Whether a byte is an ASCII decimal digit.
pub open spec fn spec_is_ascii_number(c: u8) -> bool {
    ASCII_ZERO <= c <= ASCII_NINE
}

/// Whether a byte is an ASCII decimal digit.
pub fn is_ascii_number(c: u8) -> (b: bool)
    ensures
        b == spec_is_ascii_number(c),
{
    ASCII_ZERO <= c && c <= ASCII_NINE
}

/// The first successful read among a sequence of polls, with the number of
/// polls it took: what blocking until any packet arrives returns.
pub open spec fn spec_first_packet(polls: Seq<Option<u8>>) -> Option<(u8, nat)>
    decreases polls.len(),
{
    if polls.len() == 0 {
        None
    } else {
        match polls[0] {
            Some(b) => Some((b, 1nat)),
            None => match spec_first_packet(polls.drop_first()) {
                Some((b, n)) => Some((b, n + 1)),
                None => None,
            },
        }
    }
}

/// Blocks (over the given polls of the port) until any packet is received:
/// returns the packet and how many polls were used, or `None` when none of
/// these polls succeeded.
pub fn wait_for_any_packet(polls: &Vec<Option<u8>>) -> (r: Option<(u8, usize)>)
    ensures
        match r {
            Some((b, n)) => spec_first_packet(polls@) == Some((b, n as nat)),
            None => spec_first_packet(polls@) is None,
        },
{
    let mut i: usize = 0;
    assert(polls@.skip(0) =~= polls@);
    while i < polls.len()
        invariant
            i <= polls.len(),
            forall|j: int| 0 <= j < i ==> polls@[j] is None,
            spec_first_packet(polls@) == match spec_first_packet(polls@.skip(i as int)) {
                Some((b, n)) => Some((b, (n + i) as nat)),
                None => None,
            },
        decreases polls.len() - i,
    {
        assert(polls@.skip(i as int).drop_first() =~= polls@.skip(i + 1));
        match polls[i] {
            Some(b) => {
                return Some((b, i + 1));
            },
            None => {},
        }
        i += 1;
    }
    assert(polls@.skip(i as int) =~= Seq::<Option<u8>>::empty());
    None
}

/// Number of bytes of `received` read until `wanted_char` arrives.
pub open spec fn spec_char_position(wanted_char: u8, received: Seq<u8>) -> Option<nat>
    decreases received.len(),
{
    if received.len() == 0 {
        None
    } else if received[0] == wanted_char {
        Some(1nat)
    } else {
        match spec_char_position(wanted_char, received.drop_first()) {
            Some(n) => Some(n + 1),
            None => None,
        }
    }
}

/// Blocks until `wanted_char` is received: the number of bytes of `received`
/// read up to and including it, or `None` when it has not arrived.
pub fn wait_for_character(wanted_char: u8, received: &[u8]) -> (r: Option<usize>)
    ensures
        match r {
            Some(n) => spec_char_position(wanted_char, received@) == Some(n as nat),
            None => spec_char_position(wanted_char, received@) is None,
        },
        r matches Some(n) ==> 1 <= n <= received@.len() && received@[n - 1] == wanted_char && forall|k: int|
            0 <= k < n - 1 ==> received@[k] != wanted_char,
        r is None ==> forall|k: int| 0 <= k < received@.len() ==> received@[k] != wanted_char,
{
    proof {
        wait_stops_at_first_match(wanted_char, received@);
    }
    let mut i: usize = 0;
    assert(received@.skip(0) =~= received@);
    while i < received.len()
        invariant
            i <= received.len(),
            spec_char_position(wanted_char, received@) == match spec_char_position(
                wanted_char,
                received@.skip(i as int),
            ) {
                Some(n) => Some((n + i) as nat),
                None => None,
            },
        decreases received.len() - i,
    {
        assert(received@.skip(i as int).drop_first() =~= received@.skip(i + 1));
        if received[i] == wanted_char {
            proof {
                wait_stops_at_first_match(wanted_char, received@);
            }
            return Some(i + 1);
        }
        i += 1;
    }
    assert(received@.skip(i as int) =~= Seq::<u8>::empty());
    None
}

/// Law: waiting for a character stops at its first arrival: the count is the
/// position of the first byte equal to it (counting from one), every byte
/// before it differs from it, and there is no count when no byte equals it.
pub proof fn wait_stops_at_first_match(wanted_char: u8, received: Seq<u8>)
    ensures
        spec_char_position(wanted_char, received) matches Some(n) ==> 1 <= n <= received.len() && received[n - 1]
            == wanted_char && forall|k: int| 0 <= k < n - 1 ==> received[k] != wanted_char,
        spec_char_position(wanted_char, received) is None ==> forall|k: int|
            0 <= k < received.len() ==> received[k] != wanted_char,
    decreases received.len(),
{
    if received.len() > 0 && received[0] != wanted_char {
        let rest = received.drop_first();
        wait_stops_at_first_match(wanted_char, rest);
        assert forall|k: int| 1 <= k < received.len() implies received[k] == rest[k - 1] by {}
    }
}

/// How many characters of `wanted` have been matched, in order, after
/// `received`: each received byte that equals the next wanted character
/// advances the match; other bytes are skipped.
pub open spec fn spec_string_progress(wanted: Seq<u8>, received: Seq<u8>) -> nat
    decreases received.len(),
{
    if received.len() == 0 {
        0
    } else {
        let before = spec_string_progress(wanted, received.drop_last());
        if before < wanted.len() && received.last() == wanted[before as int] {
            before + 1
        } else {
            before
        }
    }
}

/// Waits for the characters of a string, in order.
pub struct StringWaiter {
    wanted: Vec<u8>,
    matched: usize,
}

impl StringWaiter {
    /// Characters still to be matched.
    pub closed spec fn wanted(&self) -> Seq<u8> {
        self.wanted@
    }

    /// Number of characters matched so far.
    pub closed spec fn matched(&self) -> nat {
        self.matched as nat
    }

    /// Well-formedness: never more matched than wanted.
    pub closed spec fn wf(&self) -> bool {
        self.matched <= self.wanted.len()
    }

    /// Starts waiting for `wanted`.
    pub fn new(wanted: &[u8]) -> (w: StringWaiter)
        ensures
            w.wf(),
            w.wanted() == wanted@,
            w.matched() == 0,
    {
        let mut v: Vec<u8> = Vec::new();
        let mut i: usize = 0;
        while i < wanted.len()
            invariant
                i <= wanted.len(),
                v@ == wanted@.subrange(0, i as int),
            decreases wanted.len() - i,
        {
            v.push(wanted[i]);
            i += 1;
        }
        assert(wanted@.subrange(0, wanted.len() as int) =~= wanted@);
        StringWaiter { wanted: v, matched: 0 }
    }

    /// Whether the whole string has been received.
    pub fn is_done(&self) -> (done: bool)
        requires
            self.wf(),
        ensures
            done == (self.matched() == self.wanted().len()),
    {
        self.matched == self.wanted.len()
    }

    /// Handles one received byte.
    pub fn feed(&mut self, byte: u8)
        requires
            old(self).wf(),
        ensures
            final(self).wf(),
            final(self).wanted() == old(self).wanted(),
            final(self).matched() == (if old(self).matched() < old(self).wanted().len() && byte
                == old(self).wanted()[old(self).matched() as int] {
                old(self).matched() + 1
            } else {
                old(self).matched()
            }),
    {
        if self.matched < self.wanted.len() && byte == self.wanted[self.matched] {
            self.matched = self.matched + 1;
        }
    }
}

/// Blocks until the characters of `wanted` have been received in order: the
/// number of bytes of `received` read by then, or `None` when the string is
/// not complete.
pub fn wait_for_string(wanted: &[u8], received: &[u8]) -> (r: Option<usize>)
    ensures
        match r {
            Some(n) => {
                &&& n <= received.len()
                &&& spec_string_progress(wanted@, received@.take(n as int)) == wanted.len()
                &&& forall|k: int| 0 <= k < n ==> spec_string_progress(wanted@, #[trigger] received@.take(k)) < wanted.len()
            },
            None => forall|k: int|
                0 <= k <= received.len() ==> spec_string_progress(wanted@, #[trigger] received@.take(k)) < wanted.len(),
        },
{
    let mut waiter = StringWaiter::new(wanted);
    let mut i: usize = 0;
    assert(received@.take(0) =~= Seq::<u8>::empty());
    while i < received.len()
        invariant
            waiter.wf(),
            waiter.wanted() == wanted@,
            i <= received.len(),
            waiter.matched() == spec_string_progress(wanted@, received@.take(i as int)),
            forall|k: int| 0 <= k < i ==> spec_string_progress(wanted@, #[trigger] received@.take(k)) < wanted.len(),
        decreases received.len() - i,
    {
        if waiter.is_done() {
            return Some(i);
        }
        assert(received@.take(i + 1).drop_last() =~= received@.take(i as int));
        waiter.feed(received[i]);
        i += 1;
    }
    if waiter.is_done() {
        Some(i)
    } else {
        None
    }
}

/// State of reading a number typed by the user.
#[derive(Clone, Copy, Debug, PartialEq, Eq, Structural)]
pub enum NumberState {
    /// Nothing received yet.
    Start,
    /// A minus sign received, no digit yet.
    Signed,
    /// Digits received; `value` is the magnitude so far.
    Reading { negative: bool, value: i32 },
    /// Finished: the number, or `None` if the input was invalid.
    Done(Option<i32>),
}

/// The state after receiving one more byte. The first byte may be a minus
/// sign; a carriage return after at least one digit ends the number; a
/// carriage return before any digit, any other byte that is not a digit, or
/// a magnitude beyond `i32::MAX` gives `None`. Once done, further bytes are
/// not read.
pub open spec fn spec_number_step(s: NumberState, b: u8) -> NumberState {
    match s {
        NumberState::Start => if b == NEGATIVE_SIGN {
            NumberState::Signed
        } else if spec_is_ascii_number(b) {
            NumberState::Reading { negative: false, value: (b - ASCII_ZERO) as i32 }
        } else {
            NumberState::Done(None)
        },
        NumberState::Signed => if spec_is_ascii_number(b) {
            NumberState::Reading { negative: true, value: (b - ASCII_ZERO) as i32 }
        } else {
            NumberState::Done(None)
        },
        NumberState::Reading { negative, value } => if b == CARRIAGE_RETURN {
            NumberState::Done(Some((if negative { -value } else { value as int }) as i32))
        } else if spec_is_ascii_number(b) {
            if value * 10 + (b - ASCII_ZERO) <= i32::MAX {
                NumberState::Reading { negative, value: (value * 10 + (b - ASCII_ZERO)) as i32 }
            } else {
                NumberState::Done(None)
            }
        } else {
            NumberState::Done(None)
        },
        NumberState::Done(r) => NumberState::Done(r),
    }
}

/// The state after receiving `bytes` from the start.
pub open spec fn spec_number_run(bytes: Seq<u8>) -> NumberState
    decreases bytes.len(),
{
    if bytes.len() == 0 {
        NumberState::Start
    } else {
        spec_number_step(spec_number_run(bytes.drop_last()), bytes.last())
    }
}

/// Whether a state keeps a magnitude that is a valid non-negative `i32`.
pub open spec fn spec_state_ok(s: NumberState) -> bool {
    match s {
        NumberState::Reading { negative, value } => value >= 0,
        _ => true,
    }
}

/// Reads a number one received byte at a time.
pub struct NumberReader {
    pub state: NumberState,
}

impl NumberReader {
    pub fn new() -> (r: NumberReader)
        ensures
            r.state == NumberState::Start,
    {
        NumberReader { state: NumberState::Start }
    }

    /// Handles one received byte.
    pub fn feed(&mut self, byte: u8)
        requires
            spec_state_ok(old(self).state),
        ensures
            final(self).state == spec_number_step(old(self).state, byte),
            spec_state_ok(final(self).state),
    {
        let next = match self.state {
            NumberState::Start => {
                if byte == NEGATIVE_SIGN {
                    NumberState::Signed
                } else if is_ascii_number(byte) {
                    NumberState::Reading { negative: false, value: (byte - ASCII_ZERO) as i32 }
                } else {
                    NumberState::Done(None)
                }
            },
            NumberState::Signed => {
                if is_ascii_number(byte) {
                    NumberState::Reading { negative: true, value: (byte - ASCII_ZERO) as i32 }
                } else {
                    NumberState::Done(None)
                }
            },
            NumberState::Reading { negative, value } => {
                if byte == CARRIAGE_RETURN {
                    NumberState::Done(Some(if negative { -value } else { value }))
                } else if is_ascii_number(byte) {
                    let digit: i32 = (byte - ASCII_ZERO) as i32;
                    if value <= (i32::MAX - digit) / 10 {
                        assert(value * 10 + digit <= i32::MAX) by (nonlinear_arith)
                            requires
                                0 <= digit <= 9,
                                value <= (i32::MAX - digit) / 10,
                        ;
                        NumberState::Reading { negative, value: value * 10 + digit }
                    } else {
                        assert(value * 10 + digit > i32::MAX) by (nonlinear_arith)
                            requires
                                0 <= digit <= 9,
                                value > (i32::MAX - digit) / 10,
                        ;
                        NumberState::Done(None)
                    }
                } else {
                    NumberState::Done(None)
                }
            },
            NumberState::Done(r) => NumberState::Done(r),
        };
        self.state = next;
    }

    /// The number, once reading has finished.
    pub fn result(&self) -> (r: Option<Option<i32>>)
        ensures
            match self.state {
                NumberState::Done(n) => r == Some(n),
                _ => r is None,
            },
    {
        match self.state {
            NumberState::Done(n) => Some(n),
            _ => None,
        }
    }
}

/// Queries the user for a number: the result once `received` ends it
/// (`Some(None)` when the input is invalid, including a number whose
/// magnitude exceeds `i32::MAX`; `Some(Some(n))` for a number), or `None`
/// when `received` does not finish it.
pub fn maybe_read_num(received: &[u8]) -> (r: Option<Option<i32>>)
    ensures
        match spec_number_run(received@) {
            NumberState::Done(n) => r == Some(n),
            _ => r is None,
        },
{
    let mut reader = NumberReader::new();
    let mut i: usize = 0;
    assert(received@.take(0) =~= Seq::<u8>::empty());
    while i < received.len()
        invariant
            i <= received.len(),
            reader.state == spec_number_run(received@.take(i as int)),
            spec_state_ok(reader.state),
        decreases received.len() - i,
    {
        assert(received@.take(i + 1).drop_last() =~= received@.take(i as int));
        reader.feed(received[i]);
        i += 1;
    }
    assert(received@.take(i as int) =~= received@);
    reader.result()
}

/// The value of a string of decimal digits.
pub open spec fn spec_decimal(digits: Seq<u8>) -> int
    decreases digits.len(),
{
    if digits.len() == 0 {
        0
    } else {
        spec_decimal(digits.drop_last()) * 10 + (digits.last() - ASCII_ZERO)
    }
}

/// Whether every byte is a decimal digit.
pub open spec fn spec_all_digits(digits: Seq<u8>) -> bool {
    forall|i: int| 0 <= i < digits.len() ==> spec_is_ascii_number(#[trigger] digits[i])
}

proof fn lemma_decimal_nonneg_monotone(digits: Seq<u8>)
    requires
        spec_all_digits(digits),
    ensures
        spec_decimal(digits) >= 0,
        digits.len() > 0 ==> spec_decimal(digits) >= spec_decimal(digits.drop_last()),
    decreases digits.len(),
{
    if digits.len() > 0 {
        assert(spec_is_ascii_number(digits[digits.len() - 1]));
        lemma_decimal_nonneg_monotone(digits.drop_last());
    }
}

proof fn lemma_sign_run()
    ensures
        spec_number_run(seq![NEGATIVE_SIGN]) == NumberState::Signed,
{
    let s = seq![NEGATIVE_SIGN];
    assert(s.drop_last() =~= Seq::<u8>::empty());
    assert(spec_number_run(s.drop_last()) == NumberState::Start);
    assert(s.last() == NEGATIVE_SIGN);
}

proof fn lemma_digits_run(prefix: Seq<u8>, digits: Seq<u8>, negative: bool)
    requires
        prefix == (if negative { seq![NEGATIVE_SIGN] } else { Seq::<u8>::empty() }),
        digits.len() >= 1,
        spec_all_digits(digits),
        spec_decimal(digits) <= i32::MAX,
    ensures
        spec_number_run(prefix + digits) == (NumberState::Reading { negative, value: spec_decimal(digits) as i32 }),
    decreases digits.len(),
{
    let s = prefix + digits;
    let d = digits.drop_last();
    lemma_decimal_nonneg_monotone(digits);
    lemma_decimal_nonneg_monotone(d);
    assert(spec_all_digits(d));
    assert(spec_is_ascii_number(digits.last()));
    assert(s.drop_last() =~= prefix + d);
    assert(spec_decimal(digits) == spec_decimal(d) * 10 + (digits.last() - ASCII_ZERO));
    assert(s.last() == digits.last());
    if d.len() == 0 {
        assert(spec_decimal(d) == 0);
        if negative {
            assert(prefix + d =~= seq![NEGATIVE_SIGN]);
            lemma_sign_run();
            assert(spec_number_run(prefix + d) == NumberState::Signed);
        } else {
            assert(prefix + d =~= Seq::<u8>::empty());
            assert(spec_number_run(prefix + d) == NumberState::Start);
        }
    } else {
        lemma_digits_run(prefix, d, negative);
    }
}

/// Law: typing a decimal number of at least one digit (optionally preceded by
/// a minus sign) and a carriage return reads back that number when its
/// magnitude fits an `i32`.
pub proof fn read_num_round_trip(digits: Seq<u8>, negative: bool)
    requires
        digits.len() >= 1,
        spec_all_digits(digits),
        spec_decimal(digits) <= i32::MAX,
    ensures
        spec_number_run((if negative { seq![NEGATIVE_SIGN] } else { Seq::<u8>::empty() }) + digits + seq![
            CARRIAGE_RETURN,
        ]) == NumberState::Done(Some((if negative { -spec_decimal(digits) } else { spec_decimal(digits) }) as i32)),
{
    let prefix = if negative { seq![NEGATIVE_SIGN] } else { Seq::<u8>::empty() };
    lemma_digits_run(prefix, digits, negative);
    lemma_decimal_nonneg_monotone(digits);
    let body = prefix + digits;
    let typed = body + seq![CARRIAGE_RETURN];
    assert(typed.drop_last() =~= body);
}

proof fn lemma_done_persists(a: Seq<u8>, rest: Seq<u8>)
    requires
        spec_number_run(a) is Done,
    ensures
        spec_number_run(a + rest) == spec_number_run(a),
    decreases rest.len(),
{
    if rest.len() == 0 {
        assert(a + rest =~= a);
    } else {
        lemma_done_persists(a, rest.drop_last());
        assert((a + rest).drop_last() =~= a + rest.drop_last());
    }
}

proof fn lemma_overflow_run(prefix: Seq<u8>, digits: Seq<u8>, negative: bool)
    requires
        prefix == (if negative { seq![NEGATIVE_SIGN] } else { Seq::<u8>::empty() }),
        spec_all_digits(digits),
        spec_decimal(digits) > i32::MAX,
    ensures
        spec_number_run(prefix + digits) == NumberState::Done(None),
    decreases digits.len(),
{
    let d = digits.drop_last();
    let s = prefix + digits;
    assert(spec_all_digits(d));
    assert(spec_is_ascii_number(digits.last()));
    assert(s.drop_last() =~= prefix + d);
    lemma_decimal_nonneg_monotone(d);
    assert(spec_decimal(digits) == spec_decimal(d) * 10 + (digits.last() - ASCII_ZERO));
    assert(s.last() == digits.last());
    if spec_decimal(d) > i32::MAX {
        lemma_overflow_run(prefix, d, negative);
    } else {
        assert(d.len() >= 1);
        lemma_digits_run(prefix, d, negative);
    }
}

/// Law: a minus sign followed by a carriage return, or a number whose
/// magnitude exceeds `i32::MAX`, reads as invalid input, whatever follows.
pub proof fn read_num_rejects(digits: Seq<u8>, negative: bool, rest: Seq<u8>)
    requires
        spec_all_digits(digits),
        digits.len() == 0 ==> negative && rest.len() >= 1 && rest[0] == CARRIAGE_RETURN,
        digits.len() >= 1 ==> spec_decimal(digits) > i32::MAX,
    ensures
        spec_number_run((if negative { seq![NEGATIVE_SIGN] } else { Seq::<u8>::empty() }) + digits + rest)
            == NumberState::Done(None),
{
    let prefix = if negative { seq![NEGATIVE_SIGN] } else { Seq::<u8>::empty() };
    if digits.len() == 0 {
        let head = seq![NEGATIVE_SIGN, CARRIAGE_RETURN];
        assert(head.drop_last() =~= seq![NEGATIVE_SIGN]);
        assert(seq![NEGATIVE_SIGN].drop_last() =~= Seq::<u8>::empty());
        lemma_sign_run();
        assert(head.last() == CARRIAGE_RETURN);
        assert(spec_number_run(head) == NumberState::Done(None));
        lemma_done_persists(head, rest.drop_first());
        assert(prefix + digits + rest =~= head + rest.drop_first());
    } else {
        lemma_overflow_run(prefix, digits, negative);
        lemma_done_persists(prefix + digits, rest);
    }
}

/// Law: receiving exactly the wanted string completes the wait for it.
pub proof fn wait_for_string_accepts_itself(wanted: Seq<u8>)
    ensures
        spec_string_progress(wanted, wanted) == wanted.len(),
{
    lemma_progress_prefix(wanted, wanted.len() as int);
    assert(wanted.take(wanted.len() as int) =~= wanted);
}

proof fn lemma_progress_prefix(wanted: Seq<u8>, k: int)
    requires
        0 <= k <= wanted.len(),
    ensures
        spec_string_progress(wanted, wanted.take(k)) == k,
    decreases k,
{
    if k > 0 {
        lemma_progress_prefix(wanted, k - 1);
        assert(wanted.take(k).drop_last() =~= wanted.take(k - 1));
    } else {
        assert(wanted.take(0) =~= Seq::<u8>::empty());
    }
}

/// The first `count` decimal digits of the fraction `frac / 2^32`, stopping
/// early once the remaining fraction is zero.
pub open spec fn spec_fraction_digits(frac: int, count: nat) -> Seq<u8>
    decreases count,
{
    if count == 0 || frac == 0 {
        Seq::empty()
    } else {
        seq![((frac * 10) / 4294967296) as u8] + spec_fraction_digits((frac * 10) % 4294967296, (count - 1) as nat)
    }
}

/// A `Q32` fixed-point number (raw bits) to be printed in decimal.
pub struct PrintableFixedI64 {
    pub bits: i64,
}

/// How a `Q32` number prints: its sign, the integer part of its magnitude,
/// and up to ten decimal digits of the fraction.
pub struct DecimalParts {
    pub negative: bool,
    pub integer: i32,
    pub fraction_digits: Vec<u8>,
}

impl PrintableFixedI64 {
    /// The parts printed for the number: `-` for a negative number (then its
    /// magnitude is printed), the integer part, then fraction digits until the
    /// fraction runs out or ten have been printed. The minimum `Q32` value has
    /// no magnitude and is refused.
    pub fn decimal_parts(&self) -> (parts: DecimalParts)
        requires
            self.bits != i64::MIN,
        ensures
            parts.negative == (self.bits < 0),
            parts.integer == crate::fixed_point::abs_int(self.bits as int) / 4294967296,
            parts.fraction_digits@ == spec_fraction_digits(
                crate::fixed_point::abs_int(self.bits as int) % 4294967296,
                10,
            ),
    {
        let negative = self.bits < 0;
        let magnitude = if negative {
            crate::fixed_point::q32_mul_int(self.bits, -1)
        } else {
            self.bits
        };
        let integer = crate::fixed_point::q32_to_i32(magnitude);
        let frac_bits = crate::fixed_point::q32_frac(magnitude);
        let mut frac: u64 = frac_bits as u64;
        let mut digits: Vec<u8> = Vec::new();
        let mut precision: u8 = 0;
        while frac != 0 && precision < 10
            invariant
                precision <= 10,
                frac < 4294967296,
                digits@ + spec_fraction_digits(frac as int, (10 - precision) as nat) == spec_fraction_digits(
                    frac_bits as int,
                    10,
                ),
            decreases 10 - precision,
        {
            let scaled: u64 = frac * 10;
            let digit: u64 = scaled >> 32u64;
            let rest: u64 = scaled & 0xFFFF_FFFF;
            assert(digit == scaled / 4294967296 && rest == scaled % 4294967296) by (bit_vector)
                requires
                    digit == scaled >> 32u64,
                    rest == scaled & 0xFFFF_FFFF,
            ;
            assert(digit < 10);
            let ghost before = digits@;
            digits.push(digit as u8);
            assert(digits@ =~= before + seq![digit as u8]);
            assert(spec_fraction_digits(frac as int, (10 - precision) as nat) =~= seq![digit as u8]
                + spec_fraction_digits(rest as int, (10 - precision - 1) as nat));
            assert(digits@ + spec_fraction_digits(rest as int, (10 - precision - 1) as nat) =~= before
                + spec_fraction_digits(frac as int, (10 - precision) as nat));
            frac = rest;
            precision += 1;
        }
        assert(spec_fraction_digits(frac as int, (10 - precision) as nat) =~= Seq::<u8>::empty());
        assert(digits@ =~= spec_fraction_digits(frac_bits as int, 10));
        DecimalParts { negative, integer, fraction_digits: digits }
    }
}

} // verus!
