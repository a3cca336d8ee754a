//! What holds of the driver's state machine in every state and for every
//! response.

use vstd::prelude::*;
use crate::lowlevel::access::Access;
use crate::lowlevel::registers::{Command, Register, Status, StatusByte, StatusField};
use crate::lowlevel::types::MachineState;
use crate::lowlevel::{blanks, spec_fifo_frame, spec_read_frame, spec_strobe_frame};
use crate::machine::{Error, Machine, Move, Outcome, Phase, Probe, Reply, Wait};
use crate::types::RadioMode;

verus! {

/// The machine state that a response to a poll reports, if its code
/// stands for one.
pub open spec fn reported(response: Seq<u8>) -> Option<MachineState> {
    match MachineState::decode(StatusField::MARCSTATE_MARC_STATE.spec_read(response[1])) {
        Ok(state) => Some(state),
        Err(_) => None,
    }
}

/// The polls that a wait may still take after `polls` were made.
pub open spec fn polls_left(m: Machine, polls: u32) -> nat {
    if polls <= m.poll_limit {
        (m.poll_limit - polls) as nat
    } else {
        0
    }
}

/// The most exchanges that the operation in flight can still take, the
/// one in flight included.
pub open spec fn budget(m: Machine) -> nat {
    let limit = m.poll_limit as nat;
    match m.phase {
        Phase::Ready => 0,
        Phase::Strobe(_) => 1 + m.queue.len(),
        Phase::Write => 1 + m.queue.len(),
        Phase::Modify(_) => 2 + m.queue.len(),
        Phase::Read(Probe::PartNum) => 2,
        Phase::Read(_) => 1,
        Phase::Fifo { .. } => 1,
        Phase::Leave(_) => 2 * limit + 2,
        Phase::Await(Wait::Left(_), polls) => 1 + polls_left(m, polls) + 1 + limit,
        Phase::Enter(_) => 1 + limit,
        Phase::Await(Wait::Entered(_), polls) => 1 + polls_left(m, polls),
        Phase::Settle { polls, .. } => 1 + polls_left(m, polls) + limit + 3,
        Phase::Drain { .. } => limit + 3,
        Phase::Quality { .. } => limit + 2,
        Phase::Await(Wait::Drained { .. }, polls) => 1 + polls_left(m, polls) + 1,
        Phase::Flush(_) => 1,
    }
}

/// With every exchange that the driver asks for, the number of exchanges
/// that the operation can still take goes down. The driver is ready again
/// exactly when it asks for no further exchange.
pub proof fn lemma_every_exchange_counts(m: Machine, response: Seq<u8>)
    ensures
        m.advance(response).1 is Exchange ==> budget(m.advance(response).0) < budget(m),
        m.advance(response).1 is Exchange <==> !(m.advance(response).0.phase is Ready),
        budget(m) <= 2 * m.poll_limit + 4 + m.queue.len(),
        budget(m) == 0 <==> m.phase is Ready,
{
    if m.phase is Ready || response.len() != m.awaited() {
    } else {
        match m.phase {
            Phase::Strobe(command) => {
                let s = m.strobed(command, response);
                if s.queue.len() > 0 {
                    assert(s.queue.drop_first().len() == s.queue.len() - 1);
                }
            },
            Phase::Write => {
                let s = m.heard(response);
                if s.queue.len() > 0 {
                    assert(s.queue.drop_first().len() == s.queue.len() - 1);
                }
            },
            _ => {},
        }
    }
}

/// What the driver does when `responses` come back one after the other,
/// from the state `m` in which it has just made the move `mv`: the state
/// in which it stops, the frames that it has sent, and its last move. It
/// stops when the operation has ended, or when it has asked for an
/// exchange and no response is left.
pub open spec fn run(m: Machine, mv: Move, responses: Seq<Seq<u8>>) -> (
    Machine,
    Seq<Seq<u8>>,
    Move,
)
    decreases responses.len(),
{
    match mv {
        Move::Exchange(frame) => if responses.len() == 0 {
            (m, seq![frame], mv)
        } else {
            let next = m.advance(responses[0]);
            let rest = run(next.0, next.1, responses.drop_first());
            (rest.0, seq![frame] + rest.1, rest.2)
        },
        _ => (m, Seq::empty(), mv),
    }
}

/// No wait is unbounded: whatever the chip answers, an operation ends
/// after at most `budget` exchanges, a poll loop with a time-out at the
/// latest.
pub proof fn lemma_operation_ends(m: Machine, mv: Move, responses: Seq<Seq<u8>>)
    requires
        mv is Exchange ==> !(m.phase is Ready),
        responses.len() >= budget(m),
    ensures
        !(run(m, mv, responses).2 is Exchange),
        run(m, mv, responses).0.phase is Ready || !(mv is Exchange),
        run(m, mv, responses).1.len() <= budget(m),
    decreases responses.len(),
{
    match mv {
        Move::Exchange(frame) => {
            lemma_every_exchange_counts(m, responses[0]);
            let next = m.advance(responses[0]);
            if next.1 is Exchange {
                lemma_operation_ends(next.0, next.1, responses.drop_first());
            }
        },
        _ => {},
    }
}

/// A change of mode takes at most two strobes and twice the poll limit
/// of polls, whatever the chip answers.
pub proof fn lemma_mode_change_ends(m: Machine, mode: RadioMode, responses: Seq<Seq<u8>>)
    requires
        responses.len() >= 2 * m.poll_limit + 2,
    ensures
        !(run(m.set_radio_mode(mode).0, m.set_radio_mode(mode).1, responses).2 is Exchange),
        run(m.set_radio_mode(mode).0, m.set_radio_mode(mode).1, responses).1.len() <= 2
            * m.poll_limit + 2,
{
    lemma_operation_ends(m.set_radio_mode(mode).0, m.set_radio_mode(mode).1, responses);
}

/// A receive takes at most twice the poll limit of polls and four other
/// exchanges, whatever the chip answers.
pub proof fn lemma_receive_ends(m: Machine, len: usize, responses: Seq<Seq<u8>>)
    requires
        responses.len() >= 2 * m.poll_limit + 4,
    ensures
        !(run(m.receive(len).0, m.receive(len).1, responses).2 is Exchange),
        run(m.receive(len).0, m.receive(len).1, responses).1.len() <= 2 * m.poll_limit + 4,
{
    if m.receive(len).1 is Exchange {
        lemma_operation_ends(m.receive(len).0, m.receive(len).1, responses);
    }
}

/// The frame that polls the machine state.
pub open spec fn poll_frame() -> Seq<u8> {
    spec_read_frame(Register::Status(Status::MARCSTATE))
}

/// The same frame `n` times.
pub open spec fn repeated(frame: Seq<u8>, n: nat) -> Seq<Seq<u8>> {
    Seq::new(n, |i: int| frame)
}

/// Whether `polls` are responses to polls of the machine state of which
/// the last, and none before it, reports `target`, and each before it
/// reports some state.
pub open spec fn settles_on(polls: Seq<Seq<u8>>, target: MachineState) -> bool {
    &&& polls.len() >= 1
    &&& forall|i: int| 0 <= i < polls.len() ==> (#[trigger] polls[i]).len() == 2
    &&& forall|i: int|
        0 <= i < polls.len() - 1 ==> reported(#[trigger] polls[i]) is Some && reported(polls[i])
            != Some(target)
    &&& reported(polls.last()) == Some(target)
}

/// The state of the driver when the last of `polls` has come back.
pub open spec fn seen(m: Machine, polls: Seq<Seq<u8>>) -> Machine {
    Machine { status: Some(StatusByte::spec_from(polls.last()[0])), ..m }
}

/// A wait that the chip ends in time goes on as its arrival prescribes:
/// if the responses to the polls settle on the awaited state within the
/// poll limit, the driver sends one poll for each of them and then does
/// what follows the arrival.
pub proof fn lemma_wait_arrives(
    m: Machine,
    wait: Wait,
    made: u32,
    polls: Seq<Seq<u8>>,
    rest: Seq<Seq<u8>>,
)
    requires
        m.phase == Phase::Await(wait, made),
        settles_on(polls, wait.target()),
        made + polls.len() - 1 <= m.poll_limit,
    ensures
        run(m, Move::Exchange(poll_frame()), polls + rest).0 == run(
            seen(m, polls).arrived(wait).0,
            seen(m, polls).arrived(wait).1,
            rest,
        ).0,
        run(m, Move::Exchange(poll_frame()), polls + rest).1 == repeated(
            poll_frame(),
            polls.len(),
        ) + run(seen(m, polls).arrived(wait).0, seen(m, polls).arrived(wait).1, rest).1,
        run(m, Move::Exchange(poll_frame()), polls + rest).2 == run(
            seen(m, polls).arrived(wait).0,
            seen(m, polls).arrived(wait).1,
            rest,
        ).2,
    decreases polls.len(),
{
    let all = polls + rest;
    let after = run(seen(m, polls).arrived(wait).0, seen(m, polls).arrived(wait).1, rest);
    assert(all[0] == polls[0]);
    assert(all.drop_first() =~= polls.drop_first() + rest);
    let next = m.advance(polls[0]);
    if polls.len() == 1 {
        assert(polls.last() == polls[0]);
        assert(m.heard(polls[0]) == seen(m, polls));
        assert(next == seen(m, polls).arrived(wait));
        assert(seq![poll_frame()] + after.1 =~= repeated(poll_frame(), 1) + after.1);
    } else {
        let later = polls.drop_first();
        assert(reported(polls[0]) is Some && reported(polls[0]) != Some(wait.target()));
        assert(next == m.heard(polls[0]).send(Phase::Await(wait, (made + 1) as u32), poll_frame()));
        assert(later.last() == polls.last());
        assert forall|i: int| 0 <= i < later.len() implies (#[trigger] later[i]).len() == 2 by {
            assert(later[i] == polls[i + 1]);
        }
        assert forall|i: int| 0 <= i < later.len() - 1 implies reported(#[trigger] later[i])
            is Some && reported(later[i]) != Some(wait.target()) by {
            assert(later[i] == polls[i + 1]);
        }
        lemma_wait_arrives(next.0, wait, (made + 1) as u32, later, rest);
        assert(seen(next.0, later).arrived(wait) == seen(m, polls).arrived(wait));
        assert(seq![poll_frame()] + (repeated(poll_frame(), later.len()) + after.1) =~= repeated(
            poll_frame(),
            polls.len(),
        ) + after.1);
    }
}

/// A change to idle that the chip follows in time: the driver sends the
/// idle strobe, polls until the chip reports idle, and is done. It holds
/// the status byte of the last poll.
pub proof fn lemma_idle_succeeds(m: Machine, first: Seq<u8>, polls: Seq<Seq<u8>>)
    requires
        first.len() == 1,
        settles_on(polls, MachineState::IDLE),
        polls.len() <= m.poll_limit,
    ensures
        run(
            m.set_radio_mode(RadioMode::Idle).0,
            m.set_radio_mode(RadioMode::Idle).1,
            seq![first] + polls,
        ) == (
            Machine { phase: Phase::Ready, queue: Seq::empty(), ..seen(m, polls) },
            seq![spec_strobe_frame(Command::SIDLE)] + repeated(poll_frame(), polls.len()),
            Move::Finished(Reply::Done),
        ),
{
    let begun = m.set_radio_mode(RadioMode::Idle);
    let all = seq![first] + polls;
    assert(all[0] == first);
    assert(all.drop_first() =~= polls + Seq::<Seq<u8>>::empty());
    let left = begun.0.advance(first);
    lemma_wait_arrives(left.0, Wait::Left(RadioMode::Idle), 1, polls, Seq::empty());
    let end = seen(left.0, polls).arrived(Wait::Left(RadioMode::Idle));
    assert(end.0 == Machine { phase: Phase::Ready, queue: Seq::empty(), ..seen(m, polls) });
    assert(run(begun.0, begun.1, all).1 =~= seq![spec_strobe_frame(Command::SIDLE)] + repeated(
        poll_frame(),
        polls.len(),
    ));
}

/// A change of mode that the chip follows in time: the driver sends the
/// idle strobe, polls until the chip reports idle, sends the strobe of
/// the mode, polls until the chip reports the state of the mode, and is
/// done. It sends nothing else, and holds the status byte of the last
/// poll.
pub proof fn lemma_mode_change_succeeds(
    m: Machine,
    mode: RadioMode,
    first: Seq<u8>,
    idle_polls: Seq<Seq<u8>>,
    second: Seq<u8>,
    mode_polls: Seq<Seq<u8>>,
)
    requires
        mode != RadioMode::Idle,
        first.len() == 1,
        second.len() == 1,
        settles_on(idle_polls, MachineState::IDLE),
        idle_polls.len() <= m.poll_limit,
        settles_on(mode_polls, mode.spec_state()),
        mode_polls.len() <= m.poll_limit,
    ensures
        run(
            m.set_radio_mode(mode).0,
            m.set_radio_mode(mode).1,
            seq![first] + idle_polls + (seq![second] + mode_polls),
        ) == (
            Machine { phase: Phase::Ready, queue: Seq::empty(), ..seen(m, mode_polls) },
            seq![spec_strobe_frame(Command::SIDLE)] + repeated(poll_frame(), idle_polls.len())
                + (seq![spec_strobe_frame(mode.spec_command())] + repeated(
                poll_frame(),
                mode_polls.len(),
            )),
            Move::Finished(Reply::Done),
        ),
{
    let begun = m.set_radio_mode(mode);
    let tail = seq![second] + mode_polls;
    let all = seq![first] + idle_polls + tail;
    assert(all[0] == first);
    assert(all.drop_first() =~= idle_polls + tail);
    let left = begun.0.advance(first);
    lemma_wait_arrives(left.0, Wait::Left(mode), 1, idle_polls, tail);
    let strobed = seen(left.0, idle_polls).arrived(Wait::Left(mode));
    assert(strobed.1 == Move::Exchange(spec_strobe_frame(mode.spec_command())));
    assert(tail[0] == second);
    assert(tail.drop_first() =~= mode_polls + Seq::<Seq<u8>>::empty());
    let entered = strobed.0.advance(second);
    lemma_wait_arrives(entered.0, Wait::Entered(mode), 1, mode_polls, Seq::empty());
    let end = seen(entered.0, mode_polls).arrived(Wait::Entered(mode));
    assert(end.0 == Machine { phase: Phase::Ready, queue: Seq::empty(), ..seen(m, mode_polls) });
    let whole = run(begun.0, begun.1, all);
    assert(whole.1 =~= seq![spec_strobe_frame(Command::SIDLE)] + repeated(
        poll_frame(),
        idle_polls.len(),
    ) + (seq![spec_strobe_frame(mode.spec_command())] + repeated(
        poll_frame(),
        mode_polls.len(),
    )));
}

/// The frame that polls the fill of the RX FIFO.
pub open spec fn fill_frame() -> Seq<u8> {
    spec_read_frame(Register::Status(Status::RXBYTES))
}

/// The number of bytes in the RX FIFO that a response to a poll reports.
pub open spec fn count_of(response: Seq<u8>) -> u8 {
    StatusField::RXBYTES_NUM_RXBYTES.spec_read(response[1])
}

/// Whether a response to a poll of the RX FIFO fill reports an overflow.
pub open spec fn overflowed(response: Seq<u8>) -> bool {
    StatusField::RXBYTES_RXFIFO_OVERFLOW.spec_read(response[1]) == 1
}

/// Whether the count that the poll at `i` reports is above zero and the
/// same as that of the poll before it; `last` is the count before the
/// first poll.
pub open spec fn stable_at(fills: Seq<Seq<u8>>, last: u8, i: int) -> bool {
    count_of(fills[i]) > 0 && count_of(fills[i]) == (if i == 0 {
        last
    } else {
        count_of(fills[i - 1])
    })
}

/// Whether `fills` are responses to polls of the RX FIFO fill of which
/// none reports an overflow and the last, and none before it, reports a
/// stable count.
pub open spec fn stabilises(fills: Seq<Seq<u8>>, last: u8) -> bool {
    &&& fills.len() >= 1
    &&& forall|i: int|
        0 <= i < fills.len() ==> (#[trigger] fills[i]).len() == 2 && !overflowed(fills[i])
    &&& forall|i: int| 0 <= i < fills.len() - 1 ==> !#[trigger] stable_at(fills, last, i)
    &&& stable_at(fills, last, fills.len() - 1)
}

/// The frame of the FIFO burst of a receive into `len` bytes.
pub open spec fn drain_frame(m: Machine, len: u8) -> Seq<u8> {
    spec_fifo_frame(Access::Read, Seq::empty(), blanks(m.optional_count() + len as nat))
}

/// A fill that settles in time is followed by the read of the FIFO: if
/// the responses to the polls of the fill stabilise within the poll
/// limit, the driver sends one poll for each of them and then the FIFO
/// burst.
pub proof fn lemma_fill_settles(
    m: Machine,
    last: u8,
    made: u32,
    len: u8,
    fills: Seq<Seq<u8>>,
    rest: Seq<Seq<u8>>,
)
    requires
        m.phase == (Phase::Settle { last, polls: made, len }),
        stabilises(fills, last),
        made + fills.len() - 1 <= m.poll_limit,
    ensures
        run(m, Move::Exchange(fill_frame()), fills + rest).0 == run(
            Machine { phase: Phase::Drain { len }, ..seen(m, fills) },
            Move::Exchange(drain_frame(m, len)),
            rest,
        ).0,
        run(m, Move::Exchange(fill_frame()), fills + rest).1 == repeated(
            fill_frame(),
            fills.len(),
        ) + run(
            Machine { phase: Phase::Drain { len }, ..seen(m, fills) },
            Move::Exchange(drain_frame(m, len)),
            rest,
        ).1,
        run(m, Move::Exchange(fill_frame()), fills + rest).2 == run(
            Machine { phase: Phase::Drain { len }, ..seen(m, fills) },
            Move::Exchange(drain_frame(m, len)),
            rest,
        ).2,
    decreases fills.len(),
{
    let all = fills + rest;
    let drained = Machine { phase: Phase::Drain { len }, ..seen(m, fills) };
    let after = run(drained, Move::Exchange(drain_frame(m, len)), rest);
    assert(all[0] == fills[0]);
    assert(all.drop_first() =~= fills.drop_first() + rest);
    let next = m.advance(fills[0]);
    if fills.len() == 1 {
        assert(fills.last() == fills[0]);
        assert(stable_at(fills, last, 0));
        assert(m.heard(fills[0]) == seen(m, fills));
        assert(next == (drained, Move::Exchange(drain_frame(m, len))));
        assert(seq![fill_frame()] + after.1 =~= repeated(fill_frame(), 1) + after.1);
    } else {
        let later = fills.drop_first();
        let count = count_of(fills[0]);
        assert(!stable_at(fills, last, 0));
        assert(next == m.heard(fills[0]).send(
            Phase::Settle { last: count, polls: (made + 1) as u32, len },
            fill_frame(),
        ));
        assert(later.last() == fills.last());
        assert forall|i: int| 0 <= i < later.len() implies (#[trigger] later[i]).len() == 2
            && !overflowed(later[i]) by {
            assert(later[i] == fills[i + 1]);
        }
        assert forall|i: int| 0 <= i < later.len() implies stable_at(later, count, i)
            == stable_at(fills, last, i + 1) by {
            assert(later[i] == fills[i + 1]);
            if i > 0 {
                assert(later[i - 1] == fills[i]);
            }
        }
        assert forall|i: int| 0 <= i < later.len() - 1 implies !#[trigger] stable_at(
            later,
            count,
            i,
        ) by {
            assert(!stable_at(fills, last, i + 1));
        }
        lemma_fill_settles(next.0, count, (made + 1) as u32, len, later, rest);
        assert(seq![fill_frame()] + (repeated(fill_frame(), later.len()) + after.1) =~= repeated(
            fill_frame(),
            fills.len(),
        ) + after.1);
    }
}

/// Whether `fills` are responses to polls of the RX FIFO fill of which
/// the last reports an overflow, and none before it reports an overflow
/// or a stable count.
pub open spec fn overflows(fills: Seq<Seq<u8>>, last: u8) -> bool {
    &&& fills.len() >= 1
    &&& forall|i: int| 0 <= i < fills.len() ==> (#[trigger] fills[i]).len() == 2
    &&& forall|i: int|
        0 <= i < fills.len() - 1 ==> !overflowed(#[trigger] fills[i]) && !stable_at(
            fills,
            last,
            i,
        )
    &&& overflowed(fills.last())
}

/// A fill that overflows ends the receive after a flush: the driver sends
/// one poll for each response up to the one that reports the overflow,
/// then the flush strobe, and fails for the overflow.
pub proof fn lemma_fill_overflows(
    m: Machine,
    last: u8,
    made: u32,
    len: u8,
    fills: Seq<Seq<u8>>,
    flushed: Seq<u8>,
)
    requires
        m.phase == (Phase::Settle { last, polls: made, len }),
        overflows(fills, last),
        made + fills.len() - 1 <= m.poll_limit,
        flushed.len() == 1,
    ensures
        run(m, Move::Exchange(fill_frame()), fills + seq![flushed]) == (
            Machine { status: None, phase: Phase::Ready, queue: Seq::empty(), ..m },
            repeated(fill_frame(), fills.len()) + seq![spec_strobe_frame(Command::SFRX)],
            Move::Failed(Error::RxOverflow),
        ),
    decreases fills.len(),
{
    let rest = seq![flushed];
    let all = fills + rest;
    assert(all[0] == fills[0]);
    assert(all.drop_first() =~= fills.drop_first() + rest);
    let next = m.advance(fills[0]);
    let frames = run(m, Move::Exchange(fill_frame()), all).1;
    if fills.len() == 1 {
        assert(fills.last() == fills[0]);
        assert(next == m.heard(fills[0]).flush(Outcome::Fault(Error::RxOverflow)));
        assert(rest[0] == flushed);
        assert(rest.drop_first() =~= Seq::<Seq<u8>>::empty());
        let end = next.0.advance(flushed);
        let empty = Seq::<Seq<u8>>::empty();
        assert(run(end.0, end.1, empty) == (end.0, empty, end.1));
        assert(run(next.0, next.1, rest).1 =~= seq![spec_strobe_frame(Command::SFRX)]);
        assert(frames =~= repeated(fill_frame(), 1) + seq![spec_strobe_frame(Command::SFRX)]);
    } else {
        let later = fills.drop_first();
        let count = count_of(fills[0]);
        assert(!overflowed(fills[0]) && !stable_at(fills, last, 0));
        assert(next == m.heard(fills[0]).send(
            Phase::Settle { last: count, polls: (made + 1) as u32, len },
            fill_frame(),
        ));
        assert(later.last() == fills.last());
        assert forall|i: int| 0 <= i < later.len() implies (#[trigger] later[i]).len() == 2 by {
            assert(later[i] == fills[i + 1]);
        }
        assert forall|i: int| 0 <= i < later.len() - 1 implies !overflowed(#[trigger] later[i])
            && !stable_at(later, count, i) by {
            assert(later[i] == fills[i + 1]);
            if i > 0 {
                assert(later[i - 1] == fills[i]);
            }
            assert(stable_at(later, count, i) == stable_at(fills, last, i + 1));
        }
        lemma_fill_overflows(next.0, count, (made + 1) as u32, len, later, flushed);
        assert(frames =~= repeated(fill_frame(), fills.len()) + seq![
            spec_strobe_frame(Command::SFRX),
        ]);
    }
}

/// A receive during which the RX FIFO overflows: the driver polls the
/// fill until the overflow shows, flushes the RX FIFO and fails for the
/// overflow. It reads nothing from the FIFO and holds no packet.
pub proof fn lemma_receive_overflows(
    m: Machine,
    len: usize,
    fills: Seq<Seq<u8>>,
    flushed: Seq<u8>,
)
    requires
        m.optional_count() + len <= 64,
        overflows(fills, 0),
        fills.len() <= m.poll_limit,
        flushed.len() == 1,
    ensures
        run(m.receive(len).0, m.receive(len).1, fills + seq![flushed]) == (
            Machine { status: None, phase: Phase::Ready, queue: Seq::empty(), ..m.cleared() },
            repeated(fill_frame(), fills.len()) + seq![spec_strobe_frame(Command::SFRX)],
            Move::Failed(Error::RxOverflow),
        ),
{
    lemma_fill_overflows(m.receive(len).0, 0, 1, len as u8, fills, flushed);
}

/// Whether `polls` are responses to polls of the machine state of which
/// each reports a state, and none reports `target`.
pub open spec fn stays_off(polls: Seq<Seq<u8>>, target: MachineState) -> bool {
    forall|i: int|
        0 <= i < polls.len() ==> (#[trigger] polls[i]).len() == 2 && reported(polls[i]) is Some
            && reported(polls[i]) != Some(target)
}

/// A wait of a change of mode that the chip does not end times out: if
/// the chip reports other states than the awaited one until the poll
/// limit is used up, the driver sends one poll for each response and
/// fails with a time-out.
pub proof fn lemma_wait_times_out(m: Machine, wait: Wait, made: u32, polls: Seq<Seq<u8>>)
    requires
        m.phase == Phase::Await(wait, made),
        !(wait is Drained),
        1 <= made <= m.poll_limit,
        stays_off(polls, wait.target()),
        made + polls.len() - 1 == m.poll_limit,
    ensures
        run(m, Move::Exchange(poll_frame()), polls) == (
            Machine { phase: Phase::Ready, queue: Seq::empty(), ..seen(m, polls) },
            repeated(poll_frame(), polls.len()),
            Move::Failed(Error::Timeout),
        ),
    decreases polls.len(),
{
    let next = m.advance(polls[0]);
    let frames = run(m, Move::Exchange(poll_frame()), polls).1;
    let empty = Seq::<Seq<u8>>::empty();
    assert(reported(polls[0]) is Some && reported(polls[0]) != Some(wait.target()));
    if polls.len() == 1 {
        assert(polls.last() == polls[0]);
        assert(polls.drop_first() =~= empty);
        assert(next == m.heard(polls[0]).fail(Error::Timeout));
        assert(run(next.0, next.1, empty) == (next.0, empty, next.1));
        assert(frames =~= repeated(poll_frame(), 1));
    } else {
        let later = polls.drop_first();
        assert(next == m.heard(polls[0]).send(Phase::Await(wait, (made + 1) as u32), poll_frame()));
        assert(later.last() == polls.last());
        assert forall|i: int| 0 <= i < later.len() implies (#[trigger] later[i]).len() == 2
            && reported(later[i]) is Some && reported(later[i]) != Some(wait.target()) by {
            assert(later[i] == polls[i + 1]);
        }
        lemma_wait_times_out(next.0, wait, (made + 1) as u32, later);
        assert(frames =~= repeated(poll_frame(), polls.len()));
    }
}

/// The state of the driver when a receive into `len` bytes has taken the
/// FIFO burst `burst`, after the polls of the fill `fills`.
pub open spec fn taken(m: Machine, fills: Seq<Seq<u8>>, burst: Seq<u8>) -> Machine {
    Machine { queue: Seq::empty(), ..m.cleared() }.heard(burst).filled(
        Access::Read,
        m.optional_count(),
        burst,
    )
}

/// A receive that the chip follows in time.
///
/// If the fill of the RX FIFO stabilises within the poll limit and the
/// chip is then seen idle within the poll limit, the driver polls the
/// fill, reads the FIFO in one burst, reads the link quality register,
/// polls until the chip reports idle, and flushes the RX FIFO; it sends
/// nothing else. It then reports the length of the payload if the CRC
/// flag of the link quality register was set, and fails for a CRC
/// mismatch if it was clear. Either way it holds the packet that the
/// burst took, and no chip status, as the last frame was a strobe.
pub proof fn lemma_receive_succeeds(
    m: Machine,
    len: usize,
    fills: Seq<Seq<u8>>,
    burst: Seq<u8>,
    quality: Seq<u8>,
    idle_polls: Seq<Seq<u8>>,
    flushed: Seq<u8>,
)
    requires
        m.optional_count() + len <= 64,
        stabilises(fills, 0),
        fills.len() <= m.poll_limit,
        burst.len() == 1 + m.optional_count() + len,
        quality.len() == 2,
        settles_on(idle_polls, MachineState::IDLE),
        idle_polls.len() <= m.poll_limit,
        flushed.len() == 1,
    ensures
        run(
            m.receive(len).0,
            m.receive(len).1,
            fills + (seq![burst, quality] + (idle_polls + seq![flushed])),
        ) == (
            Machine {
                status: None,
                phase: Phase::Ready,
                queue: Seq::empty(),
                ..taken(m, fills, burst)
            },
            repeated(fill_frame(), fills.len()) + (seq![
                drain_frame(m, len as u8),
                spec_read_frame(Register::Status(Status::LQI)),
            ] + (repeated(poll_frame(), idle_polls.len()) + seq![
                spec_strobe_frame(Command::SFRX),
            ])),
            if StatusField::LQI_CRC_OK.spec_read(quality[1]) == 1 {
                Move::Finished(
                    Reply::Received(taken(m, fills, burst).payload_length(len as u8)),
                )
            } else {
                Move::Failed(Error::CrcMismatch)
            },
        ),
{
    let begun = m.receive(len);
    let size = len as u8;
    let tail = idle_polls + seq![flushed];
    let middle = seq![burst, quality] + tail;
    let all = fills + middle;
    assert(begun.1 == Move::Exchange(fill_frame()));
    lemma_fill_settles(begun.0, 0, 1, size, fills, middle);
    let drained = Machine { phase: Phase::Drain { len: size }, ..seen(begun.0, fills) };
    assert(drain_frame(begun.0, size) == drain_frame(m, size));
    // the burst
    assert(middle[0] == burst);
    assert(middle.drop_first() =~= seq![quality] + tail);
    let read = drained.advance(burst);
    let packet = taken(m, fills, burst);
    assert(drained.heard(burst).filled(Access::Read, drained.optional_count(), burst) == Machine {
        phase: Phase::Drain { len: size },
        ..packet
    });
    let length = packet.payload_length(size);
    assert(read.1 == Move::Exchange(spec_read_frame(Register::Status(Status::LQI))));
    assert(read.0 == Machine { phase: Phase::Quality { length }, ..packet });
    // the link quality
    let after_burst = seq![quality] + tail;
    assert(after_burst[0] == quality);
    assert(after_burst.drop_first() =~= tail);
    let crc_ok = StatusField::LQI_CRC_OK.spec_read(quality[1]) == 1;
    let wait = Wait::Drained { length, crc_ok };
    let judged = read.0.advance(quality);
    assert(judged.1 == Move::Exchange(poll_frame()));
    // the wait for idle
    lemma_wait_arrives(judged.0, wait, 1, idle_polls, seq![flushed]);
    let flushing = seen(judged.0, idle_polls).arrived(wait);
    assert(flushing.1 == Move::Exchange(spec_strobe_frame(Command::SFRX)));
    // the flush
    let last = seq![flushed];
    assert(last[0] == flushed);
    assert(last.drop_first() =~= Seq::<Seq<u8>>::empty());
    let end = flushing.0.advance(flushed);
    assert(end.0 == Machine {
        status: None,
        phase: Phase::Ready,
        queue: Seq::empty(),
        ..packet
    });
    // the frames, from the last exchange back to the first
    let empty = Seq::<Seq<u8>>::empty();
    let ended = run(end.0, end.1, empty);
    assert(ended == (end.0, empty, end.1));
    let flush = run(flushing.0, flushing.1, last);
    assert(flush.1 =~= seq![spec_strobe_frame(Command::SFRX)]);
    let waited = run(judged.0, judged.1, tail);
    assert(waited.1 =~= repeated(poll_frame(), idle_polls.len()) + seq![
        spec_strobe_frame(Command::SFRX),
    ]);
    let asked = run(read.0, read.1, after_burst);
    assert(asked.1 =~= seq![spec_read_frame(Register::Status(Status::LQI))] + waited.1);
    let drawn = run(drained, Move::Exchange(drain_frame(m, size)), middle);
    assert(drawn.1 =~= seq![drain_frame(m, size)] + asked.1);
    let whole = run(begun.0, begun.1, all);
    assert(whole.1 =~= repeated(fill_frame(), fills.len()) + (seq![
        drain_frame(m, size),
        spec_read_frame(Register::Status(Status::LQI)),
    ] + (repeated(poll_frame(), idle_polls.len()) + seq![spec_strobe_frame(Command::SFRX)])));
}

/// A response never changes what the driver holds of the chip's
/// configuration: only the operations that configure packet length,
/// address filter and appended status change the driver's note of which
/// fields packets carry, and only `set_poll_limit` changes the limit.
pub proof fn lemma_responses_keep_configuration(m: Machine, response: Seq<u8>)
    ensures
        m.advance(response).0.length_field == m.length_field,
        m.advance(response).0.address_field == m.address_field,
        m.advance(response).0.status_fields == m.status_fields,
        m.advance(response).0.poll_limit == m.poll_limit,
        m.abandon().0 == (Machine { phase: Phase::Ready, queue: Seq::empty(), ..m }),
{
}

/// The response to a frame has the length of the frame: whenever the
/// driver asks for an exchange, the frame has exactly as many bytes as the
/// driver will take for its response.
pub proof fn lemma_frames_match_awaited(m: Machine, response: Seq<u8>)
    ensures
        m.advance(response).1 matches Move::Exchange(frame) ==> frame.len() == m.advance(
            response,
        ).0.awaited() && frame.len() >= 1,
{
}

/// A change of mode opens with the idle strobe, whatever the mode and
/// whatever the driver held before.
pub proof fn lemma_mode_change_opens_with_idle(m: Machine, mode: RadioMode)
    ensures
        m.set_radio_mode(mode).1 == Move::Exchange(spec_strobe_frame(Command::SIDLE)),
        spec_strobe_frame(Command::SIDLE) == seq![0x36u8],
        m.set_radio_mode(mode).0.phase.goal() == Some(mode),
{
    assert(0x00u8 | 0x00u8 | 0x36u8 == 0x36u8) by (bit_vector);
    assert(spec_strobe_frame(Command::SIDLE) =~= seq![0x36u8]);
}

/// What a change to `mode` does with each response.
///
/// The only frames that it sends after the idle strobe are polls of the
/// machine state and the strobe of `mode` itself; no other strobe is ever
/// sent. The strobe of `mode` is sent only when a poll has just reported
/// idle. The change finishes only when a poll has just reported the state
/// of `mode`. It fails only by a transport fault, a time-out or a state
/// code that stands for no state.
pub proof fn lemma_mode_change_step(m: Machine, mode: RadioMode, response: Seq<u8>)
    requires
        m.phase.goal() == Some(mode),
    ensures
        m.advance(response).1 matches Move::Exchange(frame) ==> {
            &&& m.advance(response).0.phase.goal() == Some(mode)
            &&& frame == spec_read_frame(Register::Status(Status::MARCSTATE)) || {
                &&& frame == spec_strobe_frame(mode.spec_command())
                &&& mode != RadioMode::Idle
                &&& m.phase matches Phase::Await(Wait::Left(_), _)
                &&& reported(response) == Some(MachineState::IDLE)
            }
        },
        m.advance(response).1 matches Move::Finished(reply) ==> {
            &&& reply == Reply::Done
            &&& m.phase is Await
            &&& reported(response) == Some(mode.spec_state())
        },
        m.advance(response).1 matches Move::Failed(error) ==> error is Transport || error is Timeout
            || error is InvalidState,
{
}

/// What a receive does with each response.
///
/// It reports a packet only as the response to the flush strobe, and
/// fails for a CRC mismatch, an overflow or a time-out only there: the RX
/// FIFO is flushed on the way to each of these ends. Only a fault of the
/// bus ends a receive without a flush: a transport fault, or a machine
/// state code that stands for no state. The flush strobe is the last
/// frame of a receive, and no other frame of a receive is a flush
/// strobe. Until it ends, it stays a receive.
pub proof fn lemma_receive_step(m: Machine, response: Seq<u8>)
    requires
        m.phase.receiving(),
    ensures
        m.advance(response).1 is Exchange ==> m.advance(response).0.phase.receiving(),
        m.advance(response).1 matches Move::Finished(reply) ==> m.phase matches Phase::Flush(
            Outcome::Packet(length),
        ) && reply == Reply::Received(length),
        m.advance(response).1 matches Move::Failed(error) ==> {
            ||| error is Transport
            ||| m.phase == Phase::Flush(Outcome::Fault(error))
            ||| m.phase is Await && error is InvalidState
        },
        m.advance(response).1 matches Move::Failed(error) && (error is CrcMismatch
            || error is RxOverflow || error is Timeout) ==> m.phase is Flush,
        m.advance(response).0.phase is Flush <==> m.advance(response).1 == Move::Exchange(
            spec_strobe_frame(Command::SFRX),
        ),
        m.phase is Flush ==> !(m.advance(response).1 is Exchange),
{
    assert(0x00u8 | 0x00u8 | 0x3Au8 == 0x3A) by (bit_vector);
    assert(0x80u8 | 0x40u8 | 0x3Fu8 == 0xFF) by (bit_vector);
    assert(spec_strobe_frame(Command::SFRX)[0] == 0x3A);
    assert(spec_strobe_frame(Command::SFRX).len() == 1);
}

/// A receive reports a packet exactly if the CRC flag of the link quality
/// register was set, and fails for a CRC mismatch exactly if it was
/// clear: once the chip is seen idle after the packet was taken, the
/// flush strobe carries the one or the other.
pub proof fn lemma_receive_crc(m: Machine, length: u8, crc_ok: bool, polls: u32, response: Seq<u8>)
    requires
        m.phase == Phase::Await(Wait::Drained { length, crc_ok }, polls),
        response.len() == 2,
        reported(response) == Some(MachineState::IDLE),
    ensures
        m.advance(response).1 == Move::Exchange(spec_strobe_frame(Command::SFRX)),
        crc_ok ==> m.advance(response).0.phase == Phase::Flush(Outcome::Packet(length)),
        !crc_ok ==> m.advance(response).0.phase == Phase::Flush(
            Outcome::Fault(Error::CrcMismatch),
        ),
{
}

/// A fault in what the caller supplied for a FIFO transfer is found
/// before anything is exchanged, and leaves the driver as it was.
pub proof fn lemma_caller_faults_change_nothing(
    m: Machine,
    length: Option<u8>,
    address: Option<u8>,
    data: Seq<u8>,
    places: (bool, bool, bool),
    len: usize,
)
    ensures
        !(m.write_data(length, address, data).1 is Finished),
        m.write_data(length, address, data).1 is Failed ==> m.write_data(length, address, data).0
            == m,
        !(m.read_data(places.0, places.1, places.2, len).1 is Finished),
        m.read_data(places.0, places.1, places.2, len).1 is Failed ==> m.read_data(
            places.0,
            places.1,
            places.2,
            len,
        ).0 == m,
        !(m.receive(len).1 is Finished),
        m.receive(len).1 is Failed ==> m.receive(len).0 == m,
{
}

/// Where packets carry a length byte and none is supplied, a write fails
/// for the missing length, whatever else was supplied.
pub proof fn lemma_missing_length(m: Machine, address: Option<u8>, data: Seq<u8>)
    requires
        m.length_field,
    ensures
        m.write_data(None, address, data) == (m, Move::Failed(Error::MissingLengthParameter)),
{
}

/// Where every field that packets carry is supplied, a write is sent
/// exactly if fields and payload together fit the 64 bytes of the FIFO,
/// and else fails with the length of the payload.
pub proof fn lemma_fifo_size_guard(
    m: Machine,
    length: Option<u8>,
    address: Option<u8>,
    data: Seq<u8>,
)
    requires
        m.length_field ==> length is Some,
        m.address_field ==> address is Some,
    ensures
        m.optional_count() + data.len() <= 64 <==> m.write_data(length, address, data).1
            is Exchange,
        m.optional_count() + data.len() > 64 <==> m.write_data(length, address, data).1
            == Move::Failed(Error::ArrayTooLong(data.len() as usize)),
        m.write_data(length, address, data).1 matches Move::Exchange(frame) ==> frame.len() == 1
            + m.optional_count() + data.len() && frame[0] == 0x7F,
{
    assert(0x00u8 | 0x40u8 | 0x3Fu8 == 0x7F) by (bit_vector);
}

} // verus!
