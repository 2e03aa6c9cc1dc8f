use mio_st::poll::Token;
use mio_st::readiness::{token, PollOpt, ReadinessState, Ready};

fn ready(bits: u8) -> Ready {
    Ready::from_bits_truncate(bits)
}

#[test]
fn readiness_flags() {
    assert_eq!(Ready::empty().bits(), 0);
    assert_eq!(Ready::readable().bits(), 1);
    assert_eq!(Ready::writable().bits(), 2);
    assert_eq!(Ready::error().bits(), 4);
    assert_eq!(Ready::hup().bits(), 16);
    assert_eq!(Ready::aio().bits(), 32);
    assert_eq!(Ready::lio().bits(), 64);
    // Unknown bits are dropped.
    assert_eq!(Ready::from_bits_truncate(0xff).bits(), 0x77);
    let r = ready(1 | 2);
    assert!(r.is_readable() && r.is_writable());
    assert!(!r.is_error() && !r.is_hup() && !r.is_aio() && !r.is_lio());
    assert!(r.contains(Ready::readable()));
    assert!(!r.contains(ready(1 | 4)));
    assert_eq!(r.intersection(ready(2 | 4)), Ready::writable());
    assert!(Ready::empty().is_empty());
    assert!(!r.is_empty());
}

#[test]
fn poll_opt_flags() {
    assert_eq!(PollOpt::empty().bits(), 0);
    assert_eq!(PollOpt::edge().bits(), 1);
    assert_eq!(PollOpt::level().bits(), 2);
    assert_eq!(PollOpt::oneshot().bits(), 4);
    assert_eq!(PollOpt::from_bits_truncate(0xff).bits(), 7);
    let o = PollOpt::from_bits_truncate(1 | 4);
    assert!(o.is_edge() && o.is_oneshot() && !o.is_level());
    assert!(o.contains(PollOpt::edge()));
    assert!(!o.contains(PollOpt::level()));
}

#[test]
fn readiness_state_new() {
    let state = ReadinessState::new(ready(1 | 2), PollOpt::edge());
    assert_eq!(state.interest(), ready(1 | 2));
    assert_eq!(state.poll_opt(), PollOpt::edge());
    assert_eq!(state.readiness(), Ready::empty());
    assert!(!state.is_queued());
    assert!(!state.is_dropped());
    assert_eq!(state.token_read_pos(), 0);
    assert_eq!(state.token_write_pos(), 0);
    assert_eq!(usize::from(state), (3 << 8) | (1 << 16));
}

#[test]
fn readiness_state_setters_change_one_field() {
    let mut state = ReadinessState::new(Ready::readable(), PollOpt::level());
    state.set_readiness(ready(1 | 16));
    assert_eq!(state.readiness(), ready(1 | 16));
    assert_eq!(state.interest(), Ready::readable());
    assert_eq!(state.effective_readiness(), Ready::readable());

    state.set_interest(ready(16));
    assert_eq!(state.effective_readiness(), Ready::hup());
    assert_eq!(state.readiness(), ready(1 | 16));
    assert_eq!(state.poll_opt(), PollOpt::level());

    state.set_poll_opt(PollOpt::from_bits_truncate(1 | 4));
    assert_eq!(state.poll_opt(), PollOpt::from_bits_truncate(1 | 4));
    assert_eq!(state.interest(), ready(16));

    state.set_queued();
    assert!(state.is_queued());
    state.set_dequeued();
    assert!(!state.is_queued());

    state.disarm();
    assert_eq!(state.interest(), Ready::empty());
    assert_eq!(state.readiness(), ready(1 | 16));
}

#[test]
fn readiness_state_token_positions() {
    let mut state = ReadinessState::new(Ready::readable(), PollOpt::edge());
    assert_eq!(state.next_token_pos(), 1);
    state.set_token_write_pos(1);
    assert_eq!(state.token_write_pos(), 1);
    assert_eq!(state.token_read_pos(), 0);
    assert_eq!(state.next_token_pos(), 2);
    state.update_token_read_pos();
    assert_eq!(state.token_read_pos(), 1);
    assert_eq!(state.next_token_pos(), 2);
    state.set_token_write_pos(2);
    assert_eq!(state.next_token_pos(), 0);
    // Every combination leaves a free slot different from both positions.
    for rd in 0..3 {
        for wr in 0..3 {
            let s = ReadinessState::from((rd << 20) | (wr << 22));
            let next = s.next_token_pos();
            assert!(next <= 2 && next != rd && next != wr);
        }
    }
}

#[test]
fn readiness_state_word_round_trip() {
    let word: usize = 0x1ab_cdef;
    assert_eq!(usize::from(ReadinessState::from(word)), word);
}

#[test]
fn dequeue_step_edge_oneshot() {
    let mut state = ReadinessState::new(ready(1 | 2), PollOpt::from_bits_truncate(1 | 4));
    state.set_readiness(Ready::readable());
    state.set_token_write_pos(2);
    state.set_queued();
    let (next, readiness) = state.dequeue_step().unwrap();
    assert_eq!(readiness, Ready::readable());
    assert!(!next.is_queued());
    // A oneshot node that reported readiness is disarmed.
    assert_eq!(next.interest(), Ready::empty());
    assert_eq!(next.token_read_pos(), 2);
}

#[test]
fn dequeue_step_level() {
    let mut state = ReadinessState::new(Ready::readable(), PollOpt::level());
    state.set_readiness(ready(1 | 2));
    state.set_queued();
    let (next, readiness) = state.dequeue_step().unwrap();
    assert_eq!(readiness, Ready::readable());
    // Level triggered and ready: stays queued.
    assert!(next.is_queued());
    assert_eq!(next.interest(), Ready::readable());

    let mut idle = ReadinessState::new(Ready::readable(), PollOpt::level());
    idle.set_readiness(Ready::writable());
    idle.set_queued();
    let (next, readiness) = idle.dequeue_step().unwrap();
    assert!(readiness.is_empty());
    assert!(!next.is_queued());
}

#[test]
fn dequeue_step_dropped() {
    // Queued and dropped.
    let state = ReadinessState::from((1 << 24) | (1 << 25));
    assert!(state.is_dropped());
    assert!(state.dequeue_step().is_none());
}

#[test]
fn token_slots() {
    let tokens = [Token(10), Token(11), Token(12)];
    assert_eq!(token(&tokens, 0), Token(10));
    assert_eq!(token(&tokens, 1), Token(11));
    assert_eq!(token(&tokens, 2), Token(12));
    let mut state = ReadinessState::new(Ready::readable(), PollOpt::edge());
    state.set_token_write_pos(2);
    state.update_token_read_pos();
    assert_eq!(token(&tokens, state.token_read_pos()), Token(12));
}
