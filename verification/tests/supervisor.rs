use asha_reconnect::address::Address;
use asha_reconnect::registry::{Registry, SupervisorHandle};
use asha_reconnect::service::ASHA_SERVICE_UUID;
use asha_reconnect::supervisor::{
    decide, plan_tick, requests, tick_requests, Action, Conditions, LinkState, Observation,
    Request, Tick, SUPERVISOR_POLL_MS,
};

fn seen(connected: bool, trusted: bool) -> Observation {
    Observation { connected: Some(connected), trusted: Some(trusted) }
}

fn every_bool() -> [bool; 2] {
    [false, true]
}

fn clean(playing: bool) -> Conditions {
    Conditions {
        playing,
        connected_readable: true,
        trusted_readable: true,
        trust_succeeds: true,
        connect_succeeds: true,
        disconnect_succeeds: true,
    }
}

fn every_state() -> Vec<LinkState> {
    let mut states = Vec::new();
    for connected in every_bool() {
        for trusted in every_bool() {
            states.push(LinkState { connected, trusted });
        }
    }
    states
}

fn every_conditions() -> Vec<Conditions> {
    let mut all = Vec::new();
    for bits in 0..64u8 {
        all.push(Conditions {
            playing: bits & 1 != 0,
            connected_readable: bits & 2 != 0,
            trusted_readable: bits & 4 != 0,
            trust_succeeds: bits & 8 != 0,
            connect_succeeds: bits & 16 != 0,
            disconnect_succeeds: bits & 32 != 0,
        });
    }
    all
}

#[test]
fn supervisor_ticks_every_100_ms() {
    assert_eq!(SUPERVISOR_POLL_MS, 100);
}

#[test]
fn transition_table() {
    // disconnected, signal on, not trusted
    assert_eq!(decide(seen(false, false), true), Action::TrustThenConnect);
    // disconnected, signal on, trusted
    assert_eq!(decide(seen(false, true), true), Action::Connect);
    // connected, signal off
    assert_eq!(decide(seen(true, false), false), Action::Disconnect);
    assert_eq!(decide(seen(true, true), false), Action::Disconnect);
    // connected, signal on
    assert_eq!(decide(seen(true, false), true), Action::Idle);
    assert_eq!(decide(seen(true, true), true), Action::Idle);
    // disconnected, signal off
    assert_eq!(decide(seen(false, false), false), Action::Idle);
    assert_eq!(decide(seen(false, true), false), Action::Idle);
}

#[test]
fn a_failed_query_skips_the_tick() {
    for playing in every_bool() {
        for flag in [None, Some(false), Some(true)] {
            assert_eq!(decide(Observation { connected: None, trusted: flag }, playing), Action::Skip);
            assert_eq!(decide(Observation { connected: flag, trusted: None }, playing), Action::Skip);
        }
    }
}

#[test]
fn requests_of_each_action() {
    assert_eq!(requests(Action::Skip), vec![]);
    assert_eq!(requests(Action::Idle), vec![]);
    assert_eq!(
        requests(Action::TrustThenConnect),
        vec![Request::SetTrusted, Request::ConnectProfile(ASHA_SERVICE_UUID)]
    );
    assert_eq!(requests(Action::Connect), vec![Request::ConnectProfile(ASHA_SERVICE_UUID)]);
    assert_eq!(requests(Action::Disconnect), vec![Request::Disconnect]);
    assert_eq!(
        requests(Action::Connect),
        vec![Request::ConnectProfile(0x0000fdf0_0000_1000_8000_00805f9b34fb)]
    );
}

#[test]
fn a_current_supervisor_follows_the_table() {
    let mut registry = Registry::new();
    let address = Address::new([1, 2, 3, 4, 5, 6]);
    registry.register(address);
    let handle = SupervisorHandle { address, id: 0 };
    for playing in every_bool() {
        for connected in [None, Some(false), Some(true)] {
            for trusted in [None, Some(false), Some(true)] {
                let observation = Observation { connected, trusted };
                assert_eq!(
                    plan_tick(&registry, handle, observation, playing),
                    Tick::Due(decide(observation, playing))
                );
            }
        }
    }
    assert_eq!(
        tick_requests(plan_tick(&registry, handle, seen(false, false), true)),
        vec![Request::SetTrusted, Request::ConnectProfile(ASHA_SERVICE_UUID)]
    );
}

#[test]
fn a_cancelled_supervisor_asks_nothing() {
    let mut registry = Registry::new();
    let address = Address::new([1, 2, 3, 4, 5, 6]);
    registry.register(address);
    let handle = SupervisorHandle { address, id: 0 };
    registry.retire(address);
    for playing in every_bool() {
        for connected in [None, Some(false), Some(true)] {
            for trusted in [None, Some(false), Some(true)] {
                let tick = plan_tick(&registry, handle, Observation { connected, trusted }, playing);
                assert_eq!(tick, Tick::Cancelled);
                assert_eq!(tick_requests(tick), vec![]);
            }
        }
    }
    // Nor after the device has come back under a new supervisor.
    registry.register(address);
    assert_eq!(plan_tick(&registry, handle, seen(false, false), true), Tick::Cancelled);
    assert_eq!(
        plan_tick(&registry, SupervisorHandle { address, id: 1 }, seen(false, false), true),
        Tick::Due(Action::TrustThenConnect)
    );
}

#[test]
fn a_supervisor_that_was_never_started_asks_nothing() {
    let registry = Registry::new();
    let handle = SupervisorHandle { address: Address::new([9; 6]), id: 0 };
    assert_eq!(plan_tick(&registry, handle, seen(true, true), false), Tick::Cancelled);
}

#[test]
fn requests_change_the_flag_they_are_about() {
    let off = LinkState { connected: false, trusted: false };
    assert_eq!(
        off.after_request(Request::SetTrusted, true),
        LinkState { connected: false, trusted: true }
    );
    assert_eq!(
        off.after_request(Request::ConnectProfile(ASHA_SERVICE_UUID), true),
        LinkState { connected: true, trusted: false }
    );
    let on = LinkState { connected: true, trusted: true };
    assert_eq!(
        on.after_request(Request::Disconnect, true),
        LinkState { connected: false, trusted: true }
    );
    for state in every_state() {
        for request in [
            Request::SetTrusted,
            Request::ConnectProfile(ASHA_SERVICE_UUID),
            Request::Disconnect,
        ] {
            assert_eq!(state.after_request(request, false), state);
        }
    }
}

#[test]
fn observation_shows_what_is_readable() {
    let state = LinkState { connected: true, trusted: false };
    assert_eq!(state.observe(clean(true)), seen(true, false));
    let mut blind = clean(true);
    blind.connected_readable = false;
    assert_eq!(state.observe(blind), Observation { connected: None, trusted: Some(false) });
    blind.trusted_readable = false;
    assert_eq!(state.observe(blind), Observation { connected: None, trusted: None });
}

#[test]
fn untrusted_device_is_trusted_then_connected() {
    let state = LinkState { connected: false, trusted: false };
    assert_eq!(state.after_tick(clean(true)), LinkState { connected: true, trusted: true });
}

#[test]
fn a_failed_trust_does_not_hold_back_the_connect() {
    let state = LinkState { connected: false, trusted: false };
    let mut conditions = clean(true);
    conditions.trust_succeeds = false;
    assert_eq!(state.after_tick(conditions), LinkState { connected: true, trusted: false });
}

#[test]
fn playing_connects_within_one_clean_tick() {
    for state in every_state() {
        for conditions in every_conditions() {
            if conditions.playing
                && conditions.connected_readable
                && conditions.trusted_readable
                && conditions.connect_succeeds
            {
                assert!(state.after_tick(conditions).connected);
            }
        }
    }
}

#[test]
fn a_connected_device_is_left_alone_while_playing() {
    for trusted in every_bool() {
        let state = LinkState { connected: true, trusted };
        for conditions in every_conditions() {
            if conditions.playing {
                assert_eq!(requests(decide(state.observe(conditions), true)), vec![]);
                assert_eq!(state.after_tick(conditions), state);
            }
        }
    }
}

#[test]
fn silence_disconnects_within_one_clean_tick() {
    for state in every_state() {
        for conditions in every_conditions() {
            if !conditions.playing
                && conditions.connected_readable
                && conditions.trusted_readable
                && conditions.disconnect_succeeds
            {
                assert!(!state.after_tick(conditions).connected);
            }
        }
    }
    let state = LinkState { connected: true, trusted: true };
    assert_eq!(state.after_tick(clean(false)), LinkState { connected: false, trusted: true });
}

#[test]
fn connect_that_keeps_failing_is_retried_every_tick() {
    let mut conditions = clean(true);
    conditions.connect_succeeds = false;
    let mut state = LinkState { connected: false, trusted: true };
    for _ in 0..1000 {
        assert_eq!(decide(state.observe(conditions), conditions.playing), Action::Connect);
        assert_eq!(
            requests(Action::Connect),
            vec![Request::ConnectProfile(ASHA_SERVICE_UUID)]
        );
        state = state.after_tick(conditions);
        assert_eq!(state, LinkState { connected: false, trusted: true });
    }
    // The first tick in which the connect succeeds ends the retries.
    state = state.after_tick(clean(true));
    assert!(state.connected);
    assert_eq!(decide(state.observe(clean(true)), true), Action::Idle);
}

#[test]
fn a_tick_without_answers_or_successes_changes_nothing() {
    for state in every_state() {
        for conditions in every_conditions() {
            let unreadable = !(conditions.connected_readable && conditions.trusted_readable);
            let hopeless = !conditions.trust_succeeds
                && !conditions.connect_succeeds
                && !conditions.disconnect_succeeds;
            if unreadable || hopeless {
                assert_eq!(state.after_tick(conditions), state);
            }
        }
    }
}

#[test]
fn a_run_of_ticks_is_played_in_order() {
    let start = LinkState { connected: false, trusted: false };
    assert_eq!(start.after_ticks(&vec![]), start);
    assert_eq!(
        start.after_ticks(&vec![clean(true)]),
        LinkState { connected: true, trusted: true }
    );
    assert_eq!(
        start.after_ticks(&vec![clean(true), clean(false)]),
        LinkState { connected: false, trusted: true }
    );
    assert_eq!(
        start.after_ticks(&vec![clean(false), clean(true), clean(true)]),
        LinkState { connected: true, trusted: true }
    );
}

#[test]
fn playing_throughout_connects_after_one_clean_tick_in_the_run() {
    let mut failing = clean(true);
    failing.connect_succeeds = false;
    let mut blind = clean(true);
    blind.trusted_readable = false;
    for state in every_state() {
        for position in 0..4 {
            let mut run = vec![failing, blind, failing, blind];
            run[position] = clean(true);
            assert!(state.after_ticks(&run).connected);
        }
        let stays_as_it_was = state.after_ticks(&vec![failing, blind, failing, blind]);
        assert_eq!(stays_as_it_was.connected, state.connected);
    }
}
