//! The life of the observer: it runs until it is told to stop, and reloads
//! its contracts when it is told to restart.

use vstd::prelude::*;
use vstd::string::*;
use crate::integrate::{events_view, DevnetEvent, DevnetEventView};
use crate::integrate::events_observer::{
    contracts_view,
    queue_of,
    EventObserverConfig,
    Session,
};
use crate::text::{decimal_text, u64_to_string};

verus! {

/// What the observer is told from outside.
#[derive(Clone, Copy, Debug, PartialEq, Eq, Structural)]
pub enum LifecycleSignal {
    /// Stop.
    Terminate,
    /// Reload the contracts and go on.
    Restart,
    /// Nobody is left to tell anything.
    Closed,
}

/// What the observer does next.
#[derive(Clone, Copy, Debug, PartialEq, Eq, Structural)]
pub enum LifecycleAction {
    /// Stop taking work.
    Stop,
    /// Load the session anew, then reload the state from it.
    Reload,
}

/// The signal that a received flag stands for: `true` to stop, `false` to
/// restart, none where the sender is gone.
pub fn signal_of(received: Option<bool>) -> (r: LifecycleSignal)
    ensures
        r == match received {
            Some(true) => LifecycleSignal::Terminate,
            Some(false) => LifecycleSignal::Restart,
            None => LifecycleSignal::Closed,
        },
{
    match received {
        Some(true) => LifecycleSignal::Terminate,
        Some(false) => LifecycleSignal::Restart,
        None => LifecycleSignal::Closed,
    }
}

/// The events that a signal leads to: a last word before the observer
/// stops, or the news that the contracts are reloaded.
pub open spec fn signal_events(signal: LifecycleSignal) -> Seq<DevnetEventView> {
    match signal {
        LifecycleSignal::Restart => seq![DevnetEventView::Info("Reloading contracts"@)],
        _ => seq![DevnetEventView::Info("Terminating event observer"@)],
    }
}

/// The action that a signal leads to: a closed channel stops the observer
/// as a request to terminate does.
pub open spec fn signal_action(signal: LifecycleSignal) -> LifecycleAction {
    match signal {
        LifecycleSignal::Restart => LifecycleAction::Reload,
        _ => LifecycleAction::Stop,
    }
}

/// Decides what a signal leads to.
pub fn on_signal(signal: LifecycleSignal) -> (r: (Vec<DevnetEvent>, LifecycleAction))
    ensures
        events_view(r.0@) == signal_events(signal),
        r.1 == signal_action(signal),
{
    let mut events: Vec<DevnetEvent> = Vec::new();
    match signal {
        LifecycleSignal::Terminate => {
            events.push(DevnetEvent::info(String::from_str("Terminating event observer")));
            assert(events_view(events@) == signal_events(signal));
            (events, LifecycleAction::Stop)
        },
        LifecycleSignal::Restart => {
            events.push(DevnetEvent::info(String::from_str("Reloading contracts")));
            assert(events_view(events@) == signal_events(signal));
            (events, LifecycleAction::Reload)
        },
        LifecycleSignal::Closed => {
            events.push(DevnetEvent::info(String::from_str("Terminating event observer")));
            assert(events_view(events@) == signal_events(signal));
            (events, LifecycleAction::Stop)
        },
    }
}

/// What is said of contracts that could not be loaded.
pub open spec fn contracts_invalid_message(reason: Seq<char>) -> Seq<char> {
    "Contracts invalid: "@ + reason
}

/// What is said of `count` contracts that wait.
pub open spec fn contracts_to_deploy_message(count: nat) -> Seq<char> {
    decimal_text(count) + " contracts to deploy"@
}

impl EventObserverConfig {
    /// Takes in the outcome of loading the session anew.
    ///
    /// A session that could not be built is reported and leaves the state
    /// as it was. A loaded session replaces the old one: all its contracts
    /// wait to be deployed, and the deployer starts again at nonce zero.
    pub fn reload(&mut self, loaded: Result<Session, String>) -> (r: Vec<DevnetEvent>)
        ensures
            final(self).devnet_config == old(self).devnet_config,
            final(self).accounts == old(self).accounts,
            final(self).manifest_path == old(self).manifest_path,
            final(self).pox_info == old(self).pox_info,
            match loaded {
                Ok(session) => {
                    &&& final(self).session == session
                    &&& final(self).deployer_nonce == 0
                    &&& contracts_view(final(self).contracts_to_deploy@) == contracts_view(
                        session.initial_contracts@,
                    )
                    &&& events_view(r@) == seq![
                        DevnetEventView::Success(
                            contracts_to_deploy_message(session.initial_contracts@.len()),
                        ),
                    ]
                },
                Err(reason) => {
                    &&& *final(self) == *old(self)
                    &&& events_view(r@) == seq![
                        DevnetEventView::Error(contracts_invalid_message(reason@)),
                    ]
                },
            },
    {
        let mut events: Vec<DevnetEvent> = Vec::new();
        match loaded {
            Ok(session) => {
                let contracts_to_deploy = queue_of(&session);
                let mut message = u64_to_string(contracts_to_deploy.len() as u64);
                message.append(" contracts to deploy");
                proof {
                    assert(contracts_view(contracts_to_deploy@).len() == contracts_to_deploy@.len());
                    assert(contracts_view(session.initial_contracts@).len()
                        == session.initial_contracts@.len());
                }
                events.push(DevnetEvent::success(message));
                assert(events_view(events@) == seq![
                    DevnetEventView::Success(
                        contracts_to_deploy_message(session.initial_contracts@.len()),
                    ),
                ]);
                self.contracts_to_deploy = contracts_to_deploy;
                self.session = session;
                self.deployer_nonce = 0;
            },
            Err(reason) => {
                let mut message = String::from_str("Contracts invalid: ");
                message.append(reason.as_str());
                events.push(DevnetEvent::error(message));
                assert(events_view(events@) == seq![
                    DevnetEventView::Error(contracts_invalid_message(reason@)),
                ]);
            },
        }
        events
    }
}

} // verus!
