//! The stage-one service: an enabled flag, a connection to the server, and
//! the stage the service is in.
//!
//! The service holds its server client as a value of type `C`; making the
//! client (reading a configuration file, connecting) is left to the caller,
//! who asks [`StageOneService::begin_connect`] whether a client is wanted and
//! hands the outcome to [`StageOneService::finish_connect`].
use vstd::prelude::*;

use core::time::Duration;
use std::time::Instant;

verus! {

#[verifier::external_type_specification]
#[verifier::external_body]
pub struct ExInstant(Instant);

#[verifier::external_type_specification]
#[verifier::external_body]
pub struct ExAnyhowError(anyhow::Error);

/// `Instant::now`: the current instant. It depends on the clock; nothing is
/// stated of it.
#[verifier::external_body]
pub fn now() -> Instant {
    Instant::now()
}

/// The stage the service is in.
#[derive(Debug, Clone, Copy, PartialEq, Eq)]
pub enum State {
    /// The stage in which the service starts, and to which it returns on
    /// every change of connection.
    Zero,
}

/// The stage-one service, holding its server client when connected.
#[derive(Debug)]
pub struct StageOneService<C> {
    pub enabled: bool,
    pub request_timeout: Duration,
    pub state: State,
    pub client: Option<C>,
    pub last_request_ts: Instant,
}

impl<C> StageOneService<C> {
    /// A disabled, unconnected service in stage `Zero`; its last request is
    /// taken to be now.
    pub fn new(request_timeout: Duration) -> (r: Self)
        ensures
            !r.enabled,
            r.request_timeout == request_timeout,
            r.state == State::Zero,
            r.client is None,
    {
        StageOneService {
            enabled: false,
            client: None,
            state: State::Zero,
            request_timeout,
            last_request_ts: now(),
        }
    }

    /// Turn the service on or off; nothing else changes.
    pub fn set_enabled(&mut self, value: bool)
        ensures
            *final(self) == (StageOneService { enabled: value, ..*old(self) }),
    {
        if self.enabled == value {
            return;
        }
        self.enabled = value;
    }

    /// Whether a client must be made to connect. A connected service needs
    /// none and is left as it is; an unconnected one returns to stage `Zero`
    /// and needs one.
    pub fn begin_connect(&mut self) -> (r: bool)
        ensures
            r == (old(self).client is None),
            r ==> *final(self) == (StageOneService { state: State::Zero, ..*old(self) }),
            !r ==> *final(self) == *old(self),
    {
        if self.client.is_some() {
            return false;
        }
        self.state = State::Zero;
        true
    }

    /// Take the outcome of making a client: a client connects the service; an
    /// error is handed back and leaves the service as it is.
    pub fn finish_connect(&mut self, made: Result<C, anyhow::Error>) -> (r: Result<(), anyhow::Error>)
        ensures
            match made {
                Ok(c) => r is Ok && *final(self) == (StageOneService { client: Some(c), ..*old(self) }),
                Err(e) => r == Err::<(), anyhow::Error>(e) && *final(self) == *old(self),
            },
    {
        match made {
            Ok(client) => {
                self.client = Some(client);
                Ok(())
            },
            Err(e) => Err(e),
        }
    }

    /// Drop the client and return to stage `Zero`.
    pub fn disconnect(&mut self)
        ensures
            *final(self) == (StageOneService { state: State::Zero, client: None, ..*old(self) }),
    {
        self.state = State::Zero;
        self.client = None;
    }

    /// Whether the service is on.
    pub fn is_enabled(&self) -> (r: bool)
        ensures
            r == self.enabled,
    {
        self.enabled
    }

    /// Whether the service holds a client.
    pub fn is_connected(&self) -> (r: bool)
        ensures
            r == (self.client is Some),
    {
        self.client.is_some()
    }

    /// Advance the service at instant `now`. The service has no stage beyond
    /// `Zero` to advance to: it is left as it is, and the update succeeds.
    pub fn update(&mut self, now: Instant, plate_count: u32) -> (r: Result<(), anyhow::Error>)
        ensures
            r is Ok,
            *final(self) == *old(self),
    {
        if !self.enabled {
            return Ok(());
        }
        if self.client.is_none() {
            return Ok(());
        }
        Ok(())
    }
}

} // verus!
