//! Sessions: one backend, its configuration, and where the session stands
//! in its life.
//!
//! A session is created, started once its backend has connected, and
//! stopped once the backend has disconnected. A stopped session stays
//! stopped. Connecting and disconnecting are the caller's part; `start` and
//! `stop` take what either returned.

use vstd::prelude::*;
use crate::config::Config;
use crate::error::BryndzaError;
use crate::platform::{detect_and_create, Backend};
use crate::units::Millis;
use crate::wait::strategy::WaitStrategy;

verus! {

#[verifier::external_type_specification]
#[verifier::external_body]
pub struct ExUuid(uuid::Uuid);

/// `uuid::Uuid::new_v4`: a random version 4 identifier. Nothing is promised
/// of its value. The call ends the process where the operating system
/// gives no random bytes.
#[verifier::external_body]
fn random_id() -> (id: uuid::Uuid) {
    uuid::Uuid::new_v4()
}

/// Where a session stands in its life.
#[derive(Debug, Clone, Copy, PartialEq, Eq, Structural)]
pub enum SessionState {
    /// Made, and not yet connected.
    Created,
    /// Connected.
    Started,
    /// Disconnected, for good.
    Stopped,
}

impl SessionState {
    /// The state after the backend has connected: a created session is
    /// started, every other session stays as it is.
    pub open spec fn after_connect(self) -> SessionState {
        match self {
            SessionState::Created => SessionState::Started,
            SessionState::Started => SessionState::Started,
            SessionState::Stopped => SessionState::Stopped,
        }
    }

    /// The state after the backend has disconnected: stopped.
    pub open spec fn after_disconnect(self) -> SessionState {
        SessionState::Stopped
    }
}

/// An automation session.
pub struct Session {
    /// The identifier of the session.
    pub id: uuid::Uuid,
    /// The configuration.
    pub config: Config,
    state: SessionState,
    platform: Backend,
}

impl Session {
    /// Where the session stands in its life.
    pub closed spec fn state(&self) -> SessionState {
        self.state
    }

    /// The configuration of the session.
    pub closed spec fn configuration(&self) -> Config {
        self.config
    }

    /// The identifier of the session.
    pub closed spec fn identifier(&self) -> uuid::Uuid {
        self.id
    }

    /// The backend of the session.
    pub closed spec fn backend(&self) -> Backend {
        self.platform
    }

    /// A created session with the backend for the host's operating system,
    /// named as for `detect_and_create`.
    ///
    /// Fails as `detect_and_create` does.
    pub fn new(config: Config, host_os: &str) -> (result: Result<Self, BryndzaError>)
        ensures
            crate::platform::backend_is_known(host_os@) ==> (result matches Ok(session)
                && session.configuration() == config && session.state() == SessionState::Created),
            !crate::platform::backend_is_known(host_os@) ==> (result matches Err(
                BryndzaError::PlatformNotSupported { platform },
            ) && platform@ == host_os@),
    {
        match detect_and_create(&config, host_os) {
            Ok(platform) => Ok(
                Session { id: random_id(), config, state: SessionState::Created, platform },
            ),
            Err(error) => Err(error),
        }
    }

    /// A builder that starts from the default configuration.
    pub fn builder() -> (builder: SessionBuilder)
        ensures
            builder.configuration() == Config::spec_default(),
    {
        SessionBuilder::default()
    }

    /// Where the session stands in its life.
    pub fn current_state(&self) -> (state: SessionState)
        ensures
            state == self.state(),
    {
        self.state
    }

    /// Starts the session, given what connecting the backend returned: on
    /// success a created session is started; a failure is passed on and
    /// changes nothing.
    pub fn start(&mut self, connected: Result<(), BryndzaError>) -> (result: Result<
        (),
        BryndzaError,
    >)
        ensures
            result == connected,
            final(self).state() == if connected is Ok {
                old(self).state().after_connect()
            } else {
                old(self).state()
            },
            final(self).configuration() == old(self).configuration(),
            final(self).identifier() == old(self).identifier(),
            final(self).backend() == old(self).backend(),
    {
        if connected.is_ok() {
            self.state = match self.state {
                SessionState::Created => SessionState::Started,
                SessionState::Started => SessionState::Started,
                SessionState::Stopped => SessionState::Stopped,
            };
        }
        connected
    }

    /// Stops the session, given what disconnecting the backend returned: on
    /// success the session is stopped; a failure is passed on and changes
    /// nothing.
    pub fn stop(&mut self, disconnected: Result<(), BryndzaError>) -> (result: Result<
        (),
        BryndzaError,
    >)
        ensures
            result == disconnected,
            final(self).state() == if disconnected is Ok {
                old(self).state().after_disconnect()
            } else {
                old(self).state()
            },
            final(self).configuration() == old(self).configuration(),
            final(self).identifier() == old(self).identifier(),
            final(self).backend() == old(self).backend(),
    {
        if disconnected.is_ok() {
            self.state = SessionState::Stopped;
        }
        disconnected
    }

    /// The backend.
    pub fn platform(&self) -> (platform: &Backend)
        ensures
            *platform == self.backend(),
    {
        &self.platform
    }

    /// The backend, for connecting and disconnecting it. Nothing else of
    /// the session changes with it.
    pub fn platform_mut(&mut self) -> (platform: &mut Backend)
        ensures
            *platform == old(self).backend(),
            final(self).backend() == *final(platform),
            final(self).state() == old(self).state(),
            final(self).configuration() == old(self).configuration(),
            final(self).identifier() == old(self).identifier(),
    {
        &mut self.platform
    }

    /// The deadline and the strategy of a wait that the session starts by
    /// itself: the default timeout of the configuration and the default
    /// strategy.
    pub fn wait_settings(&self) -> (settings: (Millis, WaitStrategy))
        ensures
            settings.0 == self.configuration().default_timeout,
            settings.1 == (WaitStrategy {
                initial_interval: Millis { millis: 100 },
                max_interval: Millis { millis: 1000 },
                backoff_multiplier: crate::units::Permille { thousandths: 1500 },
                strategy_type: crate::wait::strategy::WaitStrategyType::FixedInterval,
            }),
    {
        (self.config.default_timeout, WaitStrategy::default())
    }
}

/// A stopped session stays stopped, whatever the backend does.
pub proof fn lemma_stopped_is_final(state: SessionState)
    requires
        state == SessionState::Stopped,
    ensures
        state.after_connect() == SessionState::Stopped,
        state.after_disconnect() == SessionState::Stopped,
{
}

/// Builds the configuration of a session step by step.
pub struct SessionBuilder {
    config: Config,
}

impl Default for SessionBuilder {
    fn default() -> (builder: Self)
        ensures
            builder.configuration() == Config::spec_default(),
    {
        SessionBuilder { config: Config::default() }
    }
}

impl SessionBuilder {
    /// The configuration as built so far.
    pub closed spec fn configuration(&self) -> Config {
        self.config
    }

    /// Sets the deadline of operations that wait.
    pub fn timeout(self, timeout: Millis) -> (builder: Self)
        ensures
            builder.configuration() == (Config {
                default_timeout: timeout,
                ..self.configuration()
            }),
    {
        let mut config = self.config;
        config.default_timeout = timeout;
        SessionBuilder { config }
    }

    /// Sets how often an operation is tried again after a transient error.
    pub fn max_retries(self, max_retries: u32) -> (builder: Self)
        ensures
            builder.configuration() == (Config { max_retries, ..self.configuration() }),
    {
        let mut config = self.config;
        config.max_retries = max_retries;
        SessionBuilder { config }
    }

    /// Sets the pause between two such tries.
    pub fn retry_delay(self, delay: Millis) -> (builder: Self)
        ensures
            builder.configuration() == (Config { retry_delay: delay, ..self.configuration() }),
    {
        let mut config = self.config;
        config.retry_delay = delay;
        SessionBuilder { config }
    }

    /// Replaces the whole configuration.
    pub fn config(self, config: Config) -> (builder: Self)
        ensures
            builder.configuration() == config,
    {
        SessionBuilder { config }
    }

    /// Makes the session, as `Session::new` does with the configuration
    /// built so far.
    pub fn build(self, host_os: &str) -> (result: Result<Session, BryndzaError>)
        ensures
            crate::platform::backend_is_known(host_os@) ==> (result matches Ok(session)
                && session.configuration() == self.configuration() && session.state()
                == SessionState::Created),
            !crate::platform::backend_is_known(host_os@) ==> (result matches Err(
                BryndzaError::PlatformNotSupported { platform },
            ) && platform@ == host_os@),
    {
        Session::new(self.config, host_os)
    }
}

} // verus!
