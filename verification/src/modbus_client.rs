//! Device-side configuration and the register-level view of the inverter's
//! operating state.
//!
//! The inverter exposes its operating state as one 32-bit value spread
//! big-endian over two adjacent 16-bit input registers. This module validates
//! the device address, names the known state codes, and turns state values
//! into register words and back. The actual field-bus session is owned by the
//! surrounding program, which hands register words in and out as plain values.

use vstd::prelude::*;

use crate::codec;
use crate::errors::{ConfigError, ProtocolError};

verus! {

/// Number of the first 16-bit register that holds the operating state.
pub const INVERTER_STATE_REGISTER: u16 = 40018;
/// The operating state occupies this many adjacent 16-bit registers.
pub const INVERTER_STATE_REGISTER_COUNT: u16 = 2;
/// State code reported while the inverter stands by.
pub const INVERTER_STATE_STANDBY: u32 = 311;
/// State code that starts the inverter, and is reported while it runs.
pub const INVERTER_STATE_START: u32 = 1467;
/// State code that stops the inverter fully, AC and DC side.
pub const INVERTER_STATE_STOP: u32 = 1749;

/// A device port is acceptable when it is the well-known default 502 or lies
/// in the installer-configurable range from 49152 up.
pub open spec fn valid_port(port: u16) -> bool {
    port == 502 || port >= 49152
}

/// Where to reach the device: host address, TCP port and unit identifier.
#[derive(Debug)]
pub struct ModbusClientConfig {
    host: String,
    port: u16,
    unit_id: u8,
}

impl ModbusClientConfig {
    /// The configured host address.
    pub closed spec fn spec_host(&self) -> Seq<char> {
        self.host@
    }

    /// The configured TCP port.
    pub closed spec fn spec_port(&self) -> u16 {
        self.port
    }

    /// The configured unit identifier.
    pub closed spec fn spec_unit_id(&self) -> u8 {
        self.unit_id
    }

    /// A constructed configuration always carries a non-empty host and an
    /// acceptable port.
    pub open spec fn wf(&self) -> bool {
        self.spec_host().len() > 0 && valid_port(self.spec_port())
    }

    /// Validates and builds a device configuration. Succeeds exactly when the
    /// host is non-empty and the port is acceptable; an empty host is
    /// reported before a bad port.
    pub fn new(host: String, port: u16, unit_id: u8) -> (result: Result<Self, ConfigError>)
        ensures
            result is Ok <==> host@.len() > 0 && valid_port(port),
            result matches Ok(c) ==> c.spec_host() == host@ && c.spec_port() == port
                && c.spec_unit_id() == unit_id && c.wf(),
            host@.len() == 0 ==> result == Err::<Self, ConfigError>(ConfigError::EmptyHost),
            host@.len() > 0 && !valid_port(port) ==> result == Err::<Self, ConfigError>(
                ConfigError::InvalidPort,
            ),
    {
        if host.as_str().is_empty() {
            return Err(ConfigError::EmptyHost);
        }
        if port != 502 && port < 49152 {
            return Err(ConfigError::InvalidPort);
        }
        Ok(Self { host, port, unit_id })
    }

    /// The host address, for the program that opens the session.
    pub fn host(&self) -> (host: &String)
        ensures
            host@ == self.spec_host(),
    {
        &self.host
    }

    /// The TCP port, for the program that opens the session.
    pub fn port(&self) -> (port: u16)
        ensures
            port == self.spec_port(),
    {
        self.port
    }

    /// The unit identifier, for the program that opens the session.
    pub fn unit_id(&self) -> (unit_id: u8)
        ensures
            unit_id == self.spec_unit_id(),
    {
        self.unit_id
    }
}

/// Register-level client for the inverter's state value. It owns the device
/// configuration and does the exact encoding work of a read and a write; the
/// transport itself stays outside.
pub struct ModbusClient {
    config: ModbusClientConfig,
}

impl ModbusClient {
    /// The configuration the client was built with.
    pub closed spec fn spec_config(&self) -> ModbusClientConfig {
        self.config
    }

    /// Builds a client around a validated device configuration.
    pub fn new(config: ModbusClientConfig) -> (client: ModbusClient)
        ensures
            client.spec_config() == config,
    {
        ModbusClient { config }
    }

    /// The configuration, for the program that opens the session.
    pub fn config(&self) -> (config: &ModbusClientConfig)
        ensures
            *config == self.spec_config(),
    {
        &self.config
    }

    /// Decodes the registers a state read returned: exactly two words joined
    /// big-endian, any other count is a protocol error carrying that count.
    pub fn decode_inverter_state(&self, words: &Vec<u16>) -> (result: Result<u32, ProtocolError>)
        ensures
            words@.len() == 2 ==> result == Ok::<u32, ProtocolError>(
                codec::join_words(words@[0], words@[1]),
            ),
            words@.len() != 2 ==> result == Err::<u32, ProtocolError>(
                ProtocolError::WrongRegisterCount { got: words@.len() as usize },
            ),
    {
        codec::registers_to_state(words)
    }

    /// The two register words of the stop command: the stop code split
    /// big-endian.
    pub fn stop_command_registers(&self) -> (words: Vec<u16>)
        ensures
            words@.len() == 2,
            codec::join_words(words@[0], words@[1]) == INVERTER_STATE_STOP,
    {
        codec::state_to_registers(INVERTER_STATE_STOP)
    }

    /// The two register words of the start command: the start code split
    /// big-endian.
    pub fn start_command_registers(&self) -> (words: Vec<u16>)
        ensures
            words@.len() == 2,
            codec::join_words(words@[0], words@[1]) == INVERTER_STATE_START,
    {
        codec::state_to_registers(INVERTER_STATE_START)
    }
}

} // verus!
