use vstd::prelude::*;

verus! {

/// Pacing configuration for the application-logic worker, in ticks per second.
pub struct LogicSettings {
    /// Update rate on user interaction, in Hz.
    pub interface_refresh_rate: u128,
    /// Update rate for progress displays at idle, in Hz.
    pub progress_refresh_rate: u128,
    /// Tick rate of the internal logic loop, in Hz.
    pub internal_logic_refresh_rate: u128,
}

impl LogicSettings {
    pub fn new(
        interface_refresh_rate: u128,
        progress_refresh_rate: u128,
        internal_logic_refresh_rate: u128,
    ) -> (r: LogicSettings)
        ensures
            r.interface_refresh_rate == interface_refresh_rate,
            r.progress_refresh_rate == progress_refresh_rate,
            r.internal_logic_refresh_rate == internal_logic_refresh_rate,
    {
        LogicSettings { interface_refresh_rate, progress_refresh_rate, internal_logic_refresh_rate }
    }
}

impl Default for LogicSettings {
    fn default() -> (r: LogicSettings)
        ensures
            r.interface_refresh_rate == 60,
            r.progress_refresh_rate == 4,
            r.internal_logic_refresh_rate == 60,
    {
        LogicSettings::new(60, 4, 60)
    }
}

/// Pacing configuration for the server worker, in ticks per second.
pub struct ServerSettings {
    /// Tick rate of the server's logic loop, in Hz.
    pub logic_refresh_rate: u128,
}

impl ServerSettings {
    pub fn new(logic_refresh_rate: u128) -> (r: ServerSettings)
        ensures
            r.logic_refresh_rate == logic_refresh_rate,
    {
        ServerSettings { logic_refresh_rate }
    }
}

impl Default for ServerSettings {
    fn default() -> (r: ServerSettings)
        ensures
            r.logic_refresh_rate == 60,
    {
        ServerSettings::new(60)
    }
}

} // verus!
