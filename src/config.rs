use vstd::prelude::*;

verus! {

/// Where the emulator finds its files, and how fast it runs.
pub struct EmulatorConfig {
    pub bios_path: String,
    pub rom_path: String,
    pub save_dir: String,
    pub target_fps: u32,
}

/// The settings of input arbitration. The mode-switch threshold, a fraction, stays in
/// the application's configuration file type: nothing here reads it.
pub struct InputConfig {
    pub default_mode: String,
    pub democracy_window_secs: u64,
    pub rate_limit_ms: u64,
    pub mode_switch_cooldown_secs: u64,
    pub start_throttle_secs: Option<u64>,
}

pub struct ServerConfig {
    pub ws_host: String,
    pub ws_port: u16,
    pub admin_port: u16,
    pub admin_token: String,
}

pub struct StreamConfig {
    pub jpeg_quality: u8,
    pub audio_buffer_ms: u64,
}

pub struct ChatConfig {
    pub streamplace_ws_url: String,
    pub streamplace_token: String,
}

} // verus!
