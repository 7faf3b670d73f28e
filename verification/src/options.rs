//! The settings of the bench, as they are taken from the environment.

use vstd::prelude::*;
use crate::api::text_view;
use crate::text::{parse_u32, read_u32, same};

verus! {

/// The tool that writes the firmware to the board.
#[derive(Clone, Copy, Debug, PartialEq, Eq, Structural)]
pub enum FlashWith {
    PlatformIO,
    ESPTool,
}

/// The settings of the bench.
#[derive(Clone, Debug, PartialEq, Eq)]
pub struct Options {
    pub no_build: bool,
    pub flash_with: FlashWith,
    pub flash_baudrate: u32,
    pub rpc_url: String,
    pub rpc_password: String,
    pub report_type: String,
    pub tester_name: String,
}

/// The variables that the settings are read from.
pub const VAR_BUILD: &'static str = "TESTER_BUILD";

pub const VAR_FLASH_WITH: &'static str = "TESTER_FLASH_WITH";

pub const VAR_FLASH_BAUDRATE: &'static str = "TESTER_FLASH_BAUDRATE";

pub const VAR_RPC_URL: &'static str = "TESTER_RPC_URL";

pub const VAR_RPC_PASSWORD: &'static str = "TESTER_RPC_PASSWORD";

pub const VAR_REPORT_TYPE: &'static str = "TESTER_REPORT_TYPE";

pub const VAR_NAME: &'static str = "TESTER_NAME";

/// What the environment holds: the value of each variable that is set,
/// and the name of the host.
#[derive(Clone, Debug, PartialEq, Eq)]
pub struct Environment {
    pub build: Option<String>,
    pub flash_with: Option<String>,
    pub flash_baudrate: Option<String>,
    pub rpc_url: Option<String>,
    pub rpc_password: Option<String>,
    pub report_type: Option<String>,
    pub name: Option<String>,
    pub hostname: String,
}

/// A setting that cannot be read.
#[derive(Clone, Copy, Debug, PartialEq, Eq, Structural)]
pub enum OptionsError {
    /// The flashing tool is neither `pio` nor `esptool`.
    FlashWith,
    /// The baud rate is no number that fits 32 bits.
    FlashBaudrate,
}

/// The flashing tool that a value names; `esptool` where none is given.
pub open spec fn flash_choice(value: Option<Seq<char>>) -> Option<FlashWith> {
    match value {
        None => Some(FlashWith::ESPTool),
        Some(v) => if v == "pio"@ {
            Some(FlashWith::PlatformIO)
        } else if v == "esptool"@ {
            Some(FlashWith::ESPTool)
        } else {
            None
        },
    }
}

/// The baud rate that a value gives; 921600 where none is given.
pub open spec fn baudrate_choice(value: Option<Seq<char>>) -> Option<u32> {
    match value {
        None => Some(921600u32),
        Some(v) => read_u32(v),
    }
}

/// The value if there is one, else the fallback.
pub open spec fn or_else(value: Option<Seq<char>>, fallback: Seq<char>) -> Seq<char> {
    match value {
        Some(v) => v,
        None => fallback,
    }
}

fn text_or(value: Option<String>, fallback: &str) -> (text: String)
    ensures
        text@ == or_else(text_view(value), fallback@),
{
    match value {
        Some(v) => v,
        None => String::from_str(fallback),
    }
}

impl Options {
    /// The settings that the environment gives. The build is skipped only
    /// where the build variable reads `no`. A flashing tool or baud rate
    /// that cannot be read is an error, the tool's first. Everything else
    /// has a fallback; the tester's name falls back to the host's.
    pub fn parse(env: Environment) -> (r: Result<Options, OptionsError>)
        ensures
            match r {
                Ok(options) => {
                    &&& options.no_build == (text_view(env.build) == Some("no"@))
                    &&& flash_choice(text_view(env.flash_with)) == Some(options.flash_with)
                    &&& baudrate_choice(text_view(env.flash_baudrate)) == Some(
                        options.flash_baudrate,
                    )
                    &&& options.rpc_url@ == or_else(
                        text_view(env.rpc_url),
                        "https://localhost:3000/api/rpc"@,
                    )
                    &&& options.rpc_password@ == or_else(
                        text_view(env.rpc_password),
                        "password"@,
                    )
                    &&& options.report_type@ == or_else(text_view(env.report_type), "json"@)
                    &&& options.tester_name@ == or_else(text_view(env.name), env.hostname@)
                },
                Err(OptionsError::FlashWith) => flash_choice(text_view(env.flash_with)) is None,
                Err(OptionsError::FlashBaudrate) => {
                    &&& flash_choice(text_view(env.flash_with)) is Some
                    &&& baudrate_choice(text_view(env.flash_baudrate)) is None
                },
            },
    {
        let no_build = match &env.build {
            Some(v) => same(v.as_str(), "no"),
            None => false,
        };
        let flash_with = match &env.flash_with {
            None => FlashWith::ESPTool,
            Some(v) => {
                if same(v.as_str(), "pio") {
                    FlashWith::PlatformIO
                } else if same(v.as_str(), "esptool") {
                    FlashWith::ESPTool
                } else {
                    return Err(OptionsError::FlashWith);
                }
            },
        };
        let flash_baudrate: u32 = match &env.flash_baudrate {
            None => 921600,
            Some(v) => match parse_u32(v.as_str()) {
                Some(n) => n,
                None => {
                    return Err(OptionsError::FlashBaudrate);
                },
            },
        };
        let tester_name = match env.name {
            Some(v) => v,
            None => env.hostname,
        };
        Ok(
            Options {
                no_build,
                flash_with,
                flash_baudrate,
                rpc_url: text_or(env.rpc_url, "https://localhost:3000/api/rpc"),
                rpc_password: text_or(env.rpc_password, "password"),
                report_type: text_or(env.report_type, "json"),
                tester_name,
            },
        )
    }
}

} // verus!
