//! Service configuration. The values arrive from the process environment as
//! opaque strings; this module holds the validation that turns them into a
//! `Config`. Reading the environment itself stays outside the library.

use vstd::prelude::*;

use crate::error::AppError;
use crate::numtext::{parse_u16, parse_u8, spec_parse_uint};
use vstd::string::StringExecFns;

verus! {

/// Ceiling on the byte length of one inbound frame.
pub const MAX_BYTES: u8 = 10;

/// The service configuration.
#[derive(Debug, Clone)]
pub struct Config {
    pub rust_port: u16,
    pub svelte_url: String,
    pub state_path: String,
    pub max_connections_per_ip: u8,
    pub hash_salt: String,
    pub timeout_min: u8,
    pub msg_delay_ms: u8,
}

/// The view of an optional raw value.
pub open spec fn opt_view(o: Option<String>) -> Option<Seq<char>> {
    match o {
        Some(s) => Some(s@),
        None => None,
    }
}

/// What the port value resolves to: the default when absent, else the
/// string parsed as a `u16`.
pub open spec fn spec_port(o: Option<Seq<char>>) -> Option<nat> {
    match o {
        None => Some(8080),
        Some(s) => spec_parse_uint(s, u16::MAX as nat),
    }
}

/// What a small numeric value resolves to: its default when absent, else
/// the string parsed as a `u8`.
pub open spec fn spec_small(o: Option<Seq<char>>, default: nat) -> Option<nat> {
    match o {
        None => Some(default),
        Some(s) => spec_parse_uint(s, u8::MAX as nat),
    }
}

/// What a text value resolves to: its default when absent, else itself.
pub open spec fn spec_text(o: Option<Seq<char>>, default: Seq<char>) -> Seq<char> {
    match o {
        None => default,
        Some(s) => s,
    }
}

impl Config {
    /// Build the configuration from the raw environment values, each
    /// `None` when unset. Numeric values must parse; text values are
    /// taken as given; every field falls back to its default when absent.
    pub fn load(
        rust_port: Option<String>,
        svelte_url: Option<String>,
        state_path: Option<String>,
        max_connections_per_ip: Option<String>,
        hash_salt: Option<String>,
        timeout_min: Option<String>,
        msg_delay_ms: Option<String>,
    ) -> (r: Result<Config, AppError>)
        ensures
            r is Ok <==> (spec_port(opt_view(rust_port)) is Some && spec_small(
                opt_view(max_connections_per_ip),
                5,
            ) is Some && spec_small(opt_view(timeout_min), 5) is Some && spec_small(
                opt_view(msg_delay_ms),
                100,
            ) is Some),
            r matches Ok(c) ==> Some(c.rust_port as nat) == spec_port(opt_view(rust_port))
                && c.svelte_url@ == spec_text(opt_view(svelte_url), "http://localhost:5173"@)
                && c.state_path@ == spec_text(opt_view(state_path), "/saved_state.json"@) && Some(
                c.max_connections_per_ip as nat,
            ) == spec_small(opt_view(max_connections_per_ip), 5) && c.hash_salt@ == spec_text(
                opt_view(hash_salt),
                "WeAreInTroubleGoodnessGracious"@,
            ) && Some(c.timeout_min as nat) == spec_small(opt_view(timeout_min), 5) && Some(
                c.msg_delay_ms as nat,
            ) == spec_small(opt_view(msg_delay_ms), 100),
            r matches Err(e) ==> (e matches AppError::Config(m) && (if spec_port(
                opt_view(rust_port),
            ) is None {
                m@ == "Invalid RUST_PORT value"@
            } else if spec_small(opt_view(max_connections_per_ip), 5) is None {
                m@ == "Invalid RUST_MAX_CONNECTIONS_PER_IP value"@
            } else if spec_small(opt_view(timeout_min), 5) is None {
                m@ == "Invalid RUST_TIMEOUT_MIN value"@
            } else {
                m@ == "Invalid RUST_MSG_DELAY_MS value"@
            })),
    {
        let rust_port: u16 = match rust_port {
            None => 8080,
            Some(s) => match parse_u16(s.as_str()) {
                Some(v) => v,
                None => {
                    return Err(AppError::Config(String::from_str("Invalid RUST_PORT value")));
                },
            },
        };
        let svelte_url: String = match svelte_url {
            Some(s) => s,
            None => String::from_str("http://localhost:5173"),
        };
        let state_path: String = match state_path {
            Some(s) => s,
            None => String::from_str("/saved_state.json"),
        };
        let max_connections_per_ip: u8 = match max_connections_per_ip {
            None => 5,
            Some(s) => match parse_u8(s.as_str()) {
                Some(v) => v,
                None => {
                    return Err(
                        AppError::Config(
                            String::from_str("Invalid RUST_MAX_CONNECTIONS_PER_IP value"),
                        ),
                    );
                },
            },
        };
        let hash_salt: String = match hash_salt {
            Some(s) => s,
            None => String::from_str("WeAreInTroubleGoodnessGracious"),
        };
        let timeout_min: u8 = match timeout_min {
            None => 5,
            Some(s) => match parse_u8(s.as_str()) {
                Some(v) => v,
                None => {
                    return Err(
                        AppError::Config(String::from_str("Invalid RUST_TIMEOUT_MIN value")),
                    );
                },
            },
        };
        let msg_delay_ms: u8 = match msg_delay_ms {
            None => 100,
            Some(s) => match parse_u8(s.as_str()) {
                Some(v) => v,
                None => {
                    return Err(
                        AppError::Config(String::from_str("Invalid RUST_MSG_DELAY_MS value")),
                    );
                },
            },
        };
        Ok(
            Config {
                rust_port,
                svelte_url,
                state_path,
                max_connections_per_ip,
                hash_salt,
                timeout_min,
                msg_delay_ms,
            },
        )
    }
}

} // verus!
