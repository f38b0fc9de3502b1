//! The address of the server.
use vstd::prelude::*;
use crate::error::CoreError;
use crate::sync::environment::ServerEnvironment;
use crate::text::{concat3, decimal, decimal_string, str_eq, trim, trim_end_char, trim_end_matches, trim_ws};

verus! {

#[derive(Debug, Clone, Copy, PartialEq, Eq, Structural)]
pub enum ClientRunMode {
    Dev,
    Prod,
}

impl ClientRunMode {
    pub fn parse(mode: &str) -> (r: Result<ClientRunMode, CoreError>)
        ensures
            mode@ == "dev"@ ==> r == Ok::<ClientRunMode, CoreError>(ClientRunMode::Dev),
            mode@ == "prod"@ ==> r == Ok::<ClientRunMode, CoreError>(ClientRunMode::Prod),
            mode@ != "dev"@ && mode@ != "prod"@ ==> (r matches Err(CoreError::UnknownRunMode { mode: m }) && m@ == mode@),
    {
        proof {
            reveal_strlit("dev");
            reveal_strlit("prod");
            assert("dev"@[0] != "prod"@[0]);
        }
        if str_eq(mode, "dev") {
            Ok(ClientRunMode::Dev)
        } else if str_eq(mode, "prod") {
            Ok(ClientRunMode::Prod)
        } else {
            Err(CoreError::UnknownRunMode { mode: mode.to_owned() })
        }
    }
}

/// How a build reaches a server on the developer's machine: directly, or, from the
/// Android emulator, through the address the emulator gives the host.
#[derive(Debug, Clone, Copy, PartialEq, Eq, Structural)]
pub enum LocalHost {
    Loopback,
    AndroidEmulator,
}

pub open spec fn local_server_url_of(host: LocalHost) -> Seq<char> {
    match host {
        LocalHost::Loopback => "http://127.0.0.1"@,
        LocalHost::AndroidEmulator => "http://10.0.2.2"@,
    }
}

/// The address of the local server.
pub fn local_server_url(host: LocalHost) -> (r: &'static str)
    ensures
        r@ == local_server_url_of(host),
{
    match host {
        LocalHost::Loopback => "http://127.0.0.1",
        LocalHost::AndroidEmulator => "http://10.0.2.2",
    }
}

/// Where the server listens, unless an endpoint overrides it.
#[derive(Debug)]
pub struct ApiUrl {
    pub url: &'static str,
    pub port: u32,
    pub run_mode: ClientRunMode,
    /// An endpoint that replaces url and port (used by local test harnesses).
    pub endpoint_override: Option<String>,
}

/// The override taken from a configured value: trimmed, without trailing slashes, and
/// none when that leaves nothing.
pub open spec fn endpoint_of(value: Seq<char>) -> Option<Seq<char>> {
    let cleaned = trim_end_char(trim_ws(value), '/');
    if cleaned.len() == 0 {
        None
    } else {
        Some(cleaned)
    }
}

impl ApiUrl {
    /// The server of the environment this build talks to.
    pub fn selected() -> (r: Self)
        ensures
            r.url@ == "https://api.meta-secret.org"@,
            r.port == 443,
            r.run_mode == ClientRunMode::Prod,
            r.endpoint_override is None,
    {
        ApiUrl::for_environment(crate::sync::environment::selected(), None, LocalHost::Loopback)
    }

    pub fn for_environment(environment: ServerEnvironment, endpoint_override: Option<&str>, host: LocalHost) -> (r: Self)
        ensures
            environment == ServerEnvironment::Remote ==> r.url@ == "https://api.meta-secret.org"@ && r.port
                == 443 && r.run_mode == ClientRunMode::Prod && r.endpoint_override is None,
            environment == ServerEnvironment::Local ==> r.url@ == local_server_url_of(host) && r.port == 3000
                && r.run_mode == ClientRunMode::Dev && (match endpoint_override {
                Some(v) => match endpoint_of(v@) {
                    Some(e) => r.endpoint_override matches Some(o) && o@ == e,
                    None => r.endpoint_override is None,
                },
                None => r.endpoint_override is None,
            }),
    {
        match environment {
            ServerEnvironment::Local => ApiUrl::local_with(endpoint_override, host),
            ServerEnvironment::Remote => ApiUrl::prod(),
        }
    }

    pub fn get(run_mode: ClientRunMode) -> (r: Self)
        ensures
            run_mode == ClientRunMode::Dev ==> r.url@ == "https://localhost"@ && r.port == 443,
            run_mode == ClientRunMode::Prod ==> r.url@ == "https://api.meta-secret.org"@ && r.port == 443,
            r.run_mode == run_mode,
            r.endpoint_override is None,
    {
        match run_mode {
            ClientRunMode::Dev => ApiUrl::dev(),
            ClientRunMode::Prod => ApiUrl::prod(),
        }
    }

    pub fn dev() -> (r: Self)
        ensures
            r.url@ == "https://localhost"@,
            r.port == 443,
            r.run_mode == ClientRunMode::Dev,
            r.endpoint_override is None,
    {
        ApiUrl { url: "https://localhost", port: 443, run_mode: ClientRunMode::Dev, endpoint_override: None }
    }

    /// The local server, as the build reaches it; a configured endpoint (the value of an
    /// environment variable, when it is set) replaces it after cleaning.
    pub fn local_with(endpoint_override: Option<&str>, host: LocalHost) -> (r: Self)
        ensures
            r.url@ == local_server_url_of(host),
            r.port == 3000,
            r.run_mode == ClientRunMode::Dev,
            match endpoint_override {
                Some(v) => match endpoint_of(v@) {
                    Some(e) => r.endpoint_override matches Some(o) && o@ == e,
                    None => r.endpoint_override is None,
                },
                None => r.endpoint_override is None,
            },
    {
        let endpoint = match endpoint_override {
            Some(value) => {
                let cleaned = trim_end_matches(trim(value), '/');
                if cleaned.unicode_len() == 0 {
                    None
                } else {
                    Some(String::from_str(cleaned))
                }
            },
            None => None,
        };
        ApiUrl { url: local_server_url(host), port: 3000, run_mode: ClientRunMode::Dev, endpoint_override: endpoint }
    }

    pub fn custom_dev(url: &'static str, port: u32) -> (r: Self)
        ensures
            r.url == url,
            r.port == port,
            r.run_mode == ClientRunMode::Dev,
            r.endpoint_override is None,
    {
        ApiUrl { url, port, run_mode: ClientRunMode::Dev, endpoint_override: None }
    }

    pub fn prod() -> (r: Self)
        ensures
            r.url@ == "https://api.meta-secret.org"@,
            r.port == 443,
            r.run_mode == ClientRunMode::Prod,
            r.endpoint_override is None,
    {
        ApiUrl {
            url: "https://api.meta-secret.org",
            port: 443,
            run_mode: ClientRunMode::Prod,
            endpoint_override: None,
        }
    }

    /// The override when there is one, else `url:port`.
    pub fn get_url(&self) -> (r: String)
        ensures
            self.endpoint_override matches Some(o) ==> r@ == o@,
            self.endpoint_override is None ==> r@ == self.url@ + ":"@ + decimal(self.port as nat),
    {
        match &self.endpoint_override {
            Some(o) => o.clone(),
            None => {
                let port = decimal_string(self.port as usize);
                concat3(self.url, ":", port.as_str())
            },
        }
    }
}

} // verus!
