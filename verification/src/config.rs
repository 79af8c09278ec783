//! The API endpoints of the DSH platform, by environment.
use vstd::prelude::*;
use crate::text::{debug_escaped, debug_text};

verus! {

/// The DSH environments that tokens can be requested from.
#[derive(Debug, Clone, Copy, PartialEq, Eq, Structural)]
pub enum DshEnv {
    Dev,
    Prod,
    Poc,
}

/// The REST token endpoint of an environment.
pub open spec fn rest_token_endpoint_of(env: DshEnv) -> Seq<char> {
    match env {
        DshEnv::Dev => "https://api.dsh-dev.dsh.np.aws.kpn.com/auth/v0/token"@,
        DshEnv::Prod => "https://api.dsh-prod.dsh.np.aws.kpn.com/auth/v0/token"@,
        DshEnv::Poc => "https://api.poc.kpn-dsh.com/auth/v0/token"@,
    }
}

/// The MQTT token endpoint of an environment.
pub open spec fn mqtt_token_endpoint_of(env: DshEnv) -> Seq<char> {
    match env {
        DshEnv::Dev => "https://api.dsh-dev.dsh.np.aws.kpn.com/datastreams/v0/mqtt/token"@,
        DshEnv::Prod => "https://api.dsh-prod.dsh.np.aws.kpn.com/datastreams/v0/mqtt/token"@,
        DshEnv::Poc => "https://api.poc.kpn-dsh.com/datastreams/v0/mqtt/token"@,
    }
}

/// The host of an environment's API, with its scheme.
pub open spec fn api_host_of(env: DshEnv) -> Seq<char> {
    match env {
        DshEnv::Dev => "https://api.dsh-dev.dsh.np.aws.kpn.com"@,
        DshEnv::Prod => "https://api.dsh-prod.dsh.np.aws.kpn.com"@,
        DshEnv::Poc => "https://api.poc.kpn-dsh.com"@,
    }
}

/// Both token endpoints of an environment lie on the same API host: the REST
/// token endpoint under `/auth/v0/token`, the MQTT token endpoint under
/// `/datastreams/v0/mqtt/token`.
pub proof fn lemma_endpoints_share_host(env: DshEnv)
    ensures
        rest_token_endpoint_of(env) == api_host_of(env) + "/auth/v0/token"@,
        mqtt_token_endpoint_of(env) == api_host_of(env) + "/datastreams/v0/mqtt/token"@,
{
    reveal_strlit("/auth/v0/token");
    reveal_strlit("/datastreams/v0/mqtt/token");
    match env {
        DshEnv::Dev => {
            reveal_strlit("https://api.dsh-dev.dsh.np.aws.kpn.com");
            reveal_strlit("https://api.dsh-dev.dsh.np.aws.kpn.com/auth/v0/token");
            reveal_strlit("https://api.dsh-dev.dsh.np.aws.kpn.com/datastreams/v0/mqtt/token");
            assert(rest_token_endpoint_of(env) =~= api_host_of(env) + "/auth/v0/token"@);
            assert(mqtt_token_endpoint_of(env) =~= api_host_of(env) + "/datastreams/v0/mqtt/token"@);
        },
        DshEnv::Prod => {
            reveal_strlit("https://api.dsh-prod.dsh.np.aws.kpn.com");
            reveal_strlit("https://api.dsh-prod.dsh.np.aws.kpn.com/auth/v0/token");
            reveal_strlit("https://api.dsh-prod.dsh.np.aws.kpn.com/datastreams/v0/mqtt/token");
            assert(rest_token_endpoint_of(env) =~= api_host_of(env) + "/auth/v0/token"@);
            assert(mqtt_token_endpoint_of(env) =~= api_host_of(env) + "/datastreams/v0/mqtt/token"@);
        },
        DshEnv::Poc => {
            reveal_strlit("https://api.poc.kpn-dsh.com");
            reveal_strlit("https://api.poc.kpn-dsh.com/auth/v0/token");
            reveal_strlit("https://api.poc.kpn-dsh.com/datastreams/v0/mqtt/token");
            assert(rest_token_endpoint_of(env) =~= api_host_of(env) + "/auth/v0/token"@);
            assert(mqtt_token_endpoint_of(env) =~= api_host_of(env) + "/datastreams/v0/mqtt/token"@);
        },
    }
}

/// Different environments have different API hosts, so different token
/// endpoints.
pub proof fn lemma_endpoints_distinct(a: DshEnv, b: DshEnv)
    requires
        a != b,
    ensures
        api_host_of(a) != api_host_of(b),
        rest_token_endpoint_of(a) != rest_token_endpoint_of(b),
        mqtt_token_endpoint_of(a) != mqtt_token_endpoint_of(b),
{
    reveal_strlit("https://api.dsh-dev.dsh.np.aws.kpn.com");
    reveal_strlit("https://api.dsh-prod.dsh.np.aws.kpn.com");
    reveal_strlit("https://api.poc.kpn-dsh.com");
    reveal_strlit("https://api.dsh-dev.dsh.np.aws.kpn.com/auth/v0/token");
    reveal_strlit("https://api.dsh-prod.dsh.np.aws.kpn.com/auth/v0/token");
    reveal_strlit("https://api.poc.kpn-dsh.com/auth/v0/token");
    reveal_strlit("https://api.dsh-dev.dsh.np.aws.kpn.com/datastreams/v0/mqtt/token");
    reveal_strlit("https://api.dsh-prod.dsh.np.aws.kpn.com/datastreams/v0/mqtt/token");
    reveal_strlit("https://api.poc.kpn-dsh.com/datastreams/v0/mqtt/token");
    let k: int = if a == DshEnv::Poc || b == DshEnv::Poc { 12 } else { 16 };
    assert(api_host_of(a)[k] != api_host_of(b)[k]);
    assert(rest_token_endpoint_of(a)[k] != rest_token_endpoint_of(b)[k]);
    assert(mqtt_token_endpoint_of(a)[k] != mqtt_token_endpoint_of(b)[k]);
}

/// The name of an environment, as `Debug` writes it.
pub open spec fn env_name(env: DshEnv) -> Seq<char> {
    match env {
        DshEnv::Dev => "Dev"@,
        DshEnv::Prod => "Prod"@,
        DshEnv::Poc => "Poc"@,
    }
}

/// The text of a configuration: its environment and its two endpoints, in
/// the form `Debug` writes a struct.
pub open spec fn config_text(c: DshConfigView) -> Seq<char> {
    "DshConfig { env: "@ + env_name(c.env) + ", rest_token_endpoint: "@ + debug_escaped(
        c.rest_token_endpoint,
    ) + ", mqtt_token_endpoint: "@ + debug_escaped(c.mqtt_token_endpoint) + " }"@
}

/// A configuration shared between clients.
pub type ArcDshConfig = std::sync::Arc<DshConfig>;

/// What a configuration holds: an environment and the two token endpoints.
pub struct DshConfigView {
    pub env: DshEnv,
    pub rest_token_endpoint: Seq<char>,
    pub mqtt_token_endpoint: Seq<char>,
}

/// The URLs of the REST and MQTT token APIs of a DSH environment.
#[derive(Debug)]
pub struct DshConfig {
    pub env: DshEnv,
    rest_token_endpoint: String,
    mqtt_token_endpoint: String,
}

impl View for DshConfig {
    type V = DshConfigView;

    closed spec fn view(&self) -> DshConfigView {
        DshConfigView {
            env: self.env,
            rest_token_endpoint: self.rest_token_endpoint@,
            mqtt_token_endpoint: self.mqtt_token_endpoint@,
        }
    }
}

impl Default for DshConfig {
    /// The configuration of the development environment.
    fn default() -> (res: Self)
        ensures
            res@.env == DshEnv::Dev,
            res@.rest_token_endpoint == rest_token_endpoint_of(DshEnv::Dev),
            res@.mqtt_token_endpoint == mqtt_token_endpoint_of(DshEnv::Dev),
    {
        Self::new(DshEnv::Dev)
    }
}

impl DshConfig {
    /// The configuration of `env`: its REST and MQTT token endpoints.
    pub fn new(env: DshEnv) -> (res: DshConfig)
        ensures
            res@.env == env,
            res@.rest_token_endpoint == rest_token_endpoint_of(env),
            res@.mqtt_token_endpoint == mqtt_token_endpoint_of(env),
    {
        DshConfig {
            env,
            rest_token_endpoint: Self::rest_token_endpoint(&env),
            mqtt_token_endpoint: Self::mqtt_token_endpoint(&env),
        }
    }

    fn rest_token_endpoint(env: &DshEnv) -> (res: String)
        ensures
            res@ == rest_token_endpoint_of(*env),
    {
        match env {
            DshEnv::Dev => String::from_str("https://api.dsh-dev.dsh.np.aws.kpn.com/auth/v0/token"),
            DshEnv::Prod => String::from_str("https://api.dsh-prod.dsh.np.aws.kpn.com/auth/v0/token"),
            DshEnv::Poc => String::from_str("https://api.poc.kpn-dsh.com/auth/v0/token"),
        }
    }

    fn mqtt_token_endpoint(env: &DshEnv) -> (res: String)
        ensures
            res@ == mqtt_token_endpoint_of(*env),
    {
        match env {
            DshEnv::Dev => String::from_str(
                "https://api.dsh-dev.dsh.np.aws.kpn.com/datastreams/v0/mqtt/token",
            ),
            DshEnv::Prod => String::from_str(
                "https://api.dsh-prod.dsh.np.aws.kpn.com/datastreams/v0/mqtt/token",
            ),
            DshEnv::Poc => String::from_str("https://api.poc.kpn-dsh.com/datastreams/v0/mqtt/token"),
        }
    }

    /// The environment of the configuration.
    pub fn get_env(&self) -> (res: &DshEnv)
        ensures
            *res == self@.env,
    {
        &self.env
    }

    /// The REST token endpoint.
    pub fn get_rest_token_endpoint(&self) -> (res: &String)
        ensures
            res@ == self@.rest_token_endpoint,
    {
        &self.rest_token_endpoint
    }

    /// The MQTT token endpoint.
    pub fn get_mqtt_token_endpoint(&self) -> (res: &String)
        ensures
            res@ == self@.mqtt_token_endpoint,
    {
        &self.mqtt_token_endpoint
    }

    /// The text of the configuration: `DshConfig { env: .., rest_token_endpoint:
    /// .., mqtt_token_endpoint: .. }`, each endpoint quoted and escaped.
    pub fn to_string(&self) -> (res: String)
        ensures
            res@ == config_text(self@),
    {
        let mut s = String::from_str("DshConfig { env: ");
        match self.env {
            DshEnv::Dev => s.append("Dev"),
            DshEnv::Prod => s.append("Prod"),
            DshEnv::Poc => s.append("Poc"),
        }
        s.append(", rest_token_endpoint: ");
        s.append(debug_text(self.rest_token_endpoint.as_str()).as_str());
        s.append(", mqtt_token_endpoint: ");
        s.append(debug_text(self.mqtt_token_endpoint.as_str()).as_str());
        s.append(" }");
        s
    }

    /// Replaces the environment; the endpoints stay as they are.
    pub fn set_env(&mut self, env: DshEnv)
        ensures
            final(self)@ == (DshConfigView { env, ..old(self)@ }),
    {
        self.env = env
    }

    /// Replaces the REST token endpoint.
    pub fn set_rest_token_endpoint(&mut self, rest_token_endpoint: String)
        ensures
            final(self)@ == (DshConfigView { rest_token_endpoint: rest_token_endpoint@, ..old(self)@ }),
    {
        self.rest_token_endpoint = rest_token_endpoint
    }

    /// Replaces the MQTT token endpoint.
    pub fn set_mqtt_token_endpoint(&mut self, mqtt_token_endpoint: String)
        ensures
            final(self)@ == (DshConfigView { mqtt_token_endpoint: mqtt_token_endpoint@, ..old(self)@ }),
    {
        self.mqtt_token_endpoint = mqtt_token_endpoint
    }
}

} // verus!
