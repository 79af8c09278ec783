//! Where the MQTT broker of each environment listens, the options a client
//! connects with, and the client itself.
use vstd::prelude::*;
use rumqttc::tokio_rustls::rustls::{ClientConfig, RootCertStore};
use rumqttc::{AsyncClient, EventLoop, MqttOptions};
use crate::authentication_client::is_hex_digit;
use crate::device_id::{new_device_id, DeviceId};

verus! {

/// The environments that host an MQTT broker.
#[derive(Debug, Clone, Copy, PartialEq, Eq, Structural)]
pub enum MqttEnv {
    Dev,
    Poc,
    Prod,
}

/// The ports a broker offers.
#[derive(Debug, Clone, Copy, PartialEq, Eq, Structural)]
pub enum Port {
    /// MQTT over TLS.
    Mqtts,
    /// MQTT over WebSockets, which is not offered yet.
    Mqttwss,
}

/// The token and client id that a client connects with.
pub struct MqttCredentials {
    pub mqtt_token: String,
    pub client_id: String,
}

/// The host name of the broker of an environment.
pub open spec fn broker_url_of(mqtt_env: MqttEnv) -> Seq<char> {
    match mqtt_env {
        MqttEnv::Dev => "mqtt.dsh-dev.dsh.np.aws.kpn.com"@,
        MqttEnv::Poc => "mqtt.poc.kpn-dsh.com"@,
        MqttEnv::Prod => "mqtt.dsh-prod.dsh.np.aws.kpn.com"@,
    }
}

/// The port number of the MQTT-over-TLS port.
pub open spec fn mqtts_port() -> u16 {
    8883
}

/// The host name of the broker of `mqtt_env`.
pub fn get_broker_url(mqtt_env: MqttEnv) -> (res: String)
    ensures
        res@ == broker_url_of(mqtt_env),
{
    match mqtt_env {
        MqttEnv::Dev => String::from_str("mqtt.dsh-dev.dsh.np.aws.kpn.com"),
        MqttEnv::Poc => String::from_str("mqtt.poc.kpn-dsh.com"),
        MqttEnv::Prod => String::from_str("mqtt.dsh-prod.dsh.np.aws.kpn.com"),
    }
}

/// The number of a broker port; only the TLS port is offered.
pub fn get_port(port: Port) -> (res: u16)
    requires
        port == Port::Mqtts,
    ensures
        res == mqtts_port(),
{
    match port {
        Port::Mqtts => 8883,
        Port::Mqttwss => vstd::pervasive::unreached(),
    }
}

/// Declares `rumqttc::AsyncClient`, the handle that publishes and subscribes.
#[verifier::external_type_specification]
#[verifier::external_body]
pub struct ExAsyncClient(AsyncClient);

/// Declares `rumqttc::EventLoop`, which drives an MQTT connection.
#[verifier::external_type_specification]
#[verifier::external_body]
pub struct ExEventLoop(EventLoop);

/// Declares `rustls::RootCertStore`, the trusted root certificates.
#[verifier::external_type_specification]
#[verifier::external_body]
pub struct ExRootCertStore(RootCertStore);

/// The text of a random (version 4) UUID as uuid's `Display` writes it:
/// 36 characters in five hyphen-separated groups of 8, 4, 4, 4 and 12
/// lowercase hexadecimal digits, the version digit `4` and the variant digit
/// one of `8`, `9`, `a`, `b`.
pub open spec fn is_uuid_v4_text(s: Seq<char>) -> bool {
    &&& s.len() == 36
    &&& forall|k: int|
        0 <= k < 36 ==> (if k == 8 || k == 13 || k == 18 || k == 23 {
            #[trigger] s[k] == '-'
        } else {
            is_hex_digit(s[k])
        })
    &&& s[14] == '4'
    &&& (s[19] == '8' || s[19] == '9' || s[19] == 'a' || s[19] == 'b')
}

/// What the options of a connection are made of: the client id, the
/// broker's host and port, the keep-alive interval in seconds and the root
/// certificates that TLS trusts.
pub struct MqttOptionsSettings {
    pub client_id: String,
    pub broker_url: String,
    pub port: u16,
    pub keep_alive_secs: u64,
    pub root_cert_store: RootCertStore,
}

/// What a client is made of: its connection options, the user name and
/// password it logs in with, and the capacity of its request channel.
pub struct MqttClientSettings {
    pub options: MqttOptionsSettings,
    pub username: String,
    pub password: String,
    pub capacity: usize,
}

/// Builds the client of `settings` with rumqttc: `MqttOptions::new(client_id,
/// broker_url, port)`, `set_keep_alive` of `keep_alive_secs` whole seconds
/// (which never trips its assert), TLS transport through
/// `ClientConfig::builder().with_root_certificates(roots).with_no_client_auth()`,
/// `set_credentials(username, password)`, then `AsyncClient::new(options,
/// capacity)`. The client and its event loop are opaque here; the client keeps
/// `settings`, the record they were built from, and that is all that is
/// claimed.
#[verifier::external_body]
fn connect(settings: MqttClientSettings) -> (res: MqttClient)
    ensures
        res.settings() == settings,
{
    let o = &settings.options;
    let mut options = MqttOptions::new(o.client_id.clone(), o.broker_url.clone(), o.port);
    options.set_keep_alive(core::time::Duration::from_secs(o.keep_alive_secs));
    let tls = ClientConfig::builder().with_root_certificates(o.root_cert_store.clone());
    options.set_transport(rumqttc::Transport::Tls(tls.with_no_client_auth().into()));
    options.set_credentials(settings.username.clone(), settings.password.clone());
    let (async_client, eventloop) = AsyncClient::new(options, settings.capacity);
    MqttClient { async_client, eventloop, settings }
}

/// The keep-alive interval of a connection, in seconds.
pub open spec fn keep_alive_secs() -> u64 {
    60
}

/// The options of a connection to a DSH broker: the device id the client
/// connects under, the broker's host and port, the keep-alive interval and
/// the root certificates that TLS trusts.
pub struct BaseMqttOptions {
    device_id: DeviceId,
    broker_url: String,
    port: u16,
    keep_alive_secs: u64,
    root_cert_store: RootCertStore,
}

/// What connection options hold.
pub struct BaseMqttOptionsView {
    pub device_id: Seq<char>,
    pub broker_url: Seq<char>,
    pub port: u16,
    pub keep_alive_secs: u64,
    pub root_cert_store: RootCertStore,
}

impl View for BaseMqttOptions {
    type V = BaseMqttOptionsView;

    closed spec fn view(&self) -> BaseMqttOptionsView {
        BaseMqttOptionsView {
            device_id: self.device_id.text(),
            broker_url: self.broker_url@,
            port: self.port,
            keep_alive_secs: self.keep_alive_secs,
            root_cert_store: self.root_cert_store,
        }
    }
}

/// A client connected through an event loop.
pub struct MqttClient {
    pub async_client: AsyncClient,
    pub eventloop: EventLoop,
    settings: MqttClientSettings,
}

impl MqttClient {
    /// What the client was built from.
    pub closed spec fn settings(&self) -> MqttClientSettings {
        self.settings
    }
}

impl BaseMqttOptions {
    /// The options of a TLS connection to the broker of `mqtt_env` on the
    /// MQTT-over-TLS port, trusting the roots of `root_cert_store`, with a
    /// keep-alive interval of a minute, under a fresh random device id.
    pub fn new(mqtt_env: MqttEnv, root_cert_store: RootCertStore) -> (res: Self)
        ensures
            res@.broker_url == broker_url_of(mqtt_env),
            res@.port == mqtts_port(),
            res@.keep_alive_secs == keep_alive_secs(),
            res@.root_cert_store == root_cert_store,
            is_uuid_v4_text(res@.device_id),
    {
        BaseMqttOptions {
            device_id: new_device_id(),
            broker_url: get_broker_url(mqtt_env),
            port: get_port(Port::Mqtts),
            keep_alive_secs: 60,
            root_cert_store,
        }
    }

    /// What the `rumqttc` options of these options are made of: the device id
    /// as client id, the broker's host and port, the keep-alive interval, and
    /// the roots that TLS trusts.
    fn get_mqtt_options(self) -> (res: MqttOptionsSettings)
        ensures
            res.client_id@ == self@.device_id,
            res.broker_url@ == self@.broker_url,
            res.port == self@.port,
            res.keep_alive_secs == self@.keep_alive_secs,
            res.root_cert_store == self@.root_cert_store,
    {
        MqttOptionsSettings {
            client_id: self.device_id.into_string(),
            broker_url: self.broker_url,
            port: self.port,
            keep_alive_secs: self.keep_alive_secs,
            root_cert_store: self.root_cert_store,
        }
    }
}

impl MqttClient {
    /// A client that connects with `base_mqtt_options`, logging in with the
    /// client id as user name and the MQTT token as password, with a request
    /// channel of capacity 10.
    pub fn new(base_mqtt_options: BaseMqttOptions, credentials: MqttCredentials) -> (res: MqttClient)
        ensures
            res.settings().options.client_id@ == base_mqtt_options@.device_id,
            res.settings().options.broker_url@ == base_mqtt_options@.broker_url,
            res.settings().options.port == base_mqtt_options@.port,
            res.settings().options.keep_alive_secs == base_mqtt_options@.keep_alive_secs,
            res.settings().options.root_cert_store == base_mqtt_options@.root_cert_store,
            res.settings().username@ == credentials.client_id@,
            res.settings().password@ == credentials.mqtt_token@,
            res.settings().capacity == 10,
    {
        let options = base_mqtt_options.get_mqtt_options();
        connect(
            MqttClientSettings {
                options,
                username: credentials.client_id,
                password: credentials.mqtt_token,
                capacity: 10,
            },
        )
    }
}

} // verus!
