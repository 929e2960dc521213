//! The settings of a run and the broker connection options made from them.

use rumqttc::MqttOptions;
use std::time::Duration;
use vstd::prelude::*;

verus! {

/// The settings of a run, as the command line gives them.
#[derive(Debug, PartialEq, Eq)]
pub struct Args {
    /// Domain name or IP address of the broker.
    pub broker: String,
    /// Port on which the broker listens.
    pub port: u16,
    /// Topics to monitor, unless a topic file is given.
    pub topics: Vec<String>,
    /// Path of a file that lists the topics, one on each line.
    pub topics_file: Option<String>,
    /// Identifier under which the bridge connects.
    pub id: String,
    /// Seconds of silence after which the broker is pinged.
    pub keep_alive: u64,
    /// Number of messages that may be in flight at once.
    pub inflight: Option<u16>,
    /// Nothing, or the user name followed by the password.
    pub auth: Vec<String>,
    /// Nothing, or the largest incoming packet followed by the largest
    /// outgoing one, in bytes.
    pub max_packet_size: Vec<usize>,
    /// Capacity of the request channel.
    pub channel_capacity: Option<usize>,
    /// Whether the broker forgets the session when the bridge disconnects.
    pub clean_session: bool,
}

/// What a set of connection options holds, as far as this crate sets or
/// relies on it.
pub struct OptionsView {
    pub client_id: Seq<char>,
    pub broker: Seq<char>,
    pub port: u16,
    pub keep_alive_secs: u64,
    pub clean_session: bool,
    pub credentials: Option<(Seq<char>, Seq<char>)>,
    pub max_incoming_packet_size: usize,
    pub max_outgoing_packet_size: usize,
    pub request_channel_capacity: usize,
    pub inflight: u16,
}

#[verifier::external_type_specification]
#[verifier::external_body]
pub struct ExMqttOptions(rumqttc::MqttOptions);

/// What a value of `rumqttc::MqttOptions` holds.
pub uninterp spec fn options_view(options: MqttOptions) -> OptionsView;

/// The number of seconds after which fresh options ping the broker.
pub const DEFAULT_KEEP_ALIVE_SECS: u64 = 60;

/// The packet size limit of fresh options, in bytes, in both directions.
pub const DEFAULT_MAX_PACKET_SIZE: usize = 10240;

/// The request channel capacity of fresh options.
pub const DEFAULT_REQUEST_CHANNEL_CAPACITY: usize = 10;

/// The number of in-flight messages that fresh options allow.
pub const DEFAULT_INFLIGHT: u16 = 100;

/// What fresh options hold: the three values given, and the defaults.
pub open spec fn fresh_options(id: Seq<char>, broker: Seq<char>, port: u16) -> OptionsView {
    OptionsView {
        client_id: id,
        broker,
        port,
        keep_alive_secs: DEFAULT_KEEP_ALIVE_SECS,
        clean_session: true,
        credentials: None,
        max_incoming_packet_size: DEFAULT_MAX_PACKET_SIZE,
        max_outgoing_packet_size: DEFAULT_MAX_PACKET_SIZE,
        request_channel_capacity: DEFAULT_REQUEST_CHANNEL_CAPACITY,
        inflight: DEFAULT_INFLIGHT,
    }
}

/// Calls `MqttOptions::new`, which stores the client identifier, the broker
/// address and the port, and sets everything else to its default: a keep
/// alive of 60 seconds, a clean session, no credentials, packets of up to 10
/// KiB in both directions, a request channel of capacity 10 and 100 messages
/// in flight.
#[verifier::external_body]
fn new_options(id: &String, broker: &String, port: u16) -> (options: MqttOptions)
    ensures
        options_view(options) == fresh_options(id@, broker@, port),
{
    MqttOptions::new(id, broker, port)
}

/// Calls `MqttOptions::set_credentials`, which replaces the credentials by
/// the given user name and password and touches nothing else.
#[verifier::external_body]
fn set_credentials(options: &mut MqttOptions, username: String, password: String)
    ensures
        options_view(*final(options)) == (OptionsView {
            credentials: Some((username@, password@)),
            ..options_view(*old(options))
        }),
{
    options.set_credentials(username, password);
}

/// Calls `MqttOptions::set_inflight`, which replaces the number of in-flight
/// messages and touches nothing else. It panics on zero, which is left out.
#[verifier::external_body]
fn set_inflight(options: &mut MqttOptions, inflight: u16)
    requires
        inflight != 0,
    ensures
        options_view(*final(options)) == (OptionsView {
            inflight,
            ..options_view(*old(options))
        }),
{
    options.set_inflight(inflight);
}

/// Calls `MqttOptions::set_max_packet_size`, which replaces the two packet
/// size limits and touches nothing else.
#[verifier::external_body]
fn set_max_packet_size(options: &mut MqttOptions, incoming: usize, outgoing: usize)
    ensures
        options_view(*final(options)) == (OptionsView {
            max_incoming_packet_size: incoming,
            max_outgoing_packet_size: outgoing,
            ..options_view(*old(options))
        }),
{
    options.set_max_packet_size(incoming, outgoing);
}

/// Calls `MqttOptions::set_request_channel_capacity`, which replaces the
/// capacity of the request channel and touches nothing else.
#[verifier::external_body]
fn set_request_channel_capacity(options: &mut MqttOptions, capacity: usize)
    ensures
        options_view(*final(options)) == (OptionsView {
            request_channel_capacity: capacity,
            ..options_view(*old(options))
        }),
{
    options.set_request_channel_capacity(capacity);
}

/// Calls `MqttOptions::set_clean_session`, which replaces the clean-session
/// flag and touches nothing else. It panics when the flag is cleared while
/// the client identifier is empty, which is left out.
#[verifier::external_body]
fn set_clean_session(options: &mut MqttOptions, clean_session: bool)
    requires
        options_view(*old(options)).client_id.len() > 0 || clean_session,
    ensures
        options_view(*final(options)) == (OptionsView {
            clean_session,
            ..options_view(*old(options))
        }),
{
    options.set_clean_session(clean_session);
}

/// Calls `MqttOptions::set_keep_alive` with a duration of whole seconds,
/// which replaces the keep-alive time and touches nothing else. The call
/// panics only on a duration between zero and one second, and a number of
/// whole seconds is never one.
#[verifier::external_body]
fn set_keep_alive(options: &mut MqttOptions, seconds: u64)
    ensures
        options_view(*final(options)) == (OptionsView {
            keep_alive_secs: seconds,
            ..options_view(*old(options))
        }),
{
    options.set_keep_alive(Duration::from_secs(seconds));
}

impl Args {
    /// The settings can be turned into connection options: the credentials
    /// and the packet sizes are absent or come in pairs, the number of
    /// in-flight messages is not zero, and a session that is to be kept has a
    /// client identifier.
    pub open spec fn is_configurable(self) -> bool {
        &&& self.auth@.len() == 0 || self.auth@.len() >= 2
        &&& self.max_packet_size@.len() == 0 || self.max_packet_size@.len() >= 2
        &&& self.inflight != Some(0u16)
        &&& self.id@.len() > 0 || self.clean_session
    }

    /// Tests whether the settings can be turned into connection options.
    pub fn configurable(&self) -> (ok: bool)
        ensures
            ok == self.is_configurable(),
    {
        let pairs = (self.auth.len() == 0 || self.auth.len() >= 2) && (self.max_packet_size.len()
            == 0 || self.max_packet_size.len() >= 2);
        let flight = match self.inflight {
            Some(n) => n != 0,
            None => true,
        };
        let session = !self.id.as_str().is_empty() || self.clean_session;
        pairs && flight && session
    }
}

/// What the connection options for `args` hold. A setting that is absent
/// leaves the default in place.
pub open spec fn configured(args: Args) -> OptionsView {
    OptionsView {
        client_id: args.id@,
        broker: args.broker@,
        port: args.port,
        keep_alive_secs: args.keep_alive,
        clean_session: args.clean_session,
        credentials: if args.auth@.len() > 0 {
            Some((args.auth@[0]@, args.auth@[1]@))
        } else {
            None
        },
        max_incoming_packet_size: if args.max_packet_size@.len() > 0 {
            args.max_packet_size@[0]
        } else {
            DEFAULT_MAX_PACKET_SIZE
        },
        max_outgoing_packet_size: if args.max_packet_size@.len() > 0 {
            args.max_packet_size@[1]
        } else {
            DEFAULT_MAX_PACKET_SIZE
        },
        request_channel_capacity: match args.channel_capacity {
            Some(capacity) => capacity,
            None => DEFAULT_REQUEST_CHANNEL_CAPACITY,
        },
        inflight: match args.inflight {
            Some(inflight) => inflight,
            None => DEFAULT_INFLIGHT,
        },
    }
}

/// Builds the broker connection options for a run.
pub fn configure_mqtt(args: &Args) -> (options: MqttOptions)
    requires
        args.is_configurable(),
    ensures
        options_view(options) == configured(*args),
{
    let mut options = new_options(&args.id, &args.broker, args.port);

    if args.auth.len() > 0 {
        set_credentials(&mut options, args.auth[0].clone(), args.auth[1].clone());
    }
    if let Some(inflight) = args.inflight {
        set_inflight(&mut options, inflight);
    }
    if args.max_packet_size.len() > 0 {
        set_max_packet_size(&mut options, args.max_packet_size[0], args.max_packet_size[1]);
    }
    if let Some(capacity) = args.channel_capacity {
        set_request_channel_capacity(&mut options, capacity);
    }
    set_clean_session(&mut options, args.clean_session);
    set_keep_alive(&mut options, args.keep_alive);

    options
}

} // verus!
