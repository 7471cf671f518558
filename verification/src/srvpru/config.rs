//! The server's configuration and its defaults.
use vstd::prelude::*;

use crate::ygopro::message::HostInfo;

verus! {

pub fn default_ygopro_cwd() -> (r: String)
    ensures
        r@ == "./ygopro"@,
{
    "./ygopro".to_owned()
}

pub fn default_ygopro_address() -> (r: String)
    ensures
        r@ == "127.0.0.1"@,
{
    "127.0.0.1".to_owned()
}

pub fn default_ygopro_binary() -> (r: String)
    ensures
        r@ == "./ygopro"@,
{
    "./ygopro".to_owned()
}

pub fn default_ygopro_database() -> (r: String)
    ensures
        r@ == "./cards.cdb"@,
{
    "./cards.cdb".to_owned()
}

pub fn default_ygopro_lflist_conf() -> (r: String)
    ensures
        r@ == "./ygopro/lflist.conf"@,
{
    "./ygopro/lflist.conf".to_owned()
}

pub fn default_host_info() -> (r: HostInfo)
    ensures
        r@ == HostInfo::spec_default(),
{
    HostInfo::default()
}

/// The plugins enabled when none are configured: players and rooms.
pub fn default_plugins() -> (r: Vec<String>)
    ensures
        r@.map_values(|s: String| s@) == seq!["player"@, "room"@],
{
    let mut r: Vec<String> = Vec::new();
    r.push("player".to_owned());
    r.push("room".to_owned());
    assert(r@.map_values(|s: String| s@) =~= seq!["player"@, "room"@]);
    r
}

pub fn default_empty_vec_owned() -> (r: Vec<String>)
    ensures
        r@.len() == 0,
{
    Vec::new()
}

/// The port that the server listens on when none is configured.
pub fn default_port() -> (r: u16)
    ensures
        r == 7911,
{
    7911
}

/// Seconds without a message before a socket is closed, when none is
/// configured.
pub fn default_timeout() -> (r: u64)
    ensures
        r == 90,
{
    90
}

/// Where the duel server is and how it is started.
#[derive(Clone, Debug)]
pub struct YgoproConfiguration {
    /// The working directory of the duel server.
    pub cwd: String,
    /// Where the card database is.
    pub database: String,
    /// The duel server's program.
    pub binary: String,
    /// The ban-list configuration.
    pub lflist_conf: String,
    /// The address that the duel server listens on.
    pub address: String,
    /// Milliseconds to wait after the duel server started; 0 for none.
    pub wait_start: u64,
    /// The configuration of a room whose name sets nothing.
    pub host_info: HostInfo,
}

impl Default for YgoproConfiguration {
    fn default() -> (r: YgoproConfiguration)
        ensures
            r.cwd@ == "./ygopro"@,
            r.database@ == "./cards.cdb"@,
            r.binary@ == "./ygopro"@,
            r.lflist_conf@ == "./ygopro/lflist.conf"@,
            r.address@ == "127.0.0.1"@,
            r.wait_start == 0,
            r.host_info@ == HostInfo::spec_default(),
    {
        YgoproConfiguration {
            cwd: default_ygopro_cwd(),
            database: default_ygopro_database(),
            binary: default_ygopro_binary(),
            lflist_conf: default_ygopro_lflist_conf(),
            address: default_ygopro_address(),
            wait_start: 0,
            host_info: default_host_info(),
        }
    }
}

/// The server's configuration.
#[derive(Clone, Debug)]
pub struct Configuration {
    /// The port that the server listens on.
    pub port: u16,
    /// Seconds without a message before a socket is closed.
    pub timeout: u64,
    pub ygopro: YgoproConfiguration,
    /// The enabled plugins.
    pub plugins: Vec<String>,
    /// Handlers run on server-to-client messages besides the plugins'.
    pub stoc_handlers: Vec<String>,
    /// Handlers run on client-to-server messages besides the plugins'.
    pub ctos_handlers: Vec<String>,
    /// Handlers run on internal messages besides the plugins'.
    pub internal_handlers: Vec<String>,
}

impl Default for Configuration {
    fn default() -> (r: Configuration)
        ensures
            r.port == 7911,
            r.timeout == 90,
            r.ygopro.cwd@ == "./ygopro"@,
            r.ygopro.database@ == "./cards.cdb"@,
            r.ygopro.binary@ == "./ygopro"@,
            r.ygopro.lflist_conf@ == "./ygopro/lflist.conf"@,
            r.ygopro.address@ == "127.0.0.1"@,
            r.ygopro.wait_start == 0,
            r.ygopro.host_info@ == HostInfo::spec_default(),
            r.plugins@.map_values(|s: String| s@) == seq!["player"@, "room"@],
            r.stoc_handlers@.len() == 0,
            r.ctos_handlers@.len() == 0,
            r.internal_handlers@.len() == 0,
    {
        Configuration {
            port: default_port(),
            timeout: default_timeout(),
            ygopro: YgoproConfiguration::default(),
            plugins: default_plugins(),
            stoc_handlers: default_empty_vec_owned(),
            ctos_handlers: default_empty_vec_owned(),
            internal_handlers: default_empty_vec_owned(),
        }
    }
}

/// The duel server's part of an older configuration layout.
#[derive(Clone, Debug)]
pub struct ServerConfig {
    pub binary: String,
    pub address: String,
    pub wait_start: u32,
}

/// An older configuration layout.
#[derive(Clone, Debug)]
pub struct Config {
    pub port: u16,
    pub ygopro: ServerConfig,
    pub plugins: Vec<String>,
}

} // verus!
