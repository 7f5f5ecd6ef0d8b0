use crate::discovery::DiscoveryConfig;
use vstd::prelude::*;
use vstd::string::StringExecFns;
use vstd::string::StringSliceAdditionalSpecFns;

verus! {

/// The edge, in pixels, of a generated profile picture.
pub const AVATAR_SIZE: u16 = 512;

/// The edge, in pixels, of the thumbnails the storage subsystem makes.
pub const THUMBNAIL_SIZE: u32 = 500;

/// The settings every build of the subsystem handles uses.
#[derive(Debug)]
pub struct BackendSettings {
    pub discovery: DiscoveryConfig,
    /// Whether the recovery phrase is kept in the secret store.
    pub save_phrase: bool,
    /// Whether to contact the public bootstrap nodes.
    pub use_bootstrap_nodes: bool,
    pub disable_quic: bool,
    pub port_mapping: bool,
    /// The agent string announced to peers.
    pub agent_version: String,
    pub emit_online_event: bool,
    pub share_platform: bool,
    pub update_events: bool,
    pub thumbnail_size: (u32, u32),
}

/// The settings of the service: the given discovery, no bootstrap nodes,
/// QUIC only when asked for, and `uplink/<version>` as agent.
pub fn production_settings(discovery: DiscoveryConfig, enable_quic: bool, version: &str) -> (r: BackendSettings)
    ensures
        r.discovery == discovery,
        r.save_phrase,
        !r.use_bootstrap_nodes,
        r.disable_quic == !enable_quic,
        r.port_mapping,
        r.agent_version@ == "uplink/"@ + version@,
        r.emit_online_event,
        r.share_platform,
        r.update_events,
        r.thumbnail_size == (THUMBNAIL_SIZE, THUMBNAIL_SIZE),
{
    BackendSettings {
        discovery,
        save_phrase: true,
        use_bootstrap_nodes: false,
        disable_quic: !enable_quic,
        port_mapping: true,
        agent_version: String::from_str("uplink/").concat(version),
        emit_online_event: true,
        share_platform: true,
        update_events: true,
        thumbnail_size: (THUMBNAIL_SIZE, THUMBNAIL_SIZE),
    }
}

/// The identicon picture, in PNG, that plot_icon draws for a seed.
pub uninterp spec fn identicon_png(seed: Seq<u8>, size: u16) -> Seq<u8>;

/// Relies on `plot_icon::generate_png`: a PNG identicon that depends on the
/// seed bytes and the size alone; `None` when the PNG encoder fails.
#[verifier::external_body]
fn generate_identicon(seed: &[u8], size: u16) -> (r: Option<Vec<u8>>)
    ensures
        r matches Some(v) ==> v@ == identicon_png(seed@, size),
{
    plot_icon::generate_png(seed, size).ok()
}

/// The bytes that end every generated profile picture.
pub open spec fn avatar_marker() -> Seq<u8> {
    seq![11u8, 0u8, 23u8]
}

/// Ends a generated picture with the marker bytes.
pub fn mark_avatar(png: Vec<u8>) -> (r: Vec<u8>)
    ensures
        r@ == png@ + avatar_marker(),
{
    let mut out = png;
    out.push(11u8);
    out.push(0u8);
    out.push(23u8);
    assert(out@ =~= png@ + avatar_marker());
    out
}

/// The default profile picture of an identity, drawn from the text of its
/// public key; `None` when the picture could not be encoded.
pub fn default_profile_picture(did: &str) -> (r: Option<Vec<u8>>)
    ensures
        r matches Some(v) ==> v@ == identicon_png(did.spec_bytes(), AVATAR_SIZE) + avatar_marker(),
{
    match generate_identicon(did.as_bytes(), AVATAR_SIZE) {
        Some(png) => Some(mark_avatar(png)),
        None => None,
    }
}

} // verus!
