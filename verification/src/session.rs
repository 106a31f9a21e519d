//! Session configuration and the error tiers of the bridge.
//!
//! The session manager must register the bridge with the location service
//! under a fixed application identifier and with a zero distance threshold,
//! so that no service-side report is suppressed by displacement. The values
//! it must use, and the bus addresses and output paths the rest of the
//! pipeline relies on, are pinned here so that every caller works from the
//! same constants.

use vstd::prelude::*;

verus! {

/// The well-known bus name of the location service.
pub open spec fn spec_service_bus_name() -> Seq<char> {
    "org.freedesktop.GeoClue2"@
}

/// The object path of the service's manager object.
pub open spec fn spec_manager_path() -> Seq<char> {
    "/org/freedesktop/GeoClue2/Manager"@
}

/// The property interface of a location resource, used for the
/// "get all properties" call that feeds the snapshot builder.
pub open spec fn spec_location_interface() -> Seq<char> {
    "org.freedesktop.GeoClue2.Location"@
}

/// The application identifier under which the bridge registers.
pub open spec fn spec_desktop_id() -> Seq<char> {
    "waydroid_geoclue_bridge"@
}

/// The well-known path the guest environment polls.
pub open spec fn spec_output_path() -> Seq<char> {
    "/var/lib/waydroid/rootfs/tmp/location_data.json"@
}

/// The sibling path a publication is staged at before it is renamed into
/// place, so that a reader of the output path never sees a partial document.
pub open spec fn spec_staging_path() -> Seq<char> {
    "/var/lib/waydroid/rootfs/tmp/location_data.json.tmp"@
}

/// The bus name of the location service.
pub fn service_bus_name() -> (r: &'static str)
    ensures
        r@ == spec_service_bus_name(),
{
    "org.freedesktop.GeoClue2"
}

/// The object path of the service's manager object.
pub fn manager_path() -> (r: &'static str)
    ensures
        r@ == spec_manager_path(),
{
    "/org/freedesktop/GeoClue2/Manager"
}

/// The property interface of a location resource.
pub fn location_interface() -> (r: &'static str)
    ensures
        r@ == spec_location_interface(),
{
    "org.freedesktop.GeoClue2.Location"
}

/// The path the published document must appear at.
pub fn output_path() -> (r: &'static str)
    ensures
        r@ == spec_output_path(),
{
    "/var/lib/waydroid/rootfs/tmp/location_data.json"
}

/// The staging path for the atomic replace of the published document.
pub fn staging_path() -> (r: &'static str)
    ensures
        r@ == spec_staging_path(),
{
    "/var/lib/waydroid/rootfs/tmp/location_data.json.tmp"
}

/// What the session manager must configure on a freshly obtained client
/// before starting it.
pub struct SessionConfig {
    /// The application identifier to set on the client.
    pub desktop_id: &'static str,
    /// The distance threshold to set on the client. Zero means no report is
    /// suppressed by displacement.
    pub distance_threshold: u32,
}

/// The configuration of this bridge: the fixed identifier, and a zero
/// threshold so every service-side update is eligible for observation.
pub fn bridge_session_config() -> (c: SessionConfig)
    ensures
        c.desktop_id@ == spec_desktop_id(),
        c.distance_threshold == 0,
{
    SessionConfig { desktop_id: "waydroid_geoclue_bridge", distance_threshold: 0 }
}

/// The failures the bridge distinguishes, in two tiers: fatal ones, after
/// which no useful work can proceed without an external restart, and
/// recoverable ones, which are isolated to a single loop iteration.
#[derive(Clone, Copy, PartialEq, Eq, Structural, Debug)]
pub enum BridgeError {
    /// The bus is unreachable or the connection died.
    Transport,
    /// The client session could not be obtained, configured, or started.
    SessionSetup,
    /// Fetching the property set of a location resource failed.
    RemoteFetch,
    /// Persisting the serialized snapshot failed.
    Persist,
}

impl BridgeError {
    /// True exactly for the failures that must abort the process: a dead
    /// transport, and a session that could not be established. Fetch and
    /// persistence failures are recoverable per cycle.
    pub fn is_fatal(&self) -> (r: bool)
        ensures
            r == (*self == BridgeError::Transport || *self == BridgeError::SessionSetup),
    {
        match self {
            BridgeError::Transport => true,
            BridgeError::SessionSetup => true,
            BridgeError::RemoteFetch => false,
            BridgeError::Persist => false,
        }
    }

    /// A diagnostic description of the failure.
    pub fn describe(&self) -> (r: &'static str)
        ensures
            *self == BridgeError::Transport ==> r@ == "bus transport failure"@,
            *self == BridgeError::SessionSetup ==> r@ == "could not establish the client session"@,
            *self == BridgeError::RemoteFetch ==> r@ == "could not fetch the location properties"@,
            *self == BridgeError::Persist ==> r@ == "could not persist the snapshot"@,
    {
        match self {
            BridgeError::Transport => "bus transport failure",
            BridgeError::SessionSetup => "could not establish the client session",
            BridgeError::RemoteFetch => "could not fetch the location properties",
            BridgeError::Persist => "could not persist the snapshot",
        }
    }
}

} // verus!
