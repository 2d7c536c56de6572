//! What the requests ask for, and what each handler makes of its request
//! before and after the work on the machine.

pub mod openvpn;
pub mod plugin;
pub mod systemctl;
pub mod ws;

use vstd::prelude::*;

use crate::config::ResourceKind;

verus! {

/// The requests that the agent serves, under `/api/v1`.
#[derive(Clone, Copy, Debug, PartialEq, Eq)]
pub enum Route {
    Ping,
    Info,
    FwcloudScriptUpload,
    OpenvpnFilesUpload,
    OpenvpnFilesRemove,
    OpenvpnFilesSha256,
    OpenvpnGetStatus,
    OpenvpnUpdateStatus,
    OpenvpnGetStatusRt,
    WireguardFilesUpload,
    WireguardFilesRemove,
    IpsecFilesUpload,
    IpsecFilesRemove,
    InterfacesInfo,
    IptablesSave,
    Plugin,
    Systemctl,
    DaemonConfigUpload,
    Websocket,
    WebsocketTest,
}

/// The resource that a request works on, and whose lock it holds while it
/// does: requests for the same resource are served one after the other, and
/// requests that name no resource wait for nothing. No request works on more
/// than one resource, so none ever waits for a lock while it holds another.
pub open spec fn resource_of(route: Route) -> Option<ResourceKind> {
    match route {
        Route::FwcloudScriptUpload => Some(ResourceKind::FwcloudScript),
        Route::OpenvpnFilesUpload
        | Route::OpenvpnFilesRemove
        | Route::OpenvpnFilesSha256
        | Route::OpenvpnGetStatus => Some(ResourceKind::OpenVPN),
        Route::WireguardFilesUpload | Route::WireguardFilesRemove => Some(ResourceKind::WireGuard),
        Route::IpsecFilesUpload | Route::IpsecFilesRemove => Some(ResourceKind::IPSec),
        Route::Plugin => Some(ResourceKind::Plugins),
        Route::DaemonConfigUpload => Some(ResourceKind::Daemon),
        _ => None,
    }
}

impl Route {
    /// The resource whose lock the handler of this request holds.
    pub fn resource(&self) -> (kind: Option<ResourceKind>)
        ensures
            kind == resource_of(*self),
    {
        match self {
            Route::FwcloudScriptUpload => Some(ResourceKind::FwcloudScript),
            Route::OpenvpnFilesUpload
            | Route::OpenvpnFilesRemove
            | Route::OpenvpnFilesSha256
            | Route::OpenvpnGetStatus => Some(ResourceKind::OpenVPN),
            Route::WireguardFilesUpload | Route::WireguardFilesRemove => Some(
                ResourceKind::WireGuard,
            ),
            Route::IpsecFilesUpload | Route::IpsecFilesRemove => Some(ResourceKind::IPSec),
            Route::Plugin => Some(ResourceKind::Plugins),
            Route::DaemonConfigUpload => Some(ResourceKind::Daemon),
            _ => None,
        }
    }
}

} // verus!
