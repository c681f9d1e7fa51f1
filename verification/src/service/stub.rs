//! Platforms without service mode: every operation is refused.
use vstd::prelude::*;
use super::{ServiceConfig, ServiceStatus};

verus! {

/// The refusal of service mode on this platform.
pub open spec fn no_service() -> Seq<char> {
    "Service mode not supported on this platform"@
}

fn refuse_service() -> (r: Result<(), String>)
    ensures
        r matches Err(e) && e@ == no_service(),
{
    Err(String::from_str("Service mode not supported on this platform"))
}

/// Installing the service is refused.
pub fn install_service(_config: &ServiceConfig) -> (r: Result<(), String>)
    ensures
        r matches Err(e) && e@ == no_service(),
{
    refuse_service()
}

/// Uninstalling the service is refused.
pub fn uninstall_service() -> (r: Result<(), String>)
    ensures
        r matches Err(e) && e@ == no_service(),
{
    refuse_service()
}

/// Starting the service is refused.
pub fn start_service() -> (r: Result<(), String>)
    ensures
        r matches Err(e) && e@ == no_service(),
{
    refuse_service()
}

/// Stopping the service is refused.
pub fn stop_service() -> (r: Result<(), String>)
    ensures
        r matches Err(e) && e@ == no_service(),
{
    refuse_service()
}

/// There is no service status to report.
pub fn get_service_status() -> (r: Result<ServiceStatus, String>)
    ensures
        r matches Err(e) && e@ == no_service(),
{
    Err(String::from_str("Service mode not supported on this platform"))
}

/// The service never runs here.
pub fn is_service_running() -> (r: bool)
    ensures
        !r,
{
    false
}

/// A TUN interface cannot be set up here.
pub fn setup_tun_interface(_interface_name: &str, _ip: &str, _gateway: &str) -> (r: Result<(), String>)
    ensures
        r matches Err(e) && e@ == "TUN not supported on this platform"@,
{
    Err(String::from_str("TUN not supported on this platform"))
}

/// A TUN interface cannot be torn down here.
pub fn teardown_tun_interface(_interface_name: &str) -> (r: Result<(), String>)
    ensures
        r matches Err(e) && e@ == "TUN not supported on this platform"@,
{
    Err(String::from_str("TUN not supported on this platform"))
}

/// Routing cannot be changed here.
pub fn configure_routing(_interface_name: &str, _gateway: &str) -> (r: Result<(), String>)
    ensures
        r matches Err(e) && e@ == "Routing not supported on this platform"@,
{
    Err(String::from_str("Routing not supported on this platform"))
}

/// Routing cannot be restored here.
pub fn restore_routing() -> (r: Result<(), String>)
    ensures
        r matches Err(e) && e@ == "Routing not supported on this platform"@,
{
    Err(String::from_str("Routing not supported on this platform"))
}

} // verus!
