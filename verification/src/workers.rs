//! Work that goes on in the background, beside the requests.

pub mod openvpn_status_collector;
