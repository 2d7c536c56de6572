use fwcloud_agent::config::ResourceKind;
use fwcloud_agent::errors::FwcError;
use fwcloud_agent::routes::openvpn::{
    files_sha256, get_status, get_status_rt, status_body, status_rt_body, Sha256Step,
};
use fwcloud_agent::routes::plugin::Plugin;
use fwcloud_agent::routes::systemctl::Systemctl;
use fwcloud_agent::routes::Route;
use fwcloud_agent::utils::files_list::FilesList;
use fwcloud_agent::utils::myregex::{
    absolute_path_list, alpha_num_2, file_permissions, ipv4, ipv4_list, plugins_actions,
    plugins_names, systemctl_commands, systemctl_services,
};

fn systemctl(command: &str, service: &str) -> Systemctl {
    Systemctl {
        command: String::from(command),
        service: String::from(service),
    }
}

fn plugin(name: &str, action: &str) -> Plugin {
    Plugin {
        name: String::from(name),
        action: String::from(action),
        ws_id: None,
    }
}

fn complaint(res: Result<(), FwcError>) -> String {
    match res {
        Err(FwcError::Validation(text)) => text,
        _ => panic!("Validation error expected"),
    }
}

#[test]
fn systemctl_with_invalid_data_is_refused() {
    assert_eq!(
        complaint(systemctl("INVALID", "openvpn").validate()),
        "command: Invalid systemctl command"
    );
    assert_eq!(
        complaint(systemctl("status", "INVALID").validate()),
        "service: Invalid systemctl service"
    );
    assert_eq!(
        complaint(systemctl("", "").validate()),
        "command: Invalid systemctl command\nservice: Invalid systemctl service"
    );
}

#[test]
fn systemctl_with_valid_data_is_passed_on() {
    let request = systemctl("restart", "openvpn@server-1");
    assert!(request.validate().is_ok());
    assert_eq!(request.args(), vec!["restart", "openvpn@server-1"]);
}

#[test]
fn plugin_with_invalid_data_is_refused() {
    assert_eq!(
        complaint(plugin("openvpn", "INVALID").validate()),
        "action: Invalid plugin action"
    );
    assert_eq!(
        complaint(plugin("INVALID", "enable").validate()),
        "name: Invalid plugin name"
    );
    assert_eq!(
        complaint(plugin("x", "y").validate()),
        "name: Invalid plugin name\naction: Invalid plugin action"
    );
}

#[test]
fn plugin_runs_its_script() {
    let request = plugin("test", "enable");
    assert!(request.validate().is_ok());
    assert_eq!(
        request.args("./plugins"),
        vec!["./plugins/test/test.sh", "enable"]
    );
}

#[test]
fn names_that_the_agent_knows() {
    for name in [
        "test", "openvpn", "geoip", "crowdsec", "ntopng", "suricata", "keepalived", "zeek",
        "elasticsearch", "filebeat", "websafety", "dnssafety", "kibana", "logstash", "isc-bind9",
        "isc-dhcp", "haproxy",
    ] {
        assert!(plugins_names(name));
    }
    assert!(!plugins_names("tes"));
    assert!(!plugins_names("test "));
    assert!(!plugins_names(""));
    assert!(plugins_actions("enable") && plugins_actions("disable"));
    assert!(!plugins_actions("Enable"));
    for command in ["status", "start", "stop", "restart", "reload", "enable", "disable"] {
        assert!(systemctl_commands(command));
    }
    assert!(!systemctl_commands("kill"));
    for service in ["openvpn", "openvpn@a", "openvpn@A-b_9", "isc-dhcp-server", "keepalived", "haproxy"] {
        assert!(systemctl_services(service));
    }
    for service in ["openvpn@", "openvpn@a b", "openvpn@a.b", "sshd", "", "openvpn@\u{e9}"] {
        assert!(!systemctl_services(service));
    }
}

#[test]
fn notations_of_values() {
    assert!(file_permissions("640") && file_permissions("777") && file_permissions("000"));
    assert!(!file_permissions("64") && !file_permissions("6400") && !file_permissions("648"));
    assert!(alpha_num_2("") && alpha_num_2("aZ09-_"));
    assert!(!alpha_num_2("a b") && !alpha_num_2("a.b"));
    for ip in ["0.0.0.0", "255.255.255.255", "192.168.1.10", "01.02.03.04", "249.199.99.9"] {
        assert!(ipv4(ip));
    }
    for ip in ["256.0.0.1", "1.2.3", "1.2.3.4.5", "1.2.3.", "a.b.c.d", "1.2.3.4 ", "001.2.3.4", "260.1.1.1", ""] {
        assert!(!ipv4(ip));
    }
    assert_eq!(ipv4_list(""), Some(true));
    assert_eq!(ipv4_list("10.0.0.1 10.0.0.2"), Some(true));
    assert_eq!(ipv4_list("10.0.0.1,10.0.0.2"), Some(false));
    assert_eq!(absolute_path_list("/etc/a.sh,/etc/b.sh"), Some(true));
    assert_eq!(absolute_path_list("etc/a.sh"), Some(false));
}

#[test]
fn resource_of_each_request() {
    assert_eq!(Route::OpenvpnFilesUpload.resource(), Some(ResourceKind::OpenVPN));
    assert_eq!(Route::OpenvpnFilesRemove.resource(), Some(ResourceKind::OpenVPN));
    assert_eq!(Route::OpenvpnFilesSha256.resource(), Some(ResourceKind::OpenVPN));
    assert_eq!(Route::OpenvpnGetStatus.resource(), Some(ResourceKind::OpenVPN));
    assert_eq!(Route::WireguardFilesUpload.resource(), Some(ResourceKind::WireGuard));
    assert_eq!(Route::WireguardFilesRemove.resource(), Some(ResourceKind::WireGuard));
    assert_eq!(Route::IpsecFilesUpload.resource(), Some(ResourceKind::IPSec));
    assert_eq!(Route::IpsecFilesRemove.resource(), Some(ResourceKind::IPSec));
    assert_eq!(Route::FwcloudScriptUpload.resource(), Some(ResourceKind::FwcloudScript));
    assert_eq!(Route::DaemonConfigUpload.resource(), Some(ResourceKind::Daemon));
    assert_eq!(Route::Plugin.resource(), Some(ResourceKind::Plugins));
    for route in [
        Route::Ping,
        Route::Info,
        Route::OpenvpnUpdateStatus,
        Route::OpenvpnGetStatusRt,
        Route::InterfacesInfo,
        Route::IptablesSave,
        Route::Systemctl,
        Route::Websocket,
        Route::WebsocketTest,
    ] {
        assert_eq!(route.resource(), None);
    }
}

#[test]
fn status_request_reads_the_cache() {
    let mut fl = FilesList::new("/etc/openvpn", vec![String::from("openvpn-status.log")]);
    get_status(&mut fl, "./data").unwrap();
    assert_eq!(fl.len(), 1);
    assert_eq!(fl.path(0), "./data/_etc_openvpn_openvpn-status.log.data");

    let mut fl = FilesList::new("/etc/openvpn", vec![]);
    assert!(matches!(
        get_status(&mut fl, "./data"),
        Err(FwcError::OnlyOneFileExpected)
    ));
    assert_eq!(fl.dir(), "/etc/openvpn");
    let mut fl = FilesList::new("/d", vec![String::from("a"), String::from("b")]);
    assert!(matches!(
        get_status(&mut fl, "./data"),
        Err(FwcError::OnlyOneFileExpected)
    ));
    assert_eq!(fl.name(0), "a");
}

#[test]
fn digests_of_the_directory_or_of_the_files_named() {
    let named = FilesList::new("/etc/openvpn", vec![String::from("a.conf")]);
    let unnamed = FilesList::new("/etc/openvpn", vec![]);
    assert_eq!(files_sha256(&named, false), Sha256Step::Empty);
    assert_eq!(files_sha256(&unnamed, false), Sha256Step::Empty);
    assert_eq!(files_sha256(&unnamed, true), Sha256Step::ListDir);
    assert_eq!(files_sha256(&named, true), Sha256Step::Hash);
}

#[test]
fn status_answers() {
    assert_eq!(
        status_body(&vec![String::from("1,a,b,2,3,4"), String::from("5,c,d,6,7,8")]),
        "Timestamp,Common Name,Real Address,Bytes Received,Bytes Sent,Connected Since\n1,a,b,2,3,4\n5,c,d,6,7,8"
    );
    assert_eq!(
        status_body(&vec![]),
        "Timestamp,Common Name,Real Address,Bytes Received,Bytes Sent,Connected Since"
    );
    assert_eq!(status_rt_body(&vec![String::from("x"), String::from("y")]), "x\ny");
    assert_eq!(status_rt_body(&vec![]), "");
    let fl = FilesList::new("/etc/openvpn", vec![String::from("s.log")]);
    assert_eq!(get_status_rt(&fl).unwrap(), "/etc/openvpn/s.log");
    let fl = FilesList::new("/etc/openvpn", vec![]);
    assert!(matches!(
        get_status_rt(&fl),
        Err(FwcError::OnlyOneFileExpected)
    ));
}
