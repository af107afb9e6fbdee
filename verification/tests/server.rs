use vetis_smol::error::ServerError;
use vetis_smol::listener::{
    require_tls_config, IpAddress, ListenerSettings, ServerListener, TcpListener,
};
use vetis_smol::protocol::HttpVersion;
use vetis_smol::server::{ServerSettings, StartStep, Vetis};

fn settings(port: u16, protos: Vec<HttpVersion>) -> ListenerSettings {
    ListenerSettings { port, interface: IpAddress::V4([0, 0, 0, 0]), protos }
}

fn server(configs: Vec<ListenerSettings>) -> Vetis<u32, u64> {
    Vetis::with_hosts(ServerSettings { listeners: configs }, 7)
}

/// Runs a start to completion, giving each opened listener the task `port * 10`.
fn start(vetis: &mut Vetis<u32, u64>, hosts_empty: bool) -> Result<Vec<usize>, ServerError> {
    let mut opened = Vec::new();
    let mut step = vetis.begin_start(hosts_empty)?;
    while let StartStep::Listen(index) = step {
        let mut listener = vetis.prepare_listener(index);
        let port = listener.settings().port as u64;
        listener.attach_task(port * 10);
        opened.push(index);
        step = vetis.listener_opened(index, listener);
    }
    Ok(opened)
}

#[test]
fn listener_settings_protocols() {
    let both = settings(80, vec![HttpVersion::Http2, HttpVersion::Http11]);
    assert!(both.serves_tcp());
    assert!(both.http11_only());
    let h2 = settings(80, vec![HttpVersion::Http2]);
    assert!(h2.serves_tcp());
    assert!(!h2.http11_only());
    let h3 = settings(80, vec![HttpVersion::Http3]);
    assert!(!h3.serves_tcp());
    assert!(!h3.http11_only());
    let old = settings(80, vec![HttpVersion::Http10, HttpVersion::Http09]);
    assert!(!old.serves_tcp());
    assert!(!settings(80, vec![]).serves_tcp());
}

#[test]
fn listener_settings_duplicate() {
    let s = ListenerSettings {
        port: 8443,
        interface: IpAddress::V6([0, 0, 0, 0, 0, 0, 0, 1]),
        protos: vec![HttpVersion::Http11, HttpVersion::Http2],
    };
    let d = s.duplicate();
    assert_eq!(d.port, 8443);
    assert_eq!(d.protos, vec![HttpVersion::Http11, HttpVersion::Http2]);
    assert!(matches!(d.interface, IpAddress::V6([0, 0, 0, 0, 0, 0, 0, 1])));
}

#[test]
fn tcp_listener_lifecycle() {
    let mut l: TcpListener<u32, u64> = TcpListener::new(settings(8080, vec![HttpVersion::Http11]));
    assert_eq!(*l.hosts(), 0);
    assert!(!l.is_listening());
    l.set_hosts(3);
    assert_eq!(*l.hosts(), 3);
    assert_eq!(l.stop(), None);
    l.attach_task(99);
    assert!(l.is_listening());
    assert_eq!(l.settings().port, 8080);
    assert_eq!(l.stop(), Some(99));
    assert!(!l.is_listening());
    assert_eq!(l.stop(), None);
}

#[test]
fn server_listener_wraps_tcp() {
    let tcp: TcpListener<u32, u64> = TcpListener::with_hosts(settings(81, vec![HttpVersion::Http2]), 5);
    let mut l: ServerListener<u32, u64> = tcp.into();
    assert_eq!(*l.hosts(), 5);
    l.set_hosts(6);
    assert_eq!(*l.hosts(), 6);
    l.attach_task(1);
    assert_eq!(l.stop(), Some(1));
    assert_eq!(l.stop(), None);
    let w = ServerListener::from_tcp(TcpListener::<u32, u64>::new(settings(82, vec![])));
    assert_eq!(w.settings().port, 82);
}

#[test]
fn missing_tls_config_is_refused() {
    assert_eq!(require_tls_config(Some(4)), Ok(4));
    assert_eq!(require_tls_config::<u8>(None), Err(ServerError::MissingTlsConfig));
    assert_eq!(ServerError::MissingTlsConfig.message(), "Missing TLS config");
}

#[test]
fn start_without_hosts_is_refused() {
    let mut vetis = server(vec![settings(80, vec![HttpVersion::Http11])]);
    assert_eq!(start(&mut vetis, true), Err(ServerError::NoHosts));
    assert_eq!(vetis.listener_count(), 0);
    assert_eq!(ServerError::NoHosts.message(), "No hosts");
}

#[test]
fn start_opens_tcp_listeners_in_order() {
    let mut vetis = server(vec![
        settings(80, vec![HttpVersion::Http3]),
        settings(81, vec![HttpVersion::Http11]),
        settings(82, vec![HttpVersion::Http10]),
        settings(83, vec![HttpVersion::Http2, HttpVersion::Http3]),
    ]);
    assert_eq!(start(&mut vetis, false), Ok(vec![1, 3]));
    assert_eq!(vetis.listener_count(), 2);
    assert_eq!(*vetis.hosts(), 7);
    assert!(vetis.is_running());
    assert_eq!(vetis.stop_listeners(), Ok(vec![810, 830]));
    assert!(!vetis.is_running());
    // Nothing runs any more: a second stop is refused.
    assert_eq!(vetis.stop_listeners(), Err(ServerError::NotRunning));
    assert_eq!(vetis.listener_count(), 2);
}

#[test]
fn restart_after_stop_opens_and_stops_new_listeners() {
    let mut vetis = server(vec![
        settings(80, vec![HttpVersion::Http11]),
        settings(81, vec![HttpVersion::Http3]),
        settings(82, vec![HttpVersion::Http2]),
    ]);
    assert_eq!(start(&mut vetis, false), Ok(vec![0, 2]));
    assert_eq!(vetis.stop_listeners(), Ok(vec![800, 820]));
    assert_eq!(start(&mut vetis, false), Ok(vec![0, 2]));
    assert_eq!(vetis.listener_count(), 4);
    assert_eq!(vetis.stop_listeners(), Ok(vec![800, 820]));
    assert_eq!(vetis.stop_listeners(), Err(ServerError::NotRunning));
}

#[test]
fn stop_before_start_is_refused() {
    let mut vetis = server(vec![settings(80, vec![HttpVersion::Http11])]);
    assert_eq!(vetis.stop_listeners(), Err(ServerError::NotRunning));
    assert_eq!(ServerError::NotRunning.message(), "Vetis is not running");
}

#[test]
fn start_without_tcp_listeners_leaves_nothing_to_stop() {
    let mut vetis = server(vec![settings(80, vec![HttpVersion::Http3])]);
    assert_eq!(start(&mut vetis, false), Ok(vec![]));
    assert_eq!(vetis.stop_listeners(), Err(ServerError::NotRunning));
}

#[test]
fn reload_installs_the_new_configuration() {
    let mut vetis: Vetis<u32, u64> = Vetis::new(ServerSettings { listeners: vec![settings(9000, vec![HttpVersion::Http2])] });
    assert_eq!(*vetis.hosts(), 0);
    assert_eq!(vetis.config().listeners.len(), 1);
    let new_config = ServerSettings {
        listeners: vec![settings(9001, vec![HttpVersion::Http3]), settings(9002, vec![HttpVersion::Http11])],
    };
    assert_eq!(vetis.reload::<u8>(new_config, vec![1, 2]), Ok(()));
    assert_eq!(vetis.config().listeners.len(), 2);
    assert_eq!(vetis.config().listeners[0].port, 9001);
    assert_eq!(vetis.config().listeners[1].port, 9002);
    assert_eq!(vetis.listener_count(), 0);
}

#[test]
fn reload_then_start_opens_the_new_listeners() {
    let mut vetis = server(vec![settings(80, vec![HttpVersion::Http11])]);
    assert_eq!(start(&mut vetis, false), Ok(vec![0]));
    assert_eq!(vetis.stop_listeners(), Ok(vec![800]));
    vetis
        .reload::<u8>(
            ServerSettings { listeners: vec![settings(90, vec![HttpVersion::Http3]), settings(91, vec![HttpVersion::Http2])] },
            vec![],
        )
        .unwrap();
    assert_eq!(start(&mut vetis, false), Ok(vec![1]));
    assert_eq!(vetis.stop_listeners(), Ok(vec![910]));
}
