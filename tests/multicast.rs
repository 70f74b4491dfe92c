use norm::{Call, Error, Instance, MulticastConfig, MulticastExt, Recorder};

#[test]
fn test_multicast_config_builder() {
    let config = MulticastConfig::new("224.1.2.3", 6003)
        .ttl(64)
        .interface("eth0")
        .loopback(true)
        .ssm_source("192.168.1.1")
        .tos(0x10);

    assert_eq!(config.address(), "224.1.2.3");
    assert_eq!(config.port(), 6003);
    assert_eq!(config.ttl, Some(64));
    assert_eq!(config.interface.as_deref(), Some("eth0"));
    assert_eq!(config.loopback, Some(true));
    assert_eq!(config.ssm_source.as_deref(), Some("192.168.1.1"));
    assert_eq!(config.tos, Some(0x10));
}

#[test]
fn test_multicast_config_display() {
    let config = MulticastConfig::new("224.1.2.3", 6003).ttl(64).loopback(true);

    let display = config.to_string();
    assert!(display.contains("224.1.2.3:6003"));
    assert!(display.contains("ttl=64"));
    assert!(display.contains("loopback=true"));
}

#[test]
fn test_multicast_macro() {
    let config = MulticastConfig::new("224.1.2.3", 6003).ttl(64).loopback(true);

    assert_eq!(config.address(), "224.1.2.3");
    assert_eq!(config.port(), 6003);
    assert_eq!(config.ttl, Some(64));
    assert_eq!(config.loopback, Some(true));
}

#[test]
fn test_multicast_macro_simple() {
    let config = MulticastConfig::new("224.1.2.3", 6003);

    assert_eq!(config.address(), "224.1.2.3");
    assert_eq!(config.port(), 6003);
    assert_eq!(config.ttl, None);
    assert_eq!(config.interface, None);
}

#[test]
fn display_lists_every_set_option_in_order() {
    let config = MulticastConfig::new("239.0.0.1", 5000)
        .interface("eth1")
        .ttl(7)
        .loopback(false)
        .ssm_source("10.1.2.3")
        .tos(255);
    assert_eq!(
        config.to_string(),
        "239.0.0.1:5000 on eth1 ttl=7 loopback=false ssm_source=10.1.2.3 tos=255"
    );
    assert_eq!(MulticastConfig::new("224.1.2.3", 0).to_string(), "224.1.2.3:0");
}

fn option_calls(rec: &Recorder, from: usize) -> Vec<Call<Vec<u8>, String>> {
    rec.log()[from..].to_vec()
}

#[test]
fn ttl_only_config_makes_one_call() {
    let mut rec = Recorder::new();
    let inst = Instance::new(&mut rec, false).unwrap();
    let session = inst.create_session(&mut rec, "224.1.2.3", 6003, 1).unwrap();
    let start = rec.log().len();
    let config = MulticastConfig::new("224.1.2.3", 6003).ttl(32);
    assert!(config.apply(&session, &mut rec).is_ok());
    let calls = option_calls(&rec, start);
    assert_eq!(calls.len(), 1);
    assert!(matches!(calls[0], Call::SetTtl { ttl: 32, result: true, .. }));
}

#[test]
fn scenario_ttl_and_loopback_applied_in_order() {
    let mut rec = Recorder::new();
    let inst = Instance::new(&mut rec, false).unwrap();
    let session = inst.create_session(&mut rec, "224.1.2.3", 6003, 1).unwrap();
    let start = rec.log().len();
    let config = MulticastConfig::new("224.1.2.3", 6003).ttl(64).loopback(true);
    assert!(config.apply(&session, &mut rec).is_ok());
    assert!(session.start_sender(&mut rec, 1, 1024 * 1024, 1400, 64, 16, None).is_ok());
    let calls = option_calls(&rec, start);
    assert_eq!(calls.len(), 3);
    let h = session.handle();
    assert_eq!(calls[0], Call::SetTtl { session: h, ttl: 64, result: true });
    assert_eq!(calls[1], Call::SetMulticastLoopback { session: h, enable: true, result: true });
    assert!(matches!(calls[2], Call::StartSender { fec_id: 0, .. }));
}

#[test]
fn full_config_follows_fixed_order() {
    let mut rec = Recorder::new();
    let inst = Instance::new(&mut rec, false).unwrap();
    let session = inst.create_session(&mut rec, "224.1.2.3", 6003, 1).unwrap();
    let start = rec.log().len();
    let config = MulticastConfig::new("224.1.2.3", 6003)
        .tos(3)
        .ssm_source("10.0.0.9")
        .interface("eth0")
        .loopback(false)
        .ttl(9);
    assert!(session.with_multicast(&mut rec, &config).is_ok());
    let calls = option_calls(&rec, start);
    assert_eq!(calls.len(), 5);
    assert!(matches!(calls[0], Call::SetTtl { ttl: 9, .. }));
    assert!(matches!(calls[1], Call::SetMulticastLoopback { enable: false, .. }));
    assert!(matches!(&calls[2], Call::SetMulticastInterface { interface, .. } if interface == "eth0"));
    assert!(matches!(&calls[3], Call::SetSsm { source, .. } if source == "10.0.0.9"));
    assert!(matches!(calls[4], Call::SetTos { tos: 3, .. }));
}

#[test]
fn apply_stops_at_first_refusal() {
    let mut rec = Recorder::new();
    let inst = Instance::new(&mut rec, false).unwrap();
    let session = inst.create_session(&mut rec, "224.1.2.3", 6003, 1).unwrap();
    rec.set_accept(false);
    let start = rec.log().len();
    let config = MulticastConfig::new("224.1.2.3", 6003).ttl(9).tos(4);
    let r = config.apply(&session, &mut rec);
    assert!(matches!(r, Err(Error::OperationFailed(_))));
    let calls = option_calls(&rec, start);
    assert_eq!(calls.len(), 1);
    assert!(matches!(calls[0], Call::SetTtl { result: false, .. }));
}

#[test]
fn apply_rejects_interface_with_nul_without_calling() {
    let mut rec = Recorder::new();
    let inst = Instance::new(&mut rec, false).unwrap();
    let session = inst.create_session(&mut rec, "224.1.2.3", 6003, 1).unwrap();
    let start = rec.log().len();
    let config = MulticastConfig::new("224.1.2.3", 6003).ttl(1).interface("et\0h0").tos(2);
    let r = config.apply(&session, &mut rec);
    assert_eq!(r, Err(Error::InvalidString));
    let calls = option_calls(&rec, start);
    assert_eq!(calls.len(), 1);
    assert!(matches!(calls[0], Call::SetTtl { ttl: 1, .. }));
}

#[test]
fn empty_config_makes_no_call() {
    let mut rec = Recorder::new();
    let inst = Instance::new(&mut rec, false).unwrap();
    let session = inst.create_session(&mut rec, "224.1.2.3", 6003, 1).unwrap();
    let start = rec.log().len();
    assert!(MulticastConfig::new("224.1.2.3", 6003).apply(&session, &mut rec).is_ok());
    assert_eq!(rec.log().len(), start);
}
