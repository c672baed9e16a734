use capnp_zenoh_bridge::bootstrap::{BootstrapService, BootstrapServiceBuilder, ConfigError};
use capnp_zenoh_bridge::codec::{decode_hello, decode_twist, encode_hello, encode_twist};
use capnp_zenoh_bridge::message::{Hello, Twist, Vector3};
use capnp_zenoh_bridge::service::{
    CallError, DoHelloParams, DoTwistParams, HelloData, ServiceKind, TwistData,
};

fn vec3(x: f64, y: f64, z: f64) -> Vector3 {
    Vector3 { x: x.to_bits(), y: y.to_bits(), z: z.to_bits() }
}

fn full_config() -> BootstrapService<u32> {
    BootstrapServiceBuilder::new(7u32)
        .with_hello_publisher("fleet/hello")
        .with_twist_publisher("turtle1/cmd_vel")
        .build()
        .ok()
        .unwrap()
}

fn hello_params(msg: &str) -> DoHelloParams {
    DoHelloParams { data: Some(HelloData { msg: Some(msg.to_string()) }) }
}

fn twist_params(linear: Vector3, angular: Vector3) -> DoTwistParams {
    DoTwistParams { data: Some(TwistData { linear: Some(linear), angular: Some(angular) }) }
}

#[test]
fn hello_scenario_publishes_to_fleet_hello() {
    let bootstrap = full_config();
    let hello = bootstrap.get_hello_service().ok().unwrap();
    assert_eq!(hello.topic(), "fleet/hello");
    assert_eq!(*hello.session(), 7u32);
    let publish = hello.do_hello(&hello_params("hello")).unwrap();
    assert_eq!(publish.topic, "fleet/hello");
    assert_eq!(
        publish.payload,
        vec![0, 1, 0, 0, 6, 0, 0, 0, b'h', b'e', b'l', b'l', b'o', 0]
    );
    assert_eq!(decode_hello(&publish.payload), Some(Hello { msg: "hello".to_string() }));
    let decoded: String = cdr::deserialize(&publish.payload).unwrap();
    assert_eq!(decoded, "hello");
}

#[test]
fn twist_scenario_publishes_to_cmd_vel() {
    let bootstrap = full_config();
    let twist = bootstrap.get_twist_service().ok().unwrap();
    assert_eq!(twist.topic(), "turtle1/cmd_vel");
    let linear = vec3(1.0, 0.0, 0.0);
    let angular = vec3(0.0, 0.0, 1.0);
    let publish = twist.do_twist(&twist_params(linear, angular)).unwrap();
    assert_eq!(publish.topic, "turtle1/cmd_vel");
    assert_eq!(publish.payload.len(), 52);
    assert_eq!(decode_twist(&publish.payload), Some(Twist { linear, angular }));
    let decoded: (f64, f64, f64, f64, f64, f64) = cdr::deserialize(&publish.payload).unwrap();
    assert_eq!(decoded, (1.0, 0.0, 0.0, 0.0, 0.0, 1.0));
    let as_floats =
        cdr::serialize::<_, _, cdr::CdrLe>(&(1.0f64, 0.0f64, 0.0f64, 0.0f64, 0.0f64, 1.0f64), cdr::Infinite)
            .unwrap();
    assert_eq!(publish.payload, as_floats);
}

#[test]
fn disabled_twist_is_not_configured() {
    let bootstrap = BootstrapServiceBuilder::new(1u32)
        .with_hello_publisher("fleet/hello")
        .build()
        .ok()
        .unwrap();
    assert_eq!(
        bootstrap.get_twist_service().err(),
        Some(CallError::NotConfigured(ServiceKind::Twist))
    );
    assert!(bootstrap.get_hello_service().is_ok());
}

#[test]
fn nothing_enabled_resolves_nothing() {
    let bootstrap = BootstrapServiceBuilder::new(()).build().ok().unwrap();
    assert_eq!(
        bootstrap.get_hello_service().err(),
        Some(CallError::NotConfigured(ServiceKind::Hello))
    );
    assert_eq!(
        bootstrap.get_twist_service().err(),
        Some(CallError::NotConfigured(ServiceKind::Twist))
    );
}

#[test]
fn repeated_resolution_gives_equivalent_services() {
    let bootstrap = full_config();
    let a = bootstrap.get_hello_service().ok().unwrap();
    let b = bootstrap.get_hello_service().ok().unwrap();
    let pa = a.do_hello(&hello_params("same")).unwrap();
    let pb = b.do_hello(&hello_params("same")).unwrap();
    assert_eq!(pa.topic, pb.topic);
    assert_eq!(pa.payload, pb.payload);
}

#[test]
fn empty_topic_is_refused() {
    let r = BootstrapServiceBuilder::new(0u32).with_hello_publisher("").build();
    assert_eq!(r.err(), Some(ConfigError::EmptyTopic(ServiceKind::Hello)));
    let r = BootstrapServiceBuilder::new(0u32)
        .with_hello_publisher("fleet/hello")
        .with_twist_publisher("")
        .build();
    assert_eq!(r.err(), Some(ConfigError::EmptyTopic(ServiceKind::Twist)));
}

#[test]
fn later_topic_replaces_earlier() {
    let bootstrap = BootstrapServiceBuilder::new(0u32)
        .with_hello_publisher("a/b")
        .with_hello_publisher("c/d")
        .build()
        .ok()
        .unwrap();
    assert_eq!(bootstrap.get_hello_service().ok().unwrap().topic(), "c/d");
}

#[test]
fn missing_hello_fields_are_malformed() {
    let hello = full_config().get_hello_service().ok().unwrap();
    assert_eq!(
        hello.do_hello(&DoHelloParams { data: None }).err(),
        Some(CallError::MalformedParameters)
    );
    assert_eq!(
        hello.do_hello(&DoHelloParams { data: Some(HelloData { msg: None }) }).err(),
        Some(CallError::MalformedParameters)
    );
}

#[test]
fn missing_twist_fields_are_malformed() {
    let twist = full_config().get_twist_service().ok().unwrap();
    let v = vec3(1.0, 2.0, 3.0);
    assert_eq!(
        twist.do_twist(&DoTwistParams { data: None }).err(),
        Some(CallError::MalformedParameters)
    );
    let no_linear = DoTwistParams { data: Some(TwistData { linear: None, angular: Some(v) }) };
    assert_eq!(twist.do_twist(&no_linear).err(), Some(CallError::MalformedParameters));
    let no_angular = DoTwistParams { data: Some(TwistData { linear: Some(v), angular: None }) };
    assert_eq!(twist.do_twist(&no_angular).err(), Some(CallError::MalformedParameters));
}

#[test]
fn hello_round_trip_non_ascii_and_empty() {
    for text in ["", "hello", "héllo wörld ✓", "日本語のテキスト", "emoji 🚀 ok"] {
        let h = Hello { msg: text.to_string() };
        let bytes = encode_hello(&h).unwrap();
        assert_ne!(bytes, text.as_bytes().to_vec());
        assert_eq!(bytes.len(), 4 + 4 + text.len() + 1);
        assert_eq!(decode_hello(&bytes), Some(h));
        let via_cdr: String = cdr::deserialize(&bytes).unwrap();
        assert_eq!(via_cdr, text);
    }
}

#[test]
fn empty_hello_encoding_is_exact() {
    let bytes = encode_hello(&Hello { msg: String::new() }).unwrap();
    assert_eq!(bytes, vec![0, 1, 0, 0, 1, 0, 0, 0, 0]);
}

#[test]
fn twist_round_trip_extreme_values() {
    let cases = [
        (vec3(-1.5, 0.0, -0.0), vec3(1e308, -1e308, 5e-324)),
        (vec3(f64::INFINITY, f64::NEG_INFINITY, f64::MAX), vec3(f64::MIN, 123456.789, -0.001)),
        (
            Vector3 { x: f64::NAN.to_bits(), y: 0x7ff8_0000_0000_1234, z: u64::MAX },
            vec3(0.0, 0.0, 0.0),
        ),
    ];
    for (linear, angular) in cases {
        let t = Twist { linear, angular };
        let bytes = encode_twist(&t);
        assert_eq!(bytes.len(), 52);
        assert_eq!(decode_twist(&bytes), Some(t));
    }
}

#[test]
fn twist_encoding_is_exact() {
    let t = Twist { linear: vec3(1.0, 0.0, 0.0), angular: vec3(0.0, 0.0, -2.0) };
    let bytes = encode_twist(&t);
    let mut expected = vec![0u8, 1, 0, 0];
    for v in [1.0f64, 0.0, 0.0, 0.0, 0.0, -2.0] {
        expected.extend_from_slice(&v.to_le_bytes());
    }
    assert_eq!(bytes, expected);
}

#[test]
fn twist_values_pass_through_unclamped() {
    let twist = full_config().get_twist_service().ok().unwrap();
    let linear = vec3(1e9, -1e9, 42.0);
    let angular = vec3(-7.25, 1e-300, 3.5e100);
    let publish = twist.do_twist(&twist_params(linear, angular)).unwrap();
    let decoded: (f64, f64, f64, f64, f64, f64) = cdr::deserialize(&publish.payload).unwrap();
    assert_eq!(decoded, (1e9, -1e9, 42.0, -7.25, 1e-300, 3.5e100));
}

#[test]
fn many_calls_publish_once_each() {
    let bootstrap = full_config();
    let hello = bootstrap.get_hello_service().ok().unwrap();
    let n = 25;
    let mut publishes = Vec::new();
    for i in 0..n {
        let text = format!("message {}", i);
        publishes.push((text.clone(), hello.do_hello(&hello_params(&text)).unwrap()));
    }
    assert_eq!(publishes.len(), n);
    for (text, p) in publishes.iter().rev() {
        assert_eq!(p.topic, "fleet/hello");
        assert_eq!(decode_hello(&p.payload), Some(Hello { msg: text.clone() }));
    }
}

#[test]
fn many_twist_calls_publish_once_each() {
    let twist = full_config().get_twist_service().ok().unwrap();
    let mut count = 0;
    for i in 0..10 {
        let v = vec3(i as f64, -(i as f64), 0.5);
        let p = twist.do_twist(&twist_params(v, v)).unwrap();
        assert_eq!(p.topic, "turtle1/cmd_vel");
        assert_eq!(decode_twist(&p.payload), Some(Twist { linear: v, angular: v }));
        count += 1;
    }
    assert_eq!(count, 10);
}

#[test]
fn hello_decoder_rejects_bad_frames() {
    let good = encode_hello(&Hello { msg: "abc".to_string() }).unwrap();
    assert!(decode_hello(&good[..good.len() - 1]).is_none());
    let mut big_endian = good.clone();
    big_endian[1] = 0;
    assert!(decode_hello(&big_endian).is_none());
    let mut no_nul = good.clone();
    let last = no_nul.len() - 1;
    no_nul[last] = b'x';
    assert!(decode_hello(&no_nul).is_none());
    let mut bad_len = good.clone();
    bad_len[4] = 9;
    assert!(decode_hello(&bad_len).is_none());
    let invalid_utf8 = vec![0, 1, 0, 0, 3, 0, 0, 0, 0xff, 0xfe, 0];
    assert!(decode_hello(&invalid_utf8).is_none());
    assert!(decode_hello(&[0, 1, 0, 0]).is_none());
}

#[test]
fn twist_decoder_rejects_bad_frames() {
    let good = encode_twist(&Twist { linear: vec3(1.0, 2.0, 3.0), angular: vec3(4.0, 5.0, 6.0) });
    assert!(decode_twist(&good[..51]).is_none());
    let mut longer = good.clone();
    longer.push(0);
    assert!(decode_twist(&longer).is_none());
    let mut bad_header = good.clone();
    bad_header[0] = 1;
    assert!(decode_twist(&bad_header).is_none());
    assert!(decode_twist(&[]).is_none());
}
