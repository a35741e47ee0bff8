use ada_remote::capture::{CaptureConfig, ScreenCapture, X11Capturer};
use ada_remote::codec::{create_decoder, create_encoder, CodecType, DecoderConfig, EncoderConfig};
use ada_remote::input::{create_injector, InputEvent, KeyCode};
use ada_remote::network::{
    create_client, create_host, ConnectionState, ConnectionType, NetworkConfig, NetworkPeer,
};
use ada_remote::password::verify_password;
use ada_remote::protocol::{
    client_session_config, host_session_config, session_info_strings, ConnectionMode,
    ProtocolMessage, VideoQuality,
};
use ada_remote::session_id::SessionId;
use ada_remote::signaling::SignalingClient;
use ada_remote::webrtc::WebRtcPeer;
use ada_remote::Error;

#[test]
fn test_capture_config_default() {
    let config = CaptureConfig::default();
    assert_eq!(config.monitor_index, 0);
    assert_eq!(config.fps, 30);
    assert!(config.capture_cursor);
}

#[test]
fn test_encoder_config_default() {
    let config = EncoderConfig::default();
    assert_eq!(config.codec, CodecType::H264);
    assert_eq!(config.width, 1920);
    assert_eq!(config.height, 1080);
    assert_eq!(config.fps, 30);
}

#[test]
fn test_network_config_default() {
    let config = NetworkConfig::default();
    assert!(!config.stun_servers.is_empty());
    assert!(config.enable_quic_fallback);
}

#[test]
fn test_peer_creation() {
    let session_id = SessionId::new();
    let peer = NetworkPeer::new(session_id, ConnectionType::WebRTC);
    assert_eq!(peer.state(), ConnectionState::Disconnected);
    assert_eq!(peer.connection_type(), ConnectionType::WebRTC);
}

#[test]
fn test_peer_connect_disconnect() {
    let session_id = SessionId::new();
    let mut peer = NetworkPeer::new(session_id, ConnectionType::WebRTC);
    peer.connect(&NetworkConfig::default()).unwrap();
    assert_eq!(peer.state(), ConnectionState::Connected);
    assert_eq!(peer.session_id(), session_id);
    peer.disconnect().unwrap();
    assert_eq!(peer.state(), ConnectionState::Disconnected);
}

#[test]
fn test_create_host_and_client() {
    let host = create_host(NetworkConfig::default()).unwrap();
    assert_eq!(host.connection_type(), ConnectionType::WebRTC);
    assert_eq!(host.state(), ConnectionState::Connecting);

    let session_id = SessionId::new();
    let client = create_client(session_id, NetworkConfig::default()).unwrap();
    assert_eq!(client.session_id(), session_id);
    assert_eq!(client.state(), ConnectionState::Connected);
}

#[test]
fn test_host_session_config_without_password() {
    let config = host_session_config(None).unwrap();
    assert_eq!(config.mode, ConnectionMode::FullControl);
    assert!(config.password_hash.is_none());
    assert!(config.clipboard_sync);
    assert_eq!(config.quality, VideoQuality::Adaptive);
}

#[test]
fn test_host_session_config_hashes_password() {
    let config = host_session_config(Some("hunter-pass".to_string())).unwrap();
    let hash = config.password_hash.expect("password must be hashed");
    assert!(verify_password("hunter-pass", &hash).unwrap());
    assert!(!verify_password("other-pass", &hash).unwrap());
}

#[test]
fn test_client_session_config() {
    let id_text = "12345678-9abc-def0-1234-56789abcdef0";
    let config = client_session_config(id_text, None).unwrap();
    assert_eq!(config.session_id.to_canonical_string(), id_text);
    assert_eq!(config.mode, ConnectionMode::FullControl);

    let bad = client_session_config("123456789", None);
    assert!(matches!(bad, Err(Error::Session(_))));
}

#[test]
fn test_session_info_strings() {
    let config = host_session_config(None).unwrap();
    let (code, mode) = session_info_strings(&config);
    assert_eq!(code.len(), 9);
    assert!(code.chars().all(|c| c.is_ascii_digit()));
    assert_eq!(mode, "FullControl");
}

#[test]
fn test_connection_mode_names() {
    assert_eq!(ConnectionMode::ViewOnly.name(), "ViewOnly");
    assert_eq!(ConnectionMode::FullControl.name(), "FullControl");
    assert_eq!(ConnectionMode::FileTransfer.name(), "FileTransfer");
}

#[test]
fn test_video_quality_default() {
    assert_eq!(VideoQuality::default(), VideoQuality::Adaptive);
}

#[test]
fn test_decoder_config_default() {
    let config = DecoderConfig::default();
    assert_eq!(config.codec, CodecType::H264);
    assert!(config.use_hardware_accel);
}

#[test]
fn test_capture_backend_lifecycle() {
    let mut capturer = X11Capturer::new().unwrap();
    assert!(capturer.config.is_none());
    capturer.init(CaptureConfig::default()).unwrap();
    assert_eq!(capturer.config, Some(CaptureConfig::default()));
    let monitors = capturer.list_monitors().unwrap();
    assert_eq!(monitors.len(), 1);
    assert!(monitors[0].is_primary);
    assert!(matches!(capturer.capture_frame(), Err(Error::Session(_))));
    capturer.cleanup().unwrap();
}

#[test]
fn test_codec_backends() {
    let mut encoder = create_encoder(CodecType::H264).unwrap();
    encoder.init(EncoderConfig::default()).unwrap();
    let frame = ada_remote::codec::RawFrame { data: vec![0u8; 16], width: 2, height: 2, timestamp: 0 };
    assert!(matches!(encoder.encode(frame), Err(Error::Encoding(_))));

    let mut decoder = create_decoder(CodecType::VP9).unwrap();
    decoder.init(DecoderConfig::default()).unwrap();
    let frame = ada_remote::codec::EncodedFrame { data: vec![0u8; 4], timestamp: 0, is_keyframe: true };
    assert!(matches!(decoder.decode(frame), Err(Error::Decoding(_))));
}

#[test]
fn test_input_injector() {
    let mut injector = create_injector().unwrap();
    injector.init().unwrap();
    injector.inject(InputEvent::KeyPress { key: KeyCode(42) }).unwrap();
    injector.cleanup().unwrap();
}

#[test]
fn test_signaling_client_new() {
    let client = SignalingClient::new("wss://relay.example".to_string());
    assert_eq!(client.server_url, "wss://relay.example");
}

#[test]
fn test_webrtc_peer_stubs() {
    let mut peer = WebRtcPeer::new().unwrap();
    assert!(matches!(peer.create_offer(), Err(Error::Network(_))));
    assert!(matches!(peer.create_answer("offer"), Err(Error::Network(_))));
    peer.set_remote_description("sdp").unwrap();
    peer.add_ice_candidate("candidate").unwrap();
    peer.create_data_channel("control").unwrap();
}

#[test]
fn test_protocol_message_variants() {
    let messages = vec![
        ProtocolMessage::Heartbeat,
        ProtocolMessage::SessionResponse { accepted: true, reason: None },
        ProtocolMessage::Clipboard { content: "copied".to_string() },
        ProtocolMessage::Disconnect { reason: "done".to_string() },
    ];
    let mut heartbeats = 0;
    for message in &messages {
        if let ProtocolMessage::Heartbeat = message {
            heartbeats += 1;
        }
    }
    assert_eq!(heartbeats, 1);
    assert!(matches!(
        messages[1],
        ProtocolMessage::SessionResponse { accepted: true, .. }
    ));
}

#[test]
fn test_network_config_default_servers() {
    let config = NetworkConfig::default();
    assert_eq!(config.signaling_server, "wss://signal.ada-remote.io");
    assert_eq!(config.stun_servers[0], "stun:stun.l.google.com:19302");
    assert_eq!(config.stun_servers[1], "stun:stun1.l.google.com:19302");
    assert!(config.turn_servers.is_empty());
}

#[test]
fn test_session_info_code_is_configs_own() {
    let config = host_session_config(None).unwrap();
    let (code, _) = session_info_strings(&config);
    assert_eq!(code, config.session_id.display_code());
}

#[test]
fn test_client_session_config_password_handling() {
    let id_text = "12345678-9abc-def0-1234-56789abcdef0";
    let without = client_session_config(id_text, None).unwrap();
    assert!(without.password_hash.is_none());
    let with = client_session_config(id_text, Some("entry-pass".to_string())).unwrap();
    let hash = with.password_hash.expect("password must be hashed");
    assert!(verify_password("entry-pass", &hash).unwrap());
}
