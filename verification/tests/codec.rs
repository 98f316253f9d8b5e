use p2p_channel::candidate::{
    clone_all, de_candidate, decode_all, encode_all, ser_candidate, Candidate, IceCandidate,
};
use p2p_channel::config::{default_ice_servers, session_config, BinaryType};

fn host_candidate() -> Candidate {
    Candidate {
        descriptor: "candidate:1 1 UDP 2122252543 192.0.2.7 49203 typ host".to_string(),
        media_id: Some("0".to_string()),
        media_line_index: Some(0),
    }
}

fn bare_candidate() -> Candidate {
    Candidate { descriptor: String::new(), media_id: None, media_line_index: None }
}

#[test]
fn encode_gives_the_three_fields_in_order() {
    let tuple = ser_candidate(&host_candidate());
    assert_eq!(
        tuple,
        (
            "candidate:1 1 UDP 2122252543 192.0.2.7 49203 typ host".to_string(),
            Some("0".to_string()),
            Some(0u16),
        )
    );
}

#[test]
fn encode_keeps_absent_fields_absent() {
    assert_eq!(ser_candidate(&bare_candidate()), (String::new(), None, None));
}

#[test]
fn decode_reads_the_three_fields() {
    let tuple: IceCandidate = ("candidate:7".to_string(), Some("data".to_string()), Some(65535));
    let candidate = de_candidate(&tuple);
    assert_eq!(candidate.descriptor, "candidate:7");
    assert_eq!(candidate.media_id, Some("data".to_string()));
    assert_eq!(candidate.media_line_index, Some(65535));
}

#[test]
fn decode_undoes_encode() {
    for candidate in [host_candidate(), bare_candidate()] {
        assert_eq!(de_candidate(&ser_candidate(&candidate)), candidate);
    }
}

#[test]
fn encode_undoes_decode() {
    let tuple: IceCandidate = ("candidate:9".to_string(), None, Some(3));
    assert_eq!(ser_candidate(&de_candidate(&tuple)), tuple);
}

#[test]
fn clone_keeps_every_field() {
    let candidate = host_candidate();
    assert_eq!(candidate.clone(), candidate);
}

#[test]
fn a_list_is_copied_element_by_element() {
    let list = vec![host_candidate(), bare_candidate(), host_candidate()];
    assert_eq!(clone_all(&list), list);
    assert_eq!(clone_all(&Vec::new()), Vec::<Candidate>::new());
}

#[test]
fn batches_convert_element_by_element() {
    let tuples: Vec<IceCandidate> = vec![
        ("a".to_string(), None, Some(1)),
        ("b".to_string(), Some("mid".to_string()), None),
    ];
    let decoded = decode_all(&tuples);
    assert_eq!(decoded.len(), 2);
    assert_eq!(decoded[0], Candidate {
        descriptor: "a".to_string(),
        media_id: None,
        media_line_index: Some(1),
    });
    assert_eq!(decoded[1], Candidate {
        descriptor: "b".to_string(),
        media_id: Some("mid".to_string()),
        media_line_index: None,
    });
    assert_eq!(encode_all(&decoded), tuples);
    assert_eq!(decode_all(&Vec::new()), Vec::<Candidate>::new());
    assert_eq!(encode_all(&Vec::new()), Vec::<IceCandidate>::new());
}

#[test]
fn the_server_list_is_fixed() {
    let servers = default_ice_servers();
    assert_eq!(servers.len(), 2);
    assert_eq!(
        servers[0].urls,
        vec![
            "stun:stun1.l.google.com:19302".to_string(),
            "stun:global.stun.twilio.com:3478".to_string(),
        ]
    );
    assert_eq!(servers[0].username, "");
    assert_eq!(servers[0].credential, "");
    assert_eq!(
        servers[1].urls,
        vec![
            "turn:openrelay.metered.ca:80".to_string(),
            "turn:openrelay.metered.ca:443".to_string(),
        ]
    );
    assert_eq!(servers[1].username, "openrelayproject");
    assert_eq!(servers[1].credential, "openrelayproject");
}

#[test]
fn the_session_is_built_from_the_fixed_parts() {
    let config = session_config();
    assert_eq!(config.ice_servers, default_ice_servers());
    assert_eq!(config.channel.label, "chessagon");
    assert_eq!(config.channel.id, 0);
    assert!(config.channel.negotiated);
    assert_eq!(config.channel.binary_type, BinaryType::ArrayBuffer);
    assert!(config.observe_connectivity_state);
}
