//! What a connection is built from: the connectivity-hint servers and the one
//! data channel.

use vstd::prelude::*;

verus! {

/// One discovery or relay endpoint group with its credential pair.
#[derive(Debug, PartialEq, Eq)]
pub struct IceServerConfig {
    pub urls: Vec<String>,
    pub username: String,
    pub credential: String,
}

/// The mathematical value of an [`IceServerConfig`].
pub struct IceServerModel {
    pub urls: Seq<Seq<char>>,
    pub username: Seq<char>,
    pub credential: Seq<char>,
}

impl DeepView for IceServerConfig {
    type V = IceServerModel;

    open spec fn deep_view(&self) -> IceServerModel {
        IceServerModel {
            urls: self.urls.deep_view(),
            username: self.username@,
            credential: self.credential@,
        }
    }
}

/// How the data channel frames what it delivers.
#[derive(Debug, Clone, Copy, PartialEq, Eq, Structural)]
pub enum BinaryType {
    ArrayBuffer,
    Blob,
}

/// The one logical data channel of a connection.
#[derive(Debug, PartialEq, Eq)]
pub struct ChannelConfig {
    pub label: String,
    pub id: u16,
    pub negotiated: bool,
    pub binary_type: BinaryType,
}

/// The mathematical value of a [`ChannelConfig`].
pub struct ChannelModel {
    pub label: Seq<char>,
    pub id: u16,
    pub negotiated: bool,
    pub binary_type: BinaryType,
}

impl DeepView for ChannelConfig {
    type V = ChannelModel;

    open spec fn deep_view(&self) -> ChannelModel {
        ChannelModel {
            label: self.label@,
            id: self.id,
            negotiated: self.negotiated,
            binary_type: self.binary_type,
        }
    }
}

/// Everything the engine is asked for when a connection is made.
#[derive(Debug, PartialEq, Eq)]
pub struct SessionConfig {
    pub ice_servers: Vec<IceServerConfig>,
    pub channel: ChannelConfig,
    /// An observer of the engine's connectivity-state changes must be
    /// registered, even an empty one: without it some engines drop the
    /// session.
    pub observe_connectivity_state: bool,
}

/// The mathematical value of a [`SessionConfig`].
pub struct SessionModel {
    pub ice_servers: Seq<IceServerModel>,
    pub channel: ChannelModel,
    pub observe_connectivity_state: bool,
}

impl DeepView for SessionConfig {
    type V = SessionModel;

    open spec fn deep_view(&self) -> SessionModel {
        SessionModel {
            ice_servers: self.ice_servers.deep_view(),
            channel: self.channel.deep_view(),
            observe_connectivity_state: self.observe_connectivity_state,
        }
    }
}

/// The fixed server list: a discovery group without credentials, then a relay
/// group with its public credential pair.
pub open spec fn default_servers() -> Seq<IceServerModel> {
    seq![
        IceServerModel {
            urls: seq!["stun:stun1.l.google.com:19302"@, "stun:global.stun.twilio.com:3478"@],
            username: ""@,
            credential: ""@,
        },
        IceServerModel {
            urls: seq!["turn:openrelay.metered.ca:80"@, "turn:openrelay.metered.ca:443"@],
            username: "openrelayproject"@,
            credential: "openrelayproject"@,
        },
    ]
}

/// The fixed data channel: label `chessagon`, identifier 0, agreed on by both
/// peers beforehand, binary framing by array buffers.
pub open spec fn default_channel() -> ChannelModel {
    ChannelModel {
        label: "chessagon"@,
        id: 0,
        negotiated: true,
        binary_type: BinaryType::ArrayBuffer,
    }
}

/// The fixed construction contract of a connection.
pub open spec fn default_session() -> SessionModel {
    SessionModel {
        ice_servers: default_servers(),
        channel: default_channel(),
        observe_connectivity_state: true,
    }
}

fn server(first: &str, second: &str, username: &str, credential: &str) -> (config:
    IceServerConfig)
    ensures
        config.deep_view() == (IceServerModel {
            urls: seq![first@, second@],
            username: username@,
            credential: credential@,
        }),
{
    let mut urls: Vec<String> = Vec::new();
    urls.push(first.to_owned());
    urls.push(second.to_owned());
    assert(urls.deep_view() =~= seq![first@, second@]);
    IceServerConfig { urls, username: username.to_owned(), credential: credential.to_owned() }
}

/// The connectivity-hint servers every connection is created with.
pub fn default_ice_servers() -> (servers: Vec<IceServerConfig>)
    ensures
        servers.deep_view() == default_servers(),
{
    let mut servers: Vec<IceServerConfig> = Vec::new();
    servers.push(
        server("stun:stun1.l.google.com:19302", "stun:global.stun.twilio.com:3478", "", ""),
    );
    servers.push(
        server(
            "turn:openrelay.metered.ca:80",
            "turn:openrelay.metered.ca:443",
            "openrelayproject",
            "openrelayproject",
        ),
    );
    servers
}

/// What the engine is asked for when a connection is made.
pub fn session_config() -> (config: SessionConfig)
    ensures
        config.deep_view() == default_session(),
{
    SessionConfig {
        ice_servers: default_ice_servers(),
        channel: ChannelConfig {
            label: "chessagon".to_owned(),
            id: 0,
            negotiated: true,
            binary_type: BinaryType::ArrayBuffer,
        },
        observe_connectivity_state: true,
    }
}

} // verus!
