use uuid::Uuid;
use vstd::prelude::*;

use crate::gamemode::GameMode;
use crate::lobby::{LobbyState, PartyInfo};
use crate::player::{FriendEntry, FriendRequestInfo, PlayerProfile};

verus! {

/// The error type of `serde_json`, carried inside `DecodeError::Json`.
#[verifier::external_type_specification]
#[verifier::external_body]
pub struct ExJsonError(serde_json::Error);

// ---------------------------------------------------------------------------
// TCP Messages (reliable: auth, friends, lobby, matchmaking, chat)
// ---------------------------------------------------------------------------

/// Messages sent from client to server over TCP.
#[derive(Clone, Debug)]
pub enum ClientMessage {
    // -- Auth --
    LoginRequest { email: String, password: String },
    RegisterRequest { username: String, email: String, password: String },
    /// Authenticate an existing TCP connection with a JWT token.
    /// Must be the first message sent after connecting.
    Authenticate { token: String },
    // -- Friends --
    SendFriendRequest { target_username: String },
    AcceptFriendRequest { request_id: Uuid },
    DeclineFriendRequest { request_id: Uuid },
    RemoveFriend { friend_id: Uuid },
    GetFriendsList,
    GetFriendRequests,
    // -- Profile --
    GetProfile,
    // -- Lobby --
    CreateLobby { game_mode: GameMode },
    JoinLobby { lobby_id: Uuid },
    LeaveLobby,
    SetReady { ready: bool },
    // -- Party --
    /// Invite another player to the party (by username).
    PartyInvite { username: String },
    /// Accept a pending party invite.
    PartyAcceptInvite { party_id: Uuid },
    /// Decline a pending party invite.
    PartyDeclineInvite { party_id: Uuid },
    /// Leave the current party.
    PartyLeave,
    /// Kick a member from the party (leader only).
    PartyKick { member_id: Uuid },
    /// Party leader creates a lobby that includes all party members.
    PartyCreateLobby { game_mode: GameMode },
    /// Party leader starts matchmaking for the party.
    PartyStartSearch,
    // -- Matchmaking --
    QueueForMatch { game_mode: GameMode },
    CancelMatchmaking,
    // -- Chat --
    ChatMessage { content: String },
    // -- Gameplay --
    /// Player is ready to respawn (sent after the 5-second post-death delay).
    RequestRespawn,
}

/// Messages sent from server to client over TCP.
#[derive(Clone, Debug)]
pub enum ServerMessage {
    // -- Auth responses --
    AuthSuccess { token: String, user_id: Uuid, username: String },
    AuthError { message: String },
    /// Confirmation that the TCP connection has been authenticated.
    Authenticated { user_id: Uuid, username: String },
    // -- Profile --
    ProfileData { profile: PlayerProfile },
    // -- Friends --
    FriendsList { friends: Vec<FriendEntry> },
    FriendRequestsList { incoming: Vec<FriendRequestInfo>, outgoing: Vec<FriendRequestInfo> },
    FriendRequestSent,
    FriendRequestAccepted,
    FriendRequestDeclined,
    FriendRemoved,
    FriendError { message: String },
    // -- Lobby --
    LobbyUpdate { lobby: LobbyState },
    LobbyError { message: String },
    // -- Party --
    /// Push notification: someone invited you to a party.
    PartyInviteReceived { party_id: Uuid, from_username: String },
    /// Push to all party members on any party state change.
    PartyUpdate { party: PartyInfo },
    PartyError { message: String },
    // -- Matchmaking --
    MatchmakingStatus {
        players_in_queue: u32,
        /// Estimated wait time in seconds, if available.
        estimated_wait: Option<u32>,
    },
    MatchFound { lobby_id: Uuid, server_addr: String, udp_port: u16 },
    // -- General --
    Error { message: String },
    // -- Chat --
    ChatBroadcast { from_username: String, content: String },
}

// ---------------------------------------------------------------------------
// UDP Messages (fast: gameplay synchronisation)
// ---------------------------------------------------------------------------

/// Bitflags representing discrete player actions packed into a single `u8`.
///
/// Multiple actions can be active in the same tick by OR-ing the flags together.
#[derive(Clone, Copy, Debug, PartialEq, Eq, Structural)]
pub struct PlayerActions(pub u8);

impl Default for PlayerActions {
    /// No action set.
    fn default() -> (a: Self)
        ensures
            a.0 == 0,
    {
        PlayerActions(0)
    }
}

impl PlayerActions {
    pub const JUMP: u8 = 0x01;
    pub const CROUCH: u8 = 0x02;
    pub const SPRINT: u8 = 0x04;
    pub const SHOOT: u8 = 0x08;
    pub const RELOAD: u8 = 0x10;
    pub const LEAN_LEFT: u8 = 0x20;
    pub const LEAN_RIGHT: u8 = 0x40;

    /// Whether any bit of `flag` is set in `self`.
    pub open spec fn has(self, flag: u8) -> bool {
        self.0 & flag != 0
    }

    /// No action set.
    pub fn empty() -> (a: Self)
        ensures
            a.0 == 0,
    {
        PlayerActions(0)
    }

    /// The actions whose bits are `bits`.
    pub fn from_bits(bits: u8) -> (a: Self)
        ensures
            a.0 == bits,
    {
        PlayerActions(bits)
    }

    /// Whether any bit of `flag` is set.
    pub fn contains(self, flag: u8) -> (r: bool)
        ensures
            r == self.has(flag),
    {
        (self.0 & flag) != 0
    }

    /// Sets every bit of `flag`, keeping the others.
    pub fn set(&mut self, flag: u8)
        ensures
            final(self).0 == old(self).0 | flag,
    {
        self.0 |= flag;
    }

    /// Clears every bit of `flag`, keeping the others.
    pub fn clear(&mut self, flag: u8)
        ensures
            final(self).0 == old(self).0 & !flag,
    {
        self.0 &= !flag;
    }

    /// Sets the bits of `flag` when `condition` holds, clears them otherwise.
    pub fn set_if(&mut self, flag: u8, condition: bool)
        ensures
            final(self).0 == (if condition { old(self).0 | flag } else { old(self).0 & !flag }),
    {
        if condition {
            self.set(flag);
        } else {
            self.clear(flag);
        }
    }
}

/// The seven named action flags, in declaration order.
pub open spec fn named_action_flags() -> Seq<u8> {
    seq![
        PlayerActions::JUMP,
        PlayerActions::CROUCH,
        PlayerActions::SPRINT,
        PlayerActions::SHOOT,
        PlayerActions::RELOAD,
        PlayerActions::LEAN_LEFT,
        PlayerActions::LEAN_RIGHT,
    ]
}

/// Each named flag is a single bit of its own: no two of them share a bit, so
/// any set of actions can be packed together by OR-ing their flags.
pub proof fn lemma_named_flags_disjoint(i: int, j: int)
    requires
        0 <= i < 7,
        0 <= j < 7,
        i != j,
    ensures
        named_action_flags()[i] != 0,
        named_action_flags()[i] & named_action_flags()[j] == 0,
{
    let f = named_action_flags()[i];
    let g = named_action_flags()[j];
    assert(f == 1u8 || f == 2u8 || f == 4u8 || f == 8u8 || f == 16u8 || f == 32u8 || f == 64u8);
    assert(g == 1u8 || g == 2u8 || g == 4u8 || g == 8u8 || g == 16u8 || g == 32u8 || g == 64u8);
    assert(f != g);
    assert(f & g == 0) by (bit_vector)
        requires
            f == 1u8 || f == 2u8 || f == 4u8 || f == 8u8 || f == 16u8 || f == 32u8 || f == 64u8,
            g == 1u8 || g == 2u8 || g == 4u8 || g == 8u8 || g == 16u8 || g == 32u8 || g == 64u8,
            f != g,
    ;
}

/// After `set(flag)` with a non-empty flag, `contains(flag)` holds, and every
/// flag that shares no bit with it reads as before.
pub proof fn lemma_set_adds_only_flag(actions: PlayerActions, flag: u8, other: u8)
    requires
        flag != 0,
    ensures
        PlayerActions(actions.0 | flag).has(flag),
        other & flag == 0 ==> PlayerActions(actions.0 | flag).has(other) == actions.has(other),
{
    let a = actions.0;
    assert((a | flag) & flag != 0) by (bit_vector)
        requires
            flag != 0u8,
    ;
    assert(other & flag == 0 ==> (((a | flag) & other != 0) == (a & other != 0))) by (bit_vector);
}

/// After `clear(flag)`, `contains(flag)` is false, and every flag that shares
/// no bit with it reads as before.
pub proof fn lemma_clear_removes_only_flag(actions: PlayerActions, flag: u8, other: u8)
    ensures
        !PlayerActions(actions.0 & !flag).has(flag),
        other & flag == 0 ==> PlayerActions(actions.0 & !flag).has(other) == actions.has(other),
{
    let a = actions.0;
    assert((a & !flag) & flag == 0) by (bit_vector);
    assert(other & flag == 0 ==> (((a & !flag) & other != 0) == (a & other != 0))) by (bit_vector);
}

/// After `set_if(flag, condition)` with a non-empty flag, `contains(flag)` equals `condition`.
pub proof fn lemma_set_if_decides_flag(actions: PlayerActions, flag: u8, condition: bool)
    requires
        flag != 0,
    ensures
        PlayerActions(
            if condition { actions.0 | flag } else { actions.0 & !flag },
        ).has(flag) == condition,
{
    lemma_set_adds_only_flag(actions, flag, 0);
    lemma_clear_removes_only_flag(actions, flag, 0);
}

/// A freshly emptied set of actions contains no flag.
pub proof fn lemma_empty_contains_nothing(flag: u8)
    ensures
        !PlayerActions(0).has(flag),
{
    assert(0u8 & flag == 0) by (bit_vector);
}

// ---------------------------------------------------------------------------
// Length-prefixed framing
// ---------------------------------------------------------------------------
//
// TCP messages are framed as a 4-byte big-endian `u32` length header followed
// by that many bytes of UTF-8 JSON.

/// The number that four big-endian bytes stand for.
pub open spec fn be_u32_value(b0: u8, b1: u8, b2: u8, b3: u8) -> u32 {
    (b0 * 0x100_0000 + b1 * 0x1_0000 + b2 * 0x100 + b3) as u32
}

/// The length header at the start of `buf` (which holds at least four bytes).
pub open spec fn header_value(buf: Seq<u8>) -> u32 {
    be_u32_value(buf[0], buf[1], buf[2], buf[3])
}

/// The four big-endian bytes of `v`.
pub open spec fn be_u32_bytes(v: u32) -> Seq<u8> {
    seq![
        (v / 0x100_0000) as u8,
        ((v / 0x1_0000) % 0x100) as u8,
        ((v / 0x100) % 0x100) as u8,
        (v % 0x100) as u8,
    ]
}

/// The frame of `payload`: its length, cut to 32 bits, as a big-endian
/// header, then the payload itself.
pub open spec fn frame_of(payload: Seq<u8>) -> Seq<u8> {
    be_u32_bytes(payload.len() as u32) + payload
}

/// Whether `data` holds a header and at least as many payload bytes as it announces.
pub open spec fn frame_complete(data: Seq<u8>) -> bool {
    data.len() >= 4 && data.len() - 4 >= header_value(data)
}

/// The payload that the header of `data` announces.
pub open spec fn frame_payload(data: Seq<u8>) -> Seq<u8> {
    data.subrange(4, 4 + header_value(data))
}

/// Errors that can occur when decoding a length-prefixed message.
#[derive(Debug)]
pub enum DecodeError {
    /// The buffer is shorter than the 4-byte length header.
    InsufficientData,
    /// The buffer contains fewer bytes than the length header promises.
    Truncated { expected: usize, actual: usize },
    /// JSON deserialisation failed.
    Json(serde_json::Error),
}

impl vstd::std_specs::convert::FromSpecImpl<serde_json::Error> for DecodeError {
    open spec fn obeys_from_spec() -> bool {
        true
    }

    open spec fn from_spec(e: serde_json::Error) -> Self {
        DecodeError::Json(e)
    }
}

impl From<serde_json::Error> for DecodeError {
    fn from(e: serde_json::Error) -> (r: Self) {
        DecodeError::Json(e)
    }
}

/// Read the length header from the first 4 bytes of a buffer.
///
/// Returns `None` if the buffer is shorter than 4 bytes.
pub fn read_message_length(buf: &[u8]) -> (len: Option<u32>)
    ensures
        len == (if buf@.len() < 4 { None } else { Some(header_value(buf@)) }),
{
    if buf.len() < 4 {
        return None;
    }
    Some(
        (buf[0] as u32) * 0x100_0000 + (buf[1] as u32) * 0x1_0000 + (buf[2] as u32) * 0x100
            + (buf[3] as u32),
    )
}

/// Total number of bytes needed for one complete length-prefixed message
/// (including the 4 header bytes), given the payload length from `read_message_length`.
pub fn total_frame_size(payload_len: u32) -> (size: usize)
    requires
        4 + payload_len <= usize::MAX,
    ensures
        size == 4 + payload_len,
{
    4 + payload_len as usize
}

/// Frame `json` as `[4-byte big-endian length][json bytes]`.
///
/// The header holds the payload length cut to 32 bits.
pub fn encode_length_prefixed(json: &[u8]) -> (buf: Vec<u8>)
    requires
        4 + json@.len() <= usize::MAX,
    ensures
        buf@ == frame_of(json@),
{
    let len = json.len() as u32;
    let mut buf: Vec<u8> = Vec::with_capacity(4 + json.len());
    buf.push((len / 0x100_0000) as u8);
    buf.push(((len / 0x1_0000) % 0x100) as u8);
    buf.push(((len / 0x100) % 0x100) as u8);
    buf.push((len % 0x100) as u8);
    let mut i: usize = 0;
    while i < json.len()
        invariant
            i <= json@.len(),
            buf@ == be_u32_bytes(len) + json@.subrange(0, i as int),
            len == json@.len() as u32,
        decreases json@.len() - i,
    {
        buf.push(json[i]);
        i += 1;
        assert(json@.subrange(0, i as int) == json@.subrange(0, i - 1).push(json@[i - 1]));
    }
    assert(json@.subrange(0, json@.len() as int) == json@);
    buf
}

/// Take the payload out of a length-prefixed frame.
///
/// `data` must start with the 4-byte length header; bytes after the
/// announced payload are ignored.
pub fn decode_length_prefixed(data: &[u8]) -> (payload: Result<&[u8], DecodeError>)
    ensures
        data@.len() < 4 ==> payload matches Err(DecodeError::InsufficientData),
        data@.len() >= 4 && !frame_complete(data@) ==> (payload matches Err(
            DecodeError::Truncated { expected, actual },
        ) && expected == header_value(data@) && actual == data@.len() - 4),
        frame_complete(data@) ==> (payload matches Ok(p) && p@ == frame_payload(data@)),
{
    let len = match read_message_length(data) {
        None => return Err(DecodeError::InsufficientData),
        Some(n) => n as usize,
    };
    let available = data.len() - 4;
    if available < len {
        return Err(DecodeError::Truncated { expected: len, actual: available });
    }
    Ok(&data[4..4 + len])
}

/// The header that `encode_length_prefixed` writes reads back as the value it encodes.
pub proof fn lemma_header_roundtrip(v: u32, rest: Seq<u8>)
    ensures
        header_value(be_u32_bytes(v) + rest) == v,
{
    let s = be_u32_bytes(v) + rest;
    assert(s[0] == (v / 0x100_0000) as u8);
    assert(s[1] == ((v / 0x1_0000) % 0x100) as u8);
    assert(s[2] == ((v / 0x100) % 0x100) as u8);
    assert(s[3] == (v % 0x100) as u8);
    assert(be_u32_value(
        (v / 0x100_0000) as u8,
        ((v / 0x1_0000) % 0x100) as u8,
        ((v / 0x100) % 0x100) as u8,
        (v % 0x100) as u8,
    ) == v) by (bit_vector);
}

/// Decoding gives back what encoding framed: for a payload of at most
/// `u32::MAX` bytes, the frame is complete whatever bytes follow it on the
/// stream, its header reads the payload length, its total size is that length
/// plus four, and its payload is the original one.
pub proof fn lemma_frame_roundtrip(payload: Seq<u8>, rest: Seq<u8>)
    requires
        payload.len() <= u32::MAX,
    ensures
        frame_of(payload).len() == 4 + payload.len(),
        header_value(frame_of(payload) + rest) == payload.len(),
        frame_complete(frame_of(payload) + rest),
        frame_payload(frame_of(payload) + rest) == payload,
{
    let f = frame_of(payload);
    assert(f + rest == be_u32_bytes(payload.len() as u32) + (payload + rest));
    lemma_header_roundtrip(payload.len() as u32, payload + rest);
    assert(frame_payload(f + rest) == payload);
}

} // verus!
