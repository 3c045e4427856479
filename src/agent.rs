//! The protocol client: the agent's token, its local snapshot of the game,
//! and the frames it has queued for the server.
//!
//! Commands are fire-and-forget: each operation queues the frame of its
//! command, and whoever owns the transport takes the queue and sends it.
//! Replies come back on the inbound stream, where each kind of message
//! replaces its part of the snapshot whole.
use vstd::prelude::*;
use crate::codec::{encode, frame_of, Command, PerformMessage, SchemaError};
use crate::model::{
    AvailableBuffs, BuffKind, EnvironmentInfo, GameStatistics, MoveDirection, Players, RequestType,
    SkillKind, TurnDirection,
};

verus! {

/// What the server can push: each replaces one part of the snapshot.
#[derive(Debug)]
pub enum InboundMessage {
    PlayersInfo(Players),
    GameStatistics(GameStatistics),
    EnvironmentInfo(EnvironmentInfo),
    AvailableBuffs(AvailableBuffs),
}

/// The kind of an inbound message, named by its `messageType`.
#[derive(Debug, Clone, Copy, PartialEq, Eq, Structural)]
pub enum InboundKind {
    PlayersInfo,
    GameStatistics,
    EnvironmentInfo,
    AvailableBuffs,
}

/// The kind an inbound `messageType` names: a reply carries the name of the
/// request it answers.
pub open spec fn inbound_kind_of(t: Seq<char>) -> Option<InboundKind> {
    if t == "GET_PLAYER_INFO"@ {
        Some(InboundKind::PlayersInfo)
    } else if t == "GET_GAME_STATISTICS"@ {
        Some(InboundKind::GameStatistics)
    } else if t == "GET_ENVIRONMENT_INFO"@ {
        Some(InboundKind::EnvironmentInfo)
    } else if t == "GET_AVAILABLE_BUFFS"@ {
        Some(InboundKind::AvailableBuffs)
    } else {
        None
    }
}

/// The kind of an inbound message from its `messageType`; an unknown one is
/// a schema error.
pub fn inbound_kind(message_type: &str) -> (r: Result<InboundKind, SchemaError>)
    ensures
        r == match inbound_kind_of(message_type@) {
            Some(k) => Ok::<InboundKind, SchemaError>(k),
            None => Err(SchemaError::UnknownMessageType),
        },
{
    let t = crate::text::chars_of(message_type);
    if crate::text::chars_eq(&t, "GET_PLAYER_INFO") {
        Ok(InboundKind::PlayersInfo)
    } else if crate::text::chars_eq(&t, "GET_GAME_STATISTICS") {
        Ok(InboundKind::GameStatistics)
    } else if crate::text::chars_eq(&t, "GET_ENVIRONMENT_INFO") {
        Ok(InboundKind::EnvironmentInfo)
    } else if crate::text::chars_eq(&t, "GET_AVAILABLE_BUFFS") {
        Ok(InboundKind::AvailableBuffs)
    } else {
        Err(SchemaError::UnknownMessageType)
    }
}

/// One event of the inbound stream: a frame, decoded or not, or its end.
#[derive(Debug)]
pub enum InboundEvent {
    Frame(Result<InboundMessage, SchemaError>),
    StreamEnd,
}

/// What became of an inbound event.
#[derive(Debug, Clone, Copy, PartialEq, Eq, Structural)]
pub enum InboundOutcome {
    /// The message replaced its part of the snapshot.
    Applied(InboundKind),
    /// The frame was not a message; the snapshot is unchanged. Report it
    /// and go on with the next frame.
    Rejected(SchemaError),
    /// The peer closed the stream: nothing more will come.
    Closed,
}

impl InboundOutcome {
    /// Whether the inbound loop goes on after this outcome.
    pub open spec fn continues(self) -> bool {
        !(self is Closed)
    }

    /// Whether the inbound loop goes on after this outcome: only the end of
    /// the stream stops it.
    pub fn keeps_reading(&self) -> (r: bool)
        ensures
            r == self.continues(),
    {
        match self {
            InboundOutcome::Closed => false,
            _ => true,
        }
    }
}

/// The command operations, one per outbound message kind. Each stamps the
/// agent's token.
pub trait ConnectionAPI {
    fn send_perform_turn(&mut self, direction: TurnDirection, angle: u32);

    fn send_perform_move(&mut self, direction: MoveDirection, distance: i64);

    fn send_perform_attack(&mut self);

    fn send_perform_skill(&mut self, skill_name: SkillKind);

    fn send_perform_select(&mut self, buff_name: BuffKind);

    /// Asks for both players: the opponent, then the agent itself.
    fn send_get_player_info(&mut self);

    fn send_get_environment_info(&mut self);

    fn send_get_game_statistics(&mut self);

    fn send_get_available_buffs(&mut self);
}

/// What a strategy sees and does: read-only views of the snapshot (`None`
/// until the server has sent that part) and the game actions.
pub trait PlayerOperate: ConnectionAPI {
    fn token(&self) -> &str;

    fn players_info(&self) -> Option<&Players>;

    fn game_statistics(&self) -> Option<&GameStatistics>;

    fn environment_info(&self) -> Option<&EnvironmentInfo>;

    fn available_buffs(&self) -> Option<&AvailableBuffs>;

    fn move_forward(&mut self, distance: i64);

    fn move_backward(&mut self, distance: i64);

    fn turn_clockwise(&mut self, angle: u32);

    fn turn_counter_clockwise(&mut self, angle: u32);

    fn attack(&mut self);

    fn use_skill(&mut self, skill: SkillKind);

    fn select_buff(&mut self, buff: BuffKind);
}

/// The agent: its token, the latest snapshot of each kind, and the frames
/// waiting to be sent.
#[derive(Debug)]
pub struct Agent {
    token: String,
    players_info: Option<Players>,
    game_statistics: Option<GameStatistics>,
    environment_info: Option<EnvironmentInfo>,
    available_buffs: Option<AvailableBuffs>,
    outbox: Vec<String>,
}

impl Agent {
    pub closed spec fn token_view(&self) -> Seq<char> {
        self.token@
    }

    pub closed spec fn players_view(&self) -> Option<Players> {
        self.players_info
    }

    pub closed spec fn statistics_view(&self) -> Option<GameStatistics> {
        self.game_statistics
    }

    pub closed spec fn environment_view(&self) -> Option<EnvironmentInfo> {
        self.environment_info
    }

    pub closed spec fn buffs_view(&self) -> Option<AvailableBuffs> {
        self.available_buffs
    }

    /// The frames queued for sending, oldest first.
    pub closed spec fn pending(&self) -> Seq<Seq<char>> {
        self.outbox@.map_values(|s: String| s@)
    }

    /// The snapshot of `self` and `other` is the same.
    pub open spec fn same_snapshot(&self, other: &Agent) -> bool {
        &&& self.players_view() == other.players_view()
        &&& self.statistics_view() == other.statistics_view()
        &&& self.environment_view() == other.environment_view()
        &&& self.buffs_view() == other.buffs_view()
    }

    /// `self` is `old` with `frames` queued after what it had queued.
    pub open spec fn queued(&self, old: &Agent, frames: Seq<Seq<char>>) -> bool {
        &&& self.same_snapshot(old)
        &&& self.token_view() == old.token_view()
        &&& self.pending() == old.pending() + frames
    }

    /// An agent that knows nothing yet and has nothing to send.
    pub fn new(token: String) -> (r: Agent)
        ensures
            r.token_view() == token@,
            r.players_view() is None,
            r.statistics_view() is None,
            r.environment_view() is None,
            r.buffs_view() is None,
            r.pending() == Seq::<Seq<char>>::empty(),
    {
        let r = Agent {
            token,
            players_info: None,
            game_statistics: None,
            environment_info: None,
            available_buffs: None,
            outbox: Vec::new(),
        };
        assert(r.pending() =~= Seq::<Seq<char>>::empty());
        r
    }

    fn queue(&mut self, msg: PerformMessage)
        ensures
            final(self).queued(old(self), seq![frame_of(msg@)]),
    {
        let frame = encode(&msg);
        self.outbox.push(frame);
        assert(self.pending() =~= old(self).pending() + seq![frame_of(msg@)]);
    }

    /// Hands over the queued frames, oldest first, and empties the queue.
    pub fn take_frames(&mut self) -> (r: Vec<String>)
        ensures
            r@.map_values(|s: String| s@) == old(self).pending(),
            final(self).same_snapshot(old(self)),
            final(self).token_view() == old(self).token_view(),
            final(self).pending() == Seq::<Seq<char>>::empty(),
    {
        let mut r: Vec<String> = Vec::new();
        std::mem::swap(&mut r, &mut self.outbox);
        assert(self.pending() =~= Seq::<Seq<char>>::empty());
        r
    }

    /// Replaces the part of the snapshot that `msg` carries, whole; the rest
    /// stays as it was.
    pub fn apply(&mut self, msg: InboundMessage)
        ensures
            final(self).token_view() == old(self).token_view(),
            final(self).pending() == old(self).pending(),
            applied(old(self), final(self), msg),
    {
        match msg {
            InboundMessage::PlayersInfo(p) => {
                self.players_info = Some(p);
            },
            InboundMessage::GameStatistics(g) => {
                self.game_statistics = Some(g);
            },
            InboundMessage::EnvironmentInfo(e) => {
                self.environment_info = Some(e);
            },
            InboundMessage::AvailableBuffs(b) => {
                self.available_buffs = Some(b);
            },
        }
    }

    /// Handles one event of the inbound stream. A message is applied; a
    /// frame that failed to decode leaves everything as it was and is handed
    /// back to be reported; the end of the stream is reported as such.
    pub fn on_inbound(&mut self, event: InboundEvent) -> (r: InboundOutcome)
        ensures
            final(self).token_view() == old(self).token_view(),
            final(self).pending() == old(self).pending(),
            match event {
                InboundEvent::Frame(Ok(m)) => r == InboundOutcome::Applied(kind_of(m))
                    && applied(old(self), final(self), m),
                InboundEvent::Frame(Err(e)) => r == InboundOutcome::Rejected(e)
                    && final(self).same_snapshot(old(self)),
                InboundEvent::StreamEnd => r == InboundOutcome::Closed && final(self).same_snapshot(
                    old(self),
                ),
            },
    {
        match event {
            InboundEvent::Frame(Ok(m)) => {
                let kind = match &m {
                    InboundMessage::PlayersInfo(_) => InboundKind::PlayersInfo,
                    InboundMessage::GameStatistics(_) => InboundKind::GameStatistics,
                    InboundMessage::EnvironmentInfo(_) => InboundKind::EnvironmentInfo,
                    InboundMessage::AvailableBuffs(_) => InboundKind::AvailableBuffs,
                };
                self.apply(m);
                InboundOutcome::Applied(kind)
            },
            InboundEvent::Frame(Err(e)) => InboundOutcome::Rejected(e),
            InboundEvent::StreamEnd => InboundOutcome::Closed,
        }
    }
}

/// The kind of an inbound message.
pub open spec fn kind_of(m: InboundMessage) -> InboundKind {
    match m {
        InboundMessage::PlayersInfo(_) => InboundKind::PlayersInfo,
        InboundMessage::GameStatistics(_) => InboundKind::GameStatistics,
        InboundMessage::EnvironmentInfo(_) => InboundKind::EnvironmentInfo,
        InboundMessage::AvailableBuffs(_) => InboundKind::AvailableBuffs,
    }
}

/// `after` is `before` with the part that `m` carries replaced by it.
pub open spec fn applied(before: &Agent, after: &Agent, m: InboundMessage) -> bool {
    match m {
        InboundMessage::PlayersInfo(p) => after.players_view() == Some(p)
            && after.statistics_view() == before.statistics_view()
            && after.environment_view() == before.environment_view()
            && after.buffs_view() == before.buffs_view(),
        InboundMessage::GameStatistics(g) => after.statistics_view() == Some(g)
            && after.players_view() == before.players_view()
            && after.environment_view() == before.environment_view()
            && after.buffs_view() == before.buffs_view(),
        InboundMessage::EnvironmentInfo(e) => after.environment_view() == Some(e)
            && after.players_view() == before.players_view()
            && after.statistics_view() == before.statistics_view()
            && after.buffs_view() == before.buffs_view(),
        InboundMessage::AvailableBuffs(b) => after.buffs_view() == Some(b)
            && after.players_view() == before.players_view()
            && after.statistics_view() == before.statistics_view()
            && after.environment_view() == before.environment_view(),
    }
}

impl ConnectionAPI for Agent {
    fn send_perform_turn(&mut self, direction: TurnDirection, angle: u32)
        ensures
            final(self).queued(old(self), seq![frame_of(Command::PerformTurn { token: old(self).token_view(), direction, angle })]),
    {
        let msg = PerformMessage::PerformTurn { token: self.token.clone(), direction, angle };
        self.queue(msg);
    }

    fn send_perform_move(&mut self, direction: MoveDirection, distance: i64)
        ensures
            final(self).queued(old(self), seq![frame_of(Command::PerformMove { token: old(self).token_view(), direction, distance })]),
    {
        let msg = PerformMessage::PerformMove { token: self.token.clone(), direction, distance };
        self.queue(msg);
    }

    fn send_perform_attack(&mut self)
        ensures
            final(self).queued(old(self), seq![frame_of(Command::PerformAttack { token: old(self).token_view() })]),
    {
        let msg = PerformMessage::PerformAttack { token: self.token.clone() };
        self.queue(msg);
    }

    fn send_perform_skill(&mut self, skill_name: SkillKind)
        ensures
            final(self).queued(old(self), seq![frame_of(Command::PerformSkill { token: old(self).token_view(), skill_name })]),
    {
        let msg = PerformMessage::PerformSkill { token: self.token.clone(), skill_name };
        self.queue(msg);
    }

    fn send_perform_select(&mut self, buff_name: BuffKind)
        ensures
            final(self).queued(old(self), seq![frame_of(Command::PerformSelect { token: old(self).token_view(), buff_name })]),
    {
        let msg = PerformMessage::PerformSelect { token: self.token.clone(), buff_name };
        self.queue(msg);
    }

    fn send_get_environment_info(&mut self)
        ensures
            final(self).queued(old(self), seq![frame_of(Command::GetEnvironmentInfo { token: old(self).token_view() })]),
    {
        let msg = PerformMessage::GetEnvironmentInfo { token: self.token.clone() };
        self.queue(msg);
    }

    fn send_get_game_statistics(&mut self)
        ensures
            final(self).queued(old(self), seq![frame_of(Command::GetGameStatistics { token: old(self).token_view() })]),
    {
        let msg = PerformMessage::GetGameStatistics { token: self.token.clone() };
        self.queue(msg);
    }

    fn send_get_available_buffs(&mut self)
        ensures
            final(self).queued(old(self), seq![frame_of(Command::GetAvailableBuffs { token: old(self).token_view() })]),
    {
        let msg = PerformMessage::GetAvailableBuffs { token: self.token.clone() };
        self.queue(msg);
    }

    fn send_get_player_info(&mut self)
        ensures
            final(self).queued(
                old(self),
                seq![
                    frame_of(Command::GetPlayerInfo { token: old(self).token_view(), request: RequestType::Opponent }),
                    frame_of(Command::GetPlayerInfo { token: old(self).token_view(), request: RequestType::TheSelf }),
                ],
            ),
    {
        let opponent = PerformMessage::GetPlayerInfo {
            token: self.token.clone(),
            request: RequestType::Opponent,
        };
        let own = PerformMessage::GetPlayerInfo { token: self.token.clone(), request: RequestType::TheSelf };
        let ghost start = *self;
        self.queue(opponent);
        self.queue(own);
        assert(self.pending() =~= start.pending() + seq![
            frame_of(Command::GetPlayerInfo { token: start.token_view(), request: RequestType::Opponent }),
            frame_of(Command::GetPlayerInfo { token: start.token_view(), request: RequestType::TheSelf }),
        ]);
    }
}

impl PlayerOperate for Agent {
    fn token(&self) -> (r: &str)
        ensures
            r@ == self.token_view(),
    {
        self.token.as_str()
    }

    fn players_info(&self) -> (r: Option<&Players>)
        ensures
            r is None <==> self.players_view() is None,
            r matches Some(v) ==> self.players_view() == Some(*v),
    {
        self.players_info.as_ref()
    }

    fn game_statistics(&self) -> (r: Option<&GameStatistics>)
        ensures
            r is None <==> self.statistics_view() is None,
            r matches Some(v) ==> self.statistics_view() == Some(*v),
    {
        self.game_statistics.as_ref()
    }

    fn environment_info(&self) -> (r: Option<&EnvironmentInfo>)
        ensures
            r is None <==> self.environment_view() is None,
            r matches Some(v) ==> self.environment_view() == Some(*v),
    {
        self.environment_info.as_ref()
    }

    fn available_buffs(&self) -> (r: Option<&AvailableBuffs>)
        ensures
            r is None <==> self.buffs_view() is None,
            r matches Some(v) ==> self.buffs_view() == Some(*v),
    {
        self.available_buffs.as_ref()
    }

    fn move_forward(&mut self, distance: i64)
        ensures
            final(self).queued(old(self), seq![frame_of(Command::PerformMove { token: old(self).token_view(), direction: MoveDirection::Forth, distance })]),
    {
        self.send_perform_move(MoveDirection::Forth, distance);
    }

    fn move_backward(&mut self, distance: i64)
        ensures
            final(self).queued(old(self), seq![frame_of(Command::PerformMove { token: old(self).token_view(), direction: MoveDirection::Back, distance })]),
    {
        self.send_perform_move(MoveDirection::Back, distance);
    }

    fn turn_clockwise(&mut self, angle: u32)
        ensures
            final(self).queued(old(self), seq![frame_of(Command::PerformTurn { token: old(self).token_view(), direction: TurnDirection::Clockwise, angle })]),
    {
        self.send_perform_turn(TurnDirection::Clockwise, angle);
    }

    fn turn_counter_clockwise(&mut self, angle: u32)
        ensures
            final(self).queued(old(self), seq![frame_of(Command::PerformTurn { token: old(self).token_view(), direction: TurnDirection::CounterClockwise, angle })]),
    {
        self.send_perform_turn(TurnDirection::CounterClockwise, angle);
    }

    fn attack(&mut self)
        ensures
            final(self).queued(old(self), seq![frame_of(Command::PerformAttack { token: old(self).token_view() })]),
    {
        self.send_perform_attack();
    }

    fn use_skill(&mut self, skill: SkillKind)
        ensures
            final(self).queued(old(self), seq![frame_of(Command::PerformSkill { token: old(self).token_view(), skill_name: skill })]),
    {
        self.send_perform_skill(skill);
    }

    fn select_buff(&mut self, buff: BuffKind)
        ensures
            final(self).queued(old(self), seq![frame_of(Command::PerformSelect { token: old(self).token_view(), buff_name: buff })]),
    {
        self.send_perform_select(buff);
    }
}

} // verus!
