//! One chat endpoint: its identity, channels, policies and outbound targets, and
//! the decisions it takes on platform events and on messages from its peers.
use vstd::prelude::*;

use crate::config::{flag_or_off, flag_value, ClientConfig, DiscordConfig, TwitchConfig};
use crate::errors::FitterErrorKind;
use crate::message::{rendered, Message, MessageModel};

verus! {

/// A channel of a platform, as the platform names it.
#[derive(Debug)]
pub enum ChannelKey {
    /// A channel known by a numeric id (Discord).
    Id(u64),
    /// A channel known by its name (Twitch).
    Name(String),
}

/// What a channel key denotes.
pub ghost enum ChannelModel {
    Id(u64),
    Name(Seq<char>),
}

impl View for ChannelKey {
    type V = ChannelModel;

    open spec fn view(&self) -> ChannelModel {
        match self {
            ChannelKey::Id(n) => ChannelModel::Id(*n),
            ChannelKey::Name(s) => ChannelModel::Name(s@),
        }
    }
}

impl ChannelKey {
    /// Whether two keys denote the same channel.
    pub fn same_as(&self, other: &ChannelKey) -> (r: bool)
        ensures
            r == (self@ == other@),
    {
        let r = match self {
            ChannelKey::Id(a) => match other {
                ChannelKey::Id(b) => *a == *b,
                ChannelKey::Name(_) => false,
            },
            ChannelKey::Name(a) => match other {
                ChannelKey::Id(_) => false,
                ChannelKey::Name(b) => *a == *b,
            },
        };
        assert(r == (self@ == other@));
        r
    }

    /// A copy of the key.
    pub fn duplicate(&self) -> (r: ChannelKey)
        ensures
            r@ == self@,
    {
        match self {
            ChannelKey::Id(n) => ChannelKey::Id(*n),
            ChannelKey::Name(s) => ChannelKey::Name(s.clone()),
        }
    }
}

/// A handle onto the inbound queue of an endpoint, known by the endpoint's id.
#[derive(Debug)]
pub struct InboundHandle {
    peer: String,
}

impl View for InboundHandle {
    type V = Seq<char>;

    closed spec fn view(&self) -> Seq<char> {
        self.peer@
    }
}

impl InboundHandle {
    /// The id of the endpoint whose inbound queue the handle reaches.
    pub fn peer(&self) -> (r: &str)
        ensures
            r@ == self@,
    {
        self.peer.as_str()
    }

    /// A copy of the handle.
    pub fn duplicate(&self) -> (r: InboundHandle)
        ensures
            r@ == self@,
    {
        InboundHandle { peer: self.peer.clone() }
    }
}

/// A chat message as a platform delivered it to an endpoint.
#[derive(Debug)]
pub struct NativeEvent {
    /// The channel it was posted on.
    pub channel: ChannelKey,
    /// The channel's human-readable name.
    pub channel_label: String,
    /// The sender's login.
    pub sender_login: String,
    /// The sender's numeric account id, where the platform has one (else 0).
    pub sender_account: u64,
    /// The sender's display name.
    pub author_name: String,
    /// The text.
    pub content: String,
}

/// One thing an endpoint is to do.
#[derive(Debug)]
pub enum Action {
    /// Post the text on one of the endpoint's own channels.
    Post { channel: ChannelKey, text: String },
    /// Offer the message to a peer's inbound queue.
    Forward { target: InboundHandle, message: Message },
}

/// What an action denotes.
pub ghost enum ActionModel {
    Post { channel: ChannelModel, text: Seq<char> },
    Forward { target: Seq<char>, message: MessageModel },
}

impl View for Action {
    type V = ActionModel;

    open spec fn view(&self) -> ActionModel {
        match self {
            Action::Post { channel, text } => ActionModel::Post { channel: channel@, text: text@ },
            Action::Forward { target, message } => ActionModel::Forward {
                target: target@,
                message: message@,
            },
        }
    }
}

/// The models of a sequence of actions.
pub open spec fn actions_view(s: Seq<Action>) -> Seq<ActionModel> {
    s.map_values(|a: Action| a@)
}

/// The models of a sequence of channel keys.
pub open spec fn channels_view(s: Seq<ChannelKey>) -> Seq<ChannelModel> {
    s.map_values(|c: ChannelKey| c@)
}

/// The peer ids of a sequence of handles.
pub open spec fn handles_view(s: Seq<InboundHandle>) -> Seq<Seq<char>> {
    s.map_values(|h: InboundHandle| h@)
}

/// Posts of `text` on every channel of `chs` but `from`, in order.
pub open spec fn reposts(chs: Seq<ChannelModel>, from: ChannelModel, text: Seq<char>) -> Seq<
    ActionModel,
>
    decreases chs.len(),
{
    if chs.len() == 0 {
        Seq::empty()
    } else {
        reposts(chs.drop_last(), from, text) + if chs.last() == from {
            Seq::<ActionModel>::empty()
        } else {
            seq![ActionModel::Post { channel: chs.last(), text }]
        }
    }
}

/// Posts of `text` on every channel of `chs`, in order.
pub open spec fn posts(chs: Seq<ChannelModel>, text: Seq<char>) -> Seq<ActionModel> {
    chs.map_values(|c: ChannelModel| ActionModel::Post { channel: c, text })
}

/// Forwards of `m` to every target of `targets`, in order.
pub open spec fn forwards(targets: Seq<Seq<char>>, m: MessageModel) -> Seq<ActionModel> {
    targets.map_values(|t: Seq<char>| ActionModel::Forward { target: t, message: m })
}

/// Which of its own messages an endpoint recognises.
#[derive(Debug)]
pub enum Identity {
    /// The bot's own account is not known yet: no message is taken for its own.
    Pending,
    /// Every message sent by this account.
    Account(u64),
    /// Every message sent under this login.
    Login(String),
}

/// Whether an event was sent under the identity.
pub open spec fn sent_by(identity: Identity, ev: NativeEvent) -> bool {
    match identity {
        Identity::Pending => false,
        Identity::Account(n) => ev.sender_account == n,
        Identity::Login(name) => ev.sender_login@ == name@,
    }
}

/// A Discord endpoint's own settings.
#[derive(Debug)]
pub struct Discord {
    token: String,
}

impl Discord {
    /// Builds an endpoint that relays the configured Discord channels.
    pub fn from_config(id: String, config: DiscordConfig) -> (r: Result<Client, FitterErrorKind>)
        ensures
            r matches Ok(c) && c.kind_name() == discord_name() && c.spec_id() == id@
                && c.spec_channels() == config.channel_ids@.map_values(
                |n: u64| ChannelModel::Id(n),
            ) && c.spec_outbound().len() == 0 && c.spec_isolate() == flag_or_off(
                config.isolate_channels,
            ) && c.spec_forward_only() == flag_or_off(config.forward_only) && !c.spec_running()
                && c.spec_identity() == Identity::Pending && c.spec_token() == config.token@,
    {
        let mut channels: Vec<ChannelKey> = Vec::new();
        let mut i: usize = 0;
        while i < config.channel_ids.len()
            invariant
                i <= config.channel_ids@.len(),
                channels_view(channels@) == config.channel_ids@.take(i as int).map_values(
                    |n: u64| ChannelModel::Id(n),
                ),
            decreases config.channel_ids@.len() - i,
        {
            let ghost before = channels@;
            channels.push(ChannelKey::Id(config.channel_ids[i]));
            assert(channels_view(channels@) =~= channels_view(before).push(channels@.last()@));
            proof {
                assert(config.channel_ids@.take(i + 1) =~= config.channel_ids@.take(
                    i as int,
                ).push(config.channel_ids@[i as int]));
            }
            i = i + 1;
            assert(channels_view(channels@) =~= config.channel_ids@.take(i as int).map_values(
                |n: u64| ChannelModel::Id(n),
            ));
        }
        assert(config.channel_ids@.take(i as int) =~= config.channel_ids@);
        let isolate_channels = flag_value(config.isolate_channels);
        let forward_only = flag_value(config.forward_only);
        Ok(
            Client {
                id,
                platform: Platform::Discord(Discord { token: config.token }),
                identity: Identity::Pending,
                channels,
                outbound: Vec::new(),
                isolate_channels,
                forward_only,
                state: EndpointState::Wired,
            },
        )
    }
}

/// A Twitch endpoint's own settings.
#[derive(Debug)]
pub struct Twitch {
    token: String,
    name: String,
}

impl Twitch {
    /// Builds an endpoint that relays the configured Twitch channels under the
    /// configured login.
    pub fn from_config(id: String, config: TwitchConfig) -> (r: Result<Client, FitterErrorKind>)
        ensures
            r matches Ok(c) && c.kind_name() == twitch_name() && c.spec_id() == id@
                && c.spec_channels() == config.channels@.map_values(
                |s: String| ChannelModel::Name(s@),
            ) && c.spec_outbound().len() == 0 && c.spec_isolate() == flag_or_off(
                config.isolate_channels,
            ) && c.spec_forward_only() == flag_or_off(config.forward_only) && !c.spec_running()
                && (c.spec_identity() matches Identity::Login(n) && n@ == config.name@)
                && c.spec_token() == config.token@ && c.spec_login() == config.name@,
    {
        let mut channels: Vec<ChannelKey> = Vec::new();
        let mut i: usize = 0;
        while i < config.channels.len()
            invariant
                i <= config.channels@.len(),
                channels_view(channels@) == config.channels@.take(i as int).map_values(
                    |s: String| ChannelModel::Name(s@),
                ),
            decreases config.channels@.len() - i,
        {
            let ghost before = channels@;
            channels.push(ChannelKey::Name(config.channels[i].clone()));
            assert(channels_view(channels@) =~= channels_view(before).push(channels@.last()@));
            proof {
                assert(config.channels@.take(i + 1) =~= config.channels@.take(i as int).push(
                    config.channels@[i as int],
                ));
            }
            i = i + 1;
            assert(channels_view(channels@) =~= config.channels@.take(i as int).map_values(
                |s: String| ChannelModel::Name(s@),
            ));
        }
        assert(config.channels@.take(i as int) =~= config.channels@);
        let isolate_channels = flag_value(config.isolate_channels);
        let forward_only = flag_value(config.forward_only);
        let login = config.name.clone();
        Ok(
            Client {
                id,
                platform: Platform::Twitch(Twitch { token: config.token, name: config.name }),
                identity: Identity::Login(login),
                channels,
                outbound: Vec::new(),
                isolate_channels,
                forward_only,
                state: EndpointState::Wired,
            },
        )
    }
}

/// The platform an endpoint speaks to, with its own settings.
#[derive(Debug)]
pub enum Platform {
    Discord(Discord),
    Twitch(Twitch),
}

/// The text of the error for a capability used once the endpoint has been
/// handed to its task.
pub open spec fn no_handler() -> Seq<char> {
    "No handler"@
}

/// The name of the Discord endpoint kind.
pub open spec fn discord_name() -> Seq<char> {
    "Discord"@
}

/// The name of the Twitch endpoint kind.
pub open spec fn twitch_name() -> Seq<char> {
    "Twitch"@
}

/// Where an endpoint stands in its life: built and wired, handed to its task,
/// then ended cleanly or by an unrecoverable error. No endpoint runs twice.
#[derive(Debug, Clone, Copy, PartialEq, Eq, Structural)]
pub enum EndpointState {
    Wired,
    Running,
    Stopped,
    Failed,
}

/// A chat endpoint of the relay.
#[derive(Debug)]
pub struct Client {
    id: String,
    platform: Platform,
    identity: Identity,
    channels: Vec<ChannelKey>,
    outbound: Vec<InboundHandle>,
    isolate_channels: bool,
    forward_only: bool,
    state: EndpointState,
}

/// Whether an endpoint carries the id, kind, channels and policies that a
/// configuration entry gives it.
pub open spec fn built_from(c: Client, id: Seq<char>, config: ClientConfig) -> bool {
    &&& c.spec_id() == id
    &&& match config {
        ClientConfig::DiscordConfig(d) => {
            &&& c.kind_name() == discord_name()
            &&& c.spec_identity() == Identity::Pending
            &&& c.spec_token() == d.token@
            &&& c.spec_channels() == d.channel_ids@.map_values(|n: u64| ChannelModel::Id(n))
            &&& c.spec_isolate() == flag_or_off(d.isolate_channels)
            &&& c.spec_forward_only() == flag_or_off(d.forward_only)
        },
        ClientConfig::TwitchConfig(t) => {
            &&& c.kind_name() == twitch_name()
            &&& c.spec_identity() matches Identity::Login(n) && n@ == t.name@
            &&& c.spec_token() == t.token@
            &&& c.spec_login() == t.name@
            &&& c.spec_channels() == t.channels@.map_values(|s: String| ChannelModel::Name(s@))
            &&& c.spec_isolate() == flag_or_off(t.isolate_channels)
            &&& c.spec_forward_only() == flag_or_off(t.forward_only)
        },
    }
}

impl ClientConfig {
    /// Builds the endpoint that a configuration entry describes, under the given id,
    /// with no outbound target yet.
    pub fn from_config(id: String, config: ClientConfig) -> (r: Result<Client, FitterErrorKind>)
        ensures
            r matches Ok(c) && built_from(c, id@, config) && c.spec_outbound().len() == 0
                && !c.spec_running(),
    {
        match config {
            ClientConfig::DiscordConfig(cfg) => Discord::from_config(id, cfg),
            ClientConfig::TwitchConfig(cfg) => Twitch::from_config(id, cfg),
        }
    }
}

/// The actions an endpoint takes on a platform event: none for its own messages
/// or a channel it does not relay; else, unless it isolates its channels, the
/// rendered message on each of its other channels, then the message to each of
/// its outbound targets in order.
pub open spec fn ingress(
    kind: Seq<char>,
    identity: Identity,
    channels: Seq<ChannelModel>,
    outbound: Seq<Seq<char>>,
    isolate: bool,
    ev: NativeEvent,
) -> Seq<ActionModel> {
    if sent_by(identity, ev) || !channels.contains(ev.channel@) {
        Seq::empty()
    } else {
        let m = event_message(kind, ev);
        (if isolate {
            Seq::<ActionModel>::empty()
        } else {
            reposts(channels, ev.channel@, rendered(m))
        }) + forwards(outbound, m)
    }
}

/// The message that an endpoint of the given kind makes of a platform event.
pub open spec fn event_message(kind: Seq<char>, ev: NativeEvent) -> MessageModel {
    MessageModel {
        client: kind,
        channel: ev.channel_label@,
        author: ev.author_name@,
        content: ev.content@,
    }
}

/// The actions an endpoint takes on a message from a peer: none where it only
/// forwards; else the rendered message on each of its channels.
pub open spec fn egress(channels: Seq<ChannelModel>, forward_only: bool, m: MessageModel) -> Seq<
    ActionModel,
> {
    if forward_only {
        Seq::empty()
    } else {
        posts(channels, rendered(m))
    }
}

impl Client {
    /// The endpoint's id.
    pub closed spec fn spec_id(&self) -> Seq<char> {
        self.id@
    }

    /// The name of the endpoint's kind.
    pub closed spec fn kind_name(&self) -> Seq<char> {
        match self.platform {
            Platform::Discord(_) => discord_name(),
            Platform::Twitch(_) => twitch_name(),
        }
    }

    /// The endpoint's bot token.
    pub closed spec fn spec_token(&self) -> Seq<char> {
        match self.platform {
            Platform::Discord(d) => d.token@,
            Platform::Twitch(t) => t.token@,
        }
    }

    /// The endpoint's login, where its platform has one.
    pub closed spec fn spec_login(&self) -> Seq<char> {
        match self.platform {
            Platform::Discord(_) => Seq::empty(),
            Platform::Twitch(t) => t.name@,
        }
    }

    /// Which messages the endpoint takes for its own.
    pub closed spec fn spec_identity(&self) -> Identity {
        self.identity
    }

    /// The channels the endpoint relays.
    pub closed spec fn spec_channels(&self) -> Seq<ChannelModel> {
        channels_view(self.channels@)
    }

    /// The ids of the peers the endpoint forwards to, in order.
    pub closed spec fn spec_outbound(&self) -> Seq<Seq<char>> {
        handles_view(self.outbound@)
    }

    /// Whether the endpoint keeps from relaying between its own channels.
    pub closed spec fn spec_isolate(&self) -> bool {
        self.isolate_channels
    }

    /// Whether the endpoint never posts what its peers send.
    pub closed spec fn spec_forward_only(&self) -> bool {
        self.forward_only
    }

    /// Whether the endpoint has been handed to its task.
    pub open spec fn spec_running(&self) -> bool {
        !(self.spec_state() is Wired)
    }

    /// Where the endpoint stands in its life.
    pub closed spec fn spec_state(&self) -> EndpointState {
        self.state
    }

    /// The name of the endpoint's kind (not its id).
    pub fn get_name(&self) -> (r: &str)
        ensures
            r@ == self.kind_name(),
    {
        match &self.platform {
            Platform::Discord(_) => "Discord",
            Platform::Twitch(_) => "Twitch",
        }
    }

    /// The endpoint's unique id.
    pub fn get_id(&self) -> (r: &str)
        ensures
            r@ == self.spec_id(),
    {
        self.id.as_str()
    }

    /// The endpoint's bot token.
    pub fn token(&self) -> (r: &str)
        ensures
            r@ == self.spec_token(),
    {
        match &self.platform {
            Platform::Discord(d) => d.token.as_str(),
            Platform::Twitch(t) => t.token.as_str(),
        }
    }

    /// The endpoint's login; empty where its platform has none.
    pub fn login(&self) -> (r: String)
        ensures
            r@ == self.spec_login(),
    {
        match &self.platform {
            Platform::Discord(_) => String::new(),
            Platform::Twitch(t) => t.name.clone(),
        }
    }

    /// The channels the endpoint relays.
    pub fn channels(&self) -> (r: &Vec<ChannelKey>)
        ensures
            channels_view(r@) == self.spec_channels(),
    {
        &self.channels
    }

    /// The peers' inbound handles the endpoint forwards to, in order.
    pub fn outbound(&self) -> (r: &Vec<InboundHandle>)
        ensures
            handles_view(r@) == self.spec_outbound(),
    {
        &self.outbound
    }

    /// Whether the endpoint keeps from relaying between its own channels.
    pub fn isolate_channels(&self) -> (r: bool)
        ensures
            r == self.spec_isolate(),
    {
        self.isolate_channels
    }

    /// Whether the endpoint never posts what its peers send.
    pub fn forward_only(&self) -> (r: bool)
        ensures
            r == self.spec_forward_only(),
    {
        self.forward_only
    }

    /// Whether the endpoint has been handed to its task.
    pub fn is_running(&self) -> (r: bool)
        ensures
            r == self.spec_running(),
    {
        !matches!(self.state, EndpointState::Wired)
    }

    /// Where the endpoint stands in its life.
    pub fn state(&self) -> (r: EndpointState)
        ensures
            r == self.spec_state(),
    {
        self.state
    }

    /// A handle that peers use to push messages into this endpoint; refused once
    /// the endpoint has been handed to its task.
    pub fn get_stream(&self) -> (r: Result<InboundHandle, FitterErrorKind>)
        ensures
            match r {
                Ok(h) => !self.spec_running() && h@ == self.spec_id(),
                Err(e) => self.spec_running() && (e matches FitterErrorKind::GenericErr(t)
                    && t@ == no_handler()),
            },
    {
        if self.is_running() {
            Err(FitterErrorKind::GenericErr(String::from_str("No handler")))
        } else {
            Ok(InboundHandle { peer: self.id.clone() })
        }
    }

    /// Appends a peer's inbound handle to the outbound targets; refused once the
    /// endpoint has been handed to its task. No duplicate is looked for.
    pub fn add_stream(&mut self, stream: InboundHandle) -> (r: Result<(), FitterErrorKind>)
        ensures
            final(self).spec_id() == old(self).spec_id(),
            final(self).kind_name() == old(self).kind_name(),
            final(self).spec_identity() == old(self).spec_identity(),
            final(self).spec_channels() == old(self).spec_channels(),
            final(self).spec_isolate() == old(self).spec_isolate(),
            final(self).spec_forward_only() == old(self).spec_forward_only(),
            final(self).spec_state() == old(self).spec_state(),
            final(self).spec_token() == old(self).spec_token(),
            final(self).spec_login() == old(self).spec_login(),
            match r {
                Ok(_) => !old(self).spec_running() && final(self).spec_outbound()
                    == old(self).spec_outbound().push(stream@),
                Err(e) => old(self).spec_running() && final(self).spec_outbound()
                    == old(self).spec_outbound() && (e matches FitterErrorKind::InternalErr(t)
                    && t@ == no_handler()),
            },
    {
        if self.is_running() {
            return Err(FitterErrorKind::InternalErr(String::from_str("No handler")));
        }
        self.outbound.push(stream);
        assert(handles_view(self.outbound@) =~= handles_view(old(self).outbound@).push(
            stream@,
        ));
        Ok(())
    }

    /// Marks the endpoint as handed to its task; an endpoint runs at most once.
    pub fn begin_run(&mut self) -> (r: Result<(), FitterErrorKind>)
        ensures
            final(self).spec_id() == old(self).spec_id(),
            final(self).kind_name() == old(self).kind_name(),
            final(self).spec_identity() == old(self).spec_identity(),
            final(self).spec_channels() == old(self).spec_channels(),
            final(self).spec_outbound() == old(self).spec_outbound(),
            final(self).spec_isolate() == old(self).spec_isolate(),
            final(self).spec_forward_only() == old(self).spec_forward_only(),
            final(self).spec_token() == old(self).spec_token(),
            final(self).spec_login() == old(self).spec_login(),
            r is Ok <==> !old(self).spec_running(),
            r is Ok ==> final(self).spec_state() == EndpointState::Running
                && final(self).spec_running(),
            r matches Err(e) ==> e is InternalErr && final(self).spec_state() == old(
                self,
            ).spec_state(),
    {
        if self.is_running() {
            return Err(FitterErrorKind::InternalErr(String::from_str("Already running")));
        }
        self.state = EndpointState::Running;
        Ok(())
    }

    /// Tells a Discord endpoint which account is its own, once the platform has
    /// said so; from then on that account's messages are not relayed. Refused for
    /// an endpoint of another kind, which is left as it was.
    pub fn learn_account(&mut self, account: u64) -> (r: Result<(), FitterErrorKind>)
        ensures
            final(self).spec_id() == old(self).spec_id(),
            final(self).kind_name() == old(self).kind_name(),
            final(self).spec_channels() == old(self).spec_channels(),
            final(self).spec_outbound() == old(self).spec_outbound(),
            final(self).spec_isolate() == old(self).spec_isolate(),
            final(self).spec_forward_only() == old(self).spec_forward_only(),
            final(self).spec_token() == old(self).spec_token(),
            final(self).spec_login() == old(self).spec_login(),
            final(self).spec_state() == old(self).spec_state(),
            r is Ok <==> old(self).kind_name() == discord_name(),
            r is Ok ==> final(self).spec_identity() == Identity::Account(account),
            r matches Err(e) ==> e is InternalErr && final(self).spec_identity() == old(
                self,
            ).spec_identity(),
    {
        match &self.platform {
            Platform::Discord(_) => {
                self.identity = Identity::Account(account);
                Ok(())
            },
            Platform::Twitch(_) => {
                proof {
                    reveal_strlit("Discord");
                    reveal_strlit("Twitch");
                    assert(twitch_name().len() != discord_name().len());
                }
                Err(FitterErrorKind::InternalErr(String::from_str("Not a Discord endpoint")))
            },
        }
    }

    /// Records how the endpoint's task ended: cleanly, or by an unrecoverable
    /// error. Refused unless the endpoint is running; it never runs again.
    pub fn end_run(&mut self, failed: bool) -> (r: Result<(), FitterErrorKind>)
        ensures
            final(self).spec_id() == old(self).spec_id(),
            final(self).kind_name() == old(self).kind_name(),
            final(self).spec_identity() == old(self).spec_identity(),
            final(self).spec_channels() == old(self).spec_channels(),
            final(self).spec_outbound() == old(self).spec_outbound(),
            final(self).spec_isolate() == old(self).spec_isolate(),
            final(self).spec_forward_only() == old(self).spec_forward_only(),
            final(self).spec_token() == old(self).spec_token(),
            final(self).spec_login() == old(self).spec_login(),
            r is Ok <==> old(self).spec_state() == EndpointState::Running,
            r is Ok ==> final(self).spec_state() == if failed {
                EndpointState::Failed
            } else {
                EndpointState::Stopped
            },
            r matches Err(e) ==> e is InternalErr && final(self).spec_state() == old(
                self,
            ).spec_state(),
    {
        match self.state {
            EndpointState::Running => {
                self.state = if failed {
                    EndpointState::Failed
                } else {
                    EndpointState::Stopped
                };
                Ok(())
            },
            _ => Err(FitterErrorKind::InternalErr(String::from_str("Not running"))),
        }
    }

    /// Whether the event was sent under the endpoint's own identity.
    fn is_own(&self, ev: &NativeEvent) -> (r: bool)
        ensures
            r == sent_by(self.identity, *ev),
    {
        match &self.identity {
            Identity::Pending => false,
            Identity::Account(n) => ev.sender_account == *n,
            Identity::Login(name) => ev.sender_login == *name,
        }
    }

    /// Whether the endpoint relays the channel.
    fn relays(&self, ch: &ChannelKey) -> (r: bool)
        ensures
            r == self.spec_channels().contains(ch@),
    {
        let mut i: usize = 0;
        while i < self.channels.len()
            invariant
                i <= self.channels@.len(),
                forall|k: int| 0 <= k < i ==> self.spec_channels()[k] != ch@,
            decreases self.channels@.len() - i,
        {
            if self.channels[i].same_as(ch) {
                assert(self.spec_channels()[i as int] == ch@);
                return true;
            }
            i = i + 1;
        }
        false
    }

    /// The actions to take on a platform event (ingress duty): nothing for the
    /// endpoint's own messages or for a channel it does not relay; else the
    /// rendered message on its other channels unless it isolates them, then the
    /// message to every outbound target, in order.
    pub fn on_event(&self, ev: &NativeEvent) -> (r: Vec<Action>)
        ensures
            actions_view(r@) == ingress(
                self.kind_name(),
                self.spec_identity(),
                self.spec_channels(),
                self.spec_outbound(),
                self.spec_isolate(),
                *ev,
            ),
    {
        let mut out: Vec<Action> = Vec::new();
        if self.is_own(ev) || !self.relays(&ev.channel) {
            assert(actions_view(out@) =~= Seq::<ActionModel>::empty());
            return out;
        }
        let kind = String::from_str(self.get_name());
        let msg = Message::new(
            kind,
            ev.channel_label.clone(),
            ev.author_name.clone(),
            ev.content.clone(),
        );
        let ghost m = event_message(self.kind_name(), *ev);
        assert(msg@ == m);
        if !self.isolate_channels {
            let text = msg.render();
            let ghost chs = self.spec_channels();
            let mut i: usize = 0;
            while i < self.channels.len()
                invariant
                    i <= self.channels@.len(),
                    chs == self.spec_channels(),
                    text@ == rendered(m),
                    actions_view(out@) == reposts(chs.take(i as int), ev.channel@, rendered(m)),
                decreases self.channels@.len() - i,
            {
                let ghost before = out@;
                assert(chs.take(i + 1).drop_last() =~= chs.take(i as int));
                if !self.channels[i].same_as(&ev.channel) {
                    out.push(Action::Post { channel: self.channels[i].duplicate(), text: text.clone() });
                    assert(actions_view(out@) =~= actions_view(before).push(out@.last()@));
                } else {
                    assert(out@ == before);
                }
                i = i + 1;
                assert(actions_view(out@) =~= reposts(chs.take(i as int), ev.channel@, rendered(m)));
            }
            assert(chs.take(i as int) =~= chs);
        }
        let ghost start = actions_view(out@);
        let ghost targets = self.spec_outbound();
        let mut j: usize = 0;
        while j < self.outbound.len()
            invariant
                j <= self.outbound@.len(),
                targets == self.spec_outbound(),
                msg@ == m,
                actions_view(out@) == start + forwards(targets.take(j as int), m),
            decreases self.outbound@.len() - j,
        {
            let ghost before = out@;
            out.push(Action::Forward { target: self.outbound[j].duplicate(), message: msg.duplicate() });
            assert(actions_view(out@) =~= actions_view(before).push(out@.last()@));
            assert(targets.take(j + 1) =~= targets.take(j as int).push(targets[j as int]));
            assert(forwards(targets.take(j + 1), m) =~= forwards(targets.take(j as int), m).push(
                ActionModel::Forward { target: targets[j as int], message: m },
            ));
            j = j + 1;
            assert(actions_view(out@) =~= start + forwards(targets.take(j as int), m));
        }
        assert(targets.take(j as int) =~= targets);
        out
    }

    /// The actions to take on a message from a peer (egress duty): nothing where
    /// the endpoint only forwards; else the rendered message on each of its
    /// channels.
    pub fn on_inbound(&self, msg: &Message) -> (r: Vec<Action>)
        ensures
            actions_view(r@) == egress(self.spec_channels(), self.spec_forward_only(), msg@),
    {
        let mut out: Vec<Action> = Vec::new();
        if self.forward_only {
            assert(actions_view(out@) =~= Seq::<ActionModel>::empty());
            return out;
        }
        let text = msg.render();
        let ghost chs = self.spec_channels();
        let mut i: usize = 0;
        while i < self.channels.len()
            invariant
                i <= self.channels@.len(),
                chs == self.spec_channels(),
                text@ == rendered(msg@),
                actions_view(out@) == posts(chs.take(i as int), rendered(msg@)),
            decreases self.channels@.len() - i,
        {
            let ghost before = out@;
            out.push(Action::Post { channel: self.channels[i].duplicate(), text: text.clone() });
            assert(actions_view(out@) =~= actions_view(before).push(out@.last()@));
            assert(chs.take(i + 1) =~= chs.take(i as int).push(chs[i as int]));
            assert(posts(chs.take(i + 1), rendered(msg@)) =~= posts(chs.take(i as int), rendered(msg@)).push(
                ActionModel::Post { channel: chs[i as int], text: rendered(msg@) },
            ));
            i = i + 1;
            assert(actions_view(out@) =~= posts(chs.take(i as int), rendered(msg@)));
        }
        assert(chs.take(i as int) =~= chs);
        out
    }
}

/// Loop prevention: an event sent under the endpoint's own identity yields no
/// message and no action.
pub proof fn lemma_own_messages_dropped(
    kind: Seq<char>,
    identity: Identity,
    channels: Seq<ChannelModel>,
    outbound: Seq<Seq<char>>,
    isolate: bool,
    ev: NativeEvent,
)
    requires
        sent_by(identity, ev),
    ensures
        ingress(kind, identity, channels, outbound, isolate, ev).len() == 0,
{
}

/// Channel filtering: an event from a channel the endpoint does not relay yields
/// no message and no action.
pub proof fn lemma_foreign_channel_dropped(
    kind: Seq<char>,
    identity: Identity,
    channels: Seq<ChannelModel>,
    outbound: Seq<Seq<char>>,
    isolate: bool,
    ev: NativeEvent,
)
    requires
        !channels.contains(ev.channel@),
    ensures
        ingress(kind, identity, channels, outbound, isolate, ev).len() == 0,
{
}

/// The action that offers `m` to the peer with id `t`.
pub open spec fn forward_of(t: Seq<char>, m: MessageModel) -> ActionModel {
    ActionModel::Forward { target: t, message: m }
}

/// Whether an action posts `text` on one of `chs` other than `from`.
pub open spec fn posts_elsewhere(
    a: ActionModel,
    chs: Seq<ChannelModel>,
    from: ChannelModel,
    text: Seq<char>,
) -> bool {
    match a {
        ActionModel::Post { channel, text: t } => channel != from && t == text && chs.contains(
            channel,
        ),
        ActionModel::Forward { .. } => false,
    }
}

/// Isolated channels: an endpoint that isolates its channels posts nothing on its
/// own platform for an event, and still forwards the message to every outbound
/// target, in order.
pub proof fn lemma_isolated_channels(
    kind: Seq<char>,
    identity: Identity,
    channels: Seq<ChannelModel>,
    outbound: Seq<Seq<char>>,
    ev: NativeEvent,
)
    requires
        !sent_by(identity, ev),
        channels.contains(ev.channel@),
    ensures
        ingress(kind, identity, channels, outbound, true, ev).len() == outbound.len(),
        forall|k: int|
            0 <= k < outbound.len() ==> (#[trigger] ingress(
                kind,
                identity,
                channels,
                outbound,
                true,
                ev,
            )[k]) == forward_of(outbound[k], event_message(kind, ev)),
{
    assert(Seq::<ActionModel>::empty() + forwards(outbound, event_message(kind, ev)) =~= forwards(
        outbound,
        event_message(kind, ev),
    ));
}

/// Every action of `reposts` posts on one of `chs` other than `from`.
proof fn lemma_reposts_elsewhere(chs: Seq<ChannelModel>, from: ChannelModel, text: Seq<char>)
    ensures
        forall|k: int|
            0 <= k < reposts(chs, from, text).len() ==> posts_elsewhere(
                #[trigger] reposts(chs, from, text)[k],
                chs,
                from,
                text,
            ),
    decreases chs.len(),
{
    if chs.len() > 0 {
        let prev = reposts(chs.drop_last(), from, text);
        lemma_reposts_elsewhere(chs.drop_last(), from, text);
        assert forall|k: int| 0 <= k < reposts(chs, from, text).len() implies posts_elsewhere(
            #[trigger] reposts(chs, from, text)[k],
            chs,
            from,
            text,
        ) by {
            if k < prev.len() {
                assert(reposts(chs, from, text)[k] == prev[k]);
                assert(posts_elsewhere(prev[k], chs.drop_last(), from, text));
                if let ActionModel::Post { channel, text: _ } = prev[k] {
                    let p = choose|p: int|
                        0 <= p < chs.drop_last().len() && chs.drop_last()[p] == channel;
                    assert(chs[p] == channel);
                }
            } else {
                assert(chs[chs.len() - 1] == chs.last());
            }
        }
    }
}

/// Relay among the endpoint's own channels: an accepted event is posted, rendered,
/// on the endpoint's other channels only, never back on its own channel; then the
/// message goes to every outbound target, in order, whatever came of the actions
/// before it.
pub proof fn lemma_accepted_event(
    kind: Seq<char>,
    identity: Identity,
    channels: Seq<ChannelModel>,
    outbound: Seq<Seq<char>>,
    isolate: bool,
    ev: NativeEvent,
)
    requires
        !sent_by(identity, ev),
        channels.contains(ev.channel@),
    ensures
        ingress(kind, identity, channels, outbound, isolate, ev).len() >= outbound.len(),
        forall|k: int|
            0 <= k < ingress(kind, identity, channels, outbound, isolate, ev).len() - outbound.len()
                ==> posts_elsewhere(
                #[trigger] ingress(kind, identity, channels, outbound, isolate, ev)[k],
                channels,
                ev.channel@,
                rendered(event_message(kind, ev)),
            ),
        forall|k: int|
            0 <= k < outbound.len() ==> #[trigger] ingress(
                kind,
                identity,
                channels,
                outbound,
                isolate,
                ev,
            )[ingress(kind, identity, channels, outbound, isolate, ev).len() - outbound.len() + k]
                == forward_of(outbound[k], event_message(kind, ev)),
{
    let m = event_message(kind, ev);
    let head = if isolate {
        Seq::<ActionModel>::empty()
    } else {
        reposts(channels, ev.channel@, rendered(m))
    };
    lemma_reposts_elsewhere(channels, ev.channel@, rendered(m));
    let plan = ingress(kind, identity, channels, outbound, isolate, ev);
    assert(plan == head + forwards(outbound, m));
    assert forall|k: int| 0 <= k < head.len() implies posts_elsewhere(
        #[trigger] plan[k],
        channels,
        ev.channel@,
        rendered(m),
    ) by {
        assert(plan[k] == head[k]);
    }
    assert forall|k: int| 0 <= k < outbound.len() implies #[trigger] plan[head.len() + k]
        == forward_of(outbound[k], m) by {
        assert(plan[head.len() + k] == forwards(outbound, m)[k]);
    }
}

/// Forward-only endpoints: a message from a peer is never posted on the
/// endpoint's own channels.
pub proof fn lemma_forward_only(channels: Seq<ChannelModel>, m: MessageModel)
    ensures
        egress(channels, true, m).len() == 0,
{
}

} // verus!
