use stream_fitter::{
    Action, ChannelKey, ClientConfig, Delivery, DiscordConfig, EndpointState, FitterErrorKind, Mailbox,
    Message, NativeEvent, PipeFitter, PipeFitterConfig, TwitchConfig, INBOUND_CAPACITY,
};

fn twitch(name: &str, channels: &[&str], isolate: Option<bool>, forward_only: Option<bool>) -> ClientConfig {
    ClientConfig::TwitchConfig(TwitchConfig {
        token: "oauth:token".to_string(),
        name: name.to_string(),
        channels: channels.iter().map(|c| c.to_string()).collect(),
        isolate_channels: isolate,
        forward_only,
    })
}

fn discord(channel_ids: &[u64], isolate: Option<bool>, forward_only: Option<bool>) -> ClientConfig {
    ClientConfig::DiscordConfig(DiscordConfig {
        token: "discord-token".to_string(),
        channel_ids: channel_ids.to_vec(),
        isolate_channels: isolate,
        forward_only,
    })
}

fn ids(names: &[&str]) -> Vec<String> {
    names.iter().map(|n| n.to_string()).collect()
}

fn event(channel: ChannelKey, label: &str, login: &str, account: u64, author: &str, text: &str) -> NativeEvent {
    NativeEvent {
        channel,
        channel_label: label.to_string(),
        sender_login: login.to_string(),
        sender_account: account,
        author_name: author.to_string(),
        content: text.to_string(),
    }
}

fn name(s: &str) -> ChannelKey {
    ChannelKey::Name(s.to_string())
}

#[test]
fn message_renders_with_source_channel_and_author() {
    let m = Message::new("A".to_string(), "general".to_string(), "alice".to_string(), "hi".to_string());
    assert_eq!(m.render(), "[A: general] [alice] hi");
    assert_eq!(m.client(), "A");
    assert_eq!(m.channel(), "general");
    assert_eq!(m.author(), "alice");
    assert_eq!(m.content(), "hi");
    let c = m.clone();
    assert_eq!(c.render(), m.render());
}

#[test]
fn empty_message_renders_frame_only() {
    let m = Message::new(String::new(), String::new(), String::new(), String::new());
    assert_eq!(m.render(), "[: ] [] ");
}

#[test]
fn full_mesh_of_three() {
    let config = PipeFitterConfig::new(vec![
        twitch("bot", &["a"], None, None),
        discord(&[1, 2], None, None),
        twitch("bot2", &["b"], None, None),
    ]);
    let f = PipeFitter::assemble(config, ids(&["x", "y", "z"])).unwrap();
    assert_eq!(f.len(), 3);
    let expected = [vec!["y", "z"], vec!["x", "z"], vec!["x", "y"]];
    for (i, c) in f.clients().iter().enumerate() {
        let targets: Vec<&str> = c.outbound().iter().map(|h| h.peer()).collect();
        assert_eq!(targets, expected[i]);
        assert!(!targets.contains(&c.get_id()));
        assert_eq!(targets.len(), 2);
    }
    assert_eq!(f.clients()[1].get_name(), "Discord");
    assert_eq!(f.clients()[0].get_name(), "Twitch");
}

#[test]
fn single_endpoint_has_no_targets() {
    let config = PipeFitterConfig::new(vec![twitch("bot", &["a"], None, None)]);
    let f = PipeFitter::assemble(config, ids(&["only"])).unwrap();
    assert_eq!(f.clients()[0].outbound().len(), 0);
}

#[test]
fn empty_configuration_gives_empty_fabric() {
    let f = PipeFitter::assemble(PipeFitterConfig::new(vec![]), vec![]).unwrap();
    assert_eq!(f.len(), 0);
}

#[test]
fn duplicate_ids_refused() {
    let config = PipeFitterConfig::new(vec![
        twitch("bot", &["a"], None, None),
        twitch("bot", &["b"], None, None),
    ]);
    let r = PipeFitter::assemble(config, ids(&["same", "same"]));
    assert!(matches!(r, Err(FitterErrorKind::GenericErr(_))));
}

#[test]
fn generated_ids_are_distinct_and_mesh_is_full() {
    let config = PipeFitterConfig::new(vec![
        twitch("bot", &["a"], None, None),
        discord(&[7], None, None),
        twitch("bot2", &["b"], None, None),
        discord(&[8], None, None),
    ]);
    let f = PipeFitter::from_config(config).unwrap();
    let all: Vec<&str> = f.clients().iter().map(|c| c.get_id()).collect();
    for (i, c) in f.clients().iter().enumerate() {
        assert_eq!(c.get_id().chars().count(), 21);
        assert_eq!(c.outbound().len(), 3);
        for (j, other) in all.iter().enumerate() {
            if i != j {
                assert_ne!(c.get_id(), *other);
            }
        }
        assert!(c.outbound().iter().all(|h| h.peer() != c.get_id()));
    }
}

#[test]
fn scenario_two_endpoints() {
    let config = PipeFitterConfig::new(vec![
        twitch("botA", &["general"], None, None),
        twitch("botB", &["lobby"], None, None),
    ]);
    let f = PipeFitter::assemble(config, ids(&["A", "B"])).unwrap();
    let a = &f.clients()[0];
    let b = &f.clients()[1];
    let plan = a.on_event(&event(name("general"), "general", "alice", 0, "alice", "hi"));
    assert_eq!(plan.len(), 1);
    let forwarded = match &plan[0] {
        Action::Forward { target, message } => {
            assert_eq!(target.peer(), "B");
            message.clone()
        }
        Action::Post { .. } => panic!("no post expected on the source endpoint"),
    };
    assert_eq!(forwarded.render(), "[Twitch: general] [alice] hi");
    let posts = b.on_inbound(&forwarded);
    assert_eq!(posts.len(), 1);
    match &posts[0] {
        Action::Post { channel, text } => {
            assert!(matches!(channel, ChannelKey::Name(n) if n == "lobby"));
            assert_eq!(text, "[Twitch: general] [alice] hi");
        }
        Action::Forward { .. } => panic!("egress only posts"),
    }
}

#[test]
fn own_login_is_dropped() {
    let config = PipeFitterConfig::new(vec![
        twitch("bot", &["general"], None, None),
        twitch("other", &["lobby"], None, None),
    ]);
    let f = PipeFitter::assemble(config, ids(&["A", "B"])).unwrap();
    let plan = f.clients()[0].on_event(&event(name("general"), "general", "bot", 0, "Bot", "echo"));
    assert!(plan.is_empty());
}

#[test]
fn discord_own_account_is_dropped() {
    let config = PipeFitterConfig::new(vec![discord(&[5, 6], None, None), twitch("t", &["x"], None, None)]);
    let mut clients = PipeFitter::assemble(config, ids(&["A", "B"])).unwrap().into_clients();
    assert!(clients[0].learn_account(99).is_ok());
    assert!(matches!(clients[1].learn_account(99), Err(FitterErrorKind::InternalErr(_))));
    let plan = clients[0].on_event(&event(ChannelKey::Id(5), "five", "me", 99, "me", "beep"));
    assert!(plan.is_empty());
    let plan = clients[0].on_event(&event(ChannelKey::Id(5), "five", "otherbot", 42, "otherbot", "hello"));
    assert_eq!(plan.len(), 2);
    assert!(matches!(&plan[0], Action::Post { channel: ChannelKey::Id(6), text } if text == "[Discord: five] [otherbot] hello"));
    assert!(matches!(&plan[1], Action::Forward { target, .. } if target.peer() == "B"));
}

#[test]
fn refusals_carry_their_text() {
    let config = PipeFitterConfig::new(vec![discord(&[1], None, None)]);
    let mut clients = PipeFitter::assemble(config, ids(&["A"])).unwrap().into_clients();
    let h = clients[0].get_stream().unwrap();
    assert!(clients[0].begin_run().is_ok());
    assert!(matches!(clients[0].get_stream(), Err(FitterErrorKind::GenericErr(t)) if t == "No handler"));
    assert!(matches!(clients[0].add_stream(h), Err(FitterErrorKind::InternalErr(t)) if t == "No handler"));
    assert_eq!(clients[0].state(), EndpointState::Running);
}

#[test]
fn single_entry_configuration_always_builds() {
    let f = PipeFitter::from_config(PipeFitterConfig::new(vec![twitch("t", &["x"], None, None)])).unwrap();
    assert_eq!(f.len(), 1);
    let f = PipeFitter::from_config(PipeFitterConfig::new(vec![])).unwrap();
    assert_eq!(f.len(), 0);
}

#[test]
fn foreign_channel_is_dropped() {
    let config = PipeFitterConfig::new(vec![
        twitch("bot", &["general"], None, None),
        twitch("other", &["lobby"], None, None),
    ]);
    let f = PipeFitter::assemble(config, ids(&["A", "B"])).unwrap();
    let plan = f.clients()[0].on_event(&event(name("random"), "random", "carol", 0, "carol", "hey"));
    assert!(plan.is_empty());
}

#[test]
fn relay_between_own_channels_unless_isolated() {
    let config = PipeFitterConfig::new(vec![
        twitch("bot", &["c1", "c2"], None, None),
        twitch("iso", &["c1", "c2"], Some(true), None),
        twitch("peer", &["p"], None, None),
    ]);
    let f = PipeFitter::assemble(config, ids(&["A", "B", "C"])).unwrap();
    let ev = event(name("c1"), "c1", "dave", 0, "dave", "yo");

    let open = f.clients()[0].on_event(&ev);
    assert_eq!(open.len(), 3);
    assert!(matches!(&open[0], Action::Post { channel: ChannelKey::Name(n), text } if n == "c2" && text == "[Twitch: c1] [dave] yo"));
    assert!(matches!(&open[1], Action::Forward { target, .. } if target.peer() == "B"));
    assert!(matches!(&open[2], Action::Forward { target, .. } if target.peer() == "C"));

    let isolated = f.clients()[1].on_event(&ev);
    assert_eq!(isolated.len(), 2);
    assert!(matches!(&isolated[0], Action::Forward { target, message } if target.peer() == "A" && message.content() == "yo"));
    assert!(matches!(&isolated[1], Action::Forward { target, .. } if target.peer() == "C"));
}

#[test]
fn forward_only_never_posts_peer_messages() {
    let config = PipeFitterConfig::new(vec![
        twitch("bot", &["c1", "c2"], None, Some(true)),
        twitch("peer", &["p"], None, Some(false)),
    ]);
    let f = PipeFitter::assemble(config, ids(&["A", "B"])).unwrap();
    assert!(f.clients()[0].forward_only());
    assert!(!f.clients()[1].forward_only());
    let m = Message::new("Twitch".to_string(), "p".to_string(), "eve".to_string(), "x".to_string());
    assert!(f.clients()[0].on_inbound(&m).is_empty());
    assert_eq!(f.clients()[1].on_inbound(&m).len(), 1);
    let ev = event(name("c1"), "c1", "eve", 0, "eve", "out");
    assert_eq!(f.clients()[0].on_event(&ev).len(), 2);
}

#[test]
fn absent_flags_mean_off() {
    let config = PipeFitterConfig::new(vec![discord(&[1], None, None)]);
    let f = PipeFitter::assemble(config, ids(&["A"])).unwrap();
    assert!(!f.clients()[0].isolate_channels());
    assert!(!f.clients()[0].forward_only());
    assert_eq!(f.clients()[0].token(), "discord-token");
    assert_eq!(f.clients()[0].login(), "");
}

#[test]
fn delivery_continues_past_failures() {
    let config = PipeFitterConfig::new(vec![
        twitch("bot", &["g"], None, None),
        twitch("b", &["x"], None, None),
        twitch("c", &["y"], None, None),
        twitch("d", &["z"], None, None),
    ]);
    let f = PipeFitter::assemble(config, ids(&["A", "B", "C", "D"])).unwrap();
    let plan = f.clients()[0].on_event(&event(name("g"), "g", "u", 0, "u", "m"));
    let mut d = Delivery::new(plan);
    let mut reached = Vec::new();
    let mut k = 0;
    while let Some(a) = d.current() {
        if let Action::Forward { target, .. } = a {
            reached.push(target.peer().to_string());
        }
        let ok = k != 0;
        d.record(ok);
        k += 1;
    }
    assert!(d.is_done());
    assert_eq!(reached, vec!["B", "C", "D"]);
    assert_eq!(d.failures(), &vec![0usize]);
}

#[test]
fn full_queue_hands_message_back_until_drained() {
    let mut q = Mailbox::new(2);
    let mk = |t: &str| Message::new("K".to_string(), "c".to_string(), "a".to_string(), t.to_string());
    assert!(q.offer(mk("1")).is_ok());
    assert!(q.offer(mk("2")).is_ok());
    assert!(q.is_full());
    let back = q.offer(mk("3")).unwrap_err();
    assert_eq!(back.content(), "3");
    assert_eq!(q.len(), 2);
    assert_eq!(q.take().unwrap().content(), "1");
    assert!(q.offer(back).is_ok());
    assert_eq!(q.take().unwrap().content(), "2");
    assert_eq!(q.take().unwrap().content(), "3");
    assert!(q.take().is_none());
}

#[test]
fn inbound_queue_capacity() {
    let mut q = Mailbox::inbound();
    assert_eq!(q.capacity(), INBOUND_CAPACITY);
    assert_eq!(INBOUND_CAPACITY, 100);
    for i in 0..100 {
        assert!(q.offer(Message::new(String::new(), String::new(), String::new(), i.to_string())).is_ok());
    }
    assert!(q.offer(Message::new(String::new(), String::new(), String::new(), "x".to_string())).is_err());
}

#[test]
fn handles_refused_once_running() {
    let config = PipeFitterConfig::new(vec![discord(&[1], None, None), twitch("t", &["x"], None, None)]);
    let f = PipeFitter::assemble(config, ids(&["A", "B"])).unwrap();
    let mut clients = f.into_clients();
    let h = clients[1].get_stream().unwrap();
    assert_eq!(h.peer(), "B");
    assert!(clients[0].begin_run().is_ok());
    assert!(clients[0].is_running());
    assert!(matches!(clients[0].get_stream(), Err(FitterErrorKind::GenericErr(_))));
    assert!(matches!(clients[0].add_stream(h), Err(FitterErrorKind::InternalErr(_))));
    assert!(matches!(clients[0].begin_run(), Err(FitterErrorKind::InternalErr(_))));
    assert_eq!(clients[0].outbound().len(), 1);
}

#[test]
fn lifecycle_runs_once_and_ends() {
    let config = PipeFitterConfig::new(vec![twitch("t", &["x"], None, None), twitch("u", &["y"], None, None)]);
    let mut clients = PipeFitter::assemble(config, ids(&["A", "B"])).unwrap().into_clients();
    assert_eq!(clients[0].state(), EndpointState::Wired);
    assert!(matches!(clients[0].end_run(false), Err(FitterErrorKind::InternalErr(_))));
    assert!(clients[0].begin_run().is_ok());
    assert_eq!(clients[0].state(), EndpointState::Running);
    assert!(clients[0].end_run(true).is_ok());
    assert_eq!(clients[0].state(), EndpointState::Failed);
    assert!(clients[0].begin_run().is_err());
    assert!(clients[1].begin_run().is_ok());
    assert!(clients[1].end_run(false).is_ok());
    assert_eq!(clients[1].state(), EndpointState::Stopped);
    assert!(matches!(clients[1].get_stream(), Err(FitterErrorKind::GenericErr(_))));
}
