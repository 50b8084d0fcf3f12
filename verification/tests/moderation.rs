use nyacat::bot_check::data::BanData;
use nyacat::bot_check::dynconfig::{BanConfig, InviteBanConfig};
use nyacat::bot_check::handle::{
    member_level_passes_on, invite_in_scope, invite_level_low, is_group_request, on_chat,
    record_invite, screen_invite, ChatBanAction, GroupRequestEvent, InviteAction, InviteStage,
    InviteStep,
};
use nyacat::dev_utils::ConfigSlot;

fn config() -> BanConfig {
    BanConfig {
        enable_group: vec![10],
        chat_regex_list: BanConfig::keep_valid_patterns(&vec![
            "坏(话)?".to_string(),
            "(".to_string(),
            r"\d{5,}".to_string(),
        ]),
        enable_chat_shut_up: Some(2),
        chat_shut_up_time: 3600,
        enable_chat_kick: Some(3),
        enable_invite_ban: Some(InviteBanConfig { min_level: Some(16), min_activate: Some(3) }),
        enable_invite_kick: Some(2),
        kick_can_request: Some(true),
    }
}

#[test]
fn invalid_patterns_are_skipped() {
    let c = config();
    assert_eq!(c.chat_regex_list, vec!["坏(话)?".to_string(), r"\d{5,}".to_string()]);
}

#[test]
fn banned_words_warn_then_mute_then_kick() {
    let c = config();
    let mut d = BanData::new();
    assert!(matches!(on_chat(&c, &mut d, 10, 42, "你好"), Some(ChatBanAction::Pass)));
    assert!(matches!(on_chat(&c, &mut d, 11, 42, "坏话"), Some(ChatBanAction::Pass)));
    match on_chat(&c, &mut d, 10, 42, "说坏话") {
        Some(ChatBanAction::Warn(s)) => assert_eq!(s, "爆了"),
        other => panic!("{other:?}"),
    }
    assert_eq!(d.chat_action_times[&10][&42], 1);
    match on_chat(&c, &mut d, 10, 42, "call 123456") {
        Some(ChatBanAction::Ban { seconds, notice }) => {
            assert_eq!(seconds, 3600);
            assert_eq!(notice, "用户42 因为触发违禁词达到次数2 已被封禁3600s！如需申诉请联系管理员");
        }
        other => panic!("{other:?}"),
    }
    match on_chat(&c, &mut d, 10, 42, "坏") {
        Some(ChatBanAction::Kick { reject_add_request, notice }) => {
            assert!(!reject_add_request);
            assert_eq!(notice, "用户42 因为触发违禁词达到次数3 已被踢出！！如需申诉请联系管理员");
        }
        other => panic!("{other:?}"),
    }
    // the kicked member's count is cleared, the group's entry stays
    assert!(d.chat_action_times[&10].get(&42).is_none());
    assert!(matches!(on_chat(&c, &mut d, 10, 42, "坏"), Some(ChatBanAction::Warn(_))));
    assert_eq!(d.chat_action_times[&10][&42], 1);
    assert!(d.invite_action_times.is_empty());
}

#[test]
fn counts_without_thresholds_pass_silently() {
    let mut c = config();
    c.enable_chat_kick = None;
    c.enable_chat_shut_up = None;
    let mut d = BanData::new();
    assert!(matches!(on_chat(&c, &mut d, 10, 1, "坏"), Some(ChatBanAction::Pass)));
    assert!(matches!(on_chat(&c, &mut d, 10, 1, "坏"), Some(ChatBanAction::Pass)));
    assert_eq!(d.chat_action_times[&10][&1], 2);
}

#[test]
fn mute_is_capped() {
    let mut c = config();
    c.chat_shut_up_time = 9_999_999;
    assert_eq!(c.chat_shut_up_duration(), 2332799);
    c.kick_can_request = None;
    assert!(!c.kick_can_request_or_default());
}

#[test]
fn a_full_counter_is_refused() {
    let c = config();
    let mut d = BanData::new();
    on_chat(&c, &mut d, 10, 5, "坏");
    d.chat_action_times.get_mut(&10).unwrap().insert(5, i32::MAX);
    assert!(on_chat(&c, &mut d, 10, 5, "坏").is_none());
    assert_eq!(d.chat_action_times[&10][&5], i32::MAX);
}

fn request(sub_type: &str, group: i64) -> GroupRequestEvent {
    GroupRequestEvent {
        time: 0,
        self_id: 1,
        post_type: "request".to_string(),
        request_type: "group".to_string(),
        sub_type: sub_type.to_string(),
        group_id: group,
        user_id: 77,
        comment: String::new(),
        flag: "f".to_string(),
    }
}

#[test]
fn invitations_are_screened() {
    let c = config();
    assert!(is_group_request("group"));
    assert!(!is_group_request("friend"));
    assert!(invite_in_scope(&c, &request("invite", 10)));
    assert!(!invite_in_scope(&c, &request("add", 10)));
    assert!(!invite_in_scope(&c, &request("invite", 11)));
    assert!(member_level_passes_on(&c, "2"));
    assert!(!member_level_passes_on(&c, "3"));
    // a level that does not read as a number lets the invitation through
    assert!(!member_level_passes_on(&c, "high"));
    assert!(invite_level_low(&c, 15));
    assert!(!invite_level_low(&c, 16));
    let mut none = config();
    none.enable_invite_ban = None;
    assert!(!member_level_passes_on(&none, "0"));
    assert!(!invite_level_low(&none, 0));
    let mut no_activity = config();
    no_activity.enable_invite_ban = Some(InviteBanConfig { min_level: Some(16), min_activate: None });
    assert!(member_level_passes_on(&no_activity, "99"));
}

#[test]
fn screening_runs_in_order() {
    let mut c = config();
    c.enable_group = vec![100];
    c.enable_invite_ban = Some(InviteBanConfig { min_level: Some(10), min_activate: None });
    c.enable_invite_kick = Some(1);
    let mut req = request("invite", 100);
    req.user_id = 5;
    assert_eq!(
        screen_invite(&c, &InviteStage::Requested(req)),
        InviteStep::ReadMemberCard { group_id: 100, user_id: 5 }
    );
    let member = InviteStage::MemberRead { group_id: 100, user_id: 5, level: "1".to_string() };
    assert_eq!(screen_invite(&c, &member), InviteStep::ReadProfile { group_id: 100, user_id: 5 });
    let profile = InviteStage::ProfileRead { group_id: 100, user_id: 5, level: 3 };
    assert_eq!(screen_invite(&c, &profile), InviteStep::Count { group_id: 100, user_id: 5 });
    let mut d = BanData::new();
    assert!(matches!(record_invite(&c, &mut d, 100, 5), Some(InviteAction::Kick { .. })));
    assert_eq!(d.invite_action_times[&100][&5], 1);
    // the ways out
    let high = InviteStage::ProfileRead { group_id: 100, user_id: 5, level: 10 };
    assert_eq!(screen_invite(&c, &high), InviteStep::Stop);
    assert_eq!(screen_invite(&c, &InviteStage::Requested(request("add", 100))), InviteStep::Stop);
    assert_eq!(screen_invite(&c, &InviteStage::Requested(request("invite", 10))), InviteStep::Stop);
    let mut friend = request("invite", 100);
    friend.request_type = "friend".to_string();
    assert_eq!(screen_invite(&c, &InviteStage::Requested(friend)), InviteStep::Stop);
    c.enable_invite_ban = Some(InviteBanConfig { min_level: Some(10), min_activate: Some(3) });
    let active = InviteStage::MemberRead { group_id: 100, user_id: 5, level: "3".to_string() };
    assert_eq!(screen_invite(&c, &active), InviteStep::Stop);
    let unreadable = InviteStage::MemberRead { group_id: 100, user_id: 5, level: "x".to_string() };
    assert_eq!(screen_invite(&c, &unreadable), InviteStep::Stop);
    assert_eq!(screen_invite(&c, &member), InviteStep::ReadProfile { group_id: 100, user_id: 5 });
    c.enable_invite_ban = None;
    assert_eq!(screen_invite(&c, &member), InviteStep::Stop);
}

#[test]
fn screened_invitations_count_towards_a_kick() {
    let c = config();
    let mut d = BanData::new();
    match record_invite(&c, &mut d, 10, 77) {
        Some(InviteAction::Notice(s)) => assert_eq!(s, "用户77 邀请群成员达到次数1"),
        other => panic!("{other:?}"),
    }
    match record_invite(&c, &mut d, 10, 77) {
        Some(InviteAction::Kick { reject_add_request, notice }) => {
            assert!(!reject_add_request);
            assert_eq!(notice, "用户77 因为邀请群成员达到次数2 已被踢出！如需申诉请联系管理员");
        }
        other => panic!("{other:?}"),
    }
    // invitation counts are kept after a kick
    assert_eq!(d.invite_action_times[&10][&77], 2);
    let mut silent = config();
    silent.enable_invite_kick = None;
    assert!(matches!(record_invite(&silent, &mut d, 10, 78), Some(InviteAction::Silent)));
    assert!(d.chat_action_times.is_empty());
}

#[test]
fn moderation_config_installs_once() {
    let mut slot = ConfigSlot::new();
    assert!(BanConfig::init(&mut slot, config()).is_ok());
    assert!(BanConfig::init(&mut slot, BanConfig::default()).is_err());
    assert_eq!(BanConfig::get(&slot).enable_group, vec![10]);
}
