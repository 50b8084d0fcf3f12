use std::collections::HashSet;

use nyacat::chat_message::command_exec::app::BotCommand;
use nyacat::dev_utils::ConfigSlot;
use nyacat::emoji_attack::config::EmojiAttackConfig;
use nyacat::emoji_attack::data::EmojiAttackData;
use nyacat::emoji_attack::handle::{
    handle_cmd, handle_group_msg, targets_of, AttackPlan, MonkeyAction,
};
use nyacat::event::MsgInfo;

fn command(line: &str, group: Option<i64>, at: Vec<Option<&str>>) -> BotCommand {
    let m = MsgInfo {
        group_id: group,
        user_id: 1,
        self_id: 100,
        text: Some(line.to_string()),
        at_qq: at.into_iter().map(|a| a.map(|s| s.to_string())).collect(),
        text_segments: vec![],
        reply_ids: vec![],
    };
    BotCommand::from_str(line, m)
}

/// Runs a `$monkey` command with the test configuration; the text answered, if any.
fn monkey(e: &BotCommand, d: &mut EmojiAttackData) -> Option<String> {
    match handle_cmd(e, &config(), d) {
        Some(MonkeyAction::Reply(s)) => Some(s),
        Some(other) => panic!("{other:?}"),
        None => None,
    }
}

fn config() -> EmojiAttackConfig {
    EmojiAttackConfig {
        allow_monkey_groups: HashSet::from([10]),
        emoji: vec!["147".to_string(), "148".to_string()],
        wait_ms: None,
    }
}

#[test]
fn targets_come_from_mentions_and_numbers() {
    let c = command("$monkey add 5 x 6", Some(10), vec![Some("100"), Some("7"), None, Some("q")]);
    assert_eq!(targets_of(&c), vec![7, 5, 6]);
}

#[test]
fn add_react_then_del() {
    let cfg = config();
    let mut d = EmojiAttackData::new();
    assert!(handle_group_msg(&cfg, &d, 10, 5).is_none());
    let add = command("$monkey add 5 6", Some(10), vec![]);
    assert_eq!(monkey(&add, &mut d).as_deref(), Some("操作成功喵！"));
    assert_eq!(d.group_users[&10], HashSet::from([5, 6]));
    assert_eq!(monkey(&add, &mut d).as_deref(), Some("操作失败喵！"));
    let plan = handle_group_msg(&cfg, &d, 10, 6).unwrap();
    assert_eq!(plan.emoji, vec!["147", "148"]);
    assert_eq!(plan.wait_ms, 300);
    assert!(handle_group_msg(&cfg, &d, 11, 6).is_none());
    let del = command("$monkey del 6 9", Some(10), vec![]);
    assert_eq!(monkey(&del, &mut d).as_deref(), Some("操作成功喵！"));
    assert_eq!(d.group_users[&10], HashSet::from([5]));
    assert_eq!(monkey(&del, &mut d).as_deref(), Some("操作失败喵！"));
    assert!(handle_group_msg(&cfg, &d, 10, 6).is_none());
}

#[test]
fn clean_and_other_commands() {
    let mut d = EmojiAttackData::new();
    monkey(&command("$monkey add 5", Some(10), vec![]), &mut d);
    assert_eq!(monkey(&command("$monkey clean", Some(10), vec![]), &mut d).as_deref(), Some("操作成功喵！"));
    assert!(d.group_users[&10].is_empty());
    assert_eq!(monkey(&command("$monkey atk", Some(10), vec![]), &mut d), None);
    assert_eq!(monkey(&command("$monkey", Some(10), vec![]), &mut d), None);
    assert_eq!(monkey(&command("$monkey add 5", None, vec![]), &mut d), None);
    // del in a group without entry creates an empty entry and fails
    assert_eq!(monkey(&command("$monkey del 5", Some(12), vec![]), &mut d).as_deref(), Some("操作失败喵！"));
    assert!(d.group_users[&12].is_empty());
}

#[test]
fn configured_wait() {
    let mut cfg = config();
    cfg.wait_ms = Some(50);
    let mut d = EmojiAttackData::new();
    monkey(&command("$monkey add", Some(10), vec![Some("8")]), &mut d);
    assert_eq!(handle_group_msg(&cfg, &d, 10, 8).unwrap().wait_ms, 50);
    let mut slot = ConfigSlot::new();
    assert!(EmojiAttackConfig::init(&mut slot, cfg).is_ok());
    assert_eq!(EmojiAttackConfig::get(&slot).wait_ms, Some(50));
}

#[test]
fn atk_and_once_react_to_the_replied_message() {
    let mut cfg = config();
    cfg.wait_ms = Some(20);
    let mut d = EmojiAttackData::new();
    let mut atk = command("$monkey atk", Some(10), vec![]);
    atk.event.reply_ids = vec![Some("4242".to_string())];
    let expected = MonkeyAction::React {
        message_id: 4242,
        plan: AttackPlan { emoji: vec!["147".to_string(), "148".to_string()], wait_ms: 20 },
    };
    assert_eq!(handle_cmd(&atk, &cfg, &mut d), Some(expected));
    let mut once = command("$monkey once", Some(12), vec![]);
    once.event.reply_ids = vec![Some("7".to_string()), Some("8".to_string())];
    match handle_cmd(&once, &cfg, &mut d) {
        Some(MonkeyAction::React { message_id, plan }) => {
            assert_eq!(message_id, 7);
            assert_eq!(plan.emoji, vec!["147", "148"]);
        }
        other => panic!("{other:?}"),
    }
    // no reply, an unreadable reply, or a private message: nothing
    assert_eq!(handle_cmd(&command("$monkey atk", Some(10), vec![]), &cfg, &mut d), None);
    let mut bad = command("$monkey once", Some(10), vec![]);
    bad.event.reply_ids = vec![Some("x".to_string())];
    assert_eq!(handle_cmd(&bad, &cfg, &mut d), None);
    let mut private = command("$monkey atk", None, vec![]);
    private.event.reply_ids = vec![Some("4242".to_string())];
    assert_eq!(handle_cmd(&private, &cfg, &mut d), None);
    assert!(d.group_users.is_empty());
}

#[test]
fn add_or_del_without_targets_leaves_the_table() {
    let mut d = EmojiAttackData::new();
    assert_eq!(monkey(&command("$monkey add", Some(13), vec![]), &mut d).as_deref(), Some("操作失败喵！"));
    assert_eq!(monkey(&command("$monkey del x", Some(13), vec![Some("100")]), &mut d).as_deref(), Some("操作失败喵！"));
    assert!(d.group_users.get(&13).is_none());
    assert_eq!(monkey(&command("$monkey clean", Some(13), vec![]), &mut d).as_deref(), Some("操作成功喵！"));
    assert!(d.group_users[&13].is_empty());
}
