use std::collections::HashSet;

use nyacat::command_exec::config::CommandExecConfig;
use nyacat::command_exec::on_msg;
use nyacat::command_exec_context::{self, CommandExecContext};
use nyacat::dev_utils::{contains_id, id_set, init_config, ConfigError, ConfigSlot};
use nyacat::event::MsgInfo;

fn msg(group: Option<i64>, user: i64) -> MsgInfo {
    MsgInfo {
        group_id: group,
        user_id: user,
        self_id: 100,
        text: None,
        at_qq: vec![],
        text_segments: vec![],
        reply_ids: vec![],
    }
}

fn config() -> CommandExecConfig {
    CommandExecConfig {
        allow_exec_context: HashSet::from([1, 50]),
        allow_super_user: HashSet::from([9]),
        is_admin_super_user: true,
        is_all_user_admin: false,
    }
}

#[test]
fn contexts_are_groups_or_senders() {
    let c = config();
    assert_eq!(CommandExecConfig::event_user(&msg(Some(1), 50)), 50);
    assert_eq!(CommandExecConfig::event_context(&msg(Some(1), 50)), 1);
    assert_eq!(CommandExecConfig::event_context(&msg(None, 50)), 50);
    assert!(c.in_context(&msg(Some(1), 7)));
    assert!(c.in_context(&msg(None, 50)));
    assert!(!c.in_context(&msg(Some(2), 50)));
}

#[test]
fn super_users_by_config_or_as_admins() {
    let mut c = config();
    assert!(c.in_super_user_only_config(&msg(Some(1), 9)));
    assert!(!c.in_super_user_only_config(&msg(Some(1), 8)));
    assert_eq!(c.member_card_needed(&msg(Some(1), 9)), None);
    assert_eq!(c.member_card_needed(&msg(Some(1), 8)), Some(1));
    assert_eq!(c.member_card_needed(&msg(None, 8)), None);
    assert!(c.in_super_user(&msg(Some(1), 8), Some("admin")));
    assert!(!c.in_super_user(&msg(Some(1), 8), Some("member")));
    assert!(!c.in_super_user(&msg(Some(1), 8), None));
    assert!(!c.in_super_user(&msg(None, 8), Some("admin")));
    c.is_admin_super_user = false;
    assert!(!c.in_super_user(&msg(Some(1), 8), Some("admin")));
    assert_eq!(c.member_card_needed(&msg(Some(1), 8)), None);
    c.is_all_user_admin = true;
    assert!(c.in_super_user(&msg(None, 8), None));
}

#[test]
fn command_lines_among_text_segments() {
    let mut m = msg(Some(1), 8);
    m.text_segments = vec![
        Some("$hi  you".to_string()),
        None,
        Some("hello".to_string()),
        Some("$monkey add 5".to_string()),
    ];
    let cmds = on_msg(&m);
    assert_eq!(cmds.len(), 2);
    assert_eq!(cmds[0].cmd, "$hi");
    assert_eq!(cmds[0].args, vec!["you"]);
    assert_eq!(cmds[1].cmd, "$monkey");
    assert_eq!(cmds[1].args, vec!["add", "5"]);
    assert_eq!(cmds[1].event.user_id, 8);
}

#[test]
fn listed_config_becomes_sets() {
    let cfg = command_exec_context::CommandExecConfig {
        allow_exec_groups: vec![3, 3, 4],
        allow_super_user: vec![],
    };
    let ctx = CommandExecContext::from_config(&cfg);
    assert_eq!(ctx.allow_exec_groups, HashSet::from([3, 4]));
    assert!(ctx.allow_super_user.is_empty());
    let mut slot = ConfigSlot::new();
    assert_eq!(command_exec_context::CommandExecConfig::init(&mut slot, &cfg), Ok(()));
    assert_eq!(
        command_exec_context::CommandExecConfig::init(&mut slot, &cfg),
        Err(ConfigError::AlreadySet)
    );
    assert!(command_exec_context::CommandExecConfig::get(&slot).allow_exec_groups.contains(&4));
}

#[test]
fn command_config_installs_once() {
    let mut slot = ConfigSlot::new();
    assert!(CommandExecConfig::init(&mut slot, config()).is_ok());
    assert!(CommandExecConfig::init(&mut slot, CommandExecConfig::default()).is_err());
    assert!(CommandExecConfig::get(&slot).is_admin_super_user);
}

#[test]
fn slots_and_id_sets() {
    let mut slot: ConfigSlot<u8> = ConfigSlot::new();
    assert_eq!(slot.get(), None);
    assert_eq!(slot.set(3), Ok(()));
    assert_eq!(slot.set(4), Err(4));
    assert_eq!(slot.get(), Some(&3));
    assert_eq!(*slot.value(), 3);
    assert_eq!(init_config(5, &mut slot), Err(ConfigError::AlreadySet));
    assert_eq!(id_set(&vec![1, 1, 2]), HashSet::from([1, 2]));
    assert!(contains_id(&vec![1, 2], 2));
    assert!(!contains_id(&vec![], 2));
}
