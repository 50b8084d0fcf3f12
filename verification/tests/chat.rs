use nyacat::chat_message::command_exec::app::{BotCommand, BotCommandBuilder, CommandRoute};
use nyacat::command_exec::config::CommandExecConfig;
use std::collections::HashSet;
use nyacat::chat_message::command_exec::cmds::{self, ShellCmdState};
use nyacat::chat_message::command_exec::common::{
    exec_hi, exec_kill, exec_live, exec_mem_kill, exec_smart, ok_exec, register_common_cmd,
    SmartAction,
};
use nyacat::chat_message::command_exec::shell::{exec_shell_cmd, ShellIds};
use nyacat::chat_message::config::{
    ChatConfig, ChatConfigContext, ChatModelCallConfig, SyncControl,
};
use nyacat::chat_message::handlers::group_chat::{
    at_me, handle_group_chat, method_me, route_by_name, AtMeAction, ChatError, GroupChatRoute,
    NyaCatMemory, TextRoute,
};
use nyacat::chat_message::handlers::tool::reply_as_im;
use nyacat::chat_message::ml::{completion_text, reply_or_error, smart_request, ChatMessage};
use nyacat::dev_utils::{ConfigError, ConfigSlot};
use nyacat::event::MsgInfo;

fn msg(group: Option<i64>, text: Option<&str>) -> MsgInfo {
    MsgInfo {
        group_id: group,
        user_id: 7,
        self_id: 100,
        text: text.map(|t| t.to_string()),
        at_qq: vec![],
        text_segments: vec![],
        reply_ids: vec![],
    }
}

fn model() -> ChatModelCallConfig {
    ChatModelCallConfig {
        role_prompt: "你是猫娘".to_string(),
        smart_prompt: "聪明".to_string(),
        role_max_message: 3,
        role_context_expiration_time_second: 100,
        dot_wait_tag: "。".to_string(),
        dot_wait_time_ms: 1000,
        ..Default::default()
    }
}

fn context() -> ChatConfigContext {
    ChatConfigContext::from_config(&ChatConfig {
        allow_groups: vec![1, 2, 2],
        allow_super_user: vec![9],
        model: model(),
    })
}

fn cmd(line: &str, group: Option<i64>) -> BotCommand {
    BotCommand::from_str(line, msg(group, Some(line)))
}

#[test]
fn config_context_turns_lists_into_sets() {
    let c = context();
    assert_eq!(c.allow_groups.len(), 2);
    assert!(c.allow_groups.contains(&1) && c.allow_groups.contains(&2));
    assert!(c.allow_super_user.contains(&9));
    assert_eq!(c.model.role_prompt, "你是猫娘");
}

#[test]
fn config_installs_once_and_reads_back() {
    let mut slot = ConfigSlot::new();
    assert!(!slot.is_set());
    let cfg = ChatConfig { allow_groups: vec![5], allow_super_user: vec![], model: model() };
    assert_eq!(ChatConfigContext::init(&mut slot, &cfg), Ok(()));
    assert!(ChatConfigContext::get(&slot).allow_groups.contains(&5));
    let other = ChatConfig { allow_groups: vec![6], allow_super_user: vec![], model: model() };
    assert_eq!(ChatConfigContext::init(&mut slot, &other), Err(ConfigError::AlreadySet));
    assert!(!ChatConfigContext::get(&slot).allow_groups.contains(&6));
}

#[test]
fn sync_control_switches() {
    let mut c = SyncControl::new();
    assert!(c.running());
    c.set_bot_run(false);
    assert!(!c.running());
    c.set_bot_run(true);
    assert!(c.running());
}

#[test]
fn command_line_is_split_into_name_and_arguments() {
    let c = cmd("$smart  what is\tlove ", Some(1));
    assert_eq!(c.cmd, "$smart");
    assert_eq!(c.args, vec!["what", "is", "love"]);
    assert!(c.is_for("$smart"));
    assert!(!c.is_for("$hi"));
    assert_eq!(c.event.group_id, Some(1));
}

#[test]
fn registry_records_names() {
    let mut b = BotCommandBuilder::new();
    assert!(!b.is_common_command("$hi"));
    register_common_cmd(&mut b);
    assert!(b.is_common_command("$hi") && b.is_common_command("$smart"));
    assert!(b.is_super_command("$kill") && b.is_super_command("$mem_kill"));
    assert!(!b.is_super_command("$hi"));
    cmds::register_shell_cmd(&mut b);
    assert!(b.is_super_command("$shell"));
    assert!(!b.is_common_command("$kill") && !b.is_common_command("$restart"));
    let mut only_shell = BotCommandBuilder::new();
    cmds::register_shell_cmd(&mut only_shell);
    assert!(only_shell.is_super_command("$restart") && only_shell.is_super_command("$kill"));
    assert!(only_shell.is_common_command("$smart") && only_shell.is_common_command("$hi"));
    assert!(!only_shell.is_common_command("$kill") && !only_shell.is_super_command("$hi"));
    nyacat::emoji_attack::handle::register_cmd(&mut b);
    assert!(b.is_super_command("$monkey"));
    assert!(!b.is_common_command("$monkey"));
}

#[test]
fn invoked_commands_go_where_permitted() {
    let mut b = BotCommandBuilder::new();
    register_common_cmd(&mut b);
    let cfg = CommandExecConfig {
        allow_exec_context: HashSet::from([1]),
        allow_super_user: HashSet::from([7]),
        is_admin_super_user: true,
        is_all_user_admin: false,
    };
    assert_eq!(cmd("$hi", Some(1)).invoke_command(&b, &cfg, None), CommandRoute::Common);
    assert_eq!(cmd("$hi", Some(2)).invoke_command(&b, &cfg, None), CommandRoute::Refused);
    assert_eq!(cmd("$kill", Some(1)).invoke_command(&b, &cfg, None), CommandRoute::Super);
    assert_eq!(cmd("$nope", Some(1)).invoke_command(&b, &cfg, None), CommandRoute::Refused);
    let mut other = cmd("$kill", Some(1));
    other.event.user_id = 8;
    assert_eq!(other.invoke_command(&b, &cfg, None), CommandRoute::Refused);
    assert_eq!(other.invoke_command(&b, &cfg, Some("admin")), CommandRoute::Super);
    // a private chat is its sender's context
    let private = cmd("$hi", None);
    assert_eq!(private.invoke_command(&b, &cfg, None), CommandRoute::Refused);
}

#[test]
fn commands_run_only_in_allowed_groups() {
    let cfg = context();
    let ctl = SyncControl::new();
    assert!(ok_exec(&cmd("$hi", Some(1)), &cfg));
    assert!(!ok_exec(&cmd("$hi", Some(3)), &cfg));
    assert!(!ok_exec(&cmd("$hi", None), &cfg));
    assert_eq!(
        exec_hi(&cmd("$hi", Some(1)), &cfg, &ctl).as_deref(),
        Some("你好喵！我是一只猫娘喵！前面忘了中间忘了，反正我是一只猫娘喵")
    );
    assert_eq!(exec_hi(&cmd("$hi", Some(3)), &cfg, &ctl), None);
}

#[test]
fn kill_then_restart_brings_the_cat_back() {
    let cfg = context();
    let mut ctl = SyncControl::new();
    let c = cmd("$kill", Some(2));
    assert_eq!(exec_kill(&c, &cfg, &mut ctl).as_deref(), Some("猫娘似了喵"));
    assert!(!ctl.running());
    assert_eq!(exec_kill(&c, &cfg, &mut ctl), None);
    assert_eq!(exec_hi(&cmd("$hi", Some(2)), &cfg, &ctl), None);
    let r = cmd("$restart", Some(2));
    assert_eq!(exec_live(&r, &cfg, &mut ctl).as_deref(), Some("猫娘复活了喵"));
    assert!(ctl.running());
    assert_eq!(exec_live(&r, &cfg, &mut ctl), None);
    let outsider = cmd("$kill", Some(3));
    assert_eq!(exec_kill(&outsider, &cfg, &mut ctl), None);
    assert!(ctl.running());
}

#[test]
fn smart_joins_arguments() {
    let cfg = context();
    let ctl = SyncControl::new();
    match exec_smart(&cmd("$smart a  b", Some(1)), &cfg, &ctl) {
        SmartAction::Ask(q) => assert_eq!(q, "a b"),
        other => panic!("{other:?}"),
    }
    match exec_smart(&cmd("$smart", Some(1)), &cfg, &ctl) {
        SmartAction::Reply(s) => assert_eq!(s, "聪明猫娘在这里喵！"),
        other => panic!("{other:?}"),
    }
    assert!(matches!(exec_smart(&cmd("$smart a", None), &cfg, &ctl), SmartAction::Ignore));
    assert_eq!(smart_request(&cfg.model, "a b"), "聪明\na b");
}

#[test]
fn mem_kill_forgets_even_while_asleep() {
    let cfg = context();
    let mut mem = NyaCatMemory::new();
    mem.load_mem(7, "hi", 10, &cfg.model);
    assert_eq!(
        exec_mem_kill(&cmd("$mem_kill", Some(1)), &cfg, &mut mem).as_deref(),
        Some("猫娘的记忆被抹除成功了喵！")
    );
    let conv = mem.load_mem(7, "again", 11, &cfg.model);
    assert_eq!(conv.len(), 2);
    assert_eq!(exec_mem_kill(&cmd("$mem_kill", Some(5)), &cfg, &mut mem), None);
}

#[test]
fn shell_numbers_start_at_1156() {
    let mut ctl = SyncControl::new();
    let mut ids = ShellIds::new();
    assert_eq!(exec_shell_cmd(&ctl, &mut ids).as_deref(), Some("shell创建成功喵！编号 1156"));
    assert_eq!(exec_shell_cmd(&ctl, &mut ids).as_deref(), Some("shell创建成功喵！编号 1157"));
    ctl.set_bot_run(false);
    assert_eq!(exec_shell_cmd(&ctl, &mut ids), None);
    ctl.set_bot_run(true);
    assert_eq!(exec_shell_cmd(&ctl, &mut ids).as_deref(), Some("shell创建成功喵！编号 1158"));
}

#[test]
fn first_command_set_has_its_own_switch() {
    let mut s = ShellCmdState::new();
    assert_eq!(s.exec_shell_cmd().as_deref(), Some("shell创建成功喵！编号 1156"));
    assert!(s.exec_hi().is_some());
    assert_eq!(s.exec_kill().as_deref(), Some("似了喵"));
    assert_eq!(s.exec_hi(), None);
    assert_eq!(s.exec_shell_cmd(), None);
    assert_eq!(s.exec_live().as_deref(), Some("复活了喵"));
    assert_eq!(s.exec_live(), None);
    assert_eq!(s.exec_shell_cmd().as_deref(), Some("shell创建成功喵！编号 1157"));
    match cmds::exec_smart(&cmd("$smart first second", None)) {
        SmartAction::Ask(q) => assert_eq!(q, "first"),
        other => panic!("{other:?}"),
    }
}

#[test]
fn group_chat_routing() {
    let cfg = context();
    assert_eq!(handle_group_chat(&cfg, &msg(None, Some("x"))), Err(ChatError::MissingGroupId));
    assert_eq!(handle_group_chat(&cfg, &msg(Some(3), Some("x"))), Ok(GroupChatRoute::Ignore));
    let mut at = msg(Some(1), Some("hello"));
    at.at_qq = vec![Some("100".to_string()), Some("5".to_string())];
    assert_eq!(handle_group_chat(&cfg, &at), Ok(GroupChatRoute::AtMe));
    at.at_qq = vec![Some("5".to_string()), Some("100".to_string())];
    assert_eq!(handle_group_chat(&cfg, &at), Ok(GroupChatRoute::NeedBotInfo));
    at.at_qq = vec![None, Some("100".to_string())];
    assert_eq!(handle_group_chat(&cfg, &at), Ok(GroupChatRoute::NeedBotInfo));
}

#[test]
fn routing_by_name_and_cat_word() {
    let m = msg(Some(1), Some("小咪和猫娘"));
    assert_eq!(route_by_name(&m, Some("小咪")), TextRoute::CallMe);
    assert_eq!(route_by_name(&m, Some("大黄")), TextRoute::MethodMe);
    assert_eq!(route_by_name(&m, None), TextRoute::MethodMe);
    assert_eq!(route_by_name(&msg(Some(1), Some("hello")), None), TextRoute::Ignore);
    assert_eq!(route_by_name(&msg(Some(1), None), Some("")), TextRoute::Ignore);
    let mut ctl = SyncControl::new();
    assert_eq!(method_me(&ctl).as_deref(), Some("是不是有人叫我喵"));
    ctl.set_bot_run(false);
    assert_eq!(method_me(&ctl), None);
}

#[test]
fn mentions_become_commands_questions_or_idle_replies() {
    let mut ctl = SyncControl::new();
    match at_me(&msg(Some(1), Some("$hi there")), &ctl) {
        AtMeAction::Command(c) => {
            assert_eq!(c.cmd, "$hi");
            assert_eq!(c.args, vec!["there"]);
        }
        other => panic!("{other:?}"),
    }
    match at_me(&msg(Some(1), Some("你好")), &ctl) {
        AtMeAction::Ask(q) => assert_eq!(q, "你好"),
        other => panic!("{other:?}"),
    }
    match at_me(&msg(Some(1), Some("")), &ctl) {
        AtMeAction::Reply(s) => assert_eq!(s, "叫我什么事喵？"),
        other => panic!("{other:?}"),
    }
    match at_me(&msg(Some(1), None), &ctl) {
        AtMeAction::Reply(s) => assert_eq!(s, "叫我什么事喵？"),
        other => panic!("{other:?}"),
    }
    ctl.set_bot_run(false);
    assert!(matches!(at_me(&msg(Some(1), Some("你好")), &ctl), AtMeAction::Ignore));
    assert!(matches!(at_me(&msg(Some(1), Some("$hi")), &ctl), AtMeAction::Command(_)));
}

#[test]
fn memory_window_drops_old_and_surplus_messages() {
    let cfg = model();
    let mut mem = NyaCatMemory::new();
    let conv = mem.load_mem(7, "q1", 0, &cfg);
    assert_eq!(
        conv,
        vec![ChatMessage::System("你是猫娘".to_string()), ChatMessage::User("q1".to_string())]
    );
    mem.save_mem(7, "a1", 0);
    let conv = mem.load_mem(7, "q2", 10, &cfg);
    assert_eq!(
        conv,
        vec![
            ChatMessage::System("你是猫娘".to_string()),
            ChatMessage::User("q1".to_string()),
            ChatMessage::Assistant("a1".to_string()),
            ChatMessage::User("q2".to_string()),
        ]
    );
    mem.save_mem(7, "a2", 10);
    // four remembered and one new message: only the newest three stay
    let conv = mem.load_mem(7, "q3", 20, &cfg);
    assert_eq!(conv.len(), 4);
    assert_eq!(conv[1], ChatMessage::User("q2".to_string()));
    // the window starts at the first message younger than 100 seconds
    let conv = mem.load_mem(7, "q4", 115, &cfg);
    assert_eq!(
        conv,
        vec![
            ChatMessage::System("你是猫娘".to_string()),
            ChatMessage::User("q3".to_string()),
            ChatMessage::User("q4".to_string()),
        ]
    );
    let conv = mem.load_mem(7, "q5", 1000, &cfg);
    assert_eq!(
        conv,
        vec![ChatMessage::System("你是猫娘".to_string()), ChatMessage::User("q5".to_string())]
    );
    // other users are untouched
    let conv = mem.load_mem(8, "hey", 115, &cfg);
    assert_eq!(conv.len(), 2);
    assert!(mem.said_by(7, 1000));
    assert!(!mem.said_by(7, 999));
    mem.clean();
    assert_eq!(mem.load_mem(7, "fresh", 200, &cfg).len(), 2);
}

#[test]
fn an_answered_question_is_remembered_with_its_answer() {
    let cfg = model();
    let mut mem = NyaCatMemory::new();
    mem.load_mem(7, "q1", 0, &cfg);
    let out = mem.save_reply(7, Ok("a1".to_string()), 1);
    assert_eq!(out, "a1");
    let out = mem.save_reply(7, Err("timeout".to_string()), 2);
    assert_eq!(out, "发生错误了喵：timeout");
    let conv = mem.load_mem(7, "q2", 3, &cfg);
    assert_eq!(
        conv,
        vec![
            ChatMessage::System("你是猫娘".to_string()),
            ChatMessage::Assistant("a1".to_string()),
            ChatMessage::Assistant("发生错误了喵：timeout".to_string()),
            ChatMessage::User("q2".to_string()),
        ]
    );
    // another user's question and answer leave user 7 alone
    mem.load_mem(8, "hey", 3, &cfg);
    mem.save_reply(8, Ok("喵".to_string()), 3);
    assert_eq!(mem.load_mem(7, "q3", 3, &cfg).len(), 4);
}

#[test]
fn memory_with_zero_window_keeps_nothing() {
    let mut cfg = model();
    cfg.role_max_message = 0;
    let mut mem = NyaCatMemory::new();
    assert_eq!(mem.load_mem(1, "q", 5, &cfg), vec![ChatMessage::System("你是猫娘".to_string())]);
}

#[test]
fn long_replies_are_cut_into_pieces() {
    let mut cfg = model();
    let plan = reply_as_im(&cfg, "喵。好的。。");
    assert_eq!(plan, vec![(1000, "喵".to_string()), (1000, "好的".to_string())]);
    cfg.dot_wait_pre_char_ms = Some(10);
    let plan = reply_as_im(&cfg, "喵。ab。好的喵");
    assert_eq!(
        plan,
        vec![(10, "喵".to_string()), (20, "ab".to_string()), (30, "好的喵".to_string())]
    );
    assert!(reply_as_im(&cfg, "。。").is_empty());
}

#[test]
fn model_replies() {
    assert_eq!(completion_text(&vec![Some("a".to_string()), Some("b".to_string())]), Some("a".to_string()));
    assert_eq!(completion_text(&vec![None, Some("b".to_string())]), None);
    assert_eq!(completion_text(&vec![]), None);
    assert_eq!(reply_or_error(Ok("喵".to_string())), "喵");
    assert_eq!(reply_or_error(Err("timeout".to_string())), "发生错误了喵：timeout");
}
