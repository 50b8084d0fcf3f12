//! What the group member card of an account says.
use vstd::prelude::*;

verus! {

/// A group member's card, as the bot's API returns it.
#[derive(Debug, Clone)]
pub struct MemberInfo {
    pub group_id: i64,
    pub user_id: i64,
    pub nickname: String,
    pub card: String,
    /// "male", "female" or "unknown".
    pub sex: String,
    pub age: i32,
    pub area: String,
    pub join_time: i32,
    pub last_sent_time: i32,
    pub level: String,
    /// "owner", "admin" or "member".
    pub role: String,
    pub unfriendly: bool,
    pub title: String,
    pub title_expire_time: i32,
    pub card_changeable: bool,
}

} // verus!
