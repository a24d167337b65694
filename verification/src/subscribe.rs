use crate::table::KeyedTable;
use vstd::prelude::*;

verus! {

/// The registry of subscriptions and of the workers that push to them.
pub struct SubscribeManager {
    pub subscribe_list: KeyedTable,
    pub exclusive_push: KeyedTable,
    pub exclusive_push_thread: KeyedTable,
    pub share_leader_push: KeyedTable,
    pub share_leader_push_thread: KeyedTable,
    pub share_follower_resub: KeyedTable,
    pub share_follower_resub_thread: KeyedTable,
}

impl SubscribeManager {
    pub fn new() -> (manager: Self)
        ensures
            manager.subscribe_list@.len() == 0,
            manager.exclusive_push@.len() == 0,
            manager.exclusive_push_thread@.len() == 0,
            manager.share_leader_push@.len() == 0,
            manager.share_leader_push_thread@.len() == 0,
            manager.share_follower_resub@.len() == 0,
            manager.share_follower_resub_thread@.len() == 0,
    {
        SubscribeManager {
            subscribe_list: KeyedTable::new(),
            exclusive_push: KeyedTable::new(),
            exclusive_push_thread: KeyedTable::new(),
            share_leader_push: KeyedTable::new(),
            share_leader_push_thread: KeyedTable::new(),
            share_follower_resub: KeyedTable::new(),
            share_follower_resub_thread: KeyedTable::new(),
        }
    }
}

} // verus!
