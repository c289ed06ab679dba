//! Silencing: every message of a silenced user is deleted.
use vstd::prelude::*;
use std::collections::HashSet;
use crate::handler_struct::GuildInstance;

verus! {

/// Per guild settings for silencing users.
pub struct SilenceSettings {
    /// The silenced users.
    pub users: HashSet<u64>,
    /// The notice posted in reply to a deleted message, if any.
    pub msg: Option<String>,
}

/// The abstract content of [`SilenceSettings`].
pub ghost struct SilenceView {
    pub users: Set<u64>,
    pub msg: Option<Seq<char>>,
}

/// The characters of an optional string.
pub open spec fn opt_chars(s: Option<String>) -> Option<Seq<char>> {
    match s {
        Some(t) => Some(t@),
        None => None,
    }
}

impl View for SilenceSettings {
    type V = SilenceView;

    open spec fn view(&self) -> SilenceView {
        SilenceView { users: self.users@, msg: opt_chars(self.msg) }
    }
}

/// Settings of a guild that has not changed them: nobody silenced, no notice.
pub open spec fn initial_silence() -> SilenceView {
    SilenceView { users: Set::empty(), msg: None }
}

impl SilenceSettings {
    pub fn new() -> (r: Self)
        ensures
            r@ == initial_silence(),
    {
        SilenceSettings { users: HashSet::new(), msg: None }
    }
}

} // verus!

verus! {

/// What happens to a message because of silencing.
pub enum SilenceVerdict {
    /// The message stays.
    Keep,
    /// The message is deleted, and the notice, if any, is posted in reply.
    Remove { notice: Option<String> },
}

/// A message of `author` is removed when the author is silenced and not one of
/// the `superwhitelisted` users.
pub open spec fn silenced(s: SilenceView, author: u64, superwhitelisted: Seq<u64>) -> bool {
    s.users.contains(author) && !superwhitelisted.contains(author)
}

/// Decides what happens to a message of `author` in the guild `gi`.
pub fn silence_user(gi: &GuildInstance, author: u64, superwhitelisted_ids: &[u64]) -> (r:
    SilenceVerdict)
    ensures
        (r is Remove) == silenced(gi@.settings.silence_settings, author, superwhitelisted_ids@),
        r matches SilenceVerdict::Remove { notice } ==> opt_chars(notice)
            == gi@.settings.silence_settings.msg,
{
    broadcast use vstd::std_specs::hash::group_hash_axioms;

    let settings = &gi.gs.silence_settings;
    if settings.users.contains(&author) && !crate::text::id_listed(superwhitelisted_ids, author) {
        let notice = match &settings.msg {
            Some(m) => Some(m.clone()),
            None => None,
        };
        SilenceVerdict::Remove { notice }
    } else {
        SilenceVerdict::Keep
    }
}

} // verus!
