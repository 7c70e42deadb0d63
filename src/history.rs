//! Conversation history upkeep: trimming to a ceiling and reducing a history
//! to one system prompt and one user turn.
use vstd::prelude::*;
use crate::types::{is_system_role, is_user_role, system_role, user_role, ChatMessage};

verus! {

/// The most non-system messages a history keeps after a turn.
pub const MAX_HISTORY_MESSAGES: usize = 50;

/// Whether the history opens with a system message.
pub open spec fn has_leading_system(h: Seq<ChatMessage>) -> bool {
    h.len() > 0 && h[0].role@ == system_role()
}

/// The history after trimming to at most `max` non-system messages: the
/// leading system message (if any) stays first, followed by the most recent
/// `max` of the others.
pub open spec fn trimmed(h: Seq<ChatMessage>, max: int) -> Seq<ChatMessage> {
    let start: int = if has_leading_system(h) { 1 } else { 0 };
    if h.len() - start <= max {
        h
    } else {
        h.subrange(0, start) + h.subrange(h.len() - max, h.len() as int)
    }
}

/// Trimming a history that opens with a system message and holds more than
/// `max` others leaves `1 + max` messages: the system message first, then
/// the most recent `max` of the others, in order.
pub proof fn lemma_trim_keeps_system_and_latest(h: Seq<ChatMessage>, max: int)
    requires
        0 <= max,
        has_leading_system(h),
        h.len() - 1 > max,
    ensures
        trimmed(h, max).len() == 1 + max,
        trimmed(h, max)[0] == h[0],
        trimmed(h, max).subrange(1, 1 + max) == h.subrange(h.len() - max, h.len() as int),
{
    assert(trimmed(h, max).subrange(1, 1 + max) =~= h.subrange(h.len() - max, h.len() as int));
}

/// Drops the oldest non-system messages until at most `max` remain.
pub fn trim_history_to(history: &mut Vec<ChatMessage>, max: usize)
    ensures
        final(history)@ == trimmed(old(history)@, max as int),
{
    let has_system = history.len() > 0 && is_system_role(&history[0].role);
    let start: usize = if has_system { 1 } else { 0 };
    let non_system = history.len() - start;
    if non_system <= max {
        return;
    }
    let to_remove = non_system - max;
    let ghost h = history@;
    let mut removed: usize = 0;
    while removed < to_remove
        invariant
            start <= h.len(),
            to_remove + max + start == h.len(),
            removed <= to_remove,
            history@ == h.subrange(0, start as int) + h.subrange(start + removed, h.len() as int),
        decreases to_remove - removed,
    {
        history.remove(start);
        removed = removed + 1;
        assert(history@ =~= h.subrange(0, start as int) + h.subrange(start + removed, h.len() as int));
    }
    assert(history@ =~= trimmed(h, max as int));
}

/// Trims the history to the session ceiling of non-system messages.
pub fn trim_history(history: &mut Vec<ChatMessage>)
    ensures
        final(history)@ == trimmed(old(history)@, MAX_HISTORY_MESSAGES as int),
{
    trim_history_to(history, MAX_HISTORY_MESSAGES);
}

/// The index of the first message with role `role`.
pub open spec fn first_with_role(h: Seq<ChatMessage>, role: Seq<char>) -> Option<int>
    decreases h.len(),
{
    if h.len() == 0 {
        None
    } else if h[0].role@ == role {
        Some(0)
    } else {
        match first_with_role(h.drop_first(), role) {
            Some(i) => Some(i + 1),
            None => None,
        }
    }
}

/// The index of the last message with role `role`.
pub open spec fn last_with_role(h: Seq<ChatMessage>, role: Seq<char>) -> Option<int>
    decreases h.len(),
{
    if h.len() == 0 {
        None
    } else if h.last().role@ == role {
        Some(h.len() - 1)
    } else {
        last_with_role(h.drop_last(), role)
    }
}

proof fn lemma_first_in_range(h: Seq<ChatMessage>, role: Seq<char>)
    ensures
        first_with_role(h, role) matches Some(i) ==> 0 <= i < h.len() && h[i].role@ == role,
    decreases h.len(),
{
    if h.len() > 0 && h[0].role@ != role {
        lemma_first_in_range(h.drop_first(), role);
    }
}

proof fn lemma_last_in_range(h: Seq<ChatMessage>, role: Seq<char>)
    ensures
        last_with_role(h, role) matches Some(i) ==> 0 <= i < h.len() && h[i].role@ == role,
    decreases h.len(),
{
    if h.len() > 0 && h.last().role@ != role {
        lemma_last_in_range(h.drop_last(), role);
    }
}

fn first_system_index(messages: &Vec<ChatMessage>) -> (r: Option<usize>)
    ensures
        (match first_with_role(messages@, system_role()) {
            Some(k) => r is Some && r->0 as int == k,
            None => r is None,
        }),
{
    let mut i: usize = 0;
    assert(messages@.subrange(0, messages@.len() as int) =~= messages@);
    while i < messages.len()
        invariant
            i <= messages@.len(),
            first_with_role(messages@, system_role()) == (match first_with_role(
                messages@.subrange(i as int, messages@.len() as int),
                system_role(),
            ) {
                Some(k) => Some(k + i),
                None => None,
            }),
        decreases messages@.len() - i,
    {
        assert(messages@.subrange(i as int, messages@.len() as int).drop_first() =~= messages@.subrange(
            i + 1,
            messages@.len() as int,
        ));
        if is_system_role(&messages[i].role) {
            return Some(i);
        }
        i = i + 1;
    }
    assert(messages@.subrange(i as int, messages@.len() as int).len() == 0);
    None
}

fn last_user_index(messages: &Vec<ChatMessage>) -> (r: Option<usize>)
    ensures
        (match last_with_role(messages@, user_role()) {
            Some(k) => r is Some && r->0 as int == k,
            None => r is None,
        }),
{
    let mut j: usize = messages.len();
    assert(messages@.subrange(0, messages@.len() as int) =~= messages@);
    while j > 0
        invariant
            j <= messages@.len(),
            last_with_role(messages@, user_role()) == last_with_role(
                messages@.subrange(0, j as int),
                user_role(),
            ),
        decreases j,
    {
        assert(messages@.subrange(0, j as int).drop_last() =~= messages@.subrange(0, j - 1));
        if is_user_role(&messages[j - 1].role) {
            return Some(j - 1);
        }
        j = j - 1;
    }
    None
}

/// A history reduced to a single turn: the first system message's content
/// and the last user message's content (empty when there is none).
pub fn single_turn(messages: &Vec<ChatMessage>) -> (r: (Option<String>, String))
    ensures
        (match first_with_role(messages@, system_role()) {
            Some(i) => 0 <= i < messages@.len() && r.0 == Some(messages@[i].content),
            None => r.0 is None,
        }),
        (match last_with_role(messages@, user_role()) {
            Some(i) => 0 <= i < messages@.len() && r.1 == messages@[i].content,
            None => r.1@.len() == 0,
        }),
{
    proof {
        lemma_first_in_range(messages@, system_role());
        lemma_last_in_range(messages@, user_role());
    }
    let system = match first_system_index(messages) {
        Some(i) => Some(messages[i].content.clone()),
        None => None,
    };
    let last_user = match last_user_index(messages) {
        Some(j) => messages[j].content.clone(),
        None => String::new(),
    };
    (system, last_user)
}

} // verus!
