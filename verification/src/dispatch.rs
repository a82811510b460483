//! From a button press to a decision: the caller is checked, the token is
//! recognised, the cooldown is consulted where the action calls for it, and
//! the conversation moves to its next state.

use vstd::prelude::*;
use std::collections::HashMap;
use crate::config::{allowed, is_allowed, Config};
use crate::debounce::{accepts, after_attempt, DebounceTable};
use crate::outcome::{
    ActionToken, TOKEN_CANCEL, TOKEN_SHUTDOWN_CONFIRM, TOKEN_SHUTDOWN_YES, TOKEN_STATUS, TOKEN_WOL,
};
use crate::outcome::token_text;
use crate::text::{lowercased, same_text, to_lowercase};

verus! {

broadcast use vstd::std_specs::hash::group_hash_axioms;

/// Where a conversation stands.
#[derive(Clone, Copy, Debug, PartialEq, Eq, Structural)]
pub enum ConversationState {
    /// Nothing is pending.
    Idle,
    /// The caller was asked to confirm a shutdown and has not answered.
    AwaitingShutdownConfirm,
}

/// What is to be done about one button press.
#[derive(Clone, Copy, Debug, PartialEq, Eq, Structural)]
pub enum Decision {
    /// The caller is not allowed: nothing is done and nothing is shown.
    Deny,
    /// The token is not a command here: the caller is told so.
    Unknown,
    /// The caller acted too recently: the caller is asked to wait.
    PleaseWait,
    /// Wake the server.
    Wake,
    /// Show the confirm-or-cancel prompt.
    AskConfirm,
    /// Shut the server down.
    Shutdown,
    /// Probe the server.
    Status,
    /// Drop what was pending and show the main menu.
    Cancel,
}

/// The decision on a press, the state the conversation moves to, and whether
/// the press is acknowledged to the chat platform.
#[derive(Clone, Copy, Debug, PartialEq, Eq, Structural)]
pub struct Step {
    pub decision: Decision,
    pub next: ConversationState,
    pub acknowledge: bool,
}

/// The token that a text stands for, if it is one of the five.
pub open spec fn token_of(s: Seq<char>) -> Option<ActionToken> {
    if s == TOKEN_WOL@ {
        Some(ActionToken::Wol)
    } else if s == TOKEN_SHUTDOWN_CONFIRM@ {
        Some(ActionToken::ShutdownConfirm)
    } else if s == TOKEN_SHUTDOWN_YES@ {
        Some(ActionToken::ShutdownYes)
    } else if s == TOKEN_STATUS@ {
        Some(ActionToken::Status)
    } else if s == TOKEN_CANCEL@ {
        Some(ActionToken::Cancel)
    } else {
        None
    }
}

/// Whether a decision sets a remote operation going.
pub open spec fn has_remote_effect(d: Decision) -> bool {
    d == Decision::Wake || d == Decision::Shutdown || d == Decision::Status
}

/// Whether the cooldown is consulted for this token in this state. It is not
/// for a cancel, for an unknown token, or for a confirmation that nothing
/// asked for.
pub open spec fn gated(state: ConversationState, token: Option<ActionToken>) -> bool {
    match token {
        Some(ActionToken::Wol) => true,
        Some(ActionToken::ShutdownConfirm) => true,
        Some(ActionToken::Status) => true,
        Some(ActionToken::ShutdownYes) => state == ConversationState::AwaitingShutdownConfirm,
        Some(ActionToken::Cancel) => false,
        None => false,
    }
}

/// The decision for an allowed caller; `fresh` is the cooldown's answer and
/// counts only where the cooldown is consulted.
pub open spec fn decision_of(
    state: ConversationState,
    token: Option<ActionToken>,
    fresh: bool,
) -> Decision {
    if gated(state, token) && !fresh {
        Decision::PleaseWait
    } else {
        match token {
            Some(ActionToken::Wol) => Decision::Wake,
            Some(ActionToken::ShutdownConfirm) => Decision::AskConfirm,
            Some(ActionToken::Status) => Decision::Status,
            Some(ActionToken::ShutdownYes) => if state
                == ConversationState::AwaitingShutdownConfirm {
                Decision::Shutdown
            } else {
                Decision::Unknown
            },
            Some(ActionToken::Cancel) => Decision::Cancel,
            None => Decision::Unknown,
        }
    }
}

/// The state after a decision: the prompt opens the confirmation, an action
/// or a cancel closes it, and a press that was turned away changes nothing.
pub open spec fn next_state(state: ConversationState, d: Decision) -> ConversationState {
    match d {
        Decision::Deny => state,
        Decision::Unknown => state,
        Decision::PleaseWait => state,
        Decision::AskConfirm => ConversationState::AwaitingShutdownConfirm,
        Decision::Wake => ConversationState::Idle,
        Decision::Shutdown => ConversationState::Idle,
        Decision::Status => ConversationState::Idle,
        Decision::Cancel => ConversationState::Idle,
    }
}

/// The whole transition. A caller who is not allowed is denied whatever the
/// token; whether such a press is acknowledged is the policy `ack_denied`.
pub open spec fn step_of(
    state: ConversationState,
    authorized: bool,
    token: Option<ActionToken>,
    fresh: bool,
    ack_denied: bool,
) -> Step {
    if !authorized {
        Step { decision: Decision::Deny, next: state, acknowledge: ack_denied }
    } else {
        Step {
            decision: decision_of(state, token, fresh),
            next: next_state(state, decision_of(state, token, fresh)),
            acknowledge: true,
        }
    }
}

/// Recognises a token.
pub fn parse_token(s: &str) -> (r: Option<ActionToken>)
    ensures
        r == token_of(s@),
{
    if same_text(s, TOKEN_WOL) {
        Some(ActionToken::Wol)
    } else if same_text(s, TOKEN_SHUTDOWN_CONFIRM) {
        Some(ActionToken::ShutdownConfirm)
    } else if same_text(s, TOKEN_SHUTDOWN_YES) {
        Some(ActionToken::ShutdownYes)
    } else if same_text(s, TOKEN_STATUS) {
        Some(ActionToken::Status)
    } else if same_text(s, TOKEN_CANCEL) {
        Some(ActionToken::Cancel)
    } else {
        None
    }
}

impl Decision {
    /// Whether this decision sets a remote operation going.
    pub fn remote_effect(&self) -> (r: bool)
        ensures
            r == has_remote_effect(*self),
    {
        match self {
            Decision::Wake => true,
            Decision::Shutdown => true,
            Decision::Status => true,
            _ => false,
        }
    }
}

/// Whether the cooldown is consulted for this token in this state.
pub fn requires_cooldown(state: ConversationState, token: Option<ActionToken>) -> (r: bool)
    ensures
        r == gated(state, token),
{
    match token {
        Some(ActionToken::Wol) => true,
        Some(ActionToken::ShutdownConfirm) => true,
        Some(ActionToken::Status) => true,
        Some(ActionToken::ShutdownYes) => state == ConversationState::AwaitingShutdownConfirm,
        Some(ActionToken::Cancel) => false,
        None => false,
    }
}

/// The decision for an allowed caller.
pub fn decide(state: ConversationState, token: Option<ActionToken>, fresh: bool) -> (r: Decision)
    ensures
        r == decision_of(state, token, fresh),
{
    if requires_cooldown(state, token) && !fresh {
        return Decision::PleaseWait;
    }
    match token {
        Some(ActionToken::Wol) => Decision::Wake,
        Some(ActionToken::ShutdownConfirm) => Decision::AskConfirm,
        Some(ActionToken::Status) => Decision::Status,
        Some(ActionToken::ShutdownYes) => {
            if state == ConversationState::AwaitingShutdownConfirm {
                Decision::Shutdown
            } else {
                Decision::Unknown
            }
        },
        Some(ActionToken::Cancel) => Decision::Cancel,
        None => Decision::Unknown,
    }
}

/// The state after a decision.
pub fn advance_state(state: ConversationState, d: Decision) -> (r: ConversationState)
    ensures
        r == next_state(state, d),
{
    match d {
        Decision::Deny => state,
        Decision::Unknown => state,
        Decision::PleaseWait => state,
        Decision::AskConfirm => ConversationState::AwaitingShutdownConfirm,
        _ => ConversationState::Idle,
    }
}

/// The state of a conversation in a table: the recorded one, and `Idle` for
/// a conversation that the table has not seen.
pub open spec fn state_in(m: Map<i64, ConversationState>, chat: i64) -> ConversationState {
    if m.contains_key(chat) {
        m[chat]
    } else {
        ConversationState::Idle
    }
}

/// The state of every conversation, by chat.
pub struct ConversationTable {
    states: HashMap<i64, ConversationState>,
}

impl View for ConversationTable {
    type V = Map<i64, ConversationState>;

    closed spec fn view(&self) -> Map<i64, ConversationState> {
        self.states@
    }
}

impl ConversationTable {
    /// A table that has seen no conversation.
    pub fn new() -> (r: Self)
        ensures
            r@ == Map::<i64, ConversationState>::empty(),
    {
        ConversationTable { states: HashMap::new() }
    }

    /// The state of one conversation.
    pub fn state(&self, chat: i64) -> (r: ConversationState)
        ensures
            r == state_in(self@, chat),
    {
        match self.states.get(&chat) {
            Some(s) => *s,
            None => ConversationState::Idle,
        }
    }

    /// Records the state of one conversation.
    pub fn set(&mut self, chat: i64, state: ConversationState)
        ensures
            final(self)@ == old(self)@.insert(chat, state),
    {
        self.states.insert(chat, state);
    }
}

/// The mutable part of the core: who acted when, where each conversation
/// stands, and the two settings of the transition.
pub struct Dispatcher {
    pub debounce: DebounceTable,
    pub conversations: ConversationTable,
    /// The cooldown, in the unit of the instants handed to `dispatch`.
    pub window: u64,
    /// Whether a press by a caller who is not allowed is acknowledged.
    pub acknowledge_denied: bool,
}

impl Dispatcher {
    /// A dispatcher that has seen nothing yet.
    pub fn new(window: u64, acknowledge_denied: bool) -> (r: Self)
        ensures
            r.debounce@ == Map::<u64, u64>::empty(),
            r.conversations@ == Map::<i64, ConversationState>::empty(),
            r.window == window,
            r.acknowledge_denied == acknowledge_denied,
    {
        Dispatcher {
            debounce: DebounceTable::new(),
            conversations: ConversationTable::new(),
            window,
            acknowledge_denied,
        }
    }

    /// Handles one button press in conversation `chat` by caller `identity`
    /// at instant `now`.
    ///
    /// The step returned is the transition for the conversation's state, the
    /// caller's standing, the token and the cooldown's answer. The cooldown
    /// is consulted, and an accepted attempt recorded, only for an allowed
    /// caller and a token that is gated in that state; the conversation's
    /// state is recorded only where it changes. No other conversation and no
    /// other caller is touched.
    pub fn dispatch(
        &mut self,
        config: &Config,
        chat: i64,
        identity: Option<u64>,
        token: &str,
        now: u64,
    ) -> (step: Step)
        ensures
            step == step_of(
                state_in(old(self).conversations@, chat),
                allowed(config.allowed_users@, identity),
                token_of(token@),
                identity is Some && accepts(old(self).debounce@, identity->0, now, old(self).window),
                old(self).acknowledge_denied,
            ),
            final(self).window == old(self).window,
            final(self).acknowledge_denied == old(self).acknowledge_denied,
            final(self).debounce@ == if allowed(config.allowed_users@, identity) && gated(
                state_in(old(self).conversations@, chat),
                token_of(token@),
            ) {
                after_attempt(old(self).debounce@, identity->0, now, old(self).window)
            } else {
                old(self).debounce@
            },
            final(self).conversations@ == if step.next == state_in(old(self).conversations@, chat) {
                old(self).conversations@
            } else {
                old(self).conversations@.insert(chat, step.next)
            },
            state_in(final(self).conversations@, chat) == step.next,
    {
        let state: ConversationState = self.conversations.state(chat);
        if !is_allowed(config, identity) {
            return Step { decision: Decision::Deny, next: state, acknowledge: self.acknowledge_denied };
        }
        let uid: u64 = match identity {
            Some(uid) => uid,
            None => {
                return Step {
                    decision: Decision::Deny,
                    next: state,
                    acknowledge: self.acknowledge_denied,
                };
            },
        };
        let token: Option<ActionToken> = parse_token(token);
        let fresh: bool = if requires_cooldown(state, token) {
            self.debounce.try_accept(uid, now, self.window)
        } else {
            true
        };
        let decision: Decision = decide(state, token, fresh);
        let next: ConversationState = advance_state(state, decision);
        if next != state {
            self.conversations.set(chat, next);
        }
        Step { decision, next, acknowledge: true }
    }
}

/// The command that asks for the main menu.
pub const COMMAND_START: &'static str = "/start";

/// A second command that asks for the main menu.
pub const COMMAND_WOL: &'static str = "/wol";

/// What is to be done about a text message.
#[derive(Clone, Copy, Debug, PartialEq, Eq, Structural)]
pub enum MessageAction {
    /// The caller is not allowed: nothing is done.
    Deny,
    /// Send the main menu.
    ShowMenu,
    /// The message has no text, or its text is no command: nothing is sent.
    Ignore,
}

/// Whether a text, already in lower case, asks for the main menu.
pub open spec fn is_menu_command(lowered: Seq<char>) -> bool {
    lowered == COMMAND_START@ || lowered == COMMAND_WOL@
}

/// What is to be done about a message, given whether its sender is allowed
/// and its text in lower case, if it has any.
pub open spec fn message_action_of(authorized: bool, lowered: Option<Seq<char>>) -> MessageAction {
    if !authorized {
        MessageAction::Deny
    } else if lowered is Some && is_menu_command(lowered->0) {
        MessageAction::ShowMenu
    } else {
        MessageAction::Ignore
    }
}

/// Whether a text, already in lower case, asks for the main menu.
pub fn menu_command(lowered: &str) -> (r: bool)
    ensures
        r == is_menu_command(lowered@),
{
    same_text(lowered, COMMAND_START) || same_text(lowered, COMMAND_WOL)
}

/// Decides what to do about a text message: the sender is checked first,
/// then the text is compared, whatever its case, with the two commands.
pub fn message_handler(config: &Config, user_id: Option<u64>, text: Option<&str>) -> (r:
    MessageAction)
    ensures
        r == message_action_of(
            allowed(config.allowed_users@, user_id),
            match text {
                Some(t) => Some(lowercased(t@)),
                None => None,
            },
        ),
{
    if !is_allowed(config, user_id) {
        return MessageAction::Deny;
    }
    match text {
        Some(t) => {
            let lowered: String = to_lowercase(t);
            if menu_command(lowered.as_str()) {
                MessageAction::ShowMenu
            } else {
                MessageAction::Ignore
            }
        },
        None => MessageAction::Ignore,
    }
}

/// A caller who is not allowed is denied whatever the token, the state and
/// the cooldown: nothing remote is started and the conversation stays where
/// it is.
pub proof fn lemma_denied_is_inert(
    state: ConversationState,
    token: Option<ActionToken>,
    fresh: bool,
    ack_denied: bool,
)
    ensures
        step_of(state, false, token, fresh, ack_denied).decision == Decision::Deny,
        !has_remote_effect(step_of(state, false, token, fresh, ack_denied).decision),
        step_of(state, false, token, fresh, ack_denied).next == state,
{
}

/// A shutdown is decided only on a confirmation, by an allowed caller, in a
/// conversation that is awaiting one. In particular a confirmation or a
/// cancel in an idle conversation starts nothing remote and leaves it idle.
pub proof fn lemma_shutdown_needs_prompt(
    state: ConversationState,
    authorized: bool,
    token: Option<ActionToken>,
    fresh: bool,
    ack_denied: bool,
)
    ensures
        step_of(state, authorized, token, fresh, ack_denied).decision == Decision::Shutdown ==> {
            &&& authorized
            &&& state == ConversationState::AwaitingShutdownConfirm
            &&& token == Some(ActionToken::ShutdownYes)
            &&& fresh
        },
        state == ConversationState::Idle && (token == Some(ActionToken::ShutdownYes) || token
            == Some(ActionToken::Cancel)) ==> {
            &&& !has_remote_effect(step_of(state, authorized, token, fresh, ack_denied).decision)
            &&& step_of(state, authorized, token, fresh, ack_denied).next == ConversationState::Idle
        },
{
}

/// A caller is asked to wait exactly when the cooldown was consulted and
/// turned the press away; such a press starts nothing remote, moves no
/// conversation and, by the cooldown's own rule, records nothing.
pub proof fn lemma_wait_means_rejected(
    state: ConversationState,
    token: Option<ActionToken>,
    fresh: bool,
)
    ensures
        decision_of(state, token, fresh) == Decision::PleaseWait <==> gated(state, token) && !fresh,
        !has_remote_effect(Decision::PleaseWait),
        next_state(state, Decision::PleaseWait) == state,
{
}

/// A conversation comes to await a confirmation only by the prompt: either
/// this step decided to show it, or the conversation was awaiting already.
pub proof fn lemma_prompt_opens_confirmation(
    state: ConversationState,
    authorized: bool,
    token: Option<ActionToken>,
    fresh: bool,
    ack_denied: bool,
)
    requires
        step_of(state, authorized, token, fresh, ack_denied).next
            == ConversationState::AwaitingShutdownConfirm,
    ensures
        state == ConversationState::AwaitingShutdownConfirm || (authorized && token == Some(
            ActionToken::ShutdownConfirm,
        ) && fresh),
{
}

/// Each token is recognised from the text it travels as.
pub proof fn lemma_token_round_trip(t: ActionToken)
    ensures
        token_of(token_text(t)) == Some(t),
{
    reveal_strlit("wol");
    reveal_strlit("shutdown_confirm");
    reveal_strlit("shutdown_yes");
    reveal_strlit("status");
    reveal_strlit("cancel");
    assert(TOKEN_WOL@.len() == 3);
    assert(TOKEN_SHUTDOWN_CONFIRM@.len() == 16);
    assert(TOKEN_SHUTDOWN_YES@.len() == 12);
    assert(TOKEN_STATUS@.len() == 6);
    assert(TOKEN_CANCEL@.len() == 6);
    assert(TOKEN_STATUS@[0] == 's');
    assert(TOKEN_CANCEL@[0] == 'c');
}

} // verus!
