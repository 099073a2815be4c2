use vstd::prelude::*;

verus! {

/// One observable step of a conversation turn, in the order the turn
/// performs them. `LookupBinding` and `PutBinding`/`DeleteBinding` are
/// the only touches of the session store; `CreateRemoteThread` and
/// `DeleteRemoteThread` the only touches of the remote thread store;
/// `SubmitRun` starts the run whose outcome `SendReply` relays.
#[derive(Clone, Copy, Debug, PartialEq, Eq, Structural)]
pub enum Effect {
    SendGreeting,
    LookupBinding,
    DeleteRemoteThread,
    DeleteBinding,
    SendResetNotice,
    CreateRemoteThread,
    PutBinding,
    SubmitRun,
    SendReply,
}

/// What a turn does once the binding lookup has answered.
#[derive(Clone, Debug, PartialEq, Eq)]
pub enum TurnAction {
    /// A bound chat asked for a reset: drop the remote thread and the
    /// binding, confirm, and run nothing.
    Reset { thread_id: String },
    /// A bound chat sent an ordinary message: run it on the bound thread.
    RunExisting { thread_id: String },
    /// An unbound chat sent a message: create a thread, bind it, run the
    /// message on it. A reset request from an unbound chat lands here
    /// too, on purpose: it is submitted as ordinary run input.
    RunNew,
}

/// The effects a turn performs after the lookup, per action.
pub open spec fn action_effects(a: TurnAction) -> Seq<Effect> {
    match a {
        TurnAction::Reset { .. } => seq![
            Effect::DeleteRemoteThread,
            Effect::DeleteBinding,
            Effect::SendResetNotice,
        ],
        TurnAction::RunExisting { .. } => seq![Effect::SubmitRun, Effect::SendReply],
        TurnAction::RunNew => seq![
            Effect::CreateRemoteThread,
            Effect::PutBinding,
            Effect::SubmitRun,
            Effect::SendReply,
        ],
    }
}

/// The whole turn for a message `text` arriving while the session store
/// holds `binding` for the chat: the greeting is answered before
/// anything else is touched; every other text is looked up and then
/// handled per `action_effects`.
pub open spec fn turn_trace(text: Seq<char>, binding: Option<Seq<char>>) -> Seq<Effect> {
    if text == "/start"@ {
        seq![Effect::SendGreeting]
    } else {
        seq![Effect::LookupBinding] + (match binding {
            Some(_) => {
                if text == "/restart"@ {
                    seq![Effect::DeleteRemoteThread, Effect::DeleteBinding, Effect::SendResetNotice]
                } else {
                    seq![Effect::SubmitRun, Effect::SendReply]
                }
            },
            None => seq![
                Effect::CreateRemoteThread,
                Effect::PutBinding,
                Effect::SubmitRun,
                Effect::SendReply,
            ],
        })
    }
}

/// The thread identifier the store holds, as the contracts see it.
pub open spec fn binding_view(binding: Option<String>) -> Option<Seq<char>> {
    match binding {
        Some(t) => Some(t@),
        None => None,
    }
}

/// Character-for-character equality of two strings.
pub fn str_eq(a: &str, b: &str) -> (r: bool)
    ensures
        r <==> a@ == b@,
{
    let aa: String = a.to_owned();
    let bb: String = b.to_owned();
    aa == bb
}

/// Decide whether `text` is the greeting command, before any state is
/// touched: a greeting turn answers at once and never reaches the
/// session store or the thread store.
pub fn is_greeting(text: &str) -> (b: bool)
    ensures
        b <==> text@ == "/start"@,
{
    str_eq(text, "/start")
}

/// Decide what a non-greeting turn does, from the text and the lookup's
/// answer alone.
pub fn classify_turn(text: &str, binding: &Option<String>) -> (a: TurnAction)
    requires
        text@ != "/start"@,
    ensures
        (*binding) matches Some(t) ==> (if text@ == "/restart"@ {
            a matches TurnAction::Reset { thread_id } && thread_id@ == t@
        } else {
            a matches TurnAction::RunExisting { thread_id } && thread_id@ == t@
        }),
        (*binding) is None ==> a == TurnAction::RunNew,
        seq![Effect::LookupBinding] + action_effects(a) == turn_trace(
            text@,
            binding_view(*binding),
        ),
{
    match binding {
        Some(t) => {
            if str_eq(text, "/restart") {
                TurnAction::Reset { thread_id: t.clone() }
            } else {
                TurnAction::RunExisting { thread_id: t.clone() }
            }
        },
        None => TurnAction::RunNew,
    }
}

/// Runtime counterpart of `action_effects`: the steps a turn performs
/// for its action, in order.
pub fn turn_effects(a: &TurnAction) -> (es: Vec<Effect>)
    ensures
        es@ == action_effects(*a),
{
    let mut es: Vec<Effect> = Vec::new();
    match a {
        TurnAction::Reset { .. } => {
            es.push(Effect::DeleteRemoteThread);
            es.push(Effect::DeleteBinding);
            es.push(Effect::SendResetNotice);
        },
        TurnAction::RunExisting { .. } => {
            es.push(Effect::SubmitRun);
            es.push(Effect::SendReply);
        },
        TurnAction::RunNew => {
            es.push(Effect::CreateRemoteThread);
            es.push(Effect::PutBinding);
            es.push(Effect::SubmitRun);
            es.push(Effect::SendReply);
        },
    }
    proof {
        assert(es@ =~= action_effects(*a));
    }
    es
}

/// The fixed greeting answer.
pub fn greeting_text() -> (r: &'static str)
    ensures
        r@ == "Hello, I am ready!"@,
{
    "Hello, I am ready!"
}

/// The fixed answer confirming a reset.
pub fn reset_text() -> (r: &'static str)
    ensures
        r@ == "Great! Lets start a new conversation."@,
{
    "Great! Lets start a new conversation."
}

/// The fixed answer for a turn that could not get a remote thread: the
/// one remote failure with no way to proceed, contained to the turn.
pub fn thread_failure_text() -> (r: &'static str)
    ensures
        r@ == "Sorry, I could not start a conversation. Please try again."@,
{
    "Sorry, I could not start a conversation. Please try again."
}

/// A first contact: with no binding held, any text but the greeting
/// makes exactly one remote-thread creation and exactly one binding
/// write, both before the one run submission.
pub proof fn lemma_first_contact(text: Seq<char>)
    requires
        text != "/start"@,
    ensures
        ({
            let es = turn_trace(text, None);
            &&& es.len() == 5
            &&& es[0] is LookupBinding
            &&& es[1] is CreateRemoteThread
            &&& es[2] is PutBinding
            &&& es[3] is SubmitRun
            &&& es[4] is SendReply
            &&& forall|j: int| 0 <= j < es.len() && j != 1 ==> !(es[j] is CreateRemoteThread)
            &&& forall|j: int| 0 <= j < es.len() && j != 2 ==> !(es[j] is PutBinding)
            &&& forall|j: int| 0 <= j < es.len() && j != 3 ==> !(es[j] is SubmitRun)
        }),
{
}

/// The greeting turn answers and does nothing else: no thread is
/// created or deleted, the session store is neither read nor written,
/// and no run is submitted, whatever the store may hold.
pub proof fn lemma_greeting_is_inert(binding: Option<Seq<char>>)
    ensures
        turn_trace("/start"@, binding) == seq![Effect::SendGreeting],
        forall|j: int|
            0 <= j < turn_trace("/start"@, binding).len() ==> turn_trace("/start"@, binding)[j]
                is SendGreeting,
{
}

/// A reset of a bound chat: exactly one remote-thread deletion and one
/// binding deletion, a fixed confirmation, and never a run.
pub proof fn lemma_reset_bound(thread: Seq<char>)
    ensures
        ({
            let es = turn_trace("/restart"@, Some(thread));
            &&& es.len() == 4
            &&& es[0] is LookupBinding
            &&& es[1] is DeleteRemoteThread
            &&& es[2] is DeleteBinding
            &&& es[3] is SendResetNotice
            &&& forall|j: int| 0 <= j < es.len() && j != 1 ==> !(es[j] is DeleteRemoteThread)
            &&& forall|j: int| 0 <= j < es.len() && j != 2 ==> !(es[j] is DeleteBinding)
            &&& forall|j: int| 0 <= j < es.len() ==> !(es[j] is SubmitRun)
        }),
{
    reveal_strlit("/start");
    reveal_strlit("/restart");
    assert("/restart"@.len() == 8);
    assert("/start"@.len() == 6);
}

/// A reset request from a chat with no binding is not special: it runs
/// as a first contact would, with the text submitted as ordinary run
/// input.
pub proof fn lemma_reset_unbound()
    ensures
        turn_trace("/restart"@, None) == turn_trace("hello"@, None),
        ({
            let es = turn_trace("/restart"@, None);
            exists|j: int| 0 <= j < es.len() && es[j] is SubmitRun
        }),
{
    reveal_strlit("/start");
    reveal_strlit("/restart");
    reveal_strlit("hello");
    assert("/restart"@.len() == 8);
    assert("/start"@.len() == 6);
    assert("hello"@.len() == 5);
    assert(turn_trace("/restart"@, None)[3] is SubmitRun);
}

} // verus!
