use assistant_relay::turn::{
    classify_turn, greeting_text, is_greeting, reset_text, str_eq, thread_failure_text,
    turn_effects, Effect, TurnAction,
};

#[test]
fn greeting_is_exact_match() {
    assert!(is_greeting("/start"));
    assert!(!is_greeting("/start "));
    assert!(!is_greeting("start"));
    assert!(!is_greeting("/restart"));
    assert!(!is_greeting("hello"));
    assert!(!is_greeting(""));
}

#[test]
fn str_eq_compares_contents() {
    assert!(str_eq("abc", "abc"));
    assert!(!str_eq("abc", "abd"));
    assert!(!str_eq("abc", "ab"));
    assert!(str_eq("", ""));
}

#[test]
fn fixed_texts() {
    assert_eq!(greeting_text(), "Hello, I am ready!");
    assert_eq!(reset_text(), "Great! Lets start a new conversation.");
    assert!(!thread_failure_text().is_empty());
}

#[test]
fn unbound_message_starts_new_thread() {
    let a = classify_turn("hello", &None);
    assert_eq!(a, TurnAction::RunNew);
    let es = turn_effects(&a);
    assert_eq!(
        es,
        vec![
            Effect::CreateRemoteThread,
            Effect::PutBinding,
            Effect::SubmitRun,
            Effect::SendReply,
        ]
    );
}

#[test]
fn unbound_reset_is_ordinary_input() {
    let a = classify_turn("/restart", &None);
    assert_eq!(a, TurnAction::RunNew);
    let es = turn_effects(&a);
    assert!(es.contains(&Effect::SubmitRun));
    assert!(!es.contains(&Effect::DeleteRemoteThread));
    assert!(!es.contains(&Effect::DeleteBinding));
}

#[test]
fn bound_reset_tears_down_and_never_runs() {
    let a = classify_turn("/restart", &Some(String::from("thread_abc")));
    assert_eq!(
        a,
        TurnAction::Reset {
            thread_id: String::from("thread_abc")
        }
    );
    let es = turn_effects(&a);
    assert_eq!(
        es,
        vec![
            Effect::DeleteRemoteThread,
            Effect::DeleteBinding,
            Effect::SendResetNotice,
        ]
    );
    assert!(!es.contains(&Effect::SubmitRun));
}

#[test]
fn bound_message_reuses_thread() {
    let a = classify_turn("what is the weather", &Some(String::from("thread_abc")));
    assert_eq!(
        a,
        TurnAction::RunExisting {
            thread_id: String::from("thread_abc")
        }
    );
    let es = turn_effects(&a);
    assert_eq!(es, vec![Effect::SubmitRun, Effect::SendReply]);
    assert!(!es.contains(&Effect::CreateRemoteThread));
    assert!(!es.contains(&Effect::PutBinding));
}

#[test]
fn empty_text_is_an_ordinary_message() {
    let a = classify_turn("", &Some(String::from("thread_abc")));
    assert!(matches!(a, TurnAction::RunExisting { .. }));
    let b = classify_turn("", &None);
    assert_eq!(b, TurnAction::RunNew);
}
