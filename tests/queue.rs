use ruffle_context::action::is_removed;
use ruffle_context::{ActionQueue, ActionType, DisplayObject, QueuedActions, SwfSlice, SystemListener, Value};

fn clip(id: u64) -> DisplayObject {
    DisplayObject { id }
}

fn method(name: &'static str) -> ActionType {
    ActionType::Method { name }
}

fn method_name(q: &QueuedActions) -> &'static str {
    match &q.action_type {
        ActionType::Method { name } => name,
        _ => panic!("not a method action"),
    }
}

#[test]
fn new_queue_is_empty() {
    let mut q = ActionQueue::new();
    assert!(q.is_empty());
    assert_eq!(q.len(), 0);
    assert!(q.pop().is_none());
    let mut d = ActionQueue::default();
    assert!(d.pop().is_none());
}

#[test]
fn pops_in_queue_order() {
    let names = ["a", "b", "c", "d", "e"];
    let mut q = ActionQueue::new();
    for (i, n) in names.iter().enumerate() {
        q.queue_actions(clip(i as u64), method(n), false);
    }
    assert_eq!(q.len(), 5);
    for (i, n) in names.iter().enumerate() {
        let a = q.pop().unwrap();
        assert_eq!(method_name(&a), *n);
        assert_eq!(a.clip, clip(i as u64));
        assert!(!a.is_unload);
    }
    assert!(q.pop().is_none());
}

#[test]
fn queued_fields_are_kept() {
    let mut q = ActionQueue::new();
    let slice = SwfSlice::new(10, 4).unwrap();
    q.queue_actions(clip(3), ActionType::Init { bytecode: slice }, true);
    let a = q.pop().unwrap();
    assert_eq!(a.clip, clip(3));
    assert!(a.is_unload);
    match a.action_type {
        ActionType::Init { bytecode } => {
            assert_eq!(bytecode.start, 10);
            assert_eq!(bytecode.end, 14);
            assert_eq!(bytecode.len(), 4);
        }
        _ => panic!("wrong kind"),
    }
}

#[test]
fn removed_clip_action_is_skipped() {
    let mut q = ActionQueue::new();
    q.queue_actions(clip(1), method("onEnterFrame"), false);
    let removed = vec![clip(1)];
    let ran = q.drain(&removed);
    assert!(ran.is_empty());
    assert!(q.is_empty());
}

#[test]
fn unload_action_survives_removal() {
    let mut q = ActionQueue::new();
    q.queue_actions(clip(1), method("onUnload"), true);
    let removed = vec![clip(1)];
    let ran = q.drain(&removed);
    assert_eq!(ran.len(), 1);
    assert_eq!(method_name(&ran[0]), "onUnload");
}

#[test]
fn drain_skips_only_removed_non_unload() {
    let mut q = ActionQueue::new();
    q.queue_actions(clip(10), method("A"), false);
    q.queue_actions(clip(20), method("B"), false);
    q.queue_actions(clip(10), method("C"), true);
    let removed = vec![clip(10)];
    let ran = q.drain(&removed);
    let names: Vec<&str> = ran.iter().map(method_name).collect();
    assert_eq!(names, vec!["B", "C"]);
    assert!(q.is_empty());
}

#[test]
fn pop_runnable_steps_through_drain() {
    let mut q = ActionQueue::new();
    q.queue_actions(clip(10), method("A"), false);
    q.queue_actions(clip(20), method("B"), false);
    q.queue_actions(clip(10), method("C"), true);
    let removed = vec![clip(10)];
    let b = q.pop_runnable(&removed).unwrap();
    assert_eq!(method_name(&b), "B");
    assert_eq!(q.len(), 1);
    q.queue_actions(clip(30), method("D"), false);
    assert_eq!(method_name(&q.pop_runnable(&removed).unwrap()), "C");
    assert_eq!(method_name(&q.pop_runnable(&removed).unwrap()), "D");
    assert!(q.pop_runnable(&removed).is_none());
}

#[test]
fn should_run_decision() {
    let a = QueuedActions { clip: clip(1), action_type: method("x"), is_unload: false };
    assert!(a.should_run(false));
    assert!(!a.should_run(true));
    let u = QueuedActions { clip: clip(1), action_type: method("x"), is_unload: true };
    assert!(u.should_run(true));
    assert!(u.should_run(false));
}

#[test]
fn removed_lookup() {
    let removed = vec![clip(4), clip(9)];
    assert!(is_removed(&removed, clip(9)));
    assert!(!is_removed(&removed, clip(5)));
    assert!(!is_removed(&Vec::new(), clip(4)));
}

#[test]
fn notify_listeners_traces_exactly_its_objects() {
    let args = vec![Value::Object(7), Value::Object(3), Value::Object(7)];
    let a = ActionType::NotifyListeners { listener: SystemListener::Mouse, method: "onMouseDown", args };
    let mut cc = Vec::new();
    a.trace(&mut cc);
    assert_eq!(cc, vec![7, 3, 7]);
}

#[test]
fn notify_listeners_skips_plain_values() {
    let args = vec![
        Value::Undefined,
        Value::Object(5),
        Value::Null,
        Value::Bool(true),
        Value::Int(-2),
        Value::Str(String::from("x")),
        Value::Object(6),
    ];
    let a = ActionType::NotifyListeners { listener: SystemListener::Key, method: "onKeyDown", args };
    let mut cc = vec![1];
    a.trace(&mut cc);
    assert_eq!(cc, vec![1, 5, 6]);
}

#[test]
fn other_actions_trace_nothing() {
    let s = SwfSlice::new(0, 8).unwrap();
    for a in [ActionType::Normal { bytecode: s }, ActionType::Init { bytecode: s }, method("onLoad")] {
        let mut cc = Vec::new();
        a.trace(&mut cc);
        assert!(cc.is_empty());
    }
}

#[test]
fn queue_trace_visits_clips_and_arguments() {
    let mut q = ActionQueue::new();
    q.queue_actions(clip(1), method("a"), false);
    let args = vec![Value::Object(40), Value::Int(1)];
    q.queue_actions(
        clip(2),
        ActionType::NotifyListeners { listener: SystemListener::Stage, method: "onResize", args },
        false,
    );
    let mut cc = Vec::new();
    q.trace(&mut cc);
    assert_eq!(cc, vec![1, 2, 40]);
    assert_eq!(q.len(), 2);
    let mut one = Vec::new();
    q.pop().unwrap().trace(&mut one);
    assert_eq!(one, vec![1]);
}

#[test]
fn slice_end_overflow() {
    assert!(SwfSlice::new(usize::MAX, 1).is_none());
    assert!(SwfSlice::new(usize::MAX, 0).is_some());
}
