use buschat::handoff::Handoff;
use buschat::input::SendIntent;

fn intent(to: &str, msg: &str) -> SendIntent {
    SendIntent { to: to.to_string(), msg: msg.to_string() }
}

#[test]
fn offer_into_free_slot_is_accepted() {
    let mut q = Handoff::new();
    assert!(q.is_free());
    let back = q.offer(intent("bob", "hi"));
    assert!(back.is_none());
    assert!(!q.is_free());
}

#[test]
fn second_offer_is_refused_until_taken() {
    let mut q = Handoff::new();
    assert!(q.offer(intent("bob", "first")).is_none());
    let back = q.offer(intent("bob", "second"));
    match back {
        Some(refused) => {
            assert_eq!(refused.msg, "second");
        }
        None => panic!("a full slot must refuse the offer"),
    }
    let got = q.take().expect("the first intent is pending");
    assert_eq!(got.msg, "first");
    assert!(q.is_free());
    assert!(q.offer(intent("bob", "second")).is_none());
}

#[test]
fn take_from_empty_slot_gives_nothing() {
    let mut q = Handoff::new();
    assert!(q.take().is_none());
    assert!(q.is_free());
}

#[test]
fn take_frees_and_returns_what_was_offered() {
    let mut q = Handoff::new();
    q.offer(intent("carol", "message"));
    let got = q.take().expect("one intent is pending");
    assert_eq!(got.to, "carol");
    assert_eq!(got.msg, "message");
    assert!(q.take().is_none());
}
