use chat_relay::dispatcher::{Delivery, Dispatcher, Entry};
use chat_relay::message::{InnerMessage, Login, LoginResponse, NotifyLevel, RepeatLoginWarning};

fn s(text: &str) -> String {
    text.to_string()
}

fn entry(name: &str, handle: Option<u64>) -> Entry {
    Entry { name: s(name), handle }
}

fn out(to: u64, from: &str, content: &str) -> Delivery {
    Delivery { to, message: InnerMessage::Out { from: s(from), content: s(content) } }
}

fn users(to: u64, names: &[&str]) -> Delivery {
    Delivery { to, message: InnerMessage::Users(names.iter().map(|n| s(n)).collect()) }
}

fn warning(to: u64) -> Delivery {
    Delivery { to, message: InnerMessage::RepeatLogin(RepeatLoginWarning) }
}

fn three_online() -> Dispatcher {
    let mut d = Dispatcher::new();
    d.register(s("A"), 1);
    d.register(s("B"), 2);
    d.register(s("C"), 3);
    d
}

#[test]
fn new_registry_knows_nobody() {
    let d = Dispatcher::new();
    assert_eq!(d.entries(), vec![]);
    assert_eq!(d.users(), Vec::<String>::new());
    assert_eq!(d.handle_of(&s("A")), None);
}

#[test]
fn register_answers_with_the_identities_known_before() {
    let mut d = Dispatcher::new();
    assert_eq!(d.register(s("A"), 1), vec![users(1, &[])]);
    assert_eq!(d.register(s("B"), 2), vec![users(2, &["A"])]);
    assert_eq!(d.register(s("C"), 3), vec![users(3, &["A", "B"])]);
    assert_eq!(d.entries(), vec![entry("A", Some(1)), entry("B", Some(2)), entry("C", Some(3))]);
    assert_eq!(d.users(), vec![s("A"), s("B"), s("C")]);
}

#[test]
fn repeat_login_warns_the_prior_session_once_and_first() {
    let mut d = three_online();
    let delivered = d.register(s("B"), 9);
    assert_eq!(delivered, vec![warning(2), users(9, &["A", "B", "C"])]);
    assert_eq!(d.handle_of(&s("B")), Some(9));
    assert_eq!(d.entries(), vec![entry("A", Some(1)), entry("B", Some(9)), entry("C", Some(3))]);
    assert_eq!(d.send(s("A"), &s("B"), s("hi")), vec![out(9, "A", "hi")]);
}

#[test]
fn registering_the_same_session_again_warns_nobody() {
    let mut d = three_online();
    assert_eq!(d.register(s("B"), 2), vec![users(2, &["A", "B", "C"])]);
    assert_eq!(d.entries(), vec![entry("A", Some(1)), entry("B", Some(2)), entry("C", Some(3))]);
}

#[test]
fn registering_a_known_offline_identity_warns_nobody() {
    let mut d = Dispatcher::new();
    d.know(s("A"));
    d.know(s("B"));
    assert_eq!(d.entries(), vec![entry("A", None), entry("B", None)]);
    assert_eq!(d.register(s("B"), 5), vec![users(5, &["A", "B"])]);
    assert_eq!(d.entries(), vec![entry("A", None), entry("B", Some(5))]);
}

#[test]
fn know_keeps_a_known_identity_as_it_is() {
    let mut d = three_online();
    d.know(s("B"));
    assert_eq!(d.entries(), vec![entry("A", Some(1)), entry("B", Some(2)), entry("C", Some(3))]);
    d.know(s("D"));
    assert_eq!(d.handle_of(&s("D")), None);
    assert_eq!(d.users(), vec![s("A"), s("B"), s("C"), s("D")]);
}

#[test]
fn at_most_one_live_registration() {
    let mut d = Dispatcher::new();
    for handle in 0..20u64 {
        d.register(s("A"), handle);
        d.register(s("B"), handle + 100);
        if handle % 3 == 0 {
            d.deregister(&s("A"));
        }
        let names = d.users();
        let mut unique = names.clone();
        unique.sort();
        unique.dedup();
        assert_eq!(names.len(), unique.len());
    }
    assert_eq!(d.handle_of(&s("A")), Some(19));
    assert_eq!(d.handle_of(&s("B")), Some(119));
    assert_eq!(d.entries().len(), 2);
}

#[test]
fn send_reaches_the_target_and_no_other() {
    let d = three_online();
    assert_eq!(d.send(s("A"), &s("B"), s("hi")), vec![out(2, "A", "hi")]);
    assert_eq!(d.send(s("A"), &s("A"), s("me")), vec![out(1, "A", "me")]);
}

#[test]
fn send_to_an_absent_target_is_dropped() {
    let mut d = three_online();
    assert_eq!(d.send(s("A"), &s("Z"), s("hi")), vec![]);
    d.know(s("D"));
    assert_eq!(d.send(s("A"), &s("D"), s("hi")), vec![]);
    d.deregister(&s("B"));
    assert_eq!(d.send(s("A"), &s("B"), s("hi")), vec![]);
    assert_eq!(d.entries(), vec![entry("A", Some(1)), entry("C", Some(3)), entry("D", None)]);
}

#[test]
fn broadcast_reaches_every_live_session_the_sender_too() {
    let d = three_online();
    assert_eq!(
        d.broadcast(&s("A"), &s("hi")),
        vec![out(1, "A", "hi"), out(2, "A", "hi"), out(3, "A", "hi")]
    );
}

#[test]
fn broadcast_skips_offline_identities() {
    let mut d = Dispatcher::new();
    d.know(s("X"));
    d.register(s("A"), 1);
    d.know(s("Y"));
    d.register(s("B"), 2);
    assert_eq!(d.broadcast(&s("B"), &s("yo")), vec![out(1, "B", "yo"), out(2, "B", "yo")]);
    assert_eq!(Dispatcher::new().broadcast(&s("B"), &s("yo")), vec![]);
}

#[test]
fn deregister_twice_changes_nothing_more() {
    let mut d = three_online();
    d.deregister(&s("B"));
    let once = d.entries();
    assert_eq!(once, vec![entry("A", Some(1)), entry("C", Some(3))]);
    d.deregister(&s("B"));
    assert_eq!(d.entries(), once);
    d.deregister(&s("never seen"));
    assert_eq!(d.entries(), once);
}

#[test]
fn an_identity_can_register_again_after_it_left() {
    let mut d = three_online();
    d.deregister(&s("A"));
    assert_eq!(d.register(s("A"), 7), vec![users(7, &["B", "C"])]);
    assert_eq!(d.entries(), vec![entry("B", Some(2)), entry("C", Some(3)), entry("A", Some(7))]);
}

#[test]
fn handle_routes_each_message() {
    let mut d = Dispatcher::new();
    assert_eq!(d.handle(InnerMessage::Register { name: s("A"), addr: 1 }), vec![users(1, &[])]);
    assert_eq!(d.handle(InnerMessage::Register { name: s("B"), addr: 2 }), vec![users(2, &["A"])]);
    assert_eq!(
        d.handle(InnerMessage::Register { name: s("A"), addr: 3 }),
        vec![warning(1), users(3, &["A", "B"])]
    );
    assert_eq!(
        d.handle(InnerMessage::Send { from: s("A"), to: s("B"), content: s("hi") }),
        vec![out(2, "A", "hi")]
    );
    assert_eq!(d.handle(InnerMessage::Send { from: s("A"), to: s("Q"), content: s("hi") }), vec![]);
    assert_eq!(
        d.handle(InnerMessage::Broadcast { from: s("B"), content: s("all") }),
        vec![out(3, "B", "all"), out(2, "B", "all")]
    );
    assert_eq!(d.handle(InnerMessage::Deregister { name: s("A") }), vec![]);
    assert_eq!(d.handle(InnerMessage::Deregister { name: s("A") }), vec![]);
    assert_eq!(d.entries(), vec![entry("B", Some(2))]);
}

#[test]
fn handle_ignores_what_is_not_for_the_dispatcher() {
    let mut d = three_online();
    let before = d.entries();
    let others = vec![
        InnerMessage::Out { from: s("A"), content: s("x") },
        InnerMessage::Users(vec![s("A")]),
        InnerMessage::Notify { level: NotifyLevel::Warning, content: s("x") },
        InnerMessage::Login(Login { username: s("A"), password: s("p"), signature: s("s") }),
        InnerMessage::LoginResponse(LoginResponse { username: s("A"), token: s("t"), err: s("") }),
        InnerMessage::RepeatLogin(RepeatLoginWarning),
    ];
    for msg in others {
        assert_eq!(d.handle(msg), vec![]);
        assert_eq!(d.entries(), before);
    }
}

#[test]
fn identities_are_compared_as_text() {
    let mut d = Dispatcher::new();
    d.register(s(""), 1);
    d.register(s("é"), 2);
    d.register(s("e"), 3);
    d.register(s("E"), 4);
    assert_eq!(d.handle_of(&s("")), Some(1));
    assert_eq!(d.handle_of(&s("é")), Some(2));
    assert_eq!(d.handle_of(&s("e")), Some(3));
    assert_eq!(d.handle_of(&s("E")), Some(4));
    assert_eq!(d.send(s("é"), &s(""), s("✓")), vec![out(1, "é", "✓")]);
    assert_eq!(d.entries().len(), 4);
}

#[test]
fn one_session_can_hold_two_identities() {
    let mut d = Dispatcher::new();
    d.register(s("A"), 1);
    d.register(s("B"), 1);
    assert_eq!(d.broadcast(&s("C"), &s("x")), vec![out(1, "C", "x"), out(1, "C", "x")]);
}
