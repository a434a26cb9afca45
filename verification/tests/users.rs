use geoffrey::records::User;
use geoffrey::users::{register_plan, registered_reply, user_key, whoami_reply, UserWrite};

fn s(x: &str) -> String {
    x.to_string()
}

#[test]
fn register_new_user_inserts() {
    let w = register_plan(42, s("Cosmo Cougar"), s("cosmoc"), None);
    assert_eq!(w, UserWrite::Insert(User { id: s("42"), name: s("Cosmo Cougar"), net_id: s("cosmoc") }));
}

#[test]
fn register_known_user_updates() {
    let old = User { id: s("42"), name: s("Old"), net_id: s("old") };
    let w = register_plan(42, s("New"), s("new"), Some(old));
    assert_eq!(w, UserWrite::Update(User { id: s("42"), name: s("New"), net_id: s("new") }));
}

#[test]
fn register_then_whoami() {
    let w = register_plan(7, s("Ada"), s("ada1"), None);
    let stored = match w {
        UserWrite::Insert(u) | UserWrite::Update(u) => u,
    };
    assert_eq!(stored.id, user_key(7));
    assert_eq!(whoami_reply(&Some(stored)), "You are Ada and your NetID is ada1");
}

#[test]
fn whoami_stranger() {
    assert_eq!(
        whoami_reply(&None),
        "We have never had the pleasure to meet.\n\n(try using /register to make Geoffrey remember you)"
    );
}

#[test]
fn registered() {
    assert_eq!(registered_reply(), "Registration complete.");
    assert_eq!(user_key(1043348477419200532), "1043348477419200532");
}
