use auth_domain::email::Email;
use auth_domain::secret_hash::client_secret_hash;

#[test]
fn client_secret_hash_known_value() {
    let email = Email::from_str("user@example.com").unwrap();
    assert_eq!(
        client_secret_hash(&email, "client", "secret"),
        "4zqhOFl0JivfkWh1VINyOJyrDTdsinJktzPUT+t0plg="
    );
}

#[test]
fn client_secret_hash_depends_on_secret() {
    let email = Email::from_str("user@example.com").unwrap();
    let a = client_secret_hash(&email, "client", "secret");
    let b = client_secret_hash(&email, "client", "other");
    assert_ne!(a, b);
    assert_eq!(a.len(), 44);
}
