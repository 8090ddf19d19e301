use chat_relay::registry::{
    pubkey_lookup_reply, registration_after_insert, registration_after_lookup,
    registration_decision, subscription_write_reply, vapid_public_key_text, RegistrationStep, Reply,
};

fn reply(status: u16, body: &str) -> Reply {
    Reply { status, body: body.to_string() }
}

const JWK: &str = r#"{"kty":"EC","crv":"secp256k1","x":"eb5mfvncu6xVoGKVzocLBwKb_NstzijZWfKBWxb4F5g","y":"SDradyajxGVdpPv8DhEIqP0XtEimhVQZnEfQj_sQ1Lg"}"#;

#[test]
fn pubkey_found() {
    assert_eq!(pubkey_lookup_reply(Ok(Some("KEY".to_string()))), reply(200, "KEY"));
}

#[test]
fn pubkey_missing() {
    assert_eq!(pubkey_lookup_reply(Ok(None)), reply(404, "no user found with this username"));
}

#[test]
fn pubkey_store_error() {
    assert_eq!(pubkey_lookup_reply(Err("locked".to_string())), reply(500, "database error: locked"));
}

#[test]
fn taken_name_conflicts() {
    assert_eq!(
        registration_decision(Ok(true), Ok(())),
        RegistrationStep::Respond(reply(409, "a user with this username already exists"))
    );
    assert_eq!(
        registration_after_lookup(Ok(true), "not a key"),
        RegistrationStep::Respond(reply(409, "a user with this username already exists"))
    );
}

#[test]
fn lookup_error_is_server_error() {
    assert_eq!(
        registration_after_lookup(Err("io".to_string()), JWK),
        RegistrationStep::Respond(reply(500, "database error: io"))
    );
}

#[test]
fn bad_key_is_rejected() {
    assert_eq!(
        registration_decision(Ok(false), Err("oops".to_string())),
        RegistrationStep::Respond(reply(400, "key could not be parsed: oops"))
    );
    assert_eq!(
        registration_after_lookup(Ok(false), "not a key"),
        RegistrationStep::Respond(reply(400, "key could not be parsed: crypto error"))
    );
}

#[test]
fn good_key_is_inserted() {
    assert_eq!(registration_decision(Ok(false), Ok(())), RegistrationStep::Insert);
    assert_eq!(registration_after_lookup(Ok(false), JWK), RegistrationStep::Insert);
}

#[test]
fn insert_outcomes() {
    assert_eq!(registration_after_insert(Ok(())), reply(201, "registered user"));
    assert_eq!(registration_after_insert(Err("full".to_string())), reply(500, "database error: full"));
}

#[test]
fn subscription_write_outcomes() {
    assert_eq!(subscription_write_reply(true), reply(200, ""));
    assert_eq!(subscription_write_reply(false), reply(500, ""));
}

#[test]
fn vapid_key_is_url_safe_base64_without_padding() {
    assert_eq!(vapid_public_key_text(&vec![0xfb, 0xff]), "-_8");
    assert_eq!(vapid_public_key_text(&vec![]), "");
    assert_eq!(vapid_public_key_text(&b"Man".to_vec()), "TWFu");
    assert_eq!(vapid_public_key_text(&vec![0, 1, 2, 3, 4]), "AAECAwQ");
    assert_eq!(vapid_public_key_text(&vec![0xff; 4]), "_____w");
}
