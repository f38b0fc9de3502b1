use meta_secret_core::ids::{Base64Text, Id48bit, U64IdUrlEnc, UuidUrlEnc};
use meta_secret_core::sync::environment::{parse_server_environment, ServerEnvironment};

#[test]
fn text_is_encoded_in_url_safe_base64_without_padding() {
    assert_eq!(Base64Text::from_text("test123").0, "dGVzdDEyMw");
}

#[test]
fn ids_from_text_are_prefixes_of_the_sha256_digest() {
    assert_eq!(U64IdUrlEnc::from_text("p").text.0, "FI3pxaekTRk");
    assert_eq!(UuidUrlEnc::from_text("p").text.0, "FI3pxaekTRnlbNmuGlVL9g");
}

#[test]
fn generated_ids_have_the_length_of_their_random_bytes() {
    let a = Id48bit::generate();
    let b = Id48bit::generate();
    assert_eq!(a.text.len(), 8);
    assert_ne!(a.text, b.text);
    assert_eq!(UuidUrlEnc::generate().text.0.len(), 22);
}

#[test]
fn environment_names_are_read_without_case() {
    assert_eq!(parse_server_environment("LoCaL"), ServerEnvironment::Local);
}
