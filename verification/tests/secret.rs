use magnesium::config::APP_ID;
use magnesium::models::secret::{
    creates_default_collection, decode_secret, fetched_secret, removal_target, secret_item, secret_label, ss_attrs, SecretError, ServiceProvider,
};

#[test]
fn provider_ids_and_names() {
    assert_eq!(ServiceProvider::MicrosoftO365.get_id(), "o365");
    assert_eq!(ServiceProvider::SchulmanagerJwt.get_id(), "sm");
    assert_eq!(ServiceProvider::MicrosoftO365.get_name(), "Microsoft Office 365 Password");
    assert_eq!(ServiceProvider::SchulmanagerJwt.get_name(), "Schulmanager JSON Web Token");
}

#[test]
fn attributes_identify_service_and_account() {
    let attrs = ss_attrs(ServiceProvider::SchulmanagerJwt, "jane@example.org");
    assert_eq!(attrs, vec![("app_id", APP_ID), ("service", "sm"), ("account", "jane@example.org")]);
    let other = ss_attrs(ServiceProvider::MicrosoftO365, "jane@example.org");
    assert_eq!(other[1], ("service", "o365"));
    assert_ne!(attrs, other);
}

#[test]
fn labels_name_the_service() {
    assert_eq!(secret_label(ServiceProvider::MicrosoftO365), "Magnesium: Microsoft Office 365 Password");
    assert_eq!(secret_label(ServiceProvider::SchulmanagerJwt), "Magnesium: Schulmanager JSON Web Token");
}

#[test]
fn decode_secret_reads_text() {
    match decode_secret(Some(b"s3cret pw".to_vec())) {
        Ok(Some(s)) => assert_eq!(s, "s3cret pw"),
        other => panic!("unexpected {:?}", other),
    }
    match decode_secret(Some(vec![0xc3, 0xbc])) {
        Ok(Some(s)) => assert_eq!(s, "\u{fc}"),
        other => panic!("unexpected {:?}", other),
    }
}

#[test]
fn decode_secret_without_entry() {
    assert!(matches!(decode_secret(None), Ok(None)));
    match decode_secret(Some(Vec::new())) {
        Ok(Some(s)) => assert_eq!(s, ""),
        other => panic!("unexpected {:?}", other),
    }
}

#[test]
fn decode_secret_rejects_invalid_utf8() {
    assert!(matches!(decode_secret(Some(vec![0xff, 0x00])), Err(SecretError::InvalidUtf8)));
    assert!(matches!(decode_secret(Some(vec![b'a', 0xc3])), Err(SecretError::InvalidUtf8)));
}

#[test]
fn stored_item_is_labelled_and_plain_text() {
    let item = secret_item(ServiceProvider::MicrosoftO365, "jane", "p\u{e4}ss");
    assert_eq!(item.label, "Magnesium: Microsoft Office 365 Password");
    assert_eq!(item.attributes, vec![("app_id", APP_ID), ("service", "o365"), ("account", "jane")]);
    assert_eq!(item.secret, &[b'p', 0xc3, 0xa4, b's', b's'][..]);
    assert!(item.replace);
    assert_eq!(item.content_type, "text/plain");
}

#[test]
fn stored_secret_reads_back() {
    for text in ["", "hunter2", "p\u{e4}\u{df}w\u{f6}rt \u{1f511}"] {
        let item = secret_item(ServiceProvider::MicrosoftO365, "jane", text);
        match decode_secret(Some(item.secret.to_vec())) {
            Ok(Some(s)) => assert_eq!(s, text),
            other => panic!("unexpected {:?}", other),
        }
    }
}

#[test]
fn only_no_result_creates_the_default_collection() {
    assert!(creates_default_collection::<u8>(&Err(SecretError::NoResult)));
    assert!(!creates_default_collection::<u8>(&Err(SecretError::InvalidUtf8)));
    assert!(!creates_default_collection(&Ok(1u8)));
}

#[test]
fn the_first_entry_found_is_read() {
    assert_eq!(fetched_secret(0, None), None);
    assert_eq!(fetched_secret(2, Some(Ok(b"pw".to_vec()))), Some(b"pw".to_vec()));
    assert_eq!(fetched_secret(1, Some(Err(SecretError::NoResult))), None);
    assert_eq!(fetched_secret(1, None), None);
    assert_eq!(fetched_secret(0, Some(Ok(b"pw".to_vec()))), None);
}

#[test]
fn the_first_entry_found_is_removed() {
    assert!(matches!(removal_target(0), Err(SecretError::NoResult)));
    assert!(matches!(removal_target(1), Ok(0)));
    assert!(matches!(removal_target(3), Ok(0)));
}
