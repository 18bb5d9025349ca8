use repo_view::ssh_identity::{resolve_identity_path, resolve_passphrase, resolve_ssh_identity};

#[test]
fn explicit_identity_file_wins() {
    let config = b"Host example.com\n    IdentityFile /keys/example\n".to_vec();
    let identity = resolve_ssh_identity(
        &Some(config),
        &String::from("example.com"),
        &String::from("/home/someone"),
        &String::new(),
    );
    assert_eq!(identity.key_path, String::from("/keys/example"));
}

#[test]
fn no_matching_block_falls_back_to_default_identity() {
    let config = b"Host example.com\n    IdentityFile /keys/example\n".to_vec();
    let identity = resolve_ssh_identity(
        &Some(config),
        &String::from("elsewhere.net"),
        &String::from("/home/someone"),
        &String::new(),
    );
    assert_eq!(identity.key_path, String::from("/home/someone/.ssh/id_rsa"));
}

#[test]
fn absent_config_falls_back_to_default_identity() {
    let identity = resolve_ssh_identity(
        &None,
        &String::from("example.com"),
        &String::from("/home/someone"),
        &String::new(),
    );
    assert_eq!(identity.key_path, String::from("/home/someone/.ssh/id_rsa"));
}

#[test]
fn unparseable_config_falls_back_to_default_identity() {
    let config = b"this is not an ssh configuration\n".to_vec();
    let identity = resolve_ssh_identity(
        &Some(config),
        &String::from("example.com"),
        &String::from("/home/someone"),
        &String::new(),
    );
    assert_eq!(identity.key_path, String::from("/home/someone/.ssh/id_rsa"));
}

#[test]
fn first_identity_entry_is_taken() {
    let files = Some(vec![Some(String::from("/keys/one")), Some(String::from("/keys/two"))]);
    let path = resolve_identity_path(&files, &String::from("/home/someone"));
    assert_eq!(path, String::from("/keys/one"));
}

#[test]
fn empty_identity_list_falls_back() {
    let files: Option<Vec<Option<String>>> = Some(Vec::new());
    let path = resolve_identity_path(&files, &String::from("/home/someone"));
    assert_eq!(path, String::from("/home/someone/.ssh/id_rsa"));
}

#[test]
fn empty_password_gives_no_passphrase() {
    assert_eq!(resolve_passphrase(&String::new()), None);
}

#[test]
fn non_empty_password_is_offered_as_passphrase() {
    assert_eq!(resolve_passphrase(&String::from("secret")), Some(String::from("secret")));
}
