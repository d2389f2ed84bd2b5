use messenger::secrets::Secrets;

#[test]
fn secrets_hold_what_they_were_given() {
    let secrets = Secrets::from_env(
        String::from("broker.example:9092"),
        String::from("relay"),
        String::from("hunter2"),
    );
    assert_eq!(secrets.url(), "broker.example:9092");
    assert_eq!(secrets.username(), "relay");
    assert_eq!(secrets.password(), "hunter2");
}

#[test]
fn secrets_keep_empty_values() {
    let secrets = Secrets::from_env(String::new(), String::new(), String::new());
    assert_eq!(secrets.url(), "");
    assert_eq!(secrets.username(), "");
    assert_eq!(secrets.password(), "");
}
