use utility::telegram::Telegram;

#[test]
fn base_holds_token_and_chat() {
    let telegram = Telegram::with_agent("123:abc", "-42", ());
    assert_eq!(
        telegram.message_url(""),
        "https://api.telegram.org/bot123:abc/sendMessage?chat_id=-42&text="
    );
}

#[test]
fn message_is_percent_encoded() {
    let telegram = Telegram::with_agent("<token>", "<chat_id>", ());
    assert_eq!(
        telegram.message_url("Hello, World!"),
        "https://api.telegram.org/bot<token>/sendMessage?chat_id=<chat_id>&text=Hello%2C%20World%21"
    );
}

#[test]
fn unreserved_text_is_unchanged() {
    let telegram = Telegram::with_agent("t", "c", ());
    assert_eq!(
        telegram.message_url("AZaz09-._~"),
        "https://api.telegram.org/bott/sendMessage?chat_id=c&text=AZaz09-._~"
    );
}

#[test]
fn bytes_beyond_ascii_are_encoded_in_upper_case_hex() {
    let telegram = Telegram::with_agent("t", "c", ());
    assert_eq!(
        telegram.message_url("\u{1f47e} a/b?c=d&e\n"),
        "https://api.telegram.org/bott/sendMessage?chat_id=c&text=%F0%9F%91%BE%20a%2Fb%3Fc%3Dd%26e%0A"
    );
}

#[test]
fn agent_is_kept() {
    let telegram = Telegram::with_agent("t", "c", 7u32);
    assert_eq!(*telegram.client(), 7);
}
