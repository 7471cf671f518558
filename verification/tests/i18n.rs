use srvpru::srvpru::i18n::I18n;
use srvpru::srvpru::utils::{generate_chat, generate_raw_chat, get_string, refuse_join_game, CommonError};
use srvpru::text::replace_chars;
use srvpru::ygopro::constants::Colors;

fn library() -> I18n {
    I18n::load_configuration(vec![
        ("en-us".to_string(), vec![("hello".to_string(), "Hello".to_string()), ("who".to_string(), "world".to_string())]),
        ("zh-cn".to_string(), vec![("hello".to_string(), "你好".to_string())]),
    ])
}

#[test]
fn placeholders_are_translated() {
    let lib = library();
    assert_eq!(lib.render("{hello}, {who}! {hello}", "en-us"), "Hello, world! Hello");
    assert_eq!(lib.render("{hello} {who}", "zh-cn"), "你好 {who}");
    assert_eq!(lib.render("{hello}", "fr-fr"), "{hello}");
}

#[test]
fn replacing_like_str_replace() {
    let s: Vec<char> = "aaa".chars().collect();
    let p: Vec<char> = "aa".chars().collect();
    let r: Vec<char> = "b".chars().collect();
    assert_eq!(replace_chars(&s, &p, &r).iter().collect::<String>(), "aaa".replace("aa", "b"));
    let empty: Vec<char> = Vec::new();
    assert_eq!(replace_chars(&s, &empty, &r).iter().collect::<String>(), "aaa".replace("", "b"));
}

#[test]
fn chat_lines() {
    let raw = generate_raw_chat("hi", Colors::Red);
    assert_eq!(raw.name, 11);
    assert_eq!(raw.msg, vec![104, 105, 0]);
    let chat = generate_chat("{hello}", Colors::Green, "en-us", &library());
    let expected: Vec<u16> = "[Server]: Hello".encode_utf16().chain(std::iter::once(0)).collect();
    assert_eq!(chat.msg, expected);
}

#[test]
fn refused_joins() {
    let lib = library();
    let bare = refuse_join_game(None, "en-us", &lib);
    assert_eq!(bare, vec![9, 0, 2, 1, 0, 0, 0, 2, 0, 0, 0]);
    let with_reason = refuse_join_game(Some("{who}"), "en-us", &lib);
    let text: Vec<u16> = "[Server]: world".encode_utf16().chain(std::iter::once(0)).collect();
    let chat_len = 2 + 2 * text.len();
    assert_eq!(with_reason[0] as usize + 256 * with_reason[1] as usize, chat_len + 1);
    assert_eq!(with_reason[2], 25);
    assert_eq!(&with_reason[5 + 2 * text.len()..], &bare[..]);
    assert_eq!(get_string(&[104, 105, 0]), Ok("hi".to_string()));
    assert_eq!(get_string(&[104, 105]), Err(CommonError::IllegalString));
}
