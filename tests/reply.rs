use loadgen::reply::{choose_reply, pick_reply};

#[test]
fn answer_is_trimmed() {
    assert_eq!(choose_reply("  http://x/ok \n", "old"), "http://x/ok");
    assert_eq!(choose_reply("post\r\n", ""), "post");
}

#[test]
fn empty_answer_takes_default() {
    assert_eq!(choose_reply("\n", "http://x/ok"), "http://x/ok");
    assert_eq!(choose_reply("   \t\n", "5"), "5");
    assert_eq!(choose_reply("", ""), "");
}

#[test]
fn pick_prefers_non_empty_answer() {
    assert_eq!(pick_reply("GET", "POST"), "GET");
    assert_eq!(pick_reply("", "POST"), "POST");
    assert_eq!(pick_reply(" ", "POST"), " ");
}
