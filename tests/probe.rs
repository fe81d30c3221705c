use net_route::ping::{contains_text, ping_output_reachable, ping_output_text, reply_indicates_success};

fn gbk(s: &str) -> Vec<u8> {
    encoding_rs::GBK.encode(s).0.into_owned()
}

#[test]
fn reply_text_rules() {
    assert!(reply_indicates_success("来自 8.8.8.8 的回复: 字节=32 时间=10ms"));
    assert!(!reply_indicates_success("请求超时。"));
    assert!(!reply_indicates_success("来自 8.8.8.8 的回复: 字节=32\n(100% 丢失)"));
    assert!(!reply_indicates_success("来自 8.8.8.8 的回复: 无法访问目标主机。"));
}

#[test]
fn gbk_output_is_decoded_before_checking() {
    let ok = gbk("正在 Ping 8.8.8.8\r\n来自 8.8.8.8 的回复: 字节=32 时间=10ms TTL=117\r\n");
    assert!(std::str::from_utf8(&ok).is_err());
    assert!(ping_output_reachable(&ok));
    assert!(ping_output_text(&ok).contains("字节=32"));
    let lost = gbk("数据包: 已发送 = 2，已接收 = 0，丢失 = 2 (100% 丢失)");
    assert!(!ping_output_reachable(&lost));
}

#[test]
fn substring_search() {
    assert!(contains_text("abc", ""));
    assert!(contains_text("abc", "bc"));
    assert!(!contains_text("abc", "cd"));
    assert!(!contains_text("", "a"));
}
