use flow_bot::api::{
    int_param, no_params, send_group_message_params, send_private_message_params, str_param,
};
use flow_bot::frame::{encode_call_frame, JsonObject};

#[test]
fn object_writer_renders_members_in_order() {
    let mut obj = JsonObject::new();
    obj.str_member("name", "bot");
    obj.i64_member("count", -3);
    obj.opt_bool_member("flag", None);
    let out = String::from_utf8(obj.finish()).unwrap();
    assert_eq!(out, "{\"name\":\"bot\",\"count\":-3,\"flag\":null}");
}

#[test]
fn empty_object_renders_bare_braces() {
    assert_eq!(String::from_utf8(no_params()).unwrap(), "{}");
}

#[test]
fn raw_members_are_spliced_verbatim() {
    let mut obj = JsonObject::new();
    obj.raw_member("payload", b"[1,2,3]");
    let out = String::from_utf8(obj.finish()).unwrap();
    assert_eq!(out, "{\"payload\":[1,2,3]}");
}

#[test]
fn call_frame_has_action_params_echo_in_order() {
    let frame = encode_call_frame("get_msg", b"{\"message_id\":7}", "tok-1");
    assert_eq!(
        String::from_utf8(frame).unwrap(),
        "{\"action\":\"get_msg\",\"params\":{\"message_id\":7},\"echo\":\"tok-1\"}"
    );
}

#[test]
fn call_frame_parses_as_json_with_the_right_fields() {
    let frame = encode_call_frame("send_like", int_param("user_id", 9).as_slice(), "e-99");
    let v: serde_json::Value = serde_json::from_slice(&frame).unwrap();
    assert_eq!(v["action"], "send_like");
    assert_eq!(v["params"]["user_id"], 9);
    assert_eq!(v["echo"], "e-99");
}

#[test]
fn call_frame_escapes_the_token() {
    let frame = encode_call_frame("a", b"{}", "q\"uote");
    let v: serde_json::Value = serde_json::from_slice(&frame).unwrap();
    assert_eq!(v["echo"], "q\"uote");
}

#[test]
fn private_message_params_render_every_field() {
    let out = send_private_message_params(12345, b"[{\"type\":\"text\"}]", Some(false));
    assert_eq!(
        String::from_utf8(out).unwrap(),
        "{\"user_id\":12345,\"message\":[{\"type\":\"text\"}],\"auto_escape\":false}"
    );
}

#[test]
fn group_message_params_render_every_field() {
    let out = send_group_message_params(-7, b"[]", None);
    assert_eq!(
        String::from_utf8(out).unwrap(),
        "{\"group_id\":-7,\"message\":[],\"auto_escape\":null}"
    );
}

#[test]
fn single_parameter_objects_render() {
    assert_eq!(
        String::from_utf8(int_param("message_id", -12)).unwrap(),
        "{\"message_id\":-12}"
    );
    assert_eq!(
        String::from_utf8(str_param("domain", "example.org")).unwrap(),
        "{\"domain\":\"example.org\"}"
    );
}
