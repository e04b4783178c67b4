use gotify_rs::BodyPlan;
use gotify_rs::Gotify;
use gotify_rs::GotifyError;
use gotify_rs::ParamMap;
use gotify_rs::RequestPlan;
use gotify_rs::Verb;

fn holder() -> Gotify {
    Gotify::new("http://x", Some("fake_app_token"), Some("fake_client_token"))
}

fn json_params(p: RequestPlan) -> ParamMap {
    match p.body {
        BodyPlan::Json(q) => q,
        _ => panic!("expected a JSON body"),
    }
}

fn query_params(p: RequestPlan) -> ParamMap {
    match p.body {
        BodyPlan::Query(q) => q,
        _ => panic!("expected query parameters"),
    }
}

#[test]
fn applications_plan() {
    let p = holder().applications().unwrap();
    assert_eq!(p.verb, Verb::Get);
    assert_eq!(p.url, "http://x/applications");
    assert_eq!(p.token, "fake_app_token");
    assert!(matches!(p.body, BodyPlan::Empty));
}

#[test]
fn create_application_sends_name_and_description() {
    let p = holder()
        .create_application("app_name".to_string(), "An application".to_string())
        .unwrap();
    assert_eq!(p.verb, Verb::Post);
    assert_eq!(p.url, "http://x/application");
    let q = json_params(p);
    assert_eq!(q.entries.len(), 2);
    assert_eq!(q.entries[0], ("name".to_string(), Some("app_name".to_string())));
    assert_eq!(
        q.entries[1],
        ("description".to_string(), Some("An application".to_string()))
    );
}

#[test]
fn update_application_interpolates_id_and_sends_updates() {
    let p = holder()
        .update_application(
            1,
            "new_name".to_string(),
            Some("Updated application description".to_string()),
        )
        .unwrap();
    assert_eq!(p.verb, Verb::Put);
    assert_eq!(p.url, "http://x/application/1");
    let q = json_params(p);
    assert_eq!(q.entries[0], ("name".to_string(), Some("new_name".to_string())));
    assert_eq!(
        q.entries[1],
        (
            "description".to_string(),
            Some("Updated application description".to_string())
        )
    );
}

#[test]
fn update_application_absent_description_stays_present_but_null() {
    let p = holder().update_application(2, "n".to_string(), None).unwrap();
    let q = json_params(p);
    assert_eq!(q.entries[1], ("description".to_string(), None));
}

#[test]
fn delete_application_plan() {
    let p = holder().delete_application(9).unwrap();
    assert_eq!(p.verb, Verb::Delete);
    assert_eq!(p.url, "http://x/application/9");
    assert!(matches!(p.body, BodyPlan::Empty));
}

#[test]
fn upload_application_image_is_a_file_post() {
    let p = holder().upload_application_image(7).unwrap();
    assert_eq!(p.verb, Verb::Post);
    assert_eq!(p.url, "http://x/application/7/image");
    assert!(matches!(p.body, BodyPlan::FileUpload));
}

#[test]
fn get_messages_scoped_and_unscoped_differ_only_in_path() {
    let g = holder();
    let scoped = g.get_messages(Some(5), Some(10), Some(200)).unwrap();
    let unscoped = g.get_messages(None, Some(10), Some(200)).unwrap();
    assert_eq!(scoped.url, "http://x/application/5/message");
    assert_eq!(unscoped.url, "http://x/message");
    assert_eq!(scoped.verb, unscoped.verb);
    assert_eq!(scoped.token, unscoped.token);
    let q1 = query_params(scoped);
    let q2 = query_params(unscoped);
    assert_eq!(q1.entries, q2.entries);
    assert_eq!(q1.entries[0], ("limit".to_string(), Some("10".to_string())));
    assert_eq!(q1.entries[1], ("since".to_string(), Some("200".to_string())));
}

#[test]
fn get_messages_absent_paging_sends_absent_values() {
    let p = holder().get_messages(None, None, None).unwrap();
    let q = query_params(p);
    assert_eq!(q.entries[0], ("limit".to_string(), None));
    assert_eq!(q.entries[1], ("since".to_string(), None));
}

#[test]
fn create_message_always_uses_the_application_token() {
    let g = Gotify::new("http://x", Some("app_tok"), Some("client_tok"));
    let p = g.create_message("hello".to_string(), Some(4), Some("title".to_string())).unwrap();
    assert_eq!(p.verb, Verb::Post);
    assert_eq!(p.url, "http://x/message");
    assert_eq!(p.token, "app_tok");
    let q = json_params(p);
    assert_eq!(q.entries[0], ("message".to_string(), Some("hello".to_string())));
    assert_eq!(q.entries[1], ("priority".to_string(), Some("4".to_string())));
    assert_eq!(q.entries[2], ("title".to_string(), Some("title".to_string())));
}

#[test]
fn create_message_fails_without_application_token() {
    let g = Gotify::new("http://x", None, Some("client_tok"));
    assert!(matches!(
        g.create_message("hello".to_string(), None, None),
        Err(GotifyError::MissingCredential)
    ));
}

#[test]
fn delete_messages_scoped_and_unscoped() {
    let g = holder();
    let scoped = g.delete_messages(Some(3)).unwrap();
    assert_eq!(scoped.verb, Verb::Delete);
    assert_eq!(scoped.url, "http://x/application/3/message");
    let unscoped = g.delete_messages(None).unwrap();
    assert_eq!(unscoped.verb, Verb::Delete);
    assert_eq!(unscoped.url, "http://x/message");
}

#[test]
fn delete_message_negative_id() {
    let p = holder().delete_message(-17).unwrap();
    assert_eq!(p.url, "http://x/message/-17");
}

#[test]
fn client_operations() {
    let g = holder();
    let p = g.get_clients().unwrap();
    assert_eq!(p.verb, Verb::Get);
    assert_eq!(p.url, "http://x/client");
    let p = g.create_client("c".to_string()).unwrap();
    assert_eq!(p.verb, Verb::Post);
    assert_eq!(p.url, "http://x/client");
    let q = json_params(p);
    assert_eq!(q.entries[0], ("name".to_string(), Some("c".to_string())));
    let p = g.update_client(4, "d".to_string()).unwrap();
    assert_eq!(p.verb, Verb::Put);
    assert_eq!(p.url, "http://x/client/4");
    let p = g.delete_client(4).unwrap();
    assert_eq!(p.verb, Verb::Delete);
    assert_eq!(p.url, "http://x/client/4");
}

#[test]
fn current_user_and_password() {
    let g = holder();
    let p = g.get_current_user().unwrap();
    assert_eq!(p.verb, Verb::Get);
    assert_eq!(p.url, "http://x/current/user");
    let p = g.set_password("s3cret".to_string()).unwrap();
    assert_eq!(p.verb, Verb::Get);
    assert_eq!(p.url, "http://x/current/user/password");
    let q = query_params(p);
    assert_eq!(q.entries[0], ("pass".to_string(), Some("s3cret".to_string())));
}

#[test]
fn create_user_admin_flag_defaults_to_false() {
    let g = holder();
    let p = g.create_user("u".to_string(), "pw".to_string(), None).unwrap();
    assert_eq!(p.verb, Verb::Post);
    assert_eq!(p.url, "http://x/user");
    let q = json_params(p);
    assert_eq!(q.entries[0], ("pass".to_string(), Some("pw".to_string())));
    assert_eq!(q.entries[1], ("name".to_string(), Some("u".to_string())));
    assert_eq!(q.entries[2], ("admin".to_string(), Some("false".to_string())));
    let p = g.create_user("u".to_string(), "pw".to_string(), Some(true)).unwrap();
    let q = json_params(p);
    assert_eq!(q.entries[2], ("admin".to_string(), Some("true".to_string())));
    let p = g.create_user("u".to_string(), "pw".to_string(), Some(false)).unwrap();
    let q = json_params(p);
    assert_eq!(q.entries[2], ("admin".to_string(), Some("false".to_string())));
}

#[test]
fn user_operations_with_ids() {
    let g = holder();
    let p = g.get_user(12).unwrap();
    assert_eq!(p.verb, Verb::Get);
    assert_eq!(p.url, "http://x/user/12");
    let p = g.update_user(12, Some("n".to_string()), None, Some(true)).unwrap();
    assert_eq!(p.verb, Verb::Put);
    assert_eq!(p.url, "http://x/user/12");
    let q = json_params(p);
    assert_eq!(q.entries[0], ("pass".to_string(), None));
    assert_eq!(q.entries[1], ("name".to_string(), Some("n".to_string())));
    assert_eq!(q.entries[2], ("admin".to_string(), Some("true".to_string())));
    let p = g.delete_user(12).unwrap();
    assert_eq!(p.verb, Verb::Delete);
    assert_eq!(p.url, "http://x/user/12");
}

#[test]
fn health_plugins_and_version() {
    let g = holder();
    assert_eq!(g.get_health().unwrap().url, "http://x/health");
    assert_eq!(g.get_plugins().unwrap().url, "http://x/plugins");
    assert_eq!(g.get_version().unwrap().url, "http://x/version");
    let p = g.get_plugin_config(2).unwrap();
    assert_eq!(p.verb, Verb::Get);
    assert_eq!(p.url, "http://x/plugins/2/config");
    let p = g.get_plugin_display(2).unwrap();
    assert_eq!(p.verb, Verb::Get);
    assert_eq!(p.url, "http://x/plugins/2/display");
    let p = g.disable_plugin(2).unwrap();
    assert_eq!(p.verb, Verb::Post);
    assert_eq!(p.url, "http://x/plugins/2/disable");
    let p = g.enable_plugin(2).unwrap();
    assert_eq!(p.verb, Verb::Post);
    assert_eq!(p.url, "http://x/plugins/2/enable");
}

#[test]
fn decimal_rendering_extremes() {
    let g = holder();
    assert_eq!(g.get_user(0).unwrap().url, "http://x/user/0");
    assert_eq!(g.get_user(i32::MAX).unwrap().url, "http://x/user/2147483647");
    assert_eq!(
        g.delete_message(i32::MIN).unwrap().url,
        "http://x/message/-2147483648"
    );
    assert_eq!(g.get_user(1000).unwrap().url, "http://x/user/1000");
}

#[test]
fn every_operation_fails_without_the_application_token() {
    let g = Gotify::new("http://x", None, Some("client_tok"));
    let missing = Err(GotifyError::MissingCredential);
    assert_eq!(g.applications().map(|p| p.url), missing);
    assert_eq!(
        g.create_application("a".to_string(), "d".to_string()).map(|p| p.url),
        missing
    );
    assert_eq!(g.get_messages(None, None, None).map(|p| p.url), missing);
    assert_eq!(g.delete_messages(Some(1)).map(|p| p.url), missing);
    assert_eq!(g.get_clients().map(|p| p.url), missing);
    assert_eq!(g.get_current_user().map(|p| p.url), missing);
    assert_eq!(g.get_users().map(|p| p.url), missing);
    assert_eq!(g.get_health().map(|p| p.url), missing);
    assert_eq!(g.get_plugins().map(|p| p.url), missing);
    assert_eq!(g.get_version().map(|p| p.url), missing);
    assert_eq!(g.upload_application_image(1).map(|p| p.url), missing);
}
