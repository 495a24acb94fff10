use gitlab::errors::Error;
use gitlab::gitignores::GitIgnores;
use gitlab::params::parse_query_string;
use gitlab::payload::{payload_json, ProjectParams};
use gitlab::projects::{GetProjectUsersOptions, SingleProjectOptions};
use gitlab::{request_headers, Credentials, Gitlab, Header, Method, Request};

fn pairs(h: &[Header]) -> Vec<(String, String)> {
    h.iter().map(|x| (x.name.clone(), x.value.clone())).collect()
}

fn s(x: &str) -> String {
    x.to_string()
}

fn client(c: Credentials) -> Gitlab {
    Gitlab::new("https://gitlab.com", c)
}

fn body_text(r: &Request) -> String {
    String::from_utf8(r.body.clone().unwrap()).unwrap()
}

#[test]
fn it_works() {}

#[test]
fn anonymous_headers_have_no_auth() {
    let h = pairs(&request_headers(&Credentials::Anonymous));
    assert_eq!(
        h,
        vec![(s("Content-Type"), s("application/json")), (s("Accept"), s("application/json"))]
    );
}

#[test]
fn oauth_headers_carry_bearer() {
    let h = pairs(&request_headers(&Credentials::OauthToken(s("abc"))));
    assert_eq!(h.len(), 3);
    assert_eq!(h[2], (s("Authorization"), s("Bearer abc")));
}

#[test]
fn access_token_headers_carry_private_token() {
    let h = pairs(&request_headers(&Credentials::AccessToken(s("tok"))));
    assert_eq!(h.len(), 3);
    assert_eq!(h[0], (s("Content-Type"), s("application/json")));
    assert_eq!(h[1], (s("Accept"), s("application/json")));
    assert_eq!(h[2], (s("PRIVATE-TOKEN"), s("tok")));
}

#[test]
fn default_credentials_are_anonymous() {
    assert_eq!(Credentials::default(), Credentials::Anonymous);
}

#[test]
fn api_prefix_appended_once() {
    let g = client(Credentials::Anonymous);
    let r = g.get("/x");
    assert_eq!(r.url, "https://gitlab.com/api/v4/x");
    let r2 = g.get("/x");
    assert_eq!(r2.url, "https://gitlab.com/api/v4/x");
    assert_eq!(r.method, Method::Get);
    assert!(r.body.is_none());
}

#[test]
fn fault_statuses_are_faults() {
    for code in [400u16, 401, 403, 404, 405, 409, 422, 500] {
        let body = br#"{"id":1}"#.to_vec();
        match Gitlab::response(code, &body) {
            Err(Error::Fault { code: c, error }) => {
                assert_eq!(c, code);
                assert_eq!(error, "request failed");
            }
            _ => panic!("status {} is not a fault", code),
        }
    }
}

#[test]
fn fault_takes_message_member() {
    let body = br#"{"message":"404 Project Not Found"}"#.to_vec();
    match Gitlab::response(404, &body) {
        Err(Error::Fault { code, error }) => {
            assert_eq!(code, 404);
            assert_eq!(error, "404 Project Not Found");
        }
        _ => panic!("expected a fault"),
    }
}

#[test]
fn fault_takes_error_member() {
    let body = br#"{"error":"insufficient_scope"}"#.to_vec();
    match Gitlab::response(403, &body) {
        Err(Error::Fault { code, error }) => {
            assert_eq!(code, 403);
            assert_eq!(error, "insufficient_scope");
        }
        _ => panic!("expected a fault"),
    }
}

#[test]
fn fault_prefers_message_over_error() {
    let e = gitlab::fault(422, Some(s("m")), Some(s("e")));
    assert!(matches!(e, Error::Fault { code: 422, ref error } if error == "m"));
    let e = gitlab::fault(422, None, None);
    assert!(matches!(e, Error::Fault { code: 422, ref error } if error == "request failed"));
}

#[test]
fn other_statuses_decode() {
    for code in [200u16, 201, 202, 204, 301, 302, 402, 410, 502] {
        assert!(Gitlab::response(code, &br#"{"id":42}"#.to_vec()).is_ok());
    }
}

#[test]
fn malformed_body_is_codec_error() {
    let r = Gitlab::response(200, &b"{not json".to_vec());
    assert!(matches!(r, Err(Error::Codec(_))));
    let r = Gitlab::response(404, &b"{not json".to_vec());
    assert!(matches!(r, Err(Error::Fault { code: 404, .. })));
}

#[test]
fn delete_response_classifies_status() {
    assert!(Gitlab::delete_response(204, &Vec::new()).is_ok());
    assert!(Gitlab::delete_response(202, &b"{}".to_vec()).is_ok());
    let r = Gitlab::delete_response(404, &br#"{"message":"gone"}"#.to_vec());
    assert!(matches!(r, Err(Error::Fault { code: 404, ref error }) if error == "gone"));
}

#[test]
fn no_options_no_query_string() {
    let o = SingleProjectOptions::builder("42").build();
    assert!(o.to_query_string().is_none());
    let u = GetProjectUsersOptions::builder("42").build();
    assert!(u.to_query_string().is_none());
}

#[test]
fn statistics_query_round_trip() {
    let o = SingleProjectOptions::builder("42").statistics(true).build();
    let q = o.to_query_string().unwrap();
    assert_eq!(q, "statistics=true");
    assert_eq!(parse_query_string(&q), vec![(s("statistics"), s("true"))]);
}

#[test]
fn statistics_set_twice_keeps_one_pair() {
    let o = SingleProjectOptions::builder("42").statistics(true).statistics(false).build();
    assert_eq!(o.params, vec![(s("statistics"), s("false"))]);
    assert_eq!(o.to_query_string().unwrap(), "statistics=false");
}

#[test]
fn search_is_form_encoded() {
    let o = GetProjectUsersOptions::builder("7").search_for_user("a b&c").build();
    let q = o.to_query_string().unwrap();
    assert_eq!(q, "search=a+b%26c");
    assert_eq!(parse_query_string(&q), vec![(s("search"), s("a b&c"))]);
}

#[test]
fn project_request_scenario() {
    let g = client(Credentials::AccessToken(s("tok")));
    let o = SingleProjectOptions::builder("42").statistics(true).build();
    let r = g.projects().project(&o);
    assert_eq!(r.method, Method::Get);
    assert_eq!(r.url, "https://gitlab.com/api/v4/projects/42?statistics=true");
    let h = pairs(&r.headers);
    assert!(h.contains(&(s("Content-Type"), s("application/json"))));
    assert!(h.contains(&(s("Accept"), s("application/json"))));
    assert!(Gitlab::response(200, &br#"{"id":42,"name":"p"}"#.to_vec()).is_ok());
    let e = Gitlab::response(404, &br#"{"message":"404 Project Not Found"}"#.to_vec());
    assert!(matches!(e, Err(Error::Fault { code: 404, .. })));
}

#[test]
fn identifier_with_slashes_is_one_segment() {
    let g = client(Credentials::Anonymous);
    let o = SingleProjectOptions::builder("group/subgroup/project").build();
    let r = g.projects().project(&o);
    assert_eq!(r.url, "https://gitlab.com/api/v4/projects/group%2Fsubgroup%2Fproject");
}

#[test]
fn delete_encodes_identifier() {
    let g = client(Credentials::Anonymous);
    let r = g.projects().delete("my/project");
    assert_eq!(r.method, Method::Delete);
    assert_eq!(r.url, "https://gitlab.com/api/v4/projects/my%2Fproject");
}

#[test]
fn users_request_has_search() {
    let g = client(Credentials::Anonymous);
    let o = GetProjectUsersOptions::builder("a b").search_for_user("jo").build();
    let r = g.projects().users(&o);
    assert_eq!(r.url, "https://gitlab.com/api/v4/projects/a%20b/users?search=jo");
}

#[test]
fn create_name_only_payload() {
    let g = client(Credentials::Anonymous);
    let p = ProjectParams::builder("demo").build();
    let r = g.projects().create(&p);
    assert_eq!(r.method, Method::Post);
    assert_eq!(r.url, "https://gitlab.com/api/v4/projects/");
    assert_eq!(body_text(&r), r#"{"name":"demo"}"#);
}

#[test]
fn create_payload_keeps_set_fields() {
    let p = ProjectParams::builder("a\"b").path("p").namespace_id(12).default_branch("main").build();
    assert_eq!(
        payload_json(&p),
        r#"{"name":"a\"b","path":"p","namespace_id":12,"default_branch":"main"}"#
    );
    let mut q = ProjectParams::new("x");
    q.issues_enabled = Some(false);
    q.tag_list = Some(vec![s("t1"), s("t2")]);
    q.approvals_before_merge = Some(3);
    assert_eq!(
        payload_json(&q),
        r#"{"name":"x","issues_enabled":false,"tag_list":["t1","t2"],"approvals_before_merge":3}"#
    );
    let mut e = ProjectParams::new("y");
    e.tag_list = Some(Vec::new());
    assert_eq!(payload_json(&e), r#"{"name":"y","tag_list":[]}"#);
}

#[test]
fn gitignore_requests() {
    let g = client(Credentials::OauthToken(s("o")));
    let gi: GitIgnores = g.gitignores();
    assert_eq!(gi.templates().url, "https://gitlab.com/api/v4/templates/gitignores");
    assert_eq!(gi.single_template("Rust").url, "https://gitlab.com/api/v4/templates/gitignores/Rust");
    assert_eq!(gi.single_template("C++").url, "https://gitlab.com/api/v4/templates/gitignores/C++");
}

#[test]
fn identifier_with_reserved_and_non_ascii_characters() {
    let g = client(Credentials::Anonymous);
    let r = g.projects().delete("é/x?y#z%");
    assert_eq!(r.url, "https://gitlab.com/api/v4/projects/%C3%A9%2Fx%3Fy%23z%25");
    let gi = g.gitignores();
    assert_eq!(gi.single_template("a/b").url, "https://gitlab.com/api/v4/templates/gitignores/a%2Fb");
}

#[test]
fn escaped_query_round_trip() {
    let o = GetProjectUsersOptions::builder("1").search_for_user("x=1&y=é+z").build();
    let q = o.to_query_string().unwrap();
    assert_eq!(parse_query_string(&q), vec![(s("search"), s("x=1&y=é+z"))]);
}

#[test]
fn payload_escapes_controls() {
    let p = ProjectParams::new("a\nb\u{1}\\é");
    assert_eq!(payload_json(&p), "{\"name\":\"a\\nb\\u0001\\\\é\"}");
}
