use collaboard::client::{
    board_created_toast, login_failure, login_reducer, logout, network_error, redirect_after_whoami,
    register_failure, role_code, shows_owner_actions, something_went_wrong, toast_notification, AuthResponse, Route,
    Store,
};
use collaboard::endpoints::{
    accept_invitation_url, bearer_header, board_url, boards_url, decimal_string, delete_permission_url, invite_url,
    login_url, permissions_url, register_url, request_succeeded, whoami_url,
};
use collaboard::dto::InvitationPayload;
use collaboard::forms::{BoardForm, FormErrors, LoginForm, RegisterForm, ShareForm, Submission};
use collaboard::text::parse_i32;

fn s(x: &str) -> String {
    x.to_string()
}

#[test]
fn session_store() {
    let mut store = Store::new();
    assert_eq!(store, Store { username: s(""), token: s("") });
    assert_eq!(Store::default(), store);
    login_reducer(AuthResponse { token: s("t0k"), email: s("ana@example.com") }, &mut store);
    assert_eq!(store, Store { username: s("ana@example.com"), token: s("t0k") });
    logout(&mut store);
    assert_eq!(store, Store { username: s(""), token: s("") });
}

#[test]
fn role_codes() {
    assert_eq!(role_code("Viewer"), 0);
    assert_eq!(role_code("Editor"), 1);
    assert_eq!(role_code("Owner"), 2);
    assert_eq!(role_code("owner"), -1);
    assert_eq!(role_code(""), -1);
    assert!(shows_owner_actions("Owner"));
    assert!(!shows_owner_actions("Editor"));
    assert!(!shows_owner_actions("Viewer"));
}

#[test]
fn redirects() {
    assert_eq!(redirect_after_whoami(&Route::Home, 401), Some(Route::Login));
    assert_eq!(redirect_after_whoami(&Route::Home, 200), None);
    assert_eq!(redirect_after_whoami(&Route::Board { id: 3 }, 500), Some(Route::Login));
    assert_eq!(redirect_after_whoami(&Route::Board { id: 3 }, 200), None);
    assert_eq!(redirect_after_whoami(&Route::Login, 200), Some(Route::Home));
    assert_eq!(redirect_after_whoami(&Route::Login, 401), None);
    assert_eq!(redirect_after_whoami(&Route::Register, 200), Some(Route::Home));
    assert_eq!(redirect_after_whoami(&Route::Register, 401), None);
    assert_eq!(redirect_after_whoami(&Route::NotFound, 200), Some(Route::Home));
    assert_eq!(redirect_after_whoami(&Route::NotFound, 401), Some(Route::Login));
    assert_eq!(redirect_after_whoami(&Route::AcceptIntivation { code: s("x") }, 401), None);
}

#[test]
fn answer_messages() {
    assert_eq!(login_failure(404), Some(s("Invalid credentials")));
    assert_eq!(login_failure(200), None);
    assert_eq!(login_failure(204), None);
    assert_eq!(login_failure(500), Some(s("Something went wrong")));
    assert_eq!(login_failure(400), Some(s("Something went wrong")));
    assert_eq!(register_failure(404), Some(s("Something went wrong")));
    assert_eq!(register_failure(400), Some(s("Email already exists")));
    assert_eq!(register_failure(200), None);
    assert_eq!(register_failure(503), Some(s("Something went wrong")));
    assert_eq!(something_went_wrong(), "Something went wrong");
    assert_eq!(network_error(), "Network error occurred");
}

#[test]
fn toasts() {
    let t = toast_notification(s("Error"), s("Board name taken"));
    assert_eq!(t.title, "Error");
    assert_eq!(t.message, "Board name taken");
    let t = board_created_toast("Plans");
    assert_eq!(t.title, "Info");
    assert_eq!(t.message, "Created board Plans");
}

#[test]
fn login_form_messages() {
    let f = LoginForm { email: s(""), password: s("12345") };
    assert_eq!((f.messages("email")), vec![s("Email is required"), s("Email is invalid")]);
    assert_eq!((f.messages("password")), vec![s("Password must be at least 6 characters")]);
    assert_eq!((f.messages("other")), Vec::<String>::new());
    assert!(!f.is_valid());
    let f = LoginForm { email: s("ana@example.com"), password: s("123456") };
    assert_eq!(f.messages("email"), Vec::<String>::new());
    assert!(f.is_valid());
    let f = LoginForm { email: s("ana"), password: s("123456") };
    assert_eq!(f.messages("email"), vec![s("Email is invalid")]);
}

#[test]
fn register_form_messages() {
    let f = RegisterForm {
        name: s("Al"),
        surname: s("Bob"),
        email: s("al@example.com"),
        password: s("secret"),
        confirm_password: s("secreT"),
    };
    assert_eq!(f.messages("name"), vec![s("Name is too short (min 3)")]);
    assert_eq!(f.messages("surname"), Vec::<String>::new());
    assert_eq!(f.messages("email"), Vec::<String>::new());
    assert_eq!(f.messages("password"), Vec::<String>::new());
    assert_eq!(f.messages("confirm_password"), Vec::<String>::new());
    assert!(!f.is_valid());
    assert_eq!(f.password_mismatch(), Some(s("Passwords do not match")));
    let g = RegisterForm { name: s("Ana"), confirm_password: s("secret"), ..f };
    assert!(g.is_valid());
    assert_eq!(g.password_mismatch(), None);
    let h = RegisterForm { surname: s("Bo"), password: s("12345"), ..g.clone() };
    assert_eq!(h.messages("surname"), vec![s("Surname is too short (min 3)")]);
    assert_eq!(h.messages("password"), vec![s("Password must be at least 6 characters")]);
}

#[test]
fn board_and_share_forms() {
    assert_eq!(BoardForm { name: s("ab") }.messages("name"), vec![s("Name must be at least 3 characters")]);
    assert_eq!(BoardForm { name: s("abc") }.messages("name"), Vec::<String>::new());
    assert_eq!(BoardForm { name: s("") }.messages("email"), Vec::<String>::new());
    assert_eq!(ShareForm { email: s("x") }.messages("email"), vec![s("Email is invalid")]);
    assert_eq!(ShareForm { email: s("bo@example.com") }.messages("email"), Vec::<String>::new());
}

#[test]
fn form_errors_follow_fields() {
    let mut errors = FormErrors::new();
    assert_eq!(errors.get(&s("email")), None);
    let f = LoginForm { email: s("x"), password: s("1") };
    errors.refresh(&s("email"), f.messages("email"));
    errors.refresh(&s("password"), f.messages("password"));
    assert_eq!(errors.get(&s("email")), Some(vec![s("Email is invalid")]));
    assert_eq!(errors.get(&s("password")), Some(vec![s("Password must be at least 6 characters")]));
    let fixed = LoginForm { email: s("ana@example.com"), password: s("1") };
    errors.refresh(&s("email"), fixed.messages("email"));
    assert_eq!(errors.get(&s("email")), None);
    errors.refresh(&s("email"), fixed.messages("email"));
    assert_eq!(errors.get(&s("email")), None);
    errors.refresh(&s("password"), vec![s("again")]);
    assert_eq!(errors.get(&s("password")), Some(vec![s("again")]));
}

#[test]
fn request_addresses() {
    assert_eq!(bearer_header("t0k"), "Bearer t0k");
    assert_eq!(login_url(), "http://localhost:3000/api/login");
    assert_eq!(register_url(), "http://localhost:3000/api/register");
    assert_eq!(whoami_url(), "http://localhost:3000/api/whoami");
    assert_eq!(boards_url(), "http://localhost:3000/api/board");
    assert_eq!(board_url(42), "http://localhost:3000/api/board/42");
    assert_eq!(invite_url(), "http://localhost:3000/api/invite");
    assert_eq!(permissions_url(7), "http://localhost:3000/api/permission/7");
    assert_eq!(
        delete_permission_url("bo@example.com", 7),
        "http://localhost:3000/api/permission?user_email=bo@example.com&board_id=7"
    );
    assert_eq!(accept_invitation_url("Ab3dE6gH"), "http://localhost:3000/api/invite/accept/Ab3dE6gH");
    assert!(request_succeeded(200));
    assert!(!request_succeeded(201));
    assert!(!request_succeeded(404));
}

#[test]
fn decimal_numbers() {
    for n in [0, 7, 10, 42, -1, -42, 1000, i32::MAX, i32::MIN] {
        assert_eq!(decimal_string(n), n.to_string());
        assert_eq!(parse_i32(&decimal_string(n)), Some(n));
    }
}

#[test]
fn submitting_forms() {
    assert_eq!(LoginForm { email: s("ana@example.com"), password: s("123456") }.submit(), Submission::Send);
    assert_eq!(LoginForm { email: s("ana"), password: s("123456") }.submit(), Submission::ShowErrors);
    let ok = RegisterForm {
        name: s("Ana"),
        surname: s("Bob"),
        email: s("ana@example.com"),
        password: s("secret"),
        confirm_password: s("secret"),
    };
    assert_eq!(ok.submit(), Submission::Send);
    let mismatch = RegisterForm { confirm_password: s("secreT"), ..ok.clone() };
    assert_eq!(mismatch.submit(), Submission::ShowMessage(s("Passwords do not match")));
    let short = RegisterForm { name: s("Al"), confirm_password: s("other!"), ..ok };
    assert_eq!(short.submit(), Submission::ShowErrors);
    assert_eq!(BoardForm { name: s("Plan") }.submit(), Submission::Send);
    assert!(BoardForm { name: s("Pla") }.is_valid());
    assert_eq!(BoardForm { name: s("Pl") }.submit(), Submission::ShowErrors);
    assert_eq!(
        ShareForm { email: s("bo@example.com") }.invitation(11, "Editor"),
        Some(InvitationPayload { user_email: s("bo@example.com"), board_id: 11, role: 1 })
    );
    assert_eq!(ShareForm { email: s("bo") }.invitation(11, "Editor"), None);
    assert_eq!(ShareForm { email: s("bo@example.com") }.invitation(3, "Boss").map(|p| p.role), Some(-1));
}
