use cms_core::argon2_password_hasher::hash_password;
use cms_core::auth::actor::CreateToken;
use cms_core::auth::simple_jwt_helper::TokenError;
use cms_core::errors::MyError;
use cms_core::models::{Admin, Draft, NewDraft, NewPost, NewUser, Post, PublishStatus, User};
use cms_core::openapi::addons::BearerSecurity;
use cms_core::selectors;
use cms_core::views::admins::ensure_admin;
use cms_core::views::drafts::{CreateDraftData, DraftData};
use cms_core::views::posts::{
    ensure_user_owns_post, get_posts, CreatePostData, PostData, UpdatePostBody, UpdatePostSubject,
};
use cms_core::views::swagger_ui::{ApiDoc, OPENAPI_JSON_ENDPOINT, UI_PAGE_HEAD, UI_PAGE_TAIL};
use cms_core::views::users::{
    get_user_by_username, login, AuthedUser, LogInInput, SignUpInput, Token,
    UserChangePasswordInput, UserData,
};

fn user(id: i32, name: &str, is_admin: bool) -> User {
    User {
        id,
        username: name.to_string(),
        password_hash: "no digest".to_string(),
        is_admin,
        created_at: chrono::NaiveDateTime::default(),
        updated_at: chrono::NaiveDateTime::default(),
    }
}

fn post(id: i32, owner: i32) -> Post {
    Post {
        id,
        post_subject: format!("subject {}", id),
        post_body: format!("body {}", id),
        published_status: PublishStatus::Published.label().to_string(),
        user_id: owner,
        created_at: chrono::NaiveDateTime::default(),
        updated_at: chrono::NaiveDateTime::default(),
    }
}

#[test]
fn publish_status_labels() {
    assert_eq!(PublishStatus::Published.label(), "Published");
    assert_eq!(PublishStatus::Unpublished.label(), "Unpublished");
    assert_eq!(PublishStatus::RequestToAdminForPublish.label(), "Request to admin for publish");
}

#[test]
fn new_user_is_never_an_administrator() {
    assert_eq!(
        NewUser::registering("ann", "digest"),
        NewUser { username: "ann", password_hash: "digest", is_admin: false }
    );
}

#[test]
fn new_post_starts_unpublished() {
    assert_eq!(
        NewPost::written("s", "b", 9),
        NewPost { post_subject: "s", post_body: "b", user_id: 9, published_status: "Unpublished" }
    );
}

#[test]
fn new_draft_holds_its_fields() {
    let draft = NewDraft { draft_subject: "s", draft_body: "b", post_id: Some(4) };
    assert_eq!(draft.post_id, Some(4));
    assert_eq!(draft.draft_subject, "s");
    assert_eq!(draft.draft_body, "b");
}

#[test]
fn user_data_shows_id_name_and_role() {
    assert_eq!(
        UserData::from_user(user(3, "ann", true)),
        UserData { id: 3, username: "ann".to_string(), is_admin: true }
    );
    assert_eq!(
        UserData::from_user(user(-1, "", false)),
        UserData { id: -1, username: String::new(), is_admin: false }
    );
}

#[test]
fn draft_data_shows_the_draft() {
    let draft = Draft {
        id: 5,
        draft_subject: "s".to_string(),
        draft_body: "b".to_string(),
        post_id: None,
        created_at: chrono::NaiveDateTime::default(),
        updated_at: chrono::NaiveDateTime::default(),
    };
    assert_eq!(
        DraftData::from_draft(&draft),
        DraftData { id: 5, subject: "s".to_string(), body: "b".to_string(), post_id: None }
    );
    let of_post = Draft { post_id: Some(8), ..draft };
    assert_eq!(DraftData::from_draft(&of_post).post_id, Some(8));
}

#[test]
fn post_data_marks_the_owner() {
    let p = post(1, 7);
    let shown = PostData {
        id: 1,
        subject: "subject 1".to_string(),
        body: "body 1".to_string(),
        owner: true,
        status: "Published".to_string(),
    };
    assert_eq!(PostData::from_post(&p, Some(&user(7, "ann", false))), shown);
    assert_eq!(
        PostData::from_post(&p, Some(&user(8, "bob", true))),
        PostData { owner: false, ..shown.clone() }
    );
    assert_eq!(PostData::from_post(&p, None), PostData { owner: false, ..shown });
}

#[test]
fn posts_are_shown_in_their_order() {
    let posts = vec![post(1, 7), post(2, 8), post(3, 7)];
    let reader = user(7, "ann", false);
    let shown = get_posts(&posts, Some(&reader));
    assert_eq!(shown.len(), 3);
    assert_eq!(shown.iter().map(|p| p.id).collect::<Vec<i32>>(), vec![1, 2, 3]);
    assert_eq!(shown.iter().map(|p| p.owner).collect::<Vec<bool>>(), vec![true, false, true]);
    let anonymous = get_posts(&posts, None);
    assert_eq!(anonymous.iter().map(|p| p.owner).collect::<Vec<bool>>(), vec![false; 3]);
    assert_eq!(get_posts(&Vec::new(), Some(&reader)), Vec::new());
}

#[test]
fn only_the_owner_may_change_a_post() {
    assert_eq!(ensure_user_owns_post(post(1, 7), 7), Ok(post(1, 7)));
    assert_eq!(ensure_user_owns_post(post(1, 7), 8), Err(MyError::YouDontOwnThisPost));
    assert!(post(1, 7).is_owned_by(7));
    assert!(!post(1, 7).is_owned_by(-7));
}

#[test]
fn only_administrators_pass() {
    let admin = AuthedUser { user_id: 1, user: user(1, "root", true) };
    assert_eq!(ensure_admin(admin), Ok(AuthedUser { user_id: 1, user: user(1, "root", true) }));
    let plain = AuthedUser { user_id: 2, user: user(2, "ann", false) };
    assert_eq!(ensure_admin(plain), Err(MyError::NotAdmin));
}

#[test]
fn unknown_name_cannot_log_in() {
    assert_eq!(get_user_by_username(None), Err(MyError::UserDoesNotExists));
    assert_eq!(get_user_by_username(Some(user(1, "ann", false))), Ok(user(1, "ann", false)));
}

#[test]
fn right_password_earns_a_token_request() {
    let digest = hash_password(b"open sesame").expect("a digest");
    let ann = User { password_hash: digest, ..user(12, "ann", false) };
    let right = LogInInput { username: "ann".to_string(), password: "open sesame".to_string() };
    let wrong = LogInInput { username: "ann".to_string(), password: "open sesam".to_string() };
    assert_eq!(login(&right, &ann), Ok(CreateToken { data: 12 }));
    assert_eq!(login(&wrong, &ann), Err(MyError::IncorrectPassword));
}

#[test]
fn user_without_a_digest_cannot_log_in() {
    let input = LogInInput { username: "ann".to_string(), password: "no digest".to_string() };
    assert_eq!(login(&input, &user(12, "ann", false)), Err(MyError::IncorrectPassword));
}

#[test]
fn log_in_reply_needs_a_token() {
    assert_eq!(Token::from_issued(Some("t".to_string())), Ok(Token { token: "t".to_string() }));
    assert_eq!(Token::from_issued(None), Err(MyError::TokenCreationError));
}

#[test]
fn every_token_error_is_reported_alike() {
    assert_eq!(AuthedUser::from_token(Ok(4)), Ok(4));
    for error in [TokenError::Malformed, TokenError::SignatureInvalid, TokenError::Expired] {
        assert_eq!(AuthedUser::from_token(Err(error)), Err(MyError::TokenValidationError));
    }
}

#[test]
fn token_of_a_deleted_user_is_turned_down() {
    assert_eq!(AuthedUser::from_lookup(4, None), Err(MyError::UserDoesNotExists));
    assert_eq!(
        AuthedUser::from_lookup(4, Some(user(4, "ann", false))),
        Ok(AuthedUser { user_id: 4, user: user(4, "ann", false) })
    );
}

#[test]
fn administrators_are_told_apart() {
    let record = Admin {
        id: 1,
        user_id: 4,
        is_super_user: true,
        created_at: chrono::NaiveDateTime::default(),
        updated_at: chrono::NaiveDateTime::default(),
    };
    assert_eq!(
        selectors::admins::UserData::from_user(user(4, "ann", true), Some(record)),
        selectors::admins::UserData::AdminUser(user(4, "ann", true), true)
    );
    assert_eq!(
        selectors::admins::UserData::from_user(user(5, "bob", false), None),
        selectors::admins::UserData::SimpleUser(user(5, "bob", false))
    );
}

#[test]
fn request_bodies_hold_their_fields() {
    let sign_up = SignUpInput { username: "ann".to_string(), password: "pw".to_string() };
    assert_eq!(sign_up.clone(), sign_up);
    let change = UserChangePasswordInput { new_password: "pw2".to_string() };
    assert_eq!(change.new_password, "pw2");
    let create = CreatePostData { subject: "s".to_string(), body: "b".to_string() };
    assert_eq!(create.subject, "s");
    let subject = UpdatePostSubject { new_subject: "s2".to_string() };
    assert_eq!(subject.new_subject, "s2");
    let body = UpdatePostBody { new_body: "b2".to_string() };
    assert_eq!(body.new_body, "b2");
    let draft = CreateDraftData { subject: "s".to_string(), body: "b".to_string(), post_id: None };
    assert_eq!(draft.post_id, None);
}

#[test]
fn api_description_constants() {
    assert_eq!(BearerSecurity::SCHEME_NAME, "bearer_auth");
    assert_eq!(BearerSecurity::BEARER_FORMAT, "JWT");
    assert_eq!(OPENAPI_JSON_ENDPOINT, "/api-doc/openapi.json");
    assert_eq!(ApiDoc, ApiDoc);
}

#[test]
fn viewer_page_points_at_the_description() {
    let page = ApiDoc::ui_page(OPENAPI_JSON_ENDPOINT);
    assert_eq!(page, format!("{}{}{}", UI_PAGE_HEAD, OPENAPI_JSON_ENDPOINT, UI_PAGE_TAIL));
    assert!(page.starts_with("<!DOCTYPE html>"));
    assert!(page.contains("url: `${window.location.origin}/api-doc/openapi.json`,"));
    assert!(page.ends_with("</html>\n"));
    assert_eq!(ApiDoc::ui_page(""), format!("{}{}", UI_PAGE_HEAD, UI_PAGE_TAIL));
}
