use microblog::drafts::{DraftStore, Image};
use microblog::images::{image_files, GmImageConvert, UploadJob, UploadStep};
use microblog::routes::{
    post_create, post_create_at, post_delete, post_edit, put_image_upload, user_profile_edit,
    user_profile_update, PostCreate, PostDeleteFormInput, PostEditFormInput, PostFormInput,
    ProfileUpdateFormInput, Target, ADMIN_USER_ID,
};
use microblog::routes_api::{index_api, ApiIndex};
use microblog::session::{Rejection, Session};

fn admin_session(token: &str) -> Session {
    Session { csrf_token: Some(token.to_string()), logged_in: true, messages: None }
}

fn image(id: u64) -> Image {
    let files = image_files(id);
    Image { thumbnail_path: files.thumbnail, medium_path: files.medium, full_path: files.full }
}

fn form(content: &str, token: &str) -> PostFormInput {
    PostFormInput { content: content.to_string(), csrf_token: token.to_string() }
}

/// Runs an upload whose derivation steps all succeed and stages its image.
fn upload(drafts: &mut DraftStore, image_id: u64) {
    let tool = GmImageConvert::new("gm".to_string());
    let mut job = UploadJob::new(&tool, "/srv/uploads", image_id);
    loop {
        match job.next_step() {
            UploadStep::Run(_) => job.record(true),
            UploadStep::Finish(f) => {
                drafts.insert(f.draft.expect("a successful upload stages its image"));
                return;
            }
        }
    }
}

#[test]
fn uploads_then_create_attach_all_in_order() {
    let session = admin_session("777");
    let mut drafts = DraftStore::new();
    for id in [3u64, 1, 2] {
        upload(&mut drafts, id);
    }
    match post_create_at(&session, form("hello", "777"), &mut drafts, 1_000) {
        PostCreate::Created(post) => {
            let fulls: Vec<&str> = post.images.iter().map(|i| i.full_path.as_str()).collect();
            assert_eq!(fulls, vec!["3_full.jpg", "1_full.jpg", "2_full.jpg"]);
            assert_eq!(post.images[0].medium_path, "3_medium.jpg");
            assert_eq!(post.images[0].thumbnail_path, "3_thumbnail.jpg");
            assert_eq!(post.content, "hello");
            assert_eq!(post.user_id, ADMIN_USER_ID);
            assert_eq!(post.posted_timestamp, 1_000);
        }
        PostCreate::Rejected(_) => panic!("an authorized create is accepted"),
    }
    assert_eq!(drafts.len(), 0);
}

#[test]
fn create_without_uploads_has_no_images() {
    let session = admin_session("9");
    let mut drafts = DraftStore::new();
    match post_create_at(&session, form("text only", "9"), &mut drafts, 5) {
        PostCreate::Created(post) => assert!(post.images.is_empty()),
        PostCreate::Rejected(_) => panic!("an authorized create is accepted"),
    }
}

#[test]
fn create_with_wrong_token_changes_nothing() {
    let session = admin_session("12");
    let mut drafts = DraftStore::new();
    drafts.insert(image(5));
    let outcome = post_create_at(&session, form("hello", "mismatch"), &mut drafts, 1);
    assert!(outcome.target() == Target::Index);
    match outcome {
        PostCreate::Rejected(e) => assert!(e == Rejection::InvalidCsrf),
        PostCreate::Created(_) => panic!("a mismatched token creates nothing"),
    }
    assert_eq!(drafts.len(), 1);
    assert_eq!(drafts.list_all()[0].full_path, "5_full.jpg");
}

#[test]
fn create_when_anonymous_is_unauthorized() {
    let session = Session { csrf_token: Some("1".to_string()), logged_in: false, messages: None };
    let mut drafts = DraftStore::new();
    drafts.insert(image(8));
    match post_create_at(&session, form("hello", "1"), &mut drafts, 1) {
        PostCreate::Rejected(e) => assert!(e == Rejection::Unauthorized),
        PostCreate::Created(_) => panic!("an anonymous session creates nothing"),
    }
    assert_eq!(drafts.len(), 1);
}

#[test]
fn two_creates_never_share_drafts() {
    let session = admin_session("4");
    let mut drafts = DraftStore::new();
    drafts.insert(image(1));
    drafts.insert(image(2));
    let first = post_create_at(&session, form("a", "4"), &mut drafts, 10);
    let second = post_create_at(&session, form("b", "4"), &mut drafts, 11);
    let count = |c: &PostCreate| match c {
        PostCreate::Created(p) => p.images.len(),
        PostCreate::Rejected(_) => panic!("both creates are authorized"),
    };
    assert_eq!(count(&first), 2);
    assert_eq!(count(&second), 0);
    assert_eq!(drafts.len(), 0);
}

#[test]
fn create_now_takes_a_recent_timestamp() {
    let session = admin_session("4");
    let mut drafts = DraftStore::new();
    drafts.insert(image(1));
    match post_create(&session, form("now", "4"), &mut drafts) {
        PostCreate::Created(p) => {
            // 2020-01-01T00:00:00Z in microseconds.
            assert!(p.posted_timestamp > 1_577_836_800_000_000);
            assert_eq!(p.images.len(), 1);
        }
        PostCreate::Rejected(_) => panic!("an authorized create is accepted"),
    }
}

#[test]
fn api_index_lists_an_uploaded_draft() {
    let session = admin_session("1");
    let mut drafts = DraftStore::new();
    upload(&mut drafts, 12345);
    match index_api(&session, &drafts) {
        ApiIndex::Drafts(r) => {
            assert_eq!(r.draft_images.len(), 1);
            assert_eq!(r.draft_images[0].full_path, "12345_full.jpg");
            assert_eq!(r.draft_images[0].thumbnail_path, "12345_thumbnail.jpg");
        }
        ApiIndex::Unauthorized => panic!("the administrator sees the drafts"),
    }
}

#[test]
fn api_index_refuses_anonymous() {
    let session = Session::new();
    let mut drafts = DraftStore::new();
    drafts.insert(image(1));
    assert!(matches!(index_api(&session, &drafts), ApiIndex::Unauthorized));
}

#[test]
fn clear_all_empties_the_store() {
    let mut drafts = DraftStore::new();
    drafts.insert(image(1));
    drafts.insert(image(2));
    drafts.clear_all();
    assert_eq!(drafts.len(), 0);
    let mut drafts = DraftStore::new();
    drafts.insert(image(7));
    let taken = drafts.take_all();
    assert_eq!(taken.len(), 1);
    assert_eq!(taken[0].thumbnail_path, "7_thumbnail.jpg");
    assert_eq!(drafts.len(), 0);
}

#[test]
fn edit_delete_and_profile_are_gated() {
    let admin = admin_session("55");
    let edit = post_edit(&admin, 3, PostEditFormInput { content: "new".to_string(), csrf_token: "55".to_string() });
    match edit {
        Ok(e) => {
            assert_eq!(e.post_id, 3);
            assert_eq!(e.content, "new");
        }
        Err(_) => panic!("an authorized edit is admitted"),
    }
    let bad = post_edit(&admin, 3, PostEditFormInput { content: "x".to_string(), csrf_token: "56".to_string() });
    assert!(matches!(bad, Err(Rejection::InvalidCsrf)));
    let del = post_delete(&admin, 9, &PostDeleteFormInput { csrf_token: "55".to_string() });
    assert!(matches!(del, Ok(9)));
    let anon = Session { csrf_token: Some("55".to_string()), logged_in: false, messages: None };
    let del = post_delete(&anon, 9, &PostDeleteFormInput { csrf_token: "55".to_string() });
    assert!(matches!(del, Err(Rejection::Unauthorized)));
    let upd = user_profile_update(
        &admin,
        ProfileUpdateFormInput { name: "N".to_string(), bio: "B".to_string(), csrf_token: "55".to_string() },
    );
    match upd {
        Ok(u) => {
            assert_eq!(u.name, "N");
            assert_eq!(u.bio, "B");
        }
        Err(_) => panic!("an authorized update is admitted"),
    }
    assert!(user_profile_edit(&admin).is_ok());
    assert!(matches!(user_profile_edit(&anon), Err(Rejection::Unauthorized)));
}

#[test]
fn upload_requires_login() {
    let tool = GmImageConvert::new("gm".to_string());
    assert!(matches!(put_image_upload(&Session::new(), &tool, "/tmp"), Err(Rejection::Unauthorized)));
    let job = put_image_upload(&admin_session("1"), &tool, "/tmp").ok().expect("admitted");
    let raw = job.raw_path();
    let digits = raw.strip_prefix("/tmp/").expect("under the uploads directory");
    assert!(!digits.is_empty() && digits.chars().all(|c| c.is_ascii_digit()));
}
