//! What each page and form request decides. The caller reads the request and
//! the store, and carries out the decision: it renders, redirects, or writes.
use vstd::prelude::*;
use crate::clock::now_micros;
use crate::config::Config;
use crate::drafts::{DraftStore, Image};
use crate::feed::{fetch_page, is_page, unique_ids, view_more, Post};
use crate::images::{GmImageConvert, UploadJob};
use crate::session::{mutation_verdict, token_matches, MessageFlashes, Rejection, Session};
use crate::text::{all_digits, decimal_value, owned, parse_u64, same_text};

verus! {

/// The only account, the administrator's.
pub const ADMIN_USER_ID: i64 = 1;

pub struct LoginFormInput {
    pub username: String,
    pub password: String,
    pub csrf_token: String,
}

pub struct PostFormInput {
    pub content: String,
    pub csrf_token: String,
}

pub struct PostEditFormInput {
    pub content: String,
    pub csrf_token: String,
}

pub struct PostDeleteFormInput {
    pub csrf_token: String,
}

pub struct ProfileUpdateFormInput {
    pub name: String,
    pub bio: String,
    pub csrf_token: String,
}

/// Where a request sends the browser next.
#[derive(PartialEq, Eq, Structural)]
pub enum Target {
    Index,
    UserLogin,
    UserProfile,
    PostView(i64),
}

/// A post ready to be stored.
pub struct NewPost {
    pub user_id: i64,
    pub content: String,
    pub posted_timestamp: i64,
    pub images: Vec<Image>,
}

/// The outcome of a post-create request. Either way the browser goes back to
/// the index.
pub enum PostCreate {
    Created(NewPost),
    Rejected(Rejection),
}

impl PostCreate {
    /// Where the browser goes after a post-create, accepted or not.
    pub fn target(&self) -> (r: Target)
        ensures
            r == Target::Index,
    {
        Target::Index
    }
}

/// A content change to store.
pub struct PostEdit {
    pub post_id: i64,
    pub content: String,
}

/// A profile change to store.
pub struct ProfileUpdate {
    pub name: String,
    pub bio: String,
}

/// Everything the index page shows.
pub struct IndexView {
    pub posts: Vec<Post>,
    pub draft_images: Vec<Image>,
    pub logged_in: bool,
    pub csrf_token: Option<String>,
    pub view_more: bool,
    pub messages: Option<String>,
}

/// Whether a login form holds the administrator's credentials and the
/// session's token.
pub open spec fn login_accepted(s: Session, config: Config, form: LoginFormInput) -> bool {
    &&& form.username@ == config.admin_username@
    &&& form.password@ == config.admin_password@
    &&& token_matches(s, form.csrf_token@)
}

/// The drafts left after a post-create: none once it is accepted, all of them
/// otherwise.
pub open spec fn drafts_after_create(drafts: Seq<Image>, accepted: bool) -> Seq<Image> {
    if accepted {
        Seq::empty()
    } else {
        drafts
    }
}

/// The images a post-create attaches: every draft once it is accepted, none
/// otherwise.
pub open spec fn attached_by_create(drafts: Seq<Image>, accepted: bool) -> Seq<Image> {
    if accepted {
        drafts
    } else {
        Seq::empty()
    }
}

/// The drafts after each of `images` has been staged in turn.
pub open spec fn drafts_after_uploads(drafts: Seq<Image>, images: Seq<Image>) -> Seq<Image>
    decreases images.len(),
{
    if images.len() == 0 {
        drafts
    } else {
        drafts_after_uploads(drafts, images.drop_last()).push(images.last())
    }
}

/// Login: with the administrator's credentials and the session's token the
/// session becomes logged in and the browser goes to the index; otherwise
/// the session gets a flash message and the browser goes back to the form.
pub fn user_login_post(session: &mut Session, config: &Config, form: &LoginFormInput) -> (r:
    Target)
    ensures
        final(session).csrf_token == old(session).csrf_token,
        login_accepted(*old(session), *config, *form) ==> {
            &&& r == Target::Index
            &&& final(session).logged_in
            &&& final(session).messages == old(session).messages
        },
        !login_accepted(*old(session), *config, *form) ==> {
            &&& r == Target::UserLogin
            &&& final(session).logged_in == old(session).logged_in
            &&& final(session).messages is Some
            &&& final(session).messages->0@ == "Login error - ensure your credentials are correct."@
        },
{
    if same_text(form.username.as_str(), &config.admin_username) && same_text(
        form.password.as_str(),
        &config.admin_password,
    ) && session.csrf_valid(form.csrf_token.as_str()) {
        session.logged_in = true;
        Target::Index
    } else {
        session.messages = Some(owned("Login error - ensure your credentials are correct."));
        Target::UserLogin
    }
}

/// Post creation at the instant `now`: a logged-in session with its own token
/// publishes a post by the administrator that carries every staged draft, in
/// staging order, and the store is left empty; any other request changes
/// nothing.
pub fn post_create_at(session: &Session, form: PostFormInput, drafts: &mut DraftStore, now: i64) -> (r:
    PostCreate)
    ensures
        r is Created <==> mutation_verdict(*session, form.csrf_token@) is Ok,
        final(drafts)@ == drafts_after_create(old(drafts)@, r is Created),
        r is Created ==> {
            &&& r->Created_0.images@ == attached_by_create(old(drafts)@, true)
            &&& r->Created_0.user_id == ADMIN_USER_ID
            &&& r->Created_0.content@ == form.content@
            &&& r->Created_0.posted_timestamp == now
        },
        r is Rejected ==> Err::<(), Rejection>(r->Rejected_0) == mutation_verdict(*session, form.csrf_token@),
{
    match session.authorize_mutation(form.csrf_token.as_str()) {
        Err(e) => PostCreate::Rejected(e),
        Ok(()) => {
            let images = drafts.take_all();
            PostCreate::Created(
                NewPost {
                    user_id: ADMIN_USER_ID,
                    content: form.content,
                    posted_timestamp: now,
                    images: images,
                },
            )
        },
    }
}

/// Post creation, stamped with the present instant.
pub fn post_create(session: &Session, form: PostFormInput, drafts: &mut DraftStore) -> (r:
    PostCreate)
    ensures
        r is Created <==> mutation_verdict(*session, form.csrf_token@) is Ok,
        final(drafts)@ == drafts_after_create(old(drafts)@, r is Created),
        r is Created ==> {
            &&& r->Created_0.images@ == attached_by_create(old(drafts)@, true)
            &&& r->Created_0.user_id == ADMIN_USER_ID
            &&& r->Created_0.content@ == form.content@
        },
        r is Rejected ==> Err::<(), Rejection>(r->Rejected_0) == mutation_verdict(*session, form.csrf_token@),
{
    let now = now_micros();
    post_create_at(session, form, drafts, now)
}

/// A post edit: admitted for a logged-in session with its own token, after
/// which the browser goes to the post.
pub fn post_edit(session: &Session, post_id: i64, form: PostEditFormInput) -> (r: Result<
    PostEdit,
    Rejection,
>)
    ensures
        r is Ok <==> mutation_verdict(*session, form.csrf_token@) is Ok,
        r is Ok ==> r->Ok_0.post_id == post_id && r->Ok_0.content@ == form.content@,
        r is Err ==> Err::<(), Rejection>(r->Err_0) == mutation_verdict(*session, form.csrf_token@),
{
    match session.authorize_mutation(form.csrf_token.as_str()) {
        Err(e) => Err(e),
        Ok(()) => Ok(PostEdit { post_id: post_id, content: form.content }),
    }
}

/// A post deletion: admitted for a logged-in session with its own token; the
/// result is the post to delete.
pub fn post_delete(session: &Session, post_id: i64, form: &PostDeleteFormInput) -> (r: Result<
    i64,
    Rejection,
>)
    ensures
        r is Ok <==> mutation_verdict(*session, form.csrf_token@) is Ok,
        r is Ok ==> r->Ok_0 == post_id,
        r is Err ==> Err::<(), Rejection>(r->Err_0) == mutation_verdict(*session, form.csrf_token@),
{
    match session.authorize_mutation(form.csrf_token.as_str()) {
        Err(e) => Err(e),
        Ok(()) => Ok(post_id),
    }
}

/// A profile update: admitted for a logged-in session with its own token,
/// after which the browser goes to the profile.
pub fn user_profile_update(session: &Session, form: ProfileUpdateFormInput) -> (r: Result<
    ProfileUpdate,
    Rejection,
>)
    ensures
        r is Ok <==> mutation_verdict(*session, form.csrf_token@) is Ok,
        r is Ok ==> r->Ok_0.name@ == form.name@ && r->Ok_0.bio@ == form.bio@,
        r is Err ==> Err::<(), Rejection>(r->Err_0) == mutation_verdict(*session, form.csrf_token@),
{
    match session.authorize_mutation(form.csrf_token.as_str()) {
        Err(e) => Err(e),
        Ok(()) => Ok(ProfileUpdate { name: form.name, bio: form.bio }),
    }
}

/// The profile editor is shown to a logged-in session only.
pub fn user_profile_edit(session: &Session) -> (r: Result<(), Rejection>)
    ensures
        r is Ok <==> session.logged_in,
        r is Err ==> r->Err_0 == Rejection::Unauthorized,
{
    session.require_login()
}

/// An image upload, admitted for a logged-in session. It asks for no CSRF
/// token: a browser sends a cross-origin `PUT` only after a preflight that
/// this service never grants, and an upload only stages a draft, which no
/// post carries until a token-checked post-create.
pub fn put_image_upload(session: &Session, tool: &GmImageConvert, uploads_dir: &str) -> (r:
    Result<UploadJob, Rejection>)
    ensures
        r is Ok <==> session.logged_in,
        r is Err ==> r->Err_0 == Rejection::Unauthorized,
        r is Ok ==> {
            let job = r->Ok_0;
            &&& job.wf()
            &&& job.tool_spec() == tool@
            &&& job.dir_spec() == uploads_dir@
            &&& job.succeeded_spec() == 0
            &&& !job.failed_spec()
        },
{
    match session.require_login() {
        Err(e) => Err(e),
        Ok(()) => Ok(UploadJob::start(tool, uploads_dir)),
    }
}

/// The post id of a `/post/view/<id>` path: decimal digits naming a value
/// that fits in an `i64`.
pub fn post_id_param(param: &str) -> (r: Option<i64>)
    ensures
        r is Some <==> all_digits(param@) && decimal_value(param@) <= i64::MAX,
        r is Some ==> r->0 == decimal_value(param@),
{
    match parse_u64(param) {
        Some(n) => if n <= i64::MAX as u64 {
            Some(n as i64)
        } else {
            None
        },
        None => None,
    }
}

/// Copies of every image, in order.
pub fn duplicate_images(images: &Vec<Image>) -> (r: Vec<Image>)
    ensures
        r@ == images@,
{
    let mut out: Vec<Image> = Vec::new();
    let mut i: usize = 0;
    while i < images.len()
        invariant
            i <= images@.len(),
            out@ == images@.take(i as int),
        decreases images@.len() - i,
    {
        out.push(images[i].duplicate());
        i = i + 1;
        assert(out@ =~= images@.take(i as int));
    }
    assert(images@.take(images@.len() as int) =~= images@);
    out
}

/// The index page: the feed page of `posts` before `before`, whether an older
/// page is offered, the staged drafts, and the session's state.
pub fn index(
    session: &Session,
    flash: Option<MessageFlashes>,
    drafts: &DraftStore,
    posts: Vec<Post>,
    before: i64,
    posts_per_page: u64,
) -> (r: IndexView)
    requires
        unique_ids(posts@),
    ensures
        is_page(posts@, before as int, posts_per_page as nat, r.posts@),
        r.view_more == (r.posts@.len() >= posts_per_page),
        r.draft_images@ == drafts@,
        r.logged_in == session.logged_in,
        r.csrf_token == session.csrf_token,
        r.messages is Some <==> flash is Some,
        r.messages is Some ==> r.messages->0@ == flash->0.messages@,
{
    let page = fetch_page(posts, before, posts_per_page);
    let more = view_more(page.len(), posts_per_page);
    let token = match &session.csrf_token {
        Some(t) => Some(t.clone()),
        None => None,
    };
    IndexView {
        view_more: more,
        posts: page,
        draft_images: duplicate_images(drafts.list_all()),
        logged_in: session.logged_in,
        csrf_token: token,
        messages: match flash {
            Some(f) => Some(f.messages),
            None => None,
        },
    }
}

/// Staging every upload of a run into an empty store and then creating a post
/// attaches exactly those images, in upload order, and leaves the store
/// empty.
pub proof fn lemma_uploads_then_create(images: Seq<Image>)
    ensures
        attached_by_create(drafts_after_uploads(Seq::empty(), images), true) == images,
        drafts_after_create(drafts_after_uploads(Seq::empty(), images), true) == Seq::<
            Image,
        >::empty(),
    decreases images.len(),
{
    if images.len() > 0 {
        lemma_uploads_then_create(images.drop_last());
        assert(images.drop_last().push(images.last()) =~= images);
    }
}

/// Two post-creates, one after the other on the same drafts, never both
/// attach images: between them they attach each draft present at the start
/// exactly once, or leave it staged.
pub proof fn lemma_two_creates(drafts: Seq<Image>, first: bool, second: bool)
    ensures
        ({
            let attached1 = attached_by_create(drafts, first);
            let left1 = drafts_after_create(drafts, first);
            let attached2 = attached_by_create(left1, second);
            let left2 = drafts_after_create(left1, second);
            &&& attached1.len() == 0 || attached2.len() == 0
            &&& attached1 + attached2 + left2 == drafts
        }),
{
    let left1 = drafts_after_create(drafts, first);
    assert(attached_by_create(drafts, first) + attached_by_create(left1, second)
        + drafts_after_create(left1, second) =~= drafts);
}

} // verus!
