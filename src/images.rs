//! The image derivation engine: the raster tool's command lines, the file
//! names of one upload, and the state machine that runs the three derivation
//! steps and decides what is staged and what is removed.
use vstd::prelude::*;
use crate::drafts::Image;
use crate::text::{decimal, joined, string_views, u64_decimal, join_path, owned, concat_str};

verus! {

/// Bounding box, in pixels each way, of the medium-size copy.
pub const MEDIUM_BOX: u32 = 600;

/// Bounding box, in pixels each way, of the thumbnail.
pub const THUMBNAIL_BOX: u32 = 120;

/// The GraphicsMagick program that performs every conversion.
pub struct GmImageConvert {
    gm_path: String,
}

/// One invocation of an outside program: its path and its arguments.
pub struct ToolCommand {
    pub program: String,
    pub args: Vec<String>,
}

/// The arguments that convert `source` into `dest`, keeping its size.
pub open spec fn convert_args(source: Seq<char>, dest: Seq<char>) -> Seq<Seq<char>> {
    seq!["convert"@, source, dest]
}

/// The size argument of a bounding box, `<width>x<height>`.
pub open spec fn geometry(width: nat, height: nat) -> Seq<char> {
    decimal(width) + "x"@ + decimal(height)
}

/// The arguments that shrink `source` into `dest` to fit a bounding box,
/// keeping its aspect and never enlarging it.
pub open spec fn thumbnail_args(
    source: Seq<char>,
    dest: Seq<char>,
    width: nat,
    height: nat,
) -> Seq<Seq<char>> {
    seq!["convert"@, source, "-thumbnail"@, geometry(width, height), dest]
}

impl View for GmImageConvert {
    type V = Seq<char>;

    closed spec fn view(&self) -> Seq<char> {
        self.gm_path@
    }
}

impl GmImageConvert {
    /// A converter that runs the program at `gm_path`.
    pub fn new(gm_path: String) -> (r: GmImageConvert)
        ensures
            r@ == gm_path@,
    {
        GmImageConvert { gm_path: gm_path }
    }

    /// The program path.
    pub fn program(&self) -> (r: &String)
        ensures
            r@ == self@,
    {
        &self.gm_path
    }

    /// The command that converts `source` into `dest`.
    pub fn convert_command(&self, source: &str, dest: &str) -> (r: ToolCommand)
        ensures
            r.program@ == self@,
            string_views(r.args@) == convert_args(source@, dest@),
    {
        let mut args: Vec<String> = Vec::new();
        args.push(owned("convert"));
        args.push(owned(source));
        args.push(owned(dest));
        let r = ToolCommand { program: self.gm_path.clone(), args: args };
        assert(string_views(r.args@) =~= convert_args(source@, dest@));
        r
    }

    /// The command that shrinks `source` into `dest` to fit within
    /// `width` x `height`.
    pub fn thumbnail_command(&self, source: &str, dest: &str, width: u32, height: u32) -> (r:
        ToolCommand)
        ensures
            r.program@ == self@,
            string_views(r.args@) == thumbnail_args(source@, dest@, width as nat, height as nat),
    {
        let w = u64_decimal(width as u64);
        let h = u64_decimal(height as u64);
        let wx = concat_str(w.as_str(), "x");
        let size = concat_str(wx.as_str(), h.as_str());
        let mut args: Vec<String> = Vec::new();
        args.push(owned("convert"));
        args.push(owned(source));
        args.push(owned("-thumbnail"));
        args.push(size);
        args.push(owned(dest));
        let r = ToolCommand { program: self.gm_path.clone(), args: args };
        assert(string_views(r.args@) =~= thumbnail_args(source@, dest@, width as nat, height as nat));
        r
    }
}

/// The file names of one upload: the raw bytes and the three derivatives.
pub struct ImageFiles {
    pub raw: String,
    pub full: String,
    pub medium: String,
    pub thumbnail: String,
}

pub open spec fn raw_name(id: nat) -> Seq<char> {
    decimal(id)
}

pub open spec fn full_name(id: nat) -> Seq<char> {
    decimal(id) + "_full.jpg"@
}

pub open spec fn medium_name(id: nat) -> Seq<char> {
    decimal(id) + "_medium.jpg"@
}

pub open spec fn thumbnail_name(id: nat) -> Seq<char> {
    decimal(id) + "_thumbnail.jpg"@
}

/// The file names of the upload numbered `image_id`.
pub fn image_files(image_id: u64) -> (r: ImageFiles)
    ensures
        r.raw@ == raw_name(image_id as nat),
        r.full@ == full_name(image_id as nat),
        r.medium@ == medium_name(image_id as nat),
        r.thumbnail@ == thumbnail_name(image_id as nat),
{
    let id = u64_decimal(image_id);
    ImageFiles {
        full: concat_str(id.as_str(), "_full.jpg"),
        medium: concat_str(id.as_str(), "_medium.jpg"),
        thumbnail: concat_str(id.as_str(), "_thumbnail.jpg"),
        raw: id,
    }
}

/// Relies on `rand::random::<u64>()`: a number drawn from the thread-local
/// generator. Nothing is known of its value.
#[verifier::external_body]
fn random_image_id() -> (r: u64) {
    rand::random::<u64>()
}

/// What the caller does next for an upload.
pub enum UploadStep {
    /// Run this command and report whether it succeeded.
    Run(ToolCommand),
    /// The upload is over: remove these files, and stage the image if there is one.
    Finish(UploadFinish),
}

/// The end of an upload.
pub struct UploadFinish {
    pub draft: Option<Image>,
    pub remove: Vec<String>,
}

/// Progress of one upload through its three derivation steps.
pub struct UploadJob {
    tool: GmImageConvert,
    dir: String,
    image_id: u64,
    files: ImageFiles,
    succeeded: usize,
    failed: bool,
}

impl UploadJob {
    /// The number that names this upload's files.
    pub closed spec fn image_id_spec(&self) -> nat {
        self.image_id as nat
    }

    /// The conversion program.
    pub closed spec fn tool_spec(&self) -> Seq<char> {
        self.tool@
    }

    /// The uploads directory.
    pub closed spec fn dir_spec(&self) -> Seq<char> {
        self.dir@
    }

    /// How many derivation steps have succeeded.
    pub closed spec fn succeeded_spec(&self) -> nat {
        self.succeeded as nat
    }

    /// Whether a step, or the upload itself, has failed.
    pub closed spec fn failed_spec(&self) -> bool {
        self.failed
    }

    /// The file names belong to the job's image id, and at most the three
    /// steps have succeeded.
    pub closed spec fn wf(&self) -> bool {
        &&& self.succeeded <= 3
        &&& self.files.raw@ == raw_name(self.image_id as nat)
        &&& self.files.full@ == full_name(self.image_id as nat)
        &&& self.files.medium@ == medium_name(self.image_id as nat)
        &&& self.files.thumbnail@ == thumbnail_name(self.image_id as nat)
    }

    /// Where the raw upload is written.
    pub open spec fn raw_path_spec(&self) -> Seq<char> {
        joined(self.dir_spec(), raw_name(self.image_id_spec()))
    }

    pub open spec fn full_path_spec(&self) -> Seq<char> {
        joined(self.dir_spec(), full_name(self.image_id_spec()))
    }

    pub open spec fn medium_path_spec(&self) -> Seq<char> {
        joined(self.dir_spec(), medium_name(self.image_id_spec()))
    }

    pub open spec fn thumbnail_path_spec(&self) -> Seq<char> {
        joined(self.dir_spec(), thumbnail_name(self.image_id_spec()))
    }

    /// The arguments of derivation step `i`: raw to full size, full size to
    /// medium, medium to thumbnail.
    pub open spec fn step_args(&self, i: nat) -> Seq<Seq<char>> {
        if i == 0 {
            convert_args(self.raw_path_spec(), self.full_path_spec())
        } else if i == 1 {
            thumbnail_args(
                self.full_path_spec(),
                self.medium_path_spec(),
                MEDIUM_BOX as nat,
                MEDIUM_BOX as nat,
            )
        } else {
            thumbnail_args(
                self.medium_path_spec(),
                self.thumbnail_path_spec(),
                THUMBNAIL_BOX as nat,
                THUMBNAIL_BOX as nat,
            )
        }
    }

    /// Whether the job has nothing left to run.
    pub open spec fn finished(&self) -> bool {
        self.failed_spec() || self.succeeded_spec() == 3
    }

    /// A job for the upload numbered `image_id`, written under `uploads_dir`.
    pub fn new(tool: &GmImageConvert, uploads_dir: &str, image_id: u64) -> (r: UploadJob)
        ensures
            r.wf(),
            r.tool_spec() == tool@,
            r.dir_spec() == uploads_dir@,
            r.image_id_spec() == image_id as nat,
            r.succeeded_spec() == 0,
            !r.failed_spec(),
    {
        UploadJob {
            tool: GmImageConvert::new(tool.gm_path.clone()),
            dir: owned(uploads_dir),
            image_id: image_id,
            files: image_files(image_id),
            succeeded: 0,
            failed: false,
        }
    }

    /// A job for a new upload, numbered at random so that concurrent uploads
    /// do not collide.
    pub fn start(tool: &GmImageConvert, uploads_dir: &str) -> (r: UploadJob)
        ensures
            r.wf(),
            r.tool_spec() == tool@,
            r.dir_spec() == uploads_dir@,
            r.succeeded_spec() == 0,
            !r.failed_spec(),
    {
        let image_id = random_image_id();
        UploadJob::new(tool, uploads_dir, image_id)
    }

    /// The path the raw upload is to be written to.
    pub fn raw_path(&self) -> (r: String)
        requires
            self.wf(),
        ensures
            r@ == self.raw_path_spec(),
    {
        join_path(self.dir.as_str(), self.files.raw.as_str())
    }

    /// What to do next: run the next derivation step; or, once every step has
    /// succeeded, stage the three derivatives and remove the raw upload; or,
    /// once anything has failed, stage nothing and remove the raw upload and
    /// every derivative.
    pub fn next_step(&self) -> (r: UploadStep)
        requires
            self.wf(),
        ensures
            r is Run <==> !self.finished(),
            r is Run ==> {
                &&& r->Run_0.program@ == self.tool_spec()
                &&& string_views(r->Run_0.args@) == self.step_args(self.succeeded_spec())
            },
            r is Finish ==> {
                &&& (r->Finish_0.draft is Some <==> !self.failed_spec())
                &&& r->Finish_0.draft is Some ==> {
                    &&& r->Finish_0.draft->0.full_path@ == full_name(self.image_id_spec())
                    &&& r->Finish_0.draft->0.medium_path@ == medium_name(self.image_id_spec())
                    &&& r->Finish_0.draft->0.thumbnail_path@ == thumbnail_name(
                        self.image_id_spec(),
                    )
                }
                &&& string_views(r->Finish_0.remove@) == if self.failed_spec() {
                    seq![
                        self.raw_path_spec(),
                        self.full_path_spec(),
                        self.medium_path_spec(),
                        self.thumbnail_path_spec(),
                    ]
                } else {
                    seq![self.raw_path_spec()]
                }
            },
    {
        let dir = self.dir.as_str();
        let raw = join_path(dir, self.files.raw.as_str());
        let full = join_path(dir, self.files.full.as_str());
        let medium = join_path(dir, self.files.medium.as_str());
        let thumbnail = join_path(dir, self.files.thumbnail.as_str());
        if self.failed {
            let mut remove: Vec<String> = Vec::new();
            remove.push(raw);
            remove.push(full);
            remove.push(medium);
            remove.push(thumbnail);
            let ghost want = seq![
                self.raw_path_spec(),
                self.full_path_spec(),
                self.medium_path_spec(),
                self.thumbnail_path_spec(),
            ];
            assert(string_views(remove@) =~= want);
            UploadStep::Finish(UploadFinish { draft: None, remove: remove })
        } else if self.succeeded == 0 {
            UploadStep::Run(self.tool.convert_command(raw.as_str(), full.as_str()))
        } else if self.succeeded == 1 {
            UploadStep::Run(
                self.tool.thumbnail_command(full.as_str(), medium.as_str(), MEDIUM_BOX, MEDIUM_BOX),
            )
        } else if self.succeeded == 2 {
            UploadStep::Run(
                self.tool.thumbnail_command(
                    medium.as_str(),
                    thumbnail.as_str(),
                    THUMBNAIL_BOX,
                    THUMBNAIL_BOX,
                ),
            )
        } else {
            let mut remove: Vec<String> = Vec::new();
            remove.push(raw);
            assert(string_views(remove@) =~= seq![self.raw_path_spec()]);
            let image = Image {
                thumbnail_path: self.files.thumbnail.clone(),
                medium_path: self.files.medium.clone(),
                full_path: self.files.full.clone(),
            };
            UploadStep::Finish(UploadFinish { draft: Some(image), remove: remove })
        }
    }

    /// Records the outcome of the step that `next_step` asked for; `false`
    /// also stands for a failure to store the raw upload.
    pub fn record(&mut self, succeeded: bool)
        requires
            old(self).wf(),
            !old(self).finished(),
        ensures
            final(self).wf(),
            final(self).tool_spec() == old(self).tool_spec(),
            final(self).dir_spec() == old(self).dir_spec(),
            final(self).image_id_spec() == old(self).image_id_spec(),
            succeeded ==> final(self).succeeded_spec() == old(self).succeeded_spec() + 1
                && !final(self).failed_spec(),
            !succeeded ==> final(self).succeeded_spec() == old(self).succeeded_spec()
                && final(self).failed_spec(),
    {
        if succeeded {
            self.succeeded = self.succeeded + 1;
        } else {
            self.failed = true;
        }
    }
}

} // verus!
