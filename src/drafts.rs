//! The draft staging store: images derived from uploads that wait, in one
//! process-wide collection, for the next post to be created.
use vstd::prelude::*;

verus! {

/// The three derived representations of one upload, by file name under the
/// uploads directory.
pub struct Image {
    pub thumbnail_path: String,
    pub medium_path: String,
    pub full_path: String,
}

impl Image {
    /// A field-by-field copy.
    pub fn duplicate(&self) -> (r: Image)
        ensures
            r == *self,
    {
        Image {
            thumbnail_path: self.thumbnail_path.clone(),
            medium_path: self.medium_path.clone(),
            full_path: self.full_path.clone(),
        }
    }
}

/// What the API reports of one draft: its full-size and thumbnail files.
pub struct DraftImageResponse {
    pub full_path: String,
    pub thumbnail_path: String,
}

/// The API's answer to an authenticated index request.
pub struct IndexResponse {
    pub draft_images: Vec<DraftImageResponse>,
}

/// `r` lists the full-size and thumbnail file of each of `drafts`, in order.
pub open spec fn summarizes(r: IndexResponse, drafts: Seq<Image>) -> bool {
    &&& r.draft_images@.len() == drafts.len()
    &&& forall|i: int|
        0 <= i < drafts.len() ==> {
            &&& (#[trigger] r.draft_images@[i]).full_path@ == drafts[i].full_path@
            &&& r.draft_images@[i].thumbnail_path@ == drafts[i].thumbnail_path@
        }
}

/// The staged images, in the order they were inserted.
pub struct DraftStore {
    images: Vec<Image>,
}

impl View for DraftStore {
    type V = Seq<Image>;

    closed spec fn view(&self) -> Seq<Image> {
        self.images@
    }
}

impl DraftStore {
    /// An empty store.
    pub fn new() -> (r: DraftStore)
        ensures
            r@ == Seq::<Image>::empty(),
    {
        DraftStore { images: Vec::new() }
    }

    /// Stages one more image after those already present.
    pub fn insert(&mut self, image: Image)
        ensures
            final(self)@ == old(self)@.push(image),
    {
        self.images.push(image);
    }

    /// The number of staged images.
    pub fn len(&self) -> (r: usize)
        ensures
            r == self@.len(),
    {
        self.images.len()
    }

    /// All staged images, in insertion order.
    pub fn list_all(&self) -> (r: &Vec<Image>)
        ensures
            r@ == self@,
    {
        &self.images
    }

    /// Removes every staged image.
    pub fn clear_all(&mut self)
        ensures
            final(self)@ == Seq::<Image>::empty(),
    {
        self.images = Vec::new();
    }

    /// Hands out every staged image, in insertion order, and leaves the store
    /// empty: one step, so no image can be handed out twice or lost between a
    /// listing and a clear.
    pub fn take_all(&mut self) -> (r: Vec<Image>)
        ensures
            r@ == old(self)@,
            final(self)@ == Seq::<Image>::empty(),
    {
        let mut taken: Vec<Image> = Vec::new();
        std::mem::swap(&mut taken, &mut self.images);
        taken
    }

    /// The full-size and thumbnail file of each staged image, in insertion order.
    pub fn summaries(&self) -> (r: IndexResponse)
        ensures
            summarizes(r, self@),
    {
        let mut out: Vec<DraftImageResponse> = Vec::new();
        let mut i: usize = 0;
        while i < self.images.len()
            invariant
                i <= self.images@.len(),
                out@.len() == i,
                forall|j: int|
                    0 <= j < i ==> {
                        &&& (#[trigger] out@[j]).full_path@ == self.images@[j].full_path@
                        &&& out@[j].thumbnail_path@ == self.images@[j].thumbnail_path@
                    },
            decreases self.images@.len() - i,
        {
            let image = &self.images[i];
            out.push(
                DraftImageResponse {
                    full_path: image.full_path.clone(),
                    thumbnail_path: image.thumbnail_path.clone(),
                },
            );
            i = i + 1;
        }
        IndexResponse { draft_images: out }
    }
}

} // verus!
