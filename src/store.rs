use vstd::prelude::*;
use crate::text::{append_str, push_char};

verus! {

/// Where the image for `slug` lives in the store directory `dir`: `<dir>/<slug>.jpg`.
pub open spec fn store_path(dir: Seq<char>, slug: Seq<char>) -> Seq<char> {
    dir + seq!['/'] + slug + seq!['.', 'j', 'p', 'g']
}

/// The local directory that holds the downloaded wallpaper. Clearing it is
/// left to the caller that owns the file system; the store names the files.
pub struct WallpaperStore {
    dir: String,
}

impl View for WallpaperStore {
    type V = Seq<char>;

    /// The store directory's path.
    closed spec fn view(&self) -> Seq<char> {
        self.dir@
    }
}

impl WallpaperStore {
    pub fn new(dir: String) -> (s: WallpaperStore)
        ensures
            s@ == dir@,
    {
        WallpaperStore { dir }
    }

    /// The directory that a reset clears and recreates.
    pub fn dir(&self) -> (r: &str)
        ensures
            r@ == self@,
    {
        self.dir.as_str()
    }

    /// The path of the file for `slug`: the same slug always gives the same path.
    pub fn resolve_path(&self, slug: &str) -> (r: String)
        ensures
            r@ == store_path(self@, slug@),
    {
        let mut r = self.dir.clone();
        push_char(&mut r, '/');
        append_str(&mut r, slug);
        append_str(&mut r, ".jpg");
        proof {
            reveal_strlit(".jpg");
        }
        r
    }
}

/// A resolved path lies directly under the store directory.
pub proof fn lemma_path_in_store(dir: Seq<char>, slug: Seq<char>)
    ensures
        store_path(dir, slug).subrange(0, dir.len() + 1 as int) == dir.push('/'),
        store_path(dir, slug).len() == dir.len() + slug.len() + 5,
{
    assert(store_path(dir, slug).subrange(0, dir.len() + 1 as int) =~= dir.push('/'));
}

/// Within one store, two slugs give the same path exactly when they are equal.
pub proof fn lemma_path_names_slug(dir: Seq<char>, a: Seq<char>, b: Seq<char>)
    ensures
        store_path(dir, a) == store_path(dir, b) <==> a == b,
{
    if store_path(dir, a) == store_path(dir, b) {
        let p = store_path(dir, a);
        lemma_path_in_store(dir, a);
        lemma_path_in_store(dir, b);
        assert(a.len() == b.len());
        assert(a =~= p.subrange(dir.len() + 1 as int, dir.len() + 1 + a.len() as int));
        assert(b =~= store_path(dir, b).subrange(dir.len() + 1 as int, dir.len() + 1 + b.len() as int));
    }
}

} // verus!
