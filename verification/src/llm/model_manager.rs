//! The catalogue of local model files: which models are known, where they
//! lie, and from where one is fetched.

use vstd::prelude::*;
use std::path::PathBuf;
use crate::error::OrionError;
use crate::text::{ends_with, has_suffix, same, trim_end_matches, without_trailing};

verus! {

/// `std::path::PathBuf`, carried through without a look inside.
#[verifier::external_type_specification]
#[verifier::external_body]
pub struct ExPathBuf(PathBuf);

/// Calls `clone` on a `PathBuf`. Trusted: the copy equals the path that it
/// was made from.
#[verifier::external_body]
pub(crate) fn copy_path(path: &PathBuf) -> (r: PathBuf)
    ensures
        r == *path,
{
    path.clone()
}

/// What is known about one model.
#[derive(Debug)]
pub struct ModelInfo {
    pub id: String,
    pub name: String,
    pub size_bytes: u64,
    pub version: String,
    pub path: Option<PathBuf>,
    pub is_downloaded: bool,
}

/// A model as plain values.
pub ghost struct ModelView {
    pub id: Seq<char>,
    pub name: Seq<char>,
    pub size_bytes: u64,
    pub version: Seq<char>,
    pub path: Option<PathBuf>,
    pub is_downloaded: bool,
}

impl View for ModelInfo {
    type V = ModelView;

    open spec fn view(&self) -> ModelView {
        ModelView {
            id: self.id@,
            name: self.name@,
            size_bytes: self.size_bytes,
            version: self.version@,
            path: self.path,
            is_downloaded: self.is_downloaded,
        }
    }
}

impl Clone for ModelInfo {
    fn clone(&self) -> (r: Self)
        ensures
            r@ == self@,
    {
        ModelInfo {
            id: self.id.clone(),
            name: self.name.clone(),
            size_bytes: self.size_bytes,
            version: self.version.clone(),
            path: match &self.path {
                Some(p) => Some(copy_path(p)),
                None => None,
            },
            is_downloaded: self.is_downloaded,
        }
    }
}

/// A file that a scan of the models directory found.
#[derive(Debug)]
pub struct ScannedFile {
    pub file_name: String,
    pub size_bytes: u64,
    pub path: PathBuf,
}

/// The models of a list as plain values.
pub open spec fn model_views(models: Seq<ModelInfo>) -> Seq<ModelView> {
    models.map_values(|m: ModelInfo| m@)
}

/// The extension of a model file.
pub open spec fn model_suffix() -> Seq<char> {
    ".gguf"@
}

/// The catalogue entry for a model file that a scan found.
pub open spec fn scanned_entry(file_name: Seq<char>, size_bytes: u64, path: PathBuf) -> ModelView {
    ModelView {
        id: without_trailing(file_name, model_suffix()),
        name: file_name,
        size_bytes,
        version: "local"@,
        path: Some(path),
        is_downloaded: true,
    }
}

/// The position of the model `id` in `cache`, where it is there.
pub open spec fn position_of(cache: Seq<ModelView>, id: Seq<char>) -> Option<int>
    decreases cache.len(),
{
    if cache.len() == 0 {
        None
    } else {
        match position_of(cache.drop_last(), id) {
            Some(i) => Some(i),
            None => if cache.last().id == id {
                Some(cache.len() - 1)
            } else {
                None
            },
        }
    }
}

/// `cache` with `entry` put under its identifier: in the place of the
/// entry that had the identifier, or at the end.
pub open spec fn with_entry(cache: Seq<ModelView>, entry: ModelView) -> Seq<ModelView> {
    match position_of(cache, entry.id) {
        Some(i) => cache.update(i, entry),
        None => cache.push(entry),
    }
}

/// The catalogue that a scan yields: the model files among `files`, each
/// under its identifier, a later file in the place of an earlier one with
/// the same identifier.
pub open spec fn scanned_cache(files: Seq<ScannedFile>) -> Seq<ModelView>
    decreases files.len(),
{
    if files.len() == 0 {
        Seq::empty()
    } else {
        let before = scanned_cache(files.drop_last());
        let file = files.last();
        if has_suffix(file.file_name@, model_suffix()) {
            with_entry(before, scanned_entry(file.file_name@, file.size_bytes, file.path))
        } else {
            before
        }
    }
}

/// The downloaded models of `cache`, in their order.
pub open spec fn downloaded(cache: Seq<ModelView>) -> Seq<ModelView>
    decreases cache.len(),
{
    if cache.len() == 0 {
        Seq::empty()
    } else if cache.last().is_downloaded {
        downloaded(cache.drop_last()).push(cache.last())
    } else {
        downloaded(cache.drop_last())
    }
}

/// The models of `cache` other than the one named `id`, in their order.
pub open spec fn others(cache: Seq<ModelView>, id: Seq<char>) -> Seq<ModelView>
    decreases cache.len(),
{
    if cache.len() == 0 {
        Seq::empty()
    } else if cache.last().id != id {
        others(cache.drop_last(), id).push(cache.last())
    } else {
        others(cache.drop_last(), id)
    }
}

/// The model that is always on offer.
pub open spec fn predefined_model(is_downloaded: bool) -> ModelView {
    ModelView {
        id: "phi3-mini-4k"@,
        name: "Phi-3-mini-4k-instruct"@,
        size_bytes: 1_800_000_000,
        version: "q4"@,
        path: None,
        is_downloaded,
    }
}

/// The address from which the file `file_name` of the repository
/// `repo_id` is fetched.
pub open spec fn download_address(repo_id: Seq<char>, file_name: Seq<char>) -> Seq<char> {
    "https://huggingface.co/"@ + repo_id + "/resolve/main/"@ + file_name
}

/// No identifier occurs twice in `cache`.
pub open spec fn distinct_ids(cache: Seq<ModelView>) -> bool {
    forall|i: int, j: int|
        0 <= i < j < cache.len() ==> (#[trigger] cache[i]).id != (#[trigger] cache[j]).id
}

/// The position that `position_of` gives is the first with the identifier.
pub proof fn position_is_first(cache: Seq<ModelView>, id: Seq<char>)
    ensures
        match position_of(cache, id) {
            Some(i) => 0 <= i < cache.len() && cache[i].id == id && forall|j: int|
                0 <= j < i ==> (#[trigger] cache[j]).id != id,
            None => forall|j: int| 0 <= j < cache.len() ==> (#[trigger] cache[j]).id != id,
        },
    decreases cache.len(),
{
    if cache.len() > 0 {
        position_is_first(cache.drop_last(), id);
        assert forall|j: int| 0 <= j < cache.drop_last().len() implies cache.drop_last()[j]
            == cache[j] by {}
        match position_of(cache.drop_last(), id) {
            Some(i) => {
                assert(cache.drop_last()[i] == cache[i]);
                assert forall|j: int| 0 <= j < i implies (#[trigger] cache[j]).id != id by {
                    assert(cache.drop_last()[j] == cache[j]);
                }
            },
            None => {
                assert forall|j: int| 0 <= j < cache.len() - 1 implies (#[trigger] cache[j]).id
                    != id by {
                    assert(cache.drop_last()[j] == cache[j]);
                }
            },
        }
    }
}

/// How far a download has come.
#[derive(Debug, Clone, Copy, PartialEq, Eq, Structural)]
pub struct DownloadProgress {
    pub downloaded_bytes: u64,
    pub total_bytes: u64,
}

impl DownloadProgress {
    /// The progress after `chunk_len` more bytes, held at the largest
    /// `u64`.
    pub open spec fn after(self, chunk_len: usize) -> DownloadProgress {
        DownloadProgress {
            downloaded_bytes: if self.downloaded_bytes + chunk_len > u64::MAX {
                u64::MAX
            } else {
                (self.downloaded_bytes + chunk_len) as u64
            },
            total_bytes: self.total_bytes,
        }
    }

    /// The whole hundredths of the total that have been downloaded, zero
    /// where the total is not known.
    pub open spec fn hundredths(self) -> int {
        if self.total_bytes > 0 {
            self.downloaded_bytes * 100 / (self.total_bytes as int)
        } else {
            0
        }
    }

    /// The start of a download of `total_bytes` bytes, zero where the
    /// total is not known.
    pub fn begin(total_bytes: u64) -> (r: DownloadProgress)
        ensures
            r == (DownloadProgress { downloaded_bytes: 0, total_bytes }),
    {
        DownloadProgress { downloaded_bytes: 0, total_bytes }
    }

    /// Counts a chunk of `chunk_len` bytes.
    pub fn advance(self, chunk_len: usize) -> (r: DownloadProgress)
        ensures
            r == self.after(chunk_len),
    {
        DownloadProgress {
            downloaded_bytes: self.downloaded_bytes.saturating_add(chunk_len as u64),
            total_bytes: self.total_bytes,
        }
    }

    /// The whole hundredths of the total that have been downloaded.
    pub fn percent(&self) -> (r: u128)
        ensures
            r == self.hundredths(),
    {
        if self.total_bytes > 0 {
            (self.downloaded_bytes as u128) * 100 / (self.total_bytes as u128)
        } else {
            0
        }
    }
}

/// The catalogue.
#[derive(Debug)]
pub struct ModelManager {
    models_dir: PathBuf,
    cache: Vec<ModelInfo>,
}

impl ModelManager {
    /// The directory in which the model files lie.
    pub closed spec fn dir(&self) -> PathBuf {
        self.models_dir
    }

    /// The known models.
    pub closed spec fn entries(&self) -> Seq<ModelView> {
        model_views(self.cache@)
    }

    /// No identifier occurs twice among the known models.
    pub open spec fn wf(&self) -> bool {
        distinct_ids(self.entries())
    }

    /// A catalogue for `models_dir` that knows no model yet.
    pub fn new(models_dir: PathBuf) -> (r: Self)
        ensures
            r.dir() == models_dir,
            r.entries() == Seq::<ModelView>::empty(),
            r.wf(),
    {
        let r = ModelManager { models_dir, cache: Vec::new() };
        proof {
            assert(model_views(r.cache@) =~= Seq::<ModelView>::empty());
        }
        r
    }

    /// The directory in which the model files lie.
    pub fn models_dir(&self) -> (r: &PathBuf)
        ensures
            *r == self.dir(),
    {
        &self.models_dir
    }

    /// The position of the model `model_id` among the known ones.
    fn find(&self, model_id: &str) -> (r: Option<usize>)
        ensures
            match r {
                Some(i) => position_of(self.entries(), model_id@) == Some(i as int) && i
                    < self.cache@.len(),
                None => position_of(self.entries(), model_id@) is None,
            },
    {
        let ghost all = self.entries();
        let mut i: usize = 0;
        while i < self.cache.len()
            invariant
                i <= self.cache@.len(),
                all == model_views(self.cache@),
                position_of(all.take(i as int), model_id@) is None,
            decreases self.cache.len() - i,
        {
            proof {
                assert(all.take(i as int + 1).drop_last() == all.take(i as int));
                assert(all.take(i as int + 1).last() == self.cache@[i as int]@);
            }
            if same(self.cache[i].id.as_str(), model_id) {
                proof {
                    Self::position_stays(all, i as int + 1, model_id@);
                }
                return Some(i);
            }
            i = i + 1;
        }
        proof {
            assert(all.take(self.cache@.len() as int) == all);
        }
        None
    }

    /// Puts `model` into the catalogue under its identifier.
    fn register(&mut self, model: ModelInfo)
        requires
            old(self).wf(),
        ensures
            final(self).wf(),
            final(self).dir() == old(self).dir(),
            final(self).entries() == with_entry(old(self).entries(), model@),
    {
        let ghost before = self.entries();
        proof {
            position_is_first(before, model@.id);
        }
        match self.find(model.id.as_str()) {
            Some(i) => {
                self.cache.set(i, model);
                proof {
                    assert(self.entries() =~= before.update(i as int, model@));
                    assert forall|a: int, b: int| 0 <= a < b < self.entries().len() implies (
                    #[trigger] self.entries()[a]).id != (#[trigger] self.entries()[b]).id by {
                        assert(before[a].id != before[b].id);
                    }
                }
            },
            None => {
                self.cache.push(model);
                proof {
                    assert(self.entries() =~= before.push(model@));
                    assert forall|a: int, b: int| 0 <= a < b < self.entries().len() implies (
                    #[trigger] self.entries()[a]).id != (#[trigger] self.entries()[b]).id by {
                        if b < before.len() {
                            assert(before[a].id != before[b].id);
                        } else {
                            assert(before[a].id != model@.id);
                        }
                    }
                }
            },
        }
    }

    /// The catalogue entry for a file of the models directory, `None` for
    /// a file that is no model file.
    pub fn scanned_model(file: &ScannedFile) -> (r: Option<ModelInfo>)
        ensures
            r is Some <==> has_suffix(file.file_name@, model_suffix()),
            r matches Some(m) ==> m@ == scanned_entry(file.file_name@, file.size_bytes, file.path),
    {
        if ends_with(file.file_name.as_str(), ".gguf") {
            let id = trim_end_matches(file.file_name.as_str(), ".gguf");
            Some(
                ModelInfo {
                    id,
                    name: file.file_name.clone(),
                    size_bytes: file.size_bytes,
                    version: String::from_str("local"),
                    path: Some(copy_path(&file.path)),
                    is_downloaded: true,
                },
            )
        } else {
            None
        }
    }

    /// Replaces the catalogue by what a scan of the models directory
    /// found: of `files`, the model files, each under its identifier.
    pub fn refresh_cache(&mut self, files: &[ScannedFile])
        ensures
            final(self).wf(),
            final(self).dir() == old(self).dir(),
            final(self).entries() == scanned_cache(files@),
    {
        self.cache = Vec::new();
        proof {
            assert(self.entries() =~= Seq::<ModelView>::empty());
        }
        let mut i: usize = 0;
        while i < files.len()
            invariant
                i <= files.len(),
                self.wf(),
                self.dir() == old(self).dir(),
                self.entries() == scanned_cache(files@.take(i as int)),
            decreases files.len() - i,
        {
            proof {
                assert(files@.take(i as int + 1).drop_last() == files@.take(i as int));
                assert(files@.take(i as int + 1).last() == files@[i as int]);
            }
            match Self::scanned_model(&files[i]) {
                Some(model) => {
                    self.register(model);
                },
                None => {},
            }
            i = i + 1;
        }
        proof {
            assert(files@.take(files.len() as int) == files@);
        }
    }

    /// The downloaded models among the known ones.
    pub fn list_downloaded(&self) -> (r: Vec<&ModelInfo>)
        ensures
            r@.map_values(|m: &ModelInfo| m@) == downloaded(self.entries()),
    {
        let ghost all = self.entries();
        let mut found: Vec<&ModelInfo> = Vec::new();
        let mut i: usize = 0;
        while i < self.cache.len()
            invariant
                i <= self.cache@.len(),
                all == model_views(self.cache@),
                found@.map_values(|m: &ModelInfo| m@) == downloaded(all.take(i as int)),
            decreases self.cache.len() - i,
        {
            proof {
                assert(all.take(i as int + 1).drop_last() == all.take(i as int));
                assert(all.take(i as int + 1).last() == self.cache@[i as int]@);
            }
            if self.cache[i].is_downloaded {
                let ghost before = found@;
                found.push(&self.cache[i]);
                proof {
                    assert(found@.map_values(|m: &ModelInfo| m@) =~= before.map_values(
                        |m: &ModelInfo| m@,
                    ).push(self.cache@[i as int]@));
                }
            }
            i = i + 1;
        }
        proof {
            assert(all.take(self.cache@.len() as int) == all);
        }
        found
    }

    /// The models on offer: first the predefined one, marked as downloaded
    /// where its file is known, then every other known model.
    pub fn list_available(&self) -> (r: Vec<ModelInfo>)
        ensures
            model_views(r@) == seq![
                predefined_model(position_of(self.entries(), "Phi-3-mini-4k-instruct-q4"@) is Some),
            ] + others(self.entries(), "phi3-mini-4k"@),
    {
        let ghost all = self.entries();
        let ghost head = predefined_model(
            position_of(self.entries(), "Phi-3-mini-4k-instruct-q4"@) is Some,
        );
        let mut available: Vec<ModelInfo> = Vec::new();
        available.push(
            ModelInfo {
                id: String::from_str("phi3-mini-4k"),
                name: String::from_str("Phi-3-mini-4k-instruct"),
                size_bytes: 1_800_000_000,
                version: String::from_str("q4"),
                path: None,
                is_downloaded: self.find("Phi-3-mini-4k-instruct-q4").is_some(),
            },
        );
        proof {
            assert(model_views(available@) =~= seq![head] + others(all.take(0), "phi3-mini-4k"@));
        }
        let mut i: usize = 0;
        while i < self.cache.len()
            invariant
                i <= self.cache@.len(),
                all == model_views(self.cache@),
                model_views(available@) == seq![head] + others(all.take(i as int), "phi3-mini-4k"@),
            decreases self.cache.len() - i,
        {
            proof {
                assert(all.take(i as int + 1).drop_last() == all.take(i as int));
                assert(all.take(i as int + 1).last() == self.cache@[i as int]@);
            }
            if !same(self.cache[i].id.as_str(), "phi3-mini-4k") {
                let ghost before = available@;
                let copy = self.cache[i].clone();
                available.push(copy);
                proof {
                    assert(model_views(available@) =~= model_views(before).push(copy@));
                    assert(model_views(available@) =~= seq![head] + others(
                        all.take(i as int + 1),
                        "phi3-mini-4k"@,
                    ));
                }
            }
            i = i + 1;
        }
        proof {
            assert(all.take(self.cache@.len() as int) == all);
        }
        available
    }

    /// Where the file of the model `model_id` lies. Fails where the model
    /// is not known or has no file.
    pub fn get_model_path(&self, model_id: &str) -> (r: Result<PathBuf, OrionError>)
        ensures
            r is Ok <==> (position_of(self.entries(), model_id@) matches Some(i)
                && self.entries()[i].path is Some),
            r matches Ok(p) ==> Some(p) == self.entries()[position_of(
                self.entries(),
                model_id@,
            )->0].path,
            r matches Err(e) ==> e matches OrionError::NotFound(m) && m@ == "Model not found: "@
                + model_id@,
    {
        match self.find(model_id) {
            Some(i) => match &self.cache[i].path {
                Some(p) => {
                    return Ok(copy_path(p));
                },
                None => {},
            },
            None => {},
        }
        let mut m = String::from_str("Model not found: ");
        m.append(model_id);
        Err(OrionError::NotFound(m))
    }

    /// Takes the model `model_id` out of the catalogue once its file has
    /// been removed; `removal` says how that went. Fails, and keeps the
    /// catalogue, where the model has no known file and where the removal
    /// failed.
    pub fn delete_model(&mut self, model_id: &str, removal: Result<(), OrionError>) -> (r: Result<
        (),
        OrionError,
    >)
        requires
            old(self).wf(),
        ensures
            final(self).wf(),
            final(self).dir() == old(self).dir(),
            r is Ok <==> (removal is Ok && (position_of(old(self).entries(), model_id@) matches Some(
                i,
            ) && old(self).entries()[i].path is Some)),
            r is Ok ==> final(self).entries() == old(self).entries().remove(
                position_of(old(self).entries(), model_id@)->0,
            ),
            r is Err ==> final(self).entries() == old(self).entries(),
            r matches Err(e) ==> (if position_of(old(self).entries(), model_id@) matches Some(i)
                && old(self).entries()[i].path is Some {
                removal == Err::<(), OrionError>(e)
            } else {
                e matches OrionError::NotFound(m) && m@ == "Model not found: "@ + model_id@
            }),
    {
        let ghost before = self.entries();
        proof {
            position_is_first(before, model_id@);
        }
        let at = match self.find(model_id) {
            Some(i) => if self.cache[i].path.is_some() {
                Some(i)
            } else {
                None
            },
            None => None,
        };
        match at {
            None => {
                let mut m = String::from_str("Model not found: ");
                m.append(model_id);
                Err(OrionError::NotFound(m))
            },
            Some(i) => match removal {
                Err(e) => Err(e),
                Ok(()) => {
                    let _ = self.cache.remove(i);
                    proof {
                        assert(self.entries() =~= before.remove(i as int));
                        assert forall|a: int, b: int|
                            0 <= a < b < self.entries().len() implies (#[trigger] self.entries()[a]).id
                            != (#[trigger] self.entries()[b]).id by {
                            let a0 = if a < i { a } else { a + 1 };
                            let b0 = if b < i { b } else { b + 1 };
                            assert(before[a0].id != before[b0].id);
                        }
                    }
                    Ok(())
                },
            },
        }
    }

    /// Whether the model `model_id` is known and downloaded.
    pub fn is_downloaded(&self, model_id: &str) -> (r: bool)
        ensures
            r == (position_of(self.entries(), model_id@) matches Some(i)
                && self.entries()[i].is_downloaded),
    {
        match self.find(model_id) {
            Some(i) => self.cache[i].is_downloaded,
            None => false,
        }
    }

    /// The address from which the file `file_name` of the repository
    /// `repo_id` is fetched.
    pub fn download_url(repo_id: &str, file_name: &str) -> (r: String)
        ensures
            r@ == download_address(repo_id@, file_name@),
    {
        let mut url = String::from_str("https://huggingface.co/");
        url.append(repo_id);
        url.append("/resolve/main/");
        url.append(file_name);
        url
    }

    /// The address from which the Phi-3-mini model file is fetched.
    pub fn phi3_mini_url() -> (r: String)
        ensures
            r@ == download_address(
                "microsoft/Phi-3-mini-4k-instruct-gguf"@,
                "Phi-3-mini-4k-instruct-q4.gguf"@,
            ),
    {
        Self::download_url("microsoft/Phi-3-mini-4k-instruct-gguf", Self::phi3_mini_file())
    }

    /// The name of the Phi-3-mini model file.
    pub fn phi3_mini_file() -> (r: &'static str)
        ensures
            r@ == "Phi-3-mini-4k-instruct-q4.gguf"@,
    {
        "Phi-3-mini-4k-instruct-q4.gguf"
    }

    /// A position found in a front part of the catalogue is the position
    /// in the whole.
    proof fn position_stays(all: Seq<ModelView>, n: int, id: Seq<char>)
        requires
            0 <= n <= all.len(),
            position_of(all.take(n), id) is Some,
        ensures
            position_of(all, id) == position_of(all.take(n), id),
        decreases all.len() - n,
    {
        if n < all.len() {
            assert(all.take(n + 1).drop_last() == all.take(n));
            Self::position_stays(all, n + 1, id);
        } else {
            assert(all.take(n) == all);
        }
    }
}

} // verus!
