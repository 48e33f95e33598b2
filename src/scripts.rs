//! The script store: a keyed collection of scripts, one backing file per id
//! in the store's directory. The store keeps the record set and each script's
//! content; every operation returns the handle whose location the caller
//! brings the backing file in line with.
use vstd::prelude::*;
use crate::paths::{join_path, path_join};

verus! {

/// A failed store operation.
#[derive(Debug)]
pub enum Error {
    /// No script has this id.
    NotExist(String),
    /// A script with this id is already stored.
    AlreadyExist(String),
}

impl Error {
    /// A one-line description for the log.
    pub fn message(&self) -> (r: String)
        ensures
            self matches Error::NotExist(id) ==> r@ == "Script with id "@ + id@ + " not exists"@,
            self matches Error::AlreadyExist(id) ==> r@ == "Script with id "@ + id@
                + " already exists"@,
    {
        match self {
            Error::NotExist(id) => {
                let mut r = String::from_str("Script with id ");
                r.append(id.as_str());
                r.append(" not exists");
                r
            },
            Error::AlreadyExist(id) => {
                let mut r = String::from_str("Script with id ");
                r.append(id.as_str());
                r.append(" already exists");
                r
            },
        }
    }
}

/// A handle on one stored script: its id, the location of its backing file
/// and its content.
pub struct Script {
    id: String,
    path: String,
    content: String,
}

impl Script {
    pub closed spec fn spec_id(&self) -> Seq<char> {
        self.id@
    }

    pub closed spec fn spec_path(&self) -> Seq<char> {
        self.path@
    }

    pub closed spec fn spec_content(&self) -> Seq<char> {
        self.content@
    }

    pub fn id(&self) -> (r: &String)
        ensures
            r@ == self.spec_id(),
    {
        &self.id
    }

    pub fn path(&self) -> (r: &String)
        ensures
            r@ == self.spec_path(),
    {
        &self.path
    }

    pub fn content(&self) -> (r: &String)
        ensures
            r@ == self.spec_content(),
    {
        &self.content
    }
}

/// The record set after `create(id)`: a new empty script, unless `id` is taken.
pub open spec fn after_create(m: Map<Seq<char>, Seq<char>>, id: Seq<char>) -> Map<
    Seq<char>,
    Seq<char>,
> {
    if m.contains_key(id) {
        m
    } else {
        m.insert(id, Seq::empty())
    }
}

/// The record set after `update(id, content)`: unchanged if `id` is absent.
pub open spec fn after_update(m: Map<Seq<char>, Seq<char>>, id: Seq<char>, content: Seq<char>) -> Map<
    Seq<char>,
    Seq<char>,
> {
    if m.contains_key(id) {
        m.insert(id, content)
    } else {
        m
    }
}

/// What `get(id)` reads: the content, or nothing if `id` is absent.
pub open spec fn lookup(m: Map<Seq<char>, Seq<char>>, id: Seq<char>) -> Option<Seq<char>> {
    if m.contains_key(id) {
        Some(m[id])
    } else {
        None
    }
}

/// The record set that a directory listing gives: one script per entry, the
/// first entry of an id winning over later ones.
pub open spec fn loaded(entries: Seq<(String, String)>) -> Map<Seq<char>, Seq<char>>
    decreases entries.len(),
{
    if entries.len() == 0 {
        Map::empty()
    } else {
        let m = loaded(entries.drop_last());
        let e = entries.last();
        if m.contains_key(e.0@) {
            m
        } else {
            m.insert(e.0@, e.1@)
        }
    }
}

/// The store.
pub struct ScriptsManager {
    path: String,
    scripts: Vec<Script>,
}

impl ScriptsManager {
    /// The directory that holds the backing files.
    pub closed spec fn dir(&self) -> Seq<char> {
        self.path@
    }

    /// The record set: each id and its content.
    pub closed spec fn records(&self) -> Map<Seq<char>, Seq<char>> {
        Map::new(
            |k: Seq<char>| exists|i: int| 0 <= i < self.scripts@.len() && self.scripts@[i].id@ == k,
            |k: Seq<char>|
                self.scripts@[choose|i: int|
                    0 <= i < self.scripts@.len() && self.scripts@[i].id@ == k].content@,
        )
    }

    /// Ids are unique, and each script lies in the store's directory under its id.
    pub closed spec fn wf(&self) -> bool {
        &&& forall|i: int, j: int|
            0 <= i < self.scripts@.len() && 0 <= j < self.scripts@.len() && i != j
                ==> self.scripts@[i].id@ != self.scripts@[j].id@
        &&& forall|i: int|
            0 <= i < self.scripts@.len() ==> self.scripts@[i].path@ == path_join(
                self.path@,
                self.scripts@[i].id@,
            )
    }

    proof fn lemma_record_at(&self, i: int)
        requires
            self.wf(),
            0 <= i < self.scripts@.len(),
        ensures
            self.records().contains_key(self.scripts@[i].id@),
            self.records()[self.scripts@[i].id@] == self.scripts@[i].content@,
    {
        let k = self.scripts@[i].id@;
        assert(exists|j: int| 0 <= j < self.scripts@.len() && self.scripts@[j].id@ == k);
        let j = choose|j: int| 0 <= j < self.scripts@.len() && self.scripts@[j].id@ == k;
        assert(i == j);
    }

    /// An empty store over the directory `path`.
    pub fn new(path: String) -> (r: ScriptsManager)
        ensures
            r.wf(),
            r.dir() == path@,
            r.records() == Map::<Seq<char>, Seq<char>>::empty(),
    {
        let r = ScriptsManager { path, scripts: Vec::new() };
        assert(r.records() =~= Map::<Seq<char>, Seq<char>>::empty());
        r
    }

    /// The position of the script with id `id`, if any.
    fn position(&self, id: &String) -> (r: Option<usize>)
        requires
            self.wf(),
        ensures
            r matches Some(i) ==> i < self.scripts@.len() && self.scripts@[i as int].id@ == id@,
            r is None ==> !self.records().contains_key(id@),
    {
        let mut i: usize = 0;
        while i < self.scripts.len()
            invariant
                i <= self.scripts@.len(),
                forall|k: int| 0 <= k < i ==> self.scripts@[k].id@ != id@,
            decreases self.scripts.len() - i,
        {
            if self.scripts[i].id == *id {
                return Some(i);
            }
            i = i + 1;
        }
        None
    }

    /// A handle on the script at position `i`.
    fn handle_at(&self, i: usize) -> (r: Script)
        requires
            self.wf(),
            i < self.scripts@.len(),
        ensures
            r.spec_id() == self.scripts@[i as int].id@,
            r.spec_path() == path_join(self.dir(), r.spec_id()),
            self.records().contains_key(r.spec_id()),
            r.spec_content() == self.records()[r.spec_id()],
    {
        proof {
            self.lemma_record_at(i as int);
        }
        let s = &self.scripts[i];
        Script { id: s.id.clone(), path: s.path.clone(), content: s.content.clone() }
    }

    /// Adds a script under an id that is not taken.
    fn insert_new(&mut self, id: String, content: String) -> (r: Script)
        requires
            old(self).wf(),
            !old(self).records().contains_key(id@),
        ensures
            final(self).wf(),
            final(self).dir() == old(self).dir(),
            final(self).records() == old(self).records().insert(id@, content@),
            r.spec_id() == id@,
            r.spec_path() == path_join(final(self).dir(), id@),
            r.spec_content() == content@,
    {
        let ghost before = self.records();
        let ghost old_scripts = self.scripts@;
        let path = join_path(self.path.as_str(), id.as_str());
        let r = Script { id: id.clone(), path: path.clone(), content: content.clone() };
        self.scripts.push(Script { id, path, content });
        let ghost n = self.scripts@.len() - 1;
        assert forall|i: int| 0 <= i < n implies self.scripts@[i].id@ != id@ by {
            if self.scripts@[i].id@ == id@ {
                assert(old_scripts[i] == self.scripts@[i]);
                assert(before.contains_key(id@));
            }
        }
        assert forall|k: Seq<char>| #[trigger] self.records().contains_key(k) == before.insert(
            id@,
            content@,
        ).contains_key(k) by {
            if k != id@ && before.contains_key(k) {
                let i = choose|i: int| 0 <= i < old_scripts.len() && old_scripts[i].id@ == k;
                assert(old_scripts[i] == self.scripts@[i]);
            }
            if k == id@ {
                assert(self.scripts@[n].id@ == k);
            }
        }
        assert forall|k: Seq<char>| #[trigger]
            self.records().contains_key(k) implies self.records()[k] == before.insert(
            id@,
            content@,
        )[k] by {
            let j = choose|j: int| 0 <= j < self.scripts@.len() && self.scripts@[j].id@ == k;
            if k == id@ {
                assert(j == n);
            } else {
                assert(j < n);
                assert(old_scripts[j] == self.scripts@[j]);
                assert(exists|i: int| 0 <= i < n && old_scripts[i].id@ == k);
                let i0 = choose|i: int| 0 <= i < old_scripts.len() && old_scripts[i].id@ == k;
                assert(old_scripts[i0] == self.scripts@[i0]);
                assert(i0 == j);
            }
        }
        assert(self.records() =~= before.insert(id@, content@));
        r
    }

    /// The handle on the script `id`.
    pub fn get_script(&self, id: &String) -> (r: Result<Script, Error>)
        requires
            self.wf(),
        ensures
            r matches Ok(s) ==> self.records().contains_key(id@) && s.spec_id() == id@
                && s.spec_content() == self.records()[id@] && s.spec_path() == path_join(
                self.dir(),
                id@,
            ),
            r matches Err(e) ==> !self.records().contains_key(id@) && (e matches Error::NotExist(
                i,
            ) && i@ == id@),
            r is Ok == self.records().contains_key(id@),
            r matches Ok(s) ==> lookup(self.records(), id@) == Some(s.spec_content()),
            r is Err ==> lookup(self.records(), id@) is None,
    {
        match self.position(id) {
            Some(i) => Ok(self.handle_at(i)),
            None => Err(Error::NotExist(id.clone())),
        }
    }

    /// Creates the empty script `id`; fails if `id` is taken, changing nothing.
    pub fn new_script(&mut self, id: &String) -> (r: Result<Script, Error>)
        requires
            old(self).wf(),
        ensures
            final(self).wf(),
            final(self).dir() == old(self).dir(),
            final(self).records() == after_create(old(self).records(), id@),
            r is Ok == !old(self).records().contains_key(id@),
            r matches Ok(s) ==> s.spec_id() == id@ && s.spec_content() == Seq::<char>::empty()
                && s.spec_path() == path_join(old(self).dir(), id@),
            r matches Err(e) ==> (e matches Error::AlreadyExist(i) && i@ == id@),
    {
        match self.position(id) {
            Some(i) => {
                proof {
                    self.lemma_record_at(i as int);
                }
                Err(Error::AlreadyExist(id.clone()))
            },
            None => Ok(self.insert_new(id.clone(), String::new())),
        }
    }

    /// Replaces the content of the script `id`; fails if it is absent.
    pub fn update(&mut self, id: &String, content: &String) -> (r: Result<Script, Error>)
        requires
            old(self).wf(),
        ensures
            final(self).wf(),
            final(self).dir() == old(self).dir(),
            final(self).records() == after_update(old(self).records(), id@, content@),
            r is Ok == old(self).records().contains_key(id@),
            r matches Ok(s) ==> s.spec_id() == id@ && s.spec_content() == content@
                && s.spec_path() == path_join(old(self).dir(), id@),
            r matches Err(e) ==> (e matches Error::NotExist(i) && i@ == id@),
    {
        match self.position(id) {
            None => Err(Error::NotExist(id.clone())),
            Some(i) => {
                let ghost before = self.records();
                let ghost old_scripts = self.scripts@;
                proof {
                    self.lemma_record_at(i as int);
                }
                self.scripts[i].content = content.clone();
                assert forall|j: int| 0 <= j < self.scripts@.len() implies self.scripts@[j].id@
                    == old_scripts[j].id@ && self.scripts@[j].path@ == old_scripts[j].path@ by {}
                assert forall|k: Seq<char>| #[trigger]
                    self.records().contains_key(k) == before.contains_key(k) by {
                    if before.contains_key(k) {
                        let j = choose|j: int| 0 <= j < old_scripts.len() && old_scripts[j].id@ == k;
                        assert(self.scripts@[j].id@ == k);
                    }
                    if self.records().contains_key(k) {
                        let j = choose|j: int|
                            0 <= j < self.scripts@.len() && self.scripts@[j].id@ == k;
                        assert(old_scripts[j].id@ == k);
                    }
                }
                assert forall|k: Seq<char>| #[trigger]
                    self.records().contains_key(k) implies self.records()[k] == before.insert(
                    id@,
                    content@,
                )[k] by {
                    let j = choose|j: int| 0 <= j < self.scripts@.len() && self.scripts@[j].id@ == k;
                    self.lemma_record_at(j);
                    if j != i {
                        assert(old_scripts[j].id@ == k);
                        let jj = choose|jj: int| 0 <= jj < old_scripts.len() && old_scripts[jj].id@ == k;
                        assert(jj == j);
                    }
                }
                assert(self.records() =~= before.insert(id@, content@));
                Ok(self.handle_at(i))
            },
        }
    }

    /// Removes the script `id`; fails if it is absent, changing nothing.
    pub fn remove(&mut self, id: &String) -> (r: Result<Script, Error>)
        requires
            old(self).wf(),
        ensures
            final(self).wf(),
            final(self).dir() == old(self).dir(),
            final(self).records() == old(self).records().remove(id@),
            r is Ok == old(self).records().contains_key(id@),
            r matches Ok(s) ==> s.spec_id() == id@ && s.spec_content() == old(self).records()[id@]
                && s.spec_path() == path_join(old(self).dir(), id@),
            r matches Err(e) ==> (e matches Error::NotExist(i) && i@ == id@),
    {
        match self.position(id) {
            None => {
                assert(self.records().remove(id@) =~= self.records());
                Err(Error::NotExist(id.clone()))
            },
            Some(i) => {
                let ghost before = self.records();
                let ghost old_scripts = self.scripts@;
                let h = self.handle_at(i);
                let _ = self.scripts.remove(i);
                assert(self.scripts@ == old_scripts.remove(i as int));
                assert forall|k: Seq<char>| #[trigger]
                    self.records().contains_key(k) == before.remove(id@).contains_key(k) by {
                    if before.contains_key(k) && k != id@ {
                        let j = choose|j: int| 0 <= j < old_scripts.len() && old_scripts[j].id@ == k;
                        assert(j != i);
                        if j < i {
                            assert(self.scripts@[j].id@ == k);
                        } else {
                            assert(self.scripts@[j - 1].id@ == k);
                        }
                    }
                    if self.records().contains_key(k) {
                        let j = choose|j: int|
                            0 <= j < self.scripts@.len() && self.scripts@[j].id@ == k;
                        if j < i {
                            assert(old_scripts[j].id@ == k);
                        } else {
                            assert(old_scripts[j + 1].id@ == k);
                        }
                    }
                }
                assert forall|k: Seq<char>| #[trigger]
                    self.records().contains_key(k) implies self.records()[k] == before[k] by {
                    let j = choose|j: int| 0 <= j < self.scripts@.len() && self.scripts@[j].id@ == k;
                    self.lemma_record_at(j);
                    let oj = if j < i { j } else { j + 1 };
                    assert(old_scripts[oj] == self.scripts@[j]);
                    let jj = choose|jj: int| 0 <= jj < old_scripts.len() && old_scripts[jj].id@ == k;
                    assert(jj == oj);
                }
                assert(self.records() =~= before.remove(id@));
                Ok(h)
            },
        }
    }

    /// A store over the directory `path` holding the scripts that a listing of
    /// it found, as (id, content) entries; of two entries with one id the
    /// first is kept.
    pub fn load(path: String, entries: Vec<(String, String)>) -> (r: ScriptsManager)
        ensures
            r.wf(),
            r.dir() == path@,
            r.records() == loaded(entries@),
    {
        let mut r = ScriptsManager::new(path);
        let mut i: usize = 0;
        while i < entries.len()
            invariant
                i <= entries@.len(),
                r.wf(),
                r.dir() == path@,
                r.records() == loaded(entries@.subrange(0, i as int)),
            decreases entries.len() - i,
        {
            assert(entries@.subrange(0, i as int + 1).drop_last() =~= entries@.subrange(
                0,
                i as int,
            ));
            let (id, content) = &entries[i];
            if r.position(id).is_none() {
                r.insert_new(id.clone(), content.clone());
            }
            i = i + 1;
        }
        assert(entries@.subrange(0, entries@.len() as int) =~= entries@);
        r
    }
}

/// Creating an id that is already stored changes nothing: the existing
/// script and its content stay as they were.
pub proof fn create_existing_keeps_record(m: Map<Seq<char>, Seq<char>>, id: Seq<char>)
    requires
        m.contains_key(id),
    ensures
        after_create(m, id) == m,
        lookup(after_create(m, id), id) == lookup(m, id),
{
}

/// A created script reads back empty.
pub proof fn create_then_get(m: Map<Seq<char>, Seq<char>>, id: Seq<char>)
    requires
        !m.contains_key(id),
    ensures
        lookup(after_create(m, id), id) == Some(Seq::<char>::empty()),
{
}

/// Reading an id that was never stored finds nothing.
pub proof fn get_absent(m: Map<Seq<char>, Seq<char>>, id: Seq<char>)
    requires
        !m.contains_key(id),
    ensures
        lookup(m, id) is None,
{
}

/// After an update of a stored id, reading it gives exactly the new content.
pub proof fn update_then_get(m: Map<Seq<char>, Seq<char>>, id: Seq<char>, content: Seq<char>)
    requires
        m.contains_key(id),
    ensures
        lookup(after_update(m, id, content), id) == Some(content),
{
}

/// After a removal, reading the id finds nothing.
pub proof fn remove_then_get(m: Map<Seq<char>, Seq<char>>, id: Seq<char>)
    ensures
        lookup(m.remove(id), id) is None,
{
}

} // verus!
