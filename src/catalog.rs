use vstd::prelude::*;

use crate::error::Error;
use crate::mime::{finalize, finalized};
use crate::model::{summary_of, File, FileModel, FileResponse, RecordView, SummaryView, Visibility};
use crate::text::{find_last, has_extension};

verus! {

/// No two records share an id.
pub open spec fn ids_unique(s: Seq<RecordView>) -> bool {
    forall|i: int, j: int|
        0 <= i < s.len() && 0 <= j < s.len() && i != j ==> #[trigger] s[i].id != #[trigger] s[j].id
}

/// Some record has id `id`.
pub open spec fn holds_id(s: Seq<RecordView>, id: u128) -> bool {
    exists|i: int| 0 <= i < s.len() && #[trigger] s[i].id == id
}

/// The position of the record with id `id`, where there is one.
pub open spec fn index_of(s: Seq<RecordView>, id: u128) -> int {
    choose|i: int| 0 <= i < s.len() && #[trigger] s[i].id == id
}

/// The record `r` with its visibility set to `v`, everything else kept.
pub open spec fn with_visibility(r: RecordView, v: Visibility) -> RecordView {
    RecordView { visibility: v, ..r }
}

/// Upserting `f` reads its content: it is new and its name carries no extension.
pub open spec fn needs_content(s: Seq<RecordView>, f: File) -> bool {
    !holds_id(s, f.id) && !has_extension(f.name@)
}

/// The catalog after upserting `f`, whose content is `content`: an existing
/// record only takes the new visibility; a new one is finalized and appended.
/// `None` where a new file's type cannot be told.
pub open spec fn upserted(s: Seq<RecordView>, f: File, content: Seq<u8>) -> Option<
    Seq<RecordView>,
> {
    if holds_id(s, f.id) {
        let i = index_of(s, f.id);
        Some(s.update(i, with_visibility(s[i], f.visibility)))
    } else {
        match finalized(f, content) {
            Some(r) => Some(s.push(r)),
            None => None,
        }
    }
}

/// The catalog without the record with id `id`.
pub open spec fn removed(s: Seq<RecordView>, id: u128) -> Seq<RecordView> {
    s.remove(index_of(s, id))
}

/// The views of a sequence of records.
pub open spec fn views(v: Seq<FileModel>) -> Seq<RecordView> {
    v.map_values(|f: FileModel| f@)
}

/// Some record with id `id` is public.
pub open spec fn holds_public(s: Seq<RecordView>, id: u128) -> bool {
    exists|i: int| 0 <= i < s.len() && #[trigger] s[i].id == id && s[i].visibility is Public
}

/// What peers see of the catalog: the public records, in order, each without
/// path and visibility.
pub open spec fn public_summaries(s: Seq<RecordView>) -> Seq<SummaryView>
    decreases s.len(),
{
    if s.len() == 0 {
        Seq::empty()
    } else {
        let rest = public_summaries(s.drop_last());
        if s.last().visibility is Public {
            rest.push(summary_of(s.last()))
        } else {
            rest
        }
    }
}

/// Each entry that peers see comes from a public record.
pub proof fn lemma_summaries_come_from_public(s: Seq<RecordView>)
    ensures
        forall|k: int|
            0 <= k < public_summaries(s).len() ==> exists|i: int|
                0 <= i < s.len() && s[i].visibility is Public && s[i].id == #[trigger] public_summaries(
                    s,
                )[k].id,
    decreases s.len(),
{
    if s.len() > 0 {
        let p = s.drop_last();
        lemma_summaries_come_from_public(p);
        let ps = public_summaries(s);
        assert forall|k: int| 0 <= k < ps.len() implies exists|i: int|
            0 <= i < s.len() && s[i].visibility is Public && s[i].id == #[trigger] ps[k].id by {
            if k < public_summaries(p).len() {
                let i = choose|i: int|
                    0 <= i < p.len() && p[i].visibility is Public && p[i].id
                        == #[trigger] public_summaries(p)[k].id;
                assert(s[i] == p[i]);
            } else {
                assert(s[s.len() - 1] == s.last());
            }
        }
    }
}

/// A private record is never offered to peers: no entry of the listing has
/// its id, and no public record has it either, so it cannot be fetched.
pub proof fn lemma_private_never_served(s: Seq<RecordView>, id: u128)
    requires
        ids_unique(s),
        holds_id(s, id),
        s[index_of(s, id)].visibility is Private,
    ensures
        !holds_public(s, id),
        forall|k: int| 0 <= k < public_summaries(s).len() ==> #[trigger] public_summaries(s)[k].id != id,
{
    let i = index_of(s, id);
    lemma_summaries_come_from_public(s);
    if holds_public(s, id) {
        let j = choose|j: int| 0 <= j < s.len() && #[trigger] s[j].id == id && s[j].visibility is Public;
        assert(j == i);
    }
    assert forall|k: int| 0 <= k < public_summaries(s).len() implies #[trigger] public_summaries(s)[k].id
        != id by {
        if public_summaries(s)[k].id == id {
            let j = choose|j: int|
                0 <= j < s.len() && s[j].visibility is Public && s[j].id == #[trigger] public_summaries(
                    s,
                )[k].id;
            assert(j == i);
        }
    }
}

/// Upserting a file leaves exactly one record with its id, keeps every id
/// that was there, and still holds no id twice.
pub proof fn lemma_upsert_one_record_per_id(s: Seq<RecordView>, f: File, content: Seq<u8>)
    requires
        ids_unique(s),
        upserted(s, f, content) is Some,
    ensures
        ({
            let t = upserted(s, f, content)->0;
            &&& ids_unique(t)
            &&& holds_id(t, f.id)
            &&& forall|k: int, l: int|
                0 <= k < t.len() && 0 <= l < t.len() && t[k].id == f.id && t[l].id == f.id ==> k == l
            &&& forall|id: u128| holds_id(s, id) ==> holds_id(t, id)
        }),
{
    let t = upserted(s, f, content)->0;
    if holds_id(s, f.id) {
        let i = index_of(s, f.id);
        assert(t[i].id == f.id);
        assert forall|id: u128| holds_id(s, id) implies holds_id(t, id) by {
            let k = choose|k: int| 0 <= k < s.len() && #[trigger] s[k].id == id;
            assert(t[k].id == id);
        }
    } else {
        let r = finalized(f, content)->0;
        assert(t == s.push(r));
        assert(t[s.len() as int].id == f.id);
        assert forall|a: int, b: int|
            0 <= a < t.len() && 0 <= b < t.len() && a != b implies #[trigger] t[a].id
                != #[trigger] t[b].id by {
            if a < s.len() && b < s.len() {
            } else if a < s.len() {
                assert(s[a].id != f.id);
            } else {
                assert(s[b].id != f.id);
            }
        }
        assert forall|id: u128| holds_id(s, id) implies holds_id(t, id) by {
            let k = choose|k: int| 0 <= k < s.len() && #[trigger] s[k].id == id;
            assert(t[k].id == id);
        }
    }
}

/// Upserting a file whose id is present again never adds a record: only that
/// record's visibility changes, every other field and record stays.
pub proof fn lemma_upsert_again_changes_only_visibility(
    s: Seq<RecordView>,
    f: File,
    content: Seq<u8>,
)
    requires
        ids_unique(s),
        holds_id(s, f.id),
    ensures
        upserted(s, f, content) matches Some(t) && t.len() == s.len() && forall|k: int|
            0 <= k < s.len() ==> #[trigger] t[k] == if s[k].id == f.id {
                with_visibility(s[k], f.visibility)
            } else {
                s[k]
            },
{
    let i = index_of(s, f.id);
    let t = upserted(s, f, content)->0;
    assert forall|k: int| 0 <= k < s.len() implies #[trigger] t[k] == if s[k].id == f.id {
        with_visibility(s[k], f.visibility)
    } else {
        s[k]
    } by {
        if k != i {
            assert(s[k].id != s[i].id);
        }
    }
}

/// What an upsert did, for a store that mirrors the catalog.
#[derive(Debug)]
pub enum UpsertOutcome {
    /// The record with this id took this visibility.
    Updated { id: u128, visibility: Visibility },
    /// This record was added.
    Inserted(FileModel),
}

/// The set of file records of this instance, each id at most once.
pub struct Catalog {
    files: Vec<FileModel>,
}

impl View for Catalog {
    type V = Seq<RecordView>;

    closed spec fn view(&self) -> Seq<RecordView> {
        views(self.files@)
    }
}

impl Catalog {
    /// The catalog holds no id twice.
    pub open spec fn wf(&self) -> bool {
        ids_unique(self@)
    }

    /// An empty catalog.
    pub fn new() -> (r: Catalog)
        ensures
            r@ == Seq::<RecordView>::empty(),
            r.wf(),
    {
        let r = Catalog { files: Vec::new() };
        assert(r@ =~= Seq::<RecordView>::empty());
        r
    }

    /// The position of the record with id `id`.
    fn position(&self, id: u128) -> (r: Option<usize>)
        ensures
            match r {
                Some(i) => i < self@.len() && self@[i as int].id == id,
                None => !holds_id(self@, id),
            },
    {
        let mut i: usize = 0;
        while i < self.files.len()
            invariant
                i <= self.files@.len(),
                self@ == views(self.files@),
                forall|j: int| 0 <= j < i ==> self@[j].id != id,
            decreases self.files@.len() - i,
        {
            if self.files[i].id == id {
                return Some(i);
            }
            i = i + 1;
        }
        None
    }

    /// Builds a catalog from stored records; fails where two share an id.
    pub fn from_records(records: Vec<FileModel>) -> (r: Result<Catalog, Error>)
        ensures
            match r {
                Ok(c) => ids_unique(views(records@)) && c@ == views(records@) && c.wf(),
                Err(e) => !ids_unique(views(records@)) && e is CatalogError,
            },
    {
        let n = records.len();
        let mut i: usize = 0;
        while i < n
            invariant
                n == records@.len(),
                i <= n,
                forall|a: int, b: int|
                    0 <= a < n && 0 <= b < n && a != b && (a < i || b < i) ==> #[trigger] records@[a].id
                        != #[trigger] records@[b].id,
            decreases n - i,
        {
            let mut j: usize = 0;
            while j < n
                invariant
                    n == records@.len(),
                    i < n,
                    j <= n,
                    forall|a: int, b: int|
                        0 <= a < n && 0 <= b < n && a != b && (a < i || b < i) ==> #[trigger] records@[a].id
                            != #[trigger] records@[b].id,
                    forall|b: int| 0 <= b < j && b != i ==> records@[i as int].id != #[trigger] records@[b].id,
                decreases n - j,
            {
                if j != i && records[i].id == records[j].id {
                    proof {
                        let s = views(records@);
                        assert(s[i as int].id == s[j as int].id);
                    }
                    return Err(Error::CatalogError("two records share an id".to_owned()));
                }
                j = j + 1;
            }
            i = i + 1;
        }
        proof {
            let s = views(records@);
            assert forall|a: int, b: int|
                0 <= a < s.len() && 0 <= b < s.len() && a != b implies #[trigger] s[a].id
                    != #[trigger] s[b].id by {
                assert(records@[a].id != records@[b].id);
            }
        }
        Ok(Catalog { files: records })
    }

    /// All records, of any visibility.
    pub fn list(&self) -> (r: Vec<FileModel>)
        requires
            self.wf(),
        ensures
            views(r@) == self@,
            ids_unique(views(r@)),
    {
        let r = self.files.clone();
        assert(views(r@) =~= self@);
        r
    }

    /// Tells whether upserting `f` needs the file's content.
    pub fn needs_content(&self, f: &File) -> (r: bool)
        ensures
            r == needs_content(self@, *f),
    {
        match self.position(f.id) {
            Some(_) => false,
            None => find_last(f.name.as_str(), '.').is_none(),
        }
    }

    /// Adds `f` as a new record, or sets the visibility of the record with
    /// its id, which keeps its other fields. `content` is the file's content,
    /// read only where `f` is new and its name has no extension (see
    /// `needs_content`). Fails, leaving the catalog as it was, where the type
    /// of such a file cannot be told from its content.
    pub fn upsert(&mut self, f: File, content: &[u8]) -> (r: Result<UpsertOutcome, Error>)
        requires
            old(self).wf(),
        ensures
            final(self).wf(),
            match upserted(old(self)@, f, content@) {
                Some(s) => r is Ok && final(self)@ == s,
                None => r matches Err(Error::FilesystemError(_)) && final(self)@ == old(self)@,
            },
            r is Ok ==> holds_id(final(self)@, f.id) && final(self)@[index_of(
                final(self)@,
                f.id,
            )].visibility == f.visibility,
            r is Ok ==> final(self)@.len() == if holds_id(old(self)@, f.id) {
                old(self)@.len()
            } else {
                old(self)@.len() + 1
            },
            r matches Ok(UpsertOutcome::Updated { id, visibility }) ==> (id == f.id && visibility
                == f.visibility && holds_id(old(self)@, f.id)),
            r matches Ok(UpsertOutcome::Inserted(m)) ==> (!holds_id(old(self)@, f.id)
                && final(self)@ == old(self)@.push(m@)),
    {
        let ghost before = self@;
        match self.position(f.id) {
            Some(i) => {
                proof {
                    assert(holds_id(before, f.id));
                    assert(index_of(before, f.id) == i);
                }
                let cur = &self.files[i];
                let rec = FileModel {
                    id: cur.id,
                    name: cur.name.clone(),
                    mime: cur.mime.clone(),
                    visibility: f.visibility,
                    path: cur.path.clone(),
                };
                proof {
                    assert(rec@ == with_visibility(before[i as int], f.visibility));
                    assert(views(self.files@.update(i as int, rec)) =~= before.update(
                        i as int,
                        rec@,
                    ));
                }
                self.files.set(i, rec);
                proof {
                    assert(self@[i as int].id == f.id);
                    assert(index_of(self@, f.id) == i);
                }
                Ok(UpsertOutcome::Updated { id: f.id, visibility: f.visibility })
            },
            None => {
                match finalize(f, content) {
                    Ok(rec) => {
                        let out = rec.clone();
                        proof {
                            assert(views(self.files@.push(rec)) =~= before.push(rec@));
                            let t = before.push(rec@);
                            assert forall|a: int, b: int|
                                0 <= a < t.len() && 0 <= b < t.len() && a != b implies #[trigger] t[a].id
                                    != #[trigger] t[b].id by {
                                if a < before.len() && b < before.len() {
                                } else if a < before.len() {
                                    assert(before[a].id != f.id);
                                } else {
                                    assert(before[b].id != f.id);
                                }
                            }
                        }
                        self.files.push(rec);
                        proof {
                            assert(self@[before.len() as int].id == f.id);
                            assert(index_of(self@, f.id) == before.len());
                        }
                        Ok(UpsertOutcome::Inserted(out))
                    },
                    Err(e) => Err(e),
                }
            },
        }
    }

    /// Removes the record with id `id`; fails with `NotFound` where there is none.
    pub fn delete(&mut self, id: u128) -> (r: Result<(), Error>)
        requires
            old(self).wf(),
        ensures
            final(self).wf(),
            holds_id(old(self)@, id) ==> r is Ok && final(self)@ == removed(old(self)@, id),
            !holds_id(old(self)@, id) ==> (r matches Err(Error::NotFound) && final(self)@ == old(
                self,
            )@),
            !holds_id(final(self)@, id),
    {
        let ghost before = self@;
        match self.position(id) {
            Some(i) => {
                proof {
                    assert(holds_id(before, id));
                    assert(index_of(before, id) == i);
                    assert(views(self.files@.remove(i as int)) =~= before.remove(i as int));
                    let t = before.remove(i as int);
                    assert forall|k: int| 0 <= k < t.len() implies #[trigger] t[k].id != id by {
                        if k < i {
                            assert(before[k].id != before[i as int].id);
                        } else {
                            assert(before[k + 1].id != before[i as int].id);
                        }
                    }
                }
                self.files.remove(i);
                Ok(())
            },
            None => Err(Error::NotFound),
        }
    }

    /// What peers see of the catalog: each public record, in order, as id,
    /// name and MIME type.
    pub fn public_files(&self) -> (r: Vec<FileResponse>)
        ensures
            r@.map_values(|e: FileResponse| e@) == public_summaries(self@),
    {
        let mut out: Vec<FileResponse> = Vec::new();
        let mut i: usize = 0;
        while i < self.files.len()
            invariant
                i <= self.files@.len(),
                self@ == views(self.files@),
                out@.map_values(|e: FileResponse| e@) == public_summaries(self@.subrange(0, i as int)),
            decreases self.files@.len() - i,
        {
            let f = &self.files[i];
            proof {
                let p = self@.subrange(0, i as int + 1);
                assert(p.drop_last() =~= self@.subrange(0, i as int));
                assert(p.last() == f@);
            }
            if f.visibility == Visibility::Public {
                let e = FileResponse::from_record(f);
                proof {
                    assert(out@.push(e).map_values(|e: FileResponse| e@) =~= out@.map_values(
                        |e: FileResponse| e@,
                    ).push(e@));
                }
                out.push(e);
            }
            i = i + 1;
        }
        assert(self@.subrange(0, self@.len() as int) =~= self@);
        out
    }

    /// The public record with id `id`, if there is one.
    pub fn find_public(&self, id: u128) -> (r: Option<&FileModel>)
        requires
            self.wf(),
        ensures
            match r {
                Some(m) => holds_public(self@, id) && m@ == self@[index_of(self@, id)],
                None => !holds_public(self@, id),
            },
    {
        match self.position(id) {
            Some(i) => {
                let f = &self.files[i];
                proof {
                    assert(holds_id(self@, id));
                    assert(index_of(self@, id) == i);
                }
                if f.visibility == Visibility::Public {
                    Some(f)
                } else {
                    proof {
                        if holds_public(self@, id) {
                            let j = choose|j: int|
                                0 <= j < self@.len() && #[trigger] self@[j].id == id
                                    && self@[j].visibility is Public;
                            assert(j == i);
                        }
                    }
                    None
                }
            },
            None => None,
        }
    }
}

} // verus!
