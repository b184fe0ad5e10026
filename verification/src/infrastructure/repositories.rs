//! In-memory repositories.
use vstd::prelude::*;
use crate::domain::common::DomainResult;
use crate::domain::streaming::{
    SessionId,
    SessionRepository,
    SessionState,
    SessionView,
    StreamingSession,
};
use crate::domain::video::{Video, VideoId, VideoRepository, VideoView};
use crate::domain::video_creation::{
    JobView,
    VideoCreationJob,
    VideoCreationJobId,
    VideoCreationRepository,
    VideoCreationStatus,
};

verus! {

/// A record that a table can hold: it has a key, under which it is
/// found again, and can be copied.
pub trait Record: Sized {
    /// The mathematical content of a record.
    type Content;

    /// The key of the record.
    spec fn key(&self) -> Seq<char>;

    /// The content of the record.
    spec fn content(&self) -> Self::Content;

    /// Whether the record's key is `key`.
    fn has_key(&self, key: &str) -> (r: bool)
        ensures
            r == (self.key() == key@),
    ;

    /// The record's key as text.
    fn key_text(&self) -> (r: &str)
        ensures
            r@ == self.key(),
    ;

    /// A copy of the record.
    fn copy_record(&self) -> (r: Self)
        ensures
            r.key() == self.key(),
            r.content() == self.content(),
    ;
}

/// Whether no two of the rows share a key.
pub open spec fn distinct_keys<T: Record>(rows: Seq<T>) -> bool {
    forall|i: int, j: int|
        0 <= i < j < rows.len() ==> (#[trigger] rows[i]).key() != (#[trigger] rows[j]).key()
}

/// Whether some row has the key `key`.
pub open spec fn holds_key<T: Record>(rows: Seq<T>, key: Seq<char>) -> bool {
    exists|i: int| 0 <= i < rows.len() && (#[trigger] rows[i]).key() == key
}

/// The index of a row with the key `key`.
pub open spec fn row_of<T: Record>(rows: Seq<T>, key: Seq<char>) -> int {
    choose|i: int| 0 <= i < rows.len() && (#[trigger] rows[i]).key() == key
}

/// The contents of the rows, by key.
pub open spec fn contents_of<T: Record>(rows: Seq<T>) -> Map<Seq<char>, T::Content> {
    Map::new(|key: Seq<char>| holds_key(rows, key), |key: Seq<char>| rows[row_of(rows, key)].content())
}

/// Among rows with distinct keys, each row is the one found under its
/// key.
pub proof fn lemma_row_found<T: Record>(rows: Seq<T>, i: int)
    requires
        distinct_keys(rows),
        0 <= i < rows.len(),
    ensures
        holds_key(rows, rows[i].key()),
        row_of(rows, rows[i].key()) == i,
        contents_of(rows).contains_key(rows[i].key()),
        contents_of(rows)[rows[i].key()] == rows[i].content(),
{
}

/// A table of records in memory: at most one record under each key.
pub struct Table<T: Record> {
    rows: Vec<T>,
}

impl<T: Record> Table<T> {
    #[verifier::type_invariant]
    closed spec fn well_formed(self) -> bool {
        distinct_keys(self.rows@)
    }

    /// The records held, in the order in which their keys were first
    /// stored.
    pub closed spec fn rows(self) -> Seq<T> {
        self.rows@
    }

    /// The contents of the records held, by key.
    pub open spec fn contents(self) -> Map<Seq<char>, T::Content> {
        contents_of(self.rows())
    }

    /// An empty table.
    pub fn new() -> (r: Self)
        ensures
            r.rows().len() == 0,
            r.contents() == Map::<Seq<char>, T::Content>::empty(),
    {
        let r = Table { rows: Vec::new() };
        r
    }

    /// The number of records held.
    pub fn len(&self) -> (r: usize)
        ensures
            r == self.rows().len(),
            distinct_keys(self.rows()),
    {
        proof {
            use_type_invariant(self);
        }
        self.rows.len()
    }

    /// The `i`-th record held.
    pub fn row(&self, i: usize) -> (r: &T)
        requires
            i < self.rows().len(),
        ensures
            *r == self.rows()[i as int],
            self.contents().contains_key(r.key()),
            self.contents()[r.key()] == r.content(),
    {
        proof {
            use_type_invariant(self);
            lemma_row_found(self.rows@, i as int);
        }
        &self.rows[i]
    }

    /// The index of the record under `key`, if there is one.
    fn position(&self, key: &str) -> (r: Option<usize>)
        ensures
            r matches Some(i) ==> i < self.rows@.len() && self.rows@[i as int].key() == key@,
            r is None ==> !holds_key(self.rows@, key@),
    {
        let mut i: usize = 0;
        while i < self.rows.len()
            invariant
                i <= self.rows@.len(),
                forall|k: int| 0 <= k < i ==> (#[trigger] self.rows@[k]).key() != key@,
            decreases self.rows.len() - i,
        {
            if self.rows[i].has_key(key) {
                return Some(i);
            }
            i = i + 1;
        }
        None
    }

    /// A copy of the record under `key`, or `None` where there is none.
    pub fn get(&self, key: &str) -> (r: Option<T>)
        ensures
            r matches Some(row) ==> row.key() == key@ && self.contents().contains_key(key@)
                && row.content() == self.contents()[key@],
            r is None ==> !self.contents().contains_key(key@),
    {
        proof {
            use_type_invariant(self);
        }
        match self.position(key) {
            Some(i) => {
                proof {
                    lemma_row_found(self.rows@, i as int);
                }
                Some(self.rows[i].copy_record())
            },
            None => None,
        }
    }

    /// Stores `row` under its key, in place of a record held under it.
    pub fn put(&mut self, row: T)
        ensures
            final(self).contents() == old(self).contents().insert(row.key(), row.content()),
    {
        proof {
            use_type_invariant(&*self);
        }
        let ghost before = self.rows@;
        let ghost key = row.key();
        match self.position(row.key_text()) {
            Some(i) => {
                let mut rows: Vec<T> = Vec::new();
                std::mem::swap(&mut self.rows, &mut rows);
                rows.set(i, row);
                self.rows = rows;
                proof {
                    let after = self.rows@;
                    assert forall|k: Seq<char>| holds_key(after, k) == holds_key(
                        before,
                        k,
                    ) by {
                        if holds_key(before, k) {
                            let a = row_of(before, k);
                            assert(after[a].key() == k);
                        }
                    }
                }
            },
            None => {
                let mut rows: Vec<T> = Vec::new();
                std::mem::swap(&mut self.rows, &mut rows);
                rows.push(row);
                self.rows = rows;
                proof {
                    let after = self.rows@;
                    let last = after.len() - 1;
                    assert forall|k: Seq<char>| holds_key(after, k) == (holds_key(before, k) || k
                        == key) by {
                        if holds_key(before, k) {
                            let a = row_of(before, k);
                            assert(after[a].key() == k);
                        }
                        if k == key {
                            assert(after[last].key() == k);
                        }
                    }
                }
            },
        }
    }

    /// Removes the record under `key`, if there is one.
    pub fn remove(&mut self, key: &str)
        ensures
            final(self).contents() == old(self).contents().remove(key@),
    {
        proof {
            use_type_invariant(&*self);
        }
        let ghost before = self.rows@;
        match self.position(key) {
            Some(i) => {
                let mut rows: Vec<T> = Vec::new();
                std::mem::swap(&mut self.rows, &mut rows);
                rows.remove(i);
                self.rows = rows;
                proof {
                    let after = self.rows@;
                    assert forall|k: Seq<char>| holds_key(after, k) == (holds_key(before, k) && k
                        != key@) by {
                        if holds_key(before, k) && k != key@ {
                            let a0 = row_of(before, k);
                            let a = if a0 < i { a0 } else { a0 - 1 };
                            assert(after[a].key() == k);
                        }
                    }
                }
            },
            None => {},
        }
    }
}

impl Record for VideoCreationJob {
    type Content = JobView;

    open spec fn key(&self) -> Seq<char> {
        self@.id
    }

    open spec fn content(&self) -> JobView {
        self@
    }

    fn has_key(&self, key: &str) -> (r: bool) {
        self.id.as_str().eq(key)
    }

    fn key_text(&self) -> (r: &str) {
        self.id.as_str()
    }

    fn copy_record(&self) -> (r: Self) {
        self.clone()
    }
}

/// The store of job records in memory. It never fails.
pub struct InMemoryVideoCreationRepository {
    jobs: Table<VideoCreationJob>,
    written: Ghost<Seq<JobView>>,
}

impl InMemoryVideoCreationRepository {
    /// An empty store.
    pub fn new() -> (r: Self)
        ensures
            r.jobs() == Map::<Seq<char>, JobView>::empty(),
            r.written() == Seq::<JobView>::empty(),
    {
        InMemoryVideoCreationRepository { jobs: Table::new(), written: Ghost(Seq::empty()) }
    }

    /// The number of records held.
    pub fn len(&self) -> (r: usize)
        ensures
            r == self.jobs().dom().len(),
            self.jobs().dom().finite(),
    {
        let n = self.jobs.len();
        proof {
            lemma_contents_count(self.jobs.rows());
        }
        n
    }
}

/// Rows with distinct keys hold as many keys as there are rows.
pub proof fn lemma_contents_count<T: Record>(rows: Seq<T>)
    requires
        distinct_keys(rows),
    ensures
        contents_of(rows).dom().finite(),
        contents_of(rows).dom().len() == rows.len(),
    decreases rows.len(),
{
    if rows.len() == 0 {
        assert(contents_of(rows).dom() =~= Set::<Seq<char>>::empty());
    } else {
        let shorter = rows.drop_last();
        let last = rows.last();
        lemma_contents_count(shorter);
        assert(contents_of(rows).dom() =~= contents_of(shorter).dom().insert(last.key())) by {
            assert forall|k: Seq<char>| holds_key(rows, k) == (holds_key(shorter, k) || k
                == last.key()) by {
                if holds_key(rows, k) {
                    let a = row_of(rows, k);
                    if a < shorter.len() {
                        assert(shorter[a].key() == k);
                    }
                }
            }
        }
    }
}

impl VideoCreationRepository for InMemoryVideoCreationRepository {
    closed spec fn jobs(&self) -> Map<Seq<char>, JobView> {
        self.jobs.contents()
    }

    open spec fn never_fails(&self) -> bool {
        true
    }

    closed spec fn written(&self) -> Seq<JobView> {
        self.written@
    }

    fn save_job(&mut self, job: &VideoCreationJob) -> (r: DomainResult<()>)
        ensures
            r is Ok,
    {
        self.jobs.put(job.clone());
        self.written = Ghost(self.written@.push(job@));
        Ok(())
    }

    fn find_job_by_id(&self, id: &VideoCreationJobId) -> (r: DomainResult<
        Option<VideoCreationJob>,
    >)
        ensures
            r is Ok,
    {
        Ok(self.jobs.get(id.as_str()))
    }

    fn find_jobs_by_status(&self, status: &VideoCreationStatus) -> (r: DomainResult<
        Vec<VideoCreationJob>,
    >)
        ensures
            r is Ok,
    {
        let mut found: Vec<VideoCreationJob> = Vec::new();
        let ghost mut picked: Seq<int> = Seq::empty();
        let count = self.jobs.len();
        let ghost rows = self.jobs.rows();
        let mut i: usize = 0;
        while i < count
            invariant
                i <= count,
                count == rows.len(),
                rows == self.jobs.rows(),
                distinct_keys(rows),
                picked.len() == found@.len(),
                forall|k: int|
                    0 <= k < picked.len() ==> 0 <= #[trigger] picked[k] < i && found@[k]@
                        == rows[picked[k]]@ && rows[picked[k]]@.status == *status,
                forall|a: int, b: int|
                    0 <= a < b < picked.len() ==> #[trigger] picked[a] < #[trigger] picked[b],
                forall|m: int|
                    0 <= m < i && (#[trigger] rows[m])@.status == *status ==> exists|k: int|
                        0 <= k < picked.len() && #[trigger] picked[k] == m,
            decreases count - i,
        {
            let row = self.jobs.row(i);
            if row.status == *status {
                let ghost before = picked;
                found.push(row.clone());
                proof {
                    picked = picked.push(i as int);
                    assert forall|m: int|
                        0 <= m < i + 1 && (#[trigger] rows[m])@.status == *status implies exists|
                        k: int,
                    |
                        0 <= k < picked.len() && #[trigger] picked[k] == m by {
                        if m < i {
                            let k = choose|k: int|
                                0 <= k < before.len() && #[trigger] before[k] == m;
                            assert(picked[k] == m);
                        } else {
                            assert(picked[picked.len() - 1] == m);
                        }
                    }
                }
            }
            i = i + 1;
        }
        proof {
            assert forall|k: int| 0 <= k < found@.len() implies {
                &&& (#[trigger] found@[k])@.status == *status
                &&& self.jobs().contains_key(found@[k]@.id)
                &&& self.jobs()[found@[k]@.id] == found@[k]@
            } by {
                lemma_row_found(rows, picked[k]);
            }
            assert forall|a: int, b: int| 0 <= a < b < found@.len() implies (
            #[trigger] found@[a])@.id != (#[trigger] found@[b])@.id by {
                assert(rows[picked[a]].key() != rows[picked[b]].key());
            }
        }
        Ok(found)
    }

    fn update_job(&mut self, job: &VideoCreationJob) -> (r: DomainResult<()>)
        ensures
            r is Ok,
    {
        self.jobs.put(job.clone());
        self.written = Ghost(self.written@.push(job@));
        Ok(())
    }
}

impl Record for Video {
    type Content = VideoView;

    open spec fn key(&self) -> Seq<char> {
        self@.id
    }

    open spec fn content(&self) -> VideoView {
        self@
    }

    fn has_key(&self, key: &str) -> (r: bool) {
        self.id.as_str().eq(key)
    }

    fn key_text(&self) -> (r: &str) {
        self.id.as_str()
    }

    fn copy_record(&self) -> (r: Self) {
        self.clone()
    }
}

/// The store of videos in memory. It never fails.
pub struct InMemoryVideoRepository {
    videos: Table<Video>,
}

impl InMemoryVideoRepository {
    /// An empty store.
    pub fn new() -> (r: Self)
        ensures
            r.videos() == Map::<Seq<char>, VideoView>::empty(),
    {
        InMemoryVideoRepository { videos: Table::new() }
    }
}

impl VideoRepository for InMemoryVideoRepository {
    closed spec fn videos(&self) -> Map<Seq<char>, VideoView> {
        self.videos.contents()
    }

    open spec fn never_fails(&self) -> bool {
        true
    }

    fn find_by_id(&self, id: &VideoId) -> (r: DomainResult<Option<Video>>)
        ensures
            r is Ok,
    {
        Ok(self.videos.get(id.as_str()))
    }

    fn save(&mut self, video: &Video) -> (r: DomainResult<()>)
        ensures
            r is Ok,
    {
        self.videos.put(video.clone());
        Ok(())
    }

    fn delete(&mut self, id: &VideoId) -> (r: DomainResult<()>)
        ensures
            r is Ok,
    {
        self.videos.remove(id.as_str());
        Ok(())
    }
}

impl Record for StreamingSession {
    type Content = SessionView;

    open spec fn key(&self) -> Seq<char> {
        self@.id
    }

    open spec fn content(&self) -> SessionView {
        self@
    }

    fn has_key(&self, key: &str) -> (r: bool) {
        self.id.as_str().eq(key)
    }

    fn key_text(&self) -> (r: &str) {
        self.id.as_str()
    }

    fn copy_record(&self) -> (r: Self) {
        self.clone()
    }
}

/// The store of streaming sessions in memory. It never fails.
pub struct InMemorySessionRepository {
    sessions: Table<StreamingSession>,
}

impl InMemorySessionRepository {
    /// An empty store.
    pub fn new() -> (r: Self)
        ensures
            r.sessions() == Map::<Seq<char>, SessionView>::empty(),
    {
        InMemorySessionRepository { sessions: Table::new() }
    }
}

impl SessionRepository for InMemorySessionRepository {
    closed spec fn sessions(&self) -> Map<Seq<char>, SessionView> {
        self.sessions.contents()
    }

    open spec fn never_fails(&self) -> bool {
        true
    }

    fn find_by_id(&self, id: &SessionId) -> (r: DomainResult<Option<StreamingSession>>)
        ensures
            r is Ok,
    {
        Ok(self.sessions.get(id.as_str()))
    }

    fn save(&mut self, session: &StreamingSession) -> (r: DomainResult<()>)
        ensures
            r is Ok,
    {
        self.sessions.put(session.clone());
        Ok(())
    }

    fn delete(&mut self, id: &SessionId) -> (r: DomainResult<()>)
        ensures
            r is Ok,
    {
        self.sessions.remove(id.as_str());
        Ok(())
    }

    fn find_active_sessions(&self) -> (r: DomainResult<Vec<StreamingSession>>)
        ensures
            r is Ok,
    {
        let mut found: Vec<StreamingSession> = Vec::new();
        let ghost mut picked: Seq<int> = Seq::empty();
        let count = self.sessions.len();
        let ghost rows = self.sessions.rows();
        let mut i: usize = 0;
        while i < count
            invariant
                i <= count,
                count == rows.len(),
                rows == self.sessions.rows(),
                distinct_keys(rows),
                picked.len() == found@.len(),
                forall|k: int|
                    0 <= k < picked.len() ==> 0 <= #[trigger] picked[k] < i && found@[k]@
                        == rows[picked[k]]@ && rows[picked[k]]@.state is Active,
                forall|a: int, b: int|
                    0 <= a < b < picked.len() ==> #[trigger] picked[a] < #[trigger] picked[b],
                forall|m: int|
                    0 <= m < i && (#[trigger] rows[m])@.state is Active ==> exists|k: int|
                        0 <= k < picked.len() && #[trigger] picked[k] == m,
            decreases count - i,
        {
            let row = self.sessions.row(i);
            if row.state == SessionState::Active {
                let ghost before = picked;
                found.push(row.clone());
                proof {
                    picked = picked.push(i as int);
                    assert forall|m: int|
                        0 <= m < i + 1 && (#[trigger] rows[m])@.state is Active implies exists|
                        k: int,
                    |
                        0 <= k < picked.len() && #[trigger] picked[k] == m by {
                        if m < i {
                            let k = choose|k: int|
                                0 <= k < before.len() && #[trigger] before[k] == m;
                            assert(picked[k] == m);
                        } else {
                            assert(picked[picked.len() - 1] == m);
                        }
                    }
                }
            }
            i = i + 1;
        }
        proof {
            assert forall|k: int| 0 <= k < found@.len() implies {
                &&& (#[trigger] found@[k])@.state is Active
                &&& self.sessions().contains_key(found@[k]@.id)
                &&& self.sessions()[found@[k]@.id] == found@[k]@
            } by {
                lemma_row_found(rows, picked[k]);
            }
            assert forall|a: int, b: int| 0 <= a < b < found@.len() implies (
            #[trigger] found@[a])@.id != (#[trigger] found@[b])@.id by {
                assert(rows[picked[a]].key() != rows[picked[b]].key());
            }
        }
        Ok(found)
    }
}

} // verus!
