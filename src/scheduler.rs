use crate::file::{cas_key, DLFile};
use crate::indicator::IndicatorFactory;
use crate::redirection_middleware::RedirectMiddleware;
use vstd::prelude::*;

verus! {

/// Where one task of a batch stands.
#[derive(Debug, Clone, Copy, PartialEq, Eq, Structural)]
pub enum Slot {
    /// Waiting for a transfer permit.
    Waiting,
    /// Holding a permit.
    Active,
    /// Finished, successfully or not.
    Done(bool),
}

/// Number of active slots.
pub open spec fn count_active(s: Seq<Slot>) -> nat
    decreases s.len(),
{
    if s.len() == 0 {
        0
    } else {
        count_active(s.drop_last()) + if s.last() == Slot::Active {
            1nat
        } else {
            0nat
        }
    }
}

/// Model of a batch: the permit bound, each task's slot, and each task's
/// content key.
pub struct BatchModel {
    pub max: nat,
    pub slots: Seq<Slot>,
    pub keys: Seq<Option<Seq<char>>>,
}

/// Whether an active task holds content key `k`.
pub open spec fn key_held(m: BatchModel, k: Option<Seq<char>>) -> bool {
    k is Some && exists|j: int|
        0 <= j < m.slots.len() && m.slots[j] == Slot::Active && #[trigger] m.keys[j] == k
}

/// Whether task `i` may take a permit now: it waits, and no active task
/// works on the same content.
pub open spec fn admissible(m: BatchModel, i: int) -> bool {
    m.slots[i] == Slot::Waiting && !key_held(m, m.keys[i])
}

/// The invariant of a batch: never more active tasks than permits, and
/// never two active tasks on the same content.
pub open spec fn batch_ok(m: BatchModel) -> bool {
    &&& m.slots.len() == m.keys.len()
    &&& count_active(m.slots) <= m.max
    &&& forall|a: int, b: int|
        0 <= a < m.slots.len() && 0 <= b < m.slots.len() && a != b && m.slots[a] == Slot::Active
            && m.slots[b] == Slot::Active && m.keys[a] is Some ==> #[trigger] m.keys[a]
            != #[trigger] m.keys[b]
}

proof fn lemma_count_update(s: Seq<Slot>, i: int, v: Slot)
    requires
        0 <= i < s.len(),
    ensures
        count_active(s.update(i, v)) + (if s[i] == Slot::Active {
            1nat
        } else {
            0nat
        }) == count_active(s) + (if v == Slot::Active {
            1nat
        } else {
            0nat
        }),
    decreases s.len(),
{
    let t = s.update(i, v);
    if i == s.len() - 1 {
        assert(t.drop_last() =~= s.drop_last());
    } else {
        assert(t.drop_last() =~= s.drop_last().update(i, v));
        lemma_count_update(s.drop_last(), i, v);
    }
}

/// A batch of tasks sharing a fixed number of transfer permits. Permits go
/// out in submission order, skipping a task whose content another active
/// task is already fetching: that task then finds the content stored.
pub struct Batch {
    max_concurrent: usize,
    slots: Vec<Slot>,
    keys: Vec<Option<String>>,
    active: usize,
}

impl View for Batch {
    type V = BatchModel;

    closed spec fn view(&self) -> BatchModel {
        BatchModel {
            max: self.max_concurrent as nat,
            slots: self.slots@,
            keys: self.keys@.map_values(
                |k: Option<String>|
                    match k {
                        Some(s) => Some(s@),
                        None => None,
                    },
            ),
        }
    }
}

impl Batch {
    /// Well-formedness: the model meets [`batch_ok`] and the count of
    /// active tasks is tracked.
    pub closed spec fn inv(&self) -> bool {
        batch_ok(self@) && self.active == count_active(self.slots@)
    }

    /// A batch whose `i`-th task has content key `keys[i]`, all waiting.
    pub fn new(keys: Vec<Option<String>>, max_concurrent: usize) -> (r: Self)
        ensures
            r.inv(),
            r@.max == max_concurrent,
            r@.keys.len() == keys@.len(),
            forall|i: int|
                0 <= i < keys@.len() ==> #[trigger] r@.keys[i] == match keys@[i] {
                    Some(s) => Some(s@),
                    None => None::<Seq<char>>,
                },
            r@.slots =~= Seq::new(keys@.len(), |i: int| Slot::Waiting),
    {
        let mut slots: Vec<Slot> = Vec::new();
        let mut i: usize = 0;
        while i < keys.len()
            invariant
                0 <= i <= keys@.len(),
                slots@ =~= Seq::new(i as nat, |j: int| Slot::Waiting),
                count_active(slots@) == 0,
            decreases keys@.len() - i,
        {
            slots.push(Slot::Waiting);
            assert(slots@.drop_last() =~= Seq::new(i as nat, |j: int| Slot::Waiting));
            i = i + 1;
        }
        Batch { max_concurrent, slots, keys, active: 0 }
    }

    /// Number of tasks.
    pub fn len(&self) -> (r: usize)
        requires
            self.inv(),
        ensures
            r == self@.slots.len(),
    {
        self.slots.len()
    }

    /// Where task `i` stands.
    pub fn slot(&self, i: usize) -> (r: Slot)
        requires
            self.inv(),
            i < self@.slots.len(),
        ensures
            r == self@.slots[i as int],
    {
        self.slots[i]
    }

    /// Number of tasks holding a permit.
    pub fn active(&self) -> (r: usize)
        requires
            self.inv(),
        ensures
            r == count_active(self@.slots),
    {
        self.active
    }

    /// Whether every task finished.
    pub fn is_complete(&self) -> (r: bool)
        requires
            self.inv(),
        ensures
            r == forall|i: int| 0 <= i < self@.slots.len() ==> #[trigger] self@.slots[i] is Done,
    {
        let mut i: usize = 0;
        while i < self.slots.len()
            invariant
                0 <= i <= self.slots@.len(),
                forall|j: int| 0 <= j < i ==> #[trigger] self.slots@[j] is Done,
            decreases self.slots@.len() - i,
        {
            match self.slots[i] {
                Slot::Done(_) => {},
                _ => {
                    return false;
                },
            }
            i = i + 1;
        }
        true
    }

    fn holds_key(&self, key: &Option<String>) -> (r: bool)
        requires
            self.inv(),
        ensures
            r == key_held(
                self@,
                match key {
                    Some(s) => Some(s@),
                    None => None,
                },
            ),
    {
        let ghost m = self@;
        match key {
            None => false,
            Some(k) => {
                let mut j: usize = 0;
                while j < self.slots.len()
                    invariant
                        0 <= j <= self.slots@.len(),
                        m == self@,
                        match key {
                            Some(s) => s@ == k@,
                            None => false,
                        },
                        self.inv(),
                        forall|a: int|
                            0 <= a < j && m.slots[a] == Slot::Active ==> #[trigger] m.keys[a]
                                != Some(k@),
                    decreases self.slots@.len() - j,
                {
                    assert(m.keys[j as int] == match self.keys@[j as int] {
                        Some(s) => Some(s@),
                        None => None::<Seq<char>>,
                    });
                    if self.slots[j] == Slot::Active {
                        match &self.keys[j] {
                            Some(other) => {
                                if *other == *k {
                                    assert(m.keys[j as int] == Some(k@));
                                    assert(m.slots[j as int] == Slot::Active);
                                    return true;
                                }
                            },
                            None => {},
                        }
                    }
                    j = j + 1;
                }
                false
            },
        }
    }

    /// Grants a permit to the first task, in submission order, that may take
    /// one, if a permit is free.
    pub fn grant(&mut self) -> (r: Option<usize>)
        requires
            old(self).inv(),
        ensures
            final(self).inv(),
            final(self)@.max == old(self)@.max,
            final(self)@.keys == old(self)@.keys,
            match r {
                Some(i) => {
                    &&& 0 <= i < old(self)@.slots.len()
                    &&& count_active(old(self)@.slots) < old(self)@.max
                    &&& admissible(old(self)@, i as int)
                    &&& forall|j: int| 0 <= j < i ==> !admissible(old(self)@, j)
                    &&& final(self)@.slots == old(self)@.slots.update(i as int, Slot::Active)
                },
                None => {
                    &&& final(self)@ == old(self)@
                    &&& (count_active(old(self)@.slots) >= old(self)@.max || forall|j: int|
                        0 <= j < old(self)@.slots.len() ==> !admissible(old(self)@, j))
                },
            },
    {
        if self.active >= self.max_concurrent {
            return None;
        }
        let ghost m = self@;
        let mut i: usize = 0;
        while i < self.slots.len()
            invariant
                0 <= i <= self.slots@.len(),
                m == self@,
                m == old(self)@,
                self.inv(),
                count_active(m.slots) < m.max,
                forall|j: int| 0 <= j < i ==> !admissible(m, j),
            decreases self.slots@.len() - i,
        {
            if self.slots[i] == Slot::Waiting && !self.holds_key(&self.keys[i]) {
                assert(admissible(m, i as int));
                proof {
                    lemma_count_update(self.slots@, i as int, Slot::Active);
                }
                self.slots.set(i, Slot::Active);
                self.active = self.active + 1;
                assert(self@.keys =~= m.keys);
                assert forall|a: int, b: int|
                    0 <= a < self@.slots.len() && 0 <= b < self@.slots.len() && a != b
                        && self@.slots[a] == Slot::Active && self@.slots[b] == Slot::Active
                        && self@.keys[a] is Some implies #[trigger] self@.keys[a]
                    != #[trigger] self@.keys[b] by {
                    if a == i {
                        assert(m.slots[b] == Slot::Active);
                    } else if b == i {
                        assert(m.slots[a] == Slot::Active);
                        assert(!key_held(m, m.keys[b]));
                    }
                }
                return Some(i);
            }
            i = i + 1;
        }
        None
    }

    /// Records that task `i` finished, releasing its permit.
    pub fn finish(&mut self, i: usize, ok: bool)
        requires
            old(self).inv(),
            i < old(self)@.slots.len(),
            old(self)@.slots[i as int] == Slot::Active,
        ensures
            final(self).inv(),
            final(self)@.max == old(self)@.max,
            final(self)@.keys == old(self)@.keys,
            final(self)@.slots == old(self)@.slots.update(i as int, Slot::Done(ok)),
    {
        let ghost m = self@;
        proof {
            lemma_count_update(self.slots@, i as int, Slot::Done(ok));
        }
        self.slots.set(i, Slot::Done(ok));
        self.active = self.active - 1;
        assert(self@.keys =~= m.keys);
        assert forall|a: int, b: int|
            0 <= a < self@.slots.len() && 0 <= b < self@.slots.len() && a != b
                && self@.slots[a] == Slot::Active && self@.slots[b] == Slot::Active
                && self@.keys[a] is Some implies #[trigger] self@.keys[a] != #[trigger] self@.keys[b] by {
            assert(m.slots[a] == Slot::Active && m.slots[b] == Slot::Active);
        }
    }
}

/// The concurrency bound: in every state a batch can reach, no more tasks
/// hold a permit than the bound allows, and no two of them fetch the same
/// content.
pub proof fn lemma_concurrency_bound(b: &Batch)
    requires
        b.inv(),
    ensures
        batch_ok(b@),
        count_active(b@.slots) <= b@.max,
{
}

/// Progress: while a batch is not complete, it either has a task holding a
/// permit, whose completion frees one, or it can hand one out now; so with
/// a bound above zero it ends with every task finished.
pub proof fn lemma_batch_progress(b: &Batch)
    requires
        b.inv(),
        b@.max > 0,
        exists|i: int| 0 <= i < b@.slots.len() && !(#[trigger] b@.slots[i] is Done),
    ensures
        count_active(b@.slots) > 0 || exists|i: int|
            0 <= i < b@.slots.len() && admissible(b@, i),
{
    let m = b@;
    let i = choose|i: int| 0 <= i < m.slots.len() && !(#[trigger] m.slots[i] is Done);
    if count_active(m.slots) == 0 {
        lemma_no_active(m.slots);
        assert(m.slots[i] == Slot::Waiting);
        assert(!key_held(m, m.keys[i]));
        assert(admissible(m, i));
    }
}

proof fn lemma_no_active(s: Seq<Slot>)
    requires
        count_active(s) == 0,
    ensures
        forall|i: int| 0 <= i < s.len() ==> #[trigger] s[i] != Slot::Active,
    decreases s.len(),
{
    if s.len() > 0 {
        lemma_no_active(s.drop_last());
        assert forall|i: int| 0 <= i < s.len() implies #[trigger] s[i] != Slot::Active by {
            if i < s.len() - 1 {
                assert(s[i] == s.drop_last()[i]);
            }
        }
    }
}

/// Number of downloads run at once unless configured otherwise.
pub const DEFAULT_MAX_CONCURRENT: usize = 5;

/// Number of redirects followed unless configured otherwise.
pub const DEFAULT_MAX_REDIRECTIONS: usize = 5;

/// The set of files to download, with the permit bound, the redirect bound
/// and the factory of progress sinks.
pub struct Downloader<T: IndicatorFactory> {
    pub files: Vec<DLFile>,
    pub max_concurrent_downloads: usize,
    pub max_redirections: usize,
    pub indicator_factory: T,
}

impl<T: IndicatorFactory> Downloader<T> {
    /// No files, default bounds and the default sink factory.
    pub fn new() -> (r: Self)
        ensures
            r.files@.len() == 0,
            r.max_concurrent_downloads == DEFAULT_MAX_CONCURRENT,
            r.max_redirections == DEFAULT_MAX_REDIRECTIONS,
    {
        Downloader {
            files: Vec::new(),
            max_concurrent_downloads: DEFAULT_MAX_CONCURRENT,
            max_redirections: DEFAULT_MAX_REDIRECTIONS,
            indicator_factory: T::default(),
        }
    }

    /// Appends `files` after those already set.
    pub fn with_files(self, files: Vec<DLFile>) -> (r: Self)
        ensures
            r.files@ == self.files@ + files@,
            r.max_concurrent_downloads == self.max_concurrent_downloads,
            r.max_redirections == self.max_redirections,
    {
        let mut r = self;
        let mut more = files;
        r.files.append(&mut more);
        r
    }

    /// A downloader for `files`, with the defaults otherwise.
    pub fn from_files(files: Vec<DLFile>) -> (r: Self)
        ensures
            r.files@ == files@,
            r.max_concurrent_downloads == DEFAULT_MAX_CONCURRENT,
            r.max_redirections == DEFAULT_MAX_REDIRECTIONS,
    {
        let builder = Self::new();
        let r = builder.with_files(files);
        assert(r.files@ =~= files@);
        r
    }

    /// Appends one file.
    pub fn add_file(self, file: DLFile) -> (r: Self)
        ensures
            r.files@ == self.files@.push(file),
            r.max_concurrent_downloads == self.max_concurrent_downloads,
            r.max_redirections == self.max_redirections,
    {
        let mut r = self;
        r.files.push(file);
        r
    }

    /// Sets how many downloads run at once.
    pub fn with_max_concurrent_downloads(self, max_concurrent_downloads: usize) -> (r: Self)
        ensures
            r.files@ == self.files@,
            r.max_concurrent_downloads == max_concurrent_downloads,
            r.max_redirections == self.max_redirections,
    {
        Downloader { max_concurrent_downloads, ..self }
    }

    /// Sets how many redirects are followed.
    pub fn with_max_redirections(self, max_redirections: usize) -> (r: Self)
        ensures
            r.files@ == self.files@,
            r.max_concurrent_downloads == self.max_concurrent_downloads,
            r.max_redirections == max_redirections,
    {
        Downloader { max_redirections, ..self }
    }

    /// Sets the sink factory.
    pub fn with_indicator(self, indicator: T) -> (r: Self)
        ensures
            r.files@ == self.files@,
            r.max_concurrent_downloads == self.max_concurrent_downloads,
            r.max_redirections == self.max_redirections,
            r.indicator_factory == indicator,
    {
        Downloader { indicator_factory: indicator, ..self }
    }

    /// The sink factory.
    pub fn indicator_factory(&self) -> (r: &T)
        ensures
            *r == self.indicator_factory,
    {
        &self.indicator_factory
    }

    /// The redirect policy shared by every file.
    pub fn middleware(&self) -> (r: RedirectMiddleware)
        ensures
            r@ == self.max_redirections as nat,
    {
        RedirectMiddleware::new(self.max_redirections)
    }

    /// A batch with one waiting task per file, in order, each keyed by the
    /// file's content key.
    pub fn batch(&self) -> (r: Batch)
        ensures
            r.inv(),
            r@.max == self.max_concurrent_downloads,
            r@.keys.len() == self.files@.len(),
            forall|i: int| 0 <= i < self.files@.len() ==> #[trigger] r@.keys[i] == cas_key(self.files@[i]@),
            r@.slots =~= Seq::new(self.files@.len(), |i: int| Slot::Waiting),
    {
        let mut keys: Vec<Option<String>> = Vec::new();
        let mut i: usize = 0;
        while i < self.files.len()
            invariant
                0 <= i <= self.files@.len(),
                keys@.len() == i,
                forall|j: int| 0 <= j < i ==> #[trigger] cas_key(self.files@[j]@) == match keys@[j] {
                    Some(s) => Some(s@),
                    None => None::<Seq<char>>,
                },
            decreases self.files@.len() - i,
        {
            let k = self.files[i].cas_key();
            keys.push(k);
            i = i + 1;
        }
        Batch::new(keys, self.max_concurrent_downloads)
    }
}

} // verus!
