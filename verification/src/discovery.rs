//! Directory discovery: which entries of a walk are emitted, and how they are
//! grouped into batches.
//!
//! The walk itself is the caller's. It reports every entry with its kind,
//! and every error; what comes back is the batches to send downstream. Only
//! regular files are emitted, in the order in which they were found; errors
//! are skipped and the walk goes on.

use vstd::prelude::*;
use crate::pipeline::{sat_add, sat_count};

verus! {

/// The kinds of directory entry.
#[derive(Debug, Clone, Copy, PartialEq, Eq, Structural)]
pub enum EntryKind {
    File,
    Directory,
    Symlink,
    Other,
}

/// Whether an entry is emitted: it is where its kind is known to be a
/// regular file.
pub open spec fn emitted(kind: Option<EntryKind>) -> bool {
    kind == Some(EntryKind::File)
}

pub fn is_emitted(kind: Option<EntryKind>) -> (b: bool)
    ensures
        b == emitted(kind),
{
    match kind {
        Some(EntryKind::File) => true,
        _ => false,
    }
}

/// How a walk is set up.
#[derive(Debug, Clone, Copy, PartialEq, Eq, Structural)]
pub struct WalkSettings {
    /// Threads for the walk.
    pub threads: usize,
    pub follow_links: bool,
    /// How deep the walk goes below a root; `None` for no limit.
    pub max_depth: Option<usize>,
    /// Whether ignore files are honoured. Off unless asked for: by default
    /// everything under a root is warmed.
    pub apply_ignore_rules: bool,
    /// Whether hidden entries are left out.
    pub skip_hidden: bool,
}

/// The number of threads for the walk: what was asked for, else the number
/// of processors that were detected.
pub open spec fn threads_for(requested: Option<usize>, detected: usize) -> usize {
    match requested {
        Some(n) => n,
        None => detected,
    }
}

pub fn choose_threads(requested: Option<usize>, detected: usize) -> (threads: usize)
    ensures
        threads == threads_for(requested, detected),
{
    match requested {
        Some(n) => n,
        None => detected,
    }
}

/// The number of logical processors available to this process, from
/// `num_cpus::get`, which documents that it returns at least one.
#[verifier::external_body]
fn detected_cpus() -> (n: usize)
    ensures
        n >= 1,
{
    num_cpus::get()
}

/// The number of threads for the walk: what was asked for, else the number
/// of processors available to this process, which is looked up only then
/// and is at least one.
pub fn discovery_threads(requested: Option<usize>) -> (threads: usize)
    ensures
        requested matches Some(n) ==> threads == n,
        requested is None ==> threads >= 1,
{
    match requested {
        Some(n) => n,
        None => choose_threads(requested, detected_cpus()),
    }
}

/// The size of a full batch: the configured size, and one where that is zero.
pub open spec fn effective_batch_size(batch_size: usize) -> usize {
    if batch_size == 0 {
        1
    } else {
        batch_size
    }
}

/// The state of a discovery, as plain values.
pub struct DiscoveryState<T> {
    pub batch_size: usize,
    /// The files found and not yet sent on, oldest first.
    pub pending: Seq<T>,
    /// Files found so far, saturating.
    pub discovered: u64,
    /// Entries that the walk failed on and left out, saturating.
    pub errors: u64,
}

impl<T> DiscoveryState<T> {
    pub open spec fn start(batch_size: usize) -> DiscoveryState<T> {
        DiscoveryState { batch_size, pending: Seq::empty(), discovered: 0, errors: 0 }
    }

    pub open spec fn wf(self) -> bool {
        self.pending.len() < effective_batch_size(self.batch_size)
    }

    /// Whether the next file fills the batch.
    pub open spec fn fills(self) -> bool {
        self.pending.len() + 1 >= effective_batch_size(self.batch_size)
    }

    /// The batch that goes out when one more file is found, if any: the
    /// pending files and the new one, once they are a full batch.
    pub open spec fn batch_on(self, item: T) -> Option<Seq<T>> {
        if self.fills() {
            Some(self.pending.push(item))
        } else {
            None
        }
    }

    /// The state after one more file was found.
    pub open spec fn found(self, item: T) -> DiscoveryState<T> {
        DiscoveryState {
            pending: if self.fills() {
                Seq::empty()
            } else {
                self.pending.push(item)
            },
            discovered: sat_add(self.discovered, 1),
            ..self
        }
    }
}

impl<T> DiscoveryState<T> {
    /// The state after these files were found, in this order.
    pub open spec fn after(batch_size: usize, files: Seq<T>) -> DiscoveryState<T>
        decreases files.len(),
    {
        if files.len() == 0 {
            DiscoveryState::start(batch_size)
        } else {
            DiscoveryState::after(batch_size, files.drop_last()).found(files.last())
        }
    }

    /// The files that went out in batches while these files were found, one
    /// batch after the other.
    pub open spec fn sent(batch_size: usize, files: Seq<T>) -> Seq<T>
        decreases files.len(),
    {
        if files.len() == 0 {
            Seq::empty()
        } else {
            DiscoveryState::sent(batch_size, files.drop_last()) + (match DiscoveryState::after(
                batch_size,
                files.drop_last(),
            ).batch_on(files.last()) {
                Some(batch) => batch,
                None => Seq::empty(),
            })
        }
    }
}

/// Every file that is found is counted once and handed on once, in the
/// order in which it was found: what went out in batches, followed by what is
/// still pending, is what was found, and only full batches went out.
pub proof fn lemma_discovery_run<T>(batch_size: usize, files: Seq<T>)
    ensures
        DiscoveryState::after(batch_size, files).wf(),
        DiscoveryState::after(batch_size, files).batch_size == batch_size,
        DiscoveryState::after(batch_size, files).discovered == sat_count(files.len()),
        DiscoveryState::sent(batch_size, files) + DiscoveryState::after(batch_size, files).pending
            =~= files,
        (DiscoveryState::sent(batch_size, files).len() as int) % (effective_batch_size(batch_size) as int)
            == 0,
    decreases files.len(),
{
    if files.len() > 0 {
        let before: Seq<T> = files.drop_last();
        lemma_discovery_run(batch_size, before);
        let s: DiscoveryState<T> = DiscoveryState::after(batch_size, before);
        lemma_found_conserves(s, files.last());
        assert(before.push(files.last()) =~= files);
        let full: int = effective_batch_size(batch_size) as int;
        let n: int = DiscoveryState::sent(batch_size, before).len() as int;
        assert((n + full) % full == 0) by (nonlinear_arith)
            requires
                n % full == 0,
                full > 0,
        ;
        match s.batch_on(files.last()) {
            Some(batch) => {
                assert(DiscoveryState::sent(batch_size, files).len() == n + full);
            },
            None => {
                assert(DiscoveryState::sent(batch_size, files).len() == n);
            },
        }
    } else {
        assert(DiscoveryState::<T>::sent(batch_size, files).len() == 0);
    }
}

/// Groups the files of a walk into batches and counts them.
pub struct Discovery<T> {
    batch_size: usize,
    pending: Vec<T>,
    discovered: u64,
    errors: u64,
}

impl<T> View for Discovery<T> {
    type V = DiscoveryState<T>;

    closed spec fn view(&self) -> DiscoveryState<T> {
        DiscoveryState {
            batch_size: self.batch_size,
            pending: self.pending@,
            discovered: self.discovered,
            errors: self.errors,
        }
    }
}

impl<T> Discovery<T> {
    /// A discovery that sends files on in batches of `batch_size`. A size of
    /// zero sends each file on by itself.
    pub fn new(batch_size: usize) -> (discovery: Discovery<T>)
        ensures
            discovery@ == DiscoveryState::<T>::start(batch_size),
            discovery@.wf(),
    {
        Discovery { batch_size, pending: Vec::new(), discovered: 0, errors: 0 }
    }

    /// Files found so far.
    pub fn discovered(&self) -> (n: u64)
        ensures
            n == self@.discovered,
    {
        self.discovered
    }

    /// The number of files found and not yet sent on.
    pub fn pending_len(&self) -> (n: usize)
        ensures
            n == self@.pending.len(),
    {
        self.pending.len()
    }

    /// Takes in a regular file. Once that fills the batch, the batch comes
    /// back to be sent on, oldest file first.
    pub fn push(&mut self, item: T) -> (batch: Option<Vec<T>>)
        ensures
            final(self)@ == old(self)@.found(item),
            batch is Some <==> old(self)@.fills(),
            batch matches Some(b) ==> Some(b@) == old(self)@.batch_on(item),
            old(self)@.wf() ==> final(self)@.wf(),
    {
        let full: usize = if self.batch_size == 0 {
            1
        } else {
            self.batch_size
        };
        self.discovered = self.discovered.saturating_add(1);
        if self.pending.len() >= full - 1 {
            let mut batch: Vec<T> = Vec::new();
            std::mem::swap(&mut self.pending, &mut batch);
            batch.push(item);
            Some(batch)
        } else {
            self.pending.push(item);
            None
        }
    }

    /// Takes in an entry of the walk, with its kind where that is known.
    /// Anything but a regular file is dropped.
    pub fn on_entry(&mut self, item: T, kind: Option<EntryKind>) -> (batch: Option<Vec<T>>)
        ensures
            emitted(kind) ==> final(self)@ == old(self)@.found(item),
            emitted(kind) ==> (batch is Some <==> old(self)@.fills()),
            emitted(kind) ==> (batch matches Some(b) ==> Some(b@) == old(self)@.batch_on(item)),
            !emitted(kind) ==> final(self)@ == old(self)@ && batch is None,
            old(self)@.wf() ==> final(self)@.wf(),
    {
        if is_emitted(kind) {
            self.push(item)
        } else {
            None
        }
    }

    /// Takes in an error of the walk: the entry is left out, the walk goes
    /// on, and nothing that was found is lost.
    pub fn on_error(&mut self)
        ensures
            final(self)@ == (DiscoveryState {
                errors: sat_add(old(self)@.errors, 1),
                ..old(self)@
            }),
    {
        self.errors = self.errors.saturating_add(1);
    }

    /// Entries that the walk failed on so far.
    pub fn errors(&self) -> (n: u64)
        ensures
            n == self@.errors,
    {
        self.errors
    }

    /// Ends the discovery: the files not yet sent on come back as a last
    /// batch, if there are any.
    pub fn finish(&mut self) -> (batch: Option<Vec<T>>)
        ensures
            final(self)@ == (DiscoveryState { pending: Seq::empty(), ..old(self)@ }),
            batch is Some <==> old(self)@.pending.len() > 0,
            batch matches Some(b) ==> b@ == old(self)@.pending,
            final(self)@.wf(),
    {
        if self.pending.len() == 0 {
            assert(self.pending@ =~= Seq::empty());
            None
        } else {
            let mut batch: Vec<T> = Vec::new();
            std::mem::swap(&mut self.pending, &mut batch);
            Some(batch)
        }
    }
}

/// Finding a file loses none and invents none: the files that were pending,
/// followed by the new one, are the batch that goes out, if one does,
/// followed by the files that are pending afterwards. So the batches, one
/// after the other, are the files in the order in which they were found.
pub proof fn lemma_found_conserves<T>(s: DiscoveryState<T>, item: T)
    requires
        s.wf(),
    ensures
        s.found(item).wf(),
        s.pending.push(item) =~= (match s.batch_on(item) {
            Some(b) => b,
            None => Seq::empty(),
        }) + s.found(item).pending,
        s.batch_on(item) matches Some(b) ==> b.len() == effective_batch_size(s.batch_size),
{
}

} // verus!
